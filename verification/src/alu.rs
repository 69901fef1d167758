//! The arithmetic/logic unit: 8-bit operations on the accumulator, the
//! rotate/shift family, DAA, and the SP+offset flag rules.
//!
//! Every operation has a specification-level model; the executable
//! functions are proved to match it, and the flag laws are stated over the
//! models.

use vstd::prelude::*;
use crate::cpu::{Cpu, Flags, Registers, wrap8};

verus! {

/// The eight accumulator operations encoded in the 0x80..=0xBF opcode block
/// and their immediate forms.
#[derive(Debug, Clone, Copy, PartialEq, Eq, Structural)]
pub enum AluOp {
    Add,
    Adc,
    Sub,
    Sbc,
    And,
    Xor,
    Or,
    Cp,
}

/// Result of ADD A,v.
pub open spec fn spec_add_r(a: u8, v: u8) -> int {
    wrap8(a + v)
}

/// Flags of ADD A,v: Z from the wrapped result, H from the low nibbles,
/// C from the unsigned carry out.
pub open spec fn spec_add_f(a: u8, v: u8) -> Flags {
    Flags {
        z: wrap8(a + v) == 0,
        n: false,
        h: (a & 0x0F) + (v & 0x0F) > 0x0F,
        c: a + v > 0xFF,
    }
}

/// Result of ADC A,v: the prior carry joins the sum.
pub open spec fn spec_adc_r(a: u8, v: u8, cin: bool) -> int {
    wrap8(a + v + (if cin { 1int } else { 0int }))
}

/// Flags of ADC A,v: the prior carry enters both the half-carry and the
/// carry computation.
pub open spec fn spec_adc_f(a: u8, v: u8, cin: bool) -> Flags {
    let ci = if cin { 1int } else { 0int };
    Flags {
        z: wrap8(a + v + ci) == 0,
        n: false,
        h: (a & 0x0F) + (v & 0x0F) + ci > 0x0F,
        c: a + v + ci > 0xFF,
    }
}

/// Result of SUB A,v.
pub open spec fn spec_sub_r(a: u8, v: u8) -> int {
    wrap8(a - v)
}

/// Flags of SUB A,v: H from a low-nibble borrow, C from a full borrow.
pub open spec fn spec_sub_f(a: u8, v: u8) -> Flags {
    Flags { z: a == v, n: true, h: (a & 0x0F) < (v & 0x0F), c: a < v }
}

/// Result of SBC A,v.
pub open spec fn spec_sbc_r(a: u8, v: u8, cin: bool) -> int {
    wrap8(a - v - (if cin { 1int } else { 0int }))
}

/// Flags of SBC A,v.
pub open spec fn spec_sbc_f(a: u8, v: u8, cin: bool) -> Flags {
    let ci = if cin { 1int } else { 0int };
    Flags {
        z: wrap8(a - v - ci) == 0,
        n: true,
        h: (a & 0x0F) < (v & 0x0F) + ci,
        c: a < v + ci,
    }
}

/// Result of AND A,v.
pub open spec fn spec_and_r(a: u8, v: u8) -> u8 {
    a & v
}

/// Flags of AND A,v: H is always set.
pub open spec fn spec_and_f(a: u8, v: u8) -> Flags {
    Flags { z: a & v == 0, n: false, h: true, c: false }
}

/// Result of XOR A,v.
pub open spec fn spec_xor_r(a: u8, v: u8) -> u8 {
    a ^ v
}

/// Flags of XOR A,v.
pub open spec fn spec_xor_f(a: u8, v: u8) -> Flags {
    Flags { z: a ^ v == 0, n: false, h: false, c: false }
}

/// Result of OR A,v.
pub open spec fn spec_or_r(a: u8, v: u8) -> u8 {
    a | v
}

/// Flags of OR A,v.
pub open spec fn spec_or_f(a: u8, v: u8) -> Flags {
    Flags { z: a | v == 0, n: false, h: false, c: false }
}

/// Flags of CP A,v: SUB's flags with the result discarded.
pub open spec fn spec_cp_f(a: u8, v: u8) -> Flags {
    spec_sub_f(a, v)
}

/// The accumulator after one of the eight operations (CP leaves it alone).
pub open spec fn spec_alu_r(kind: AluOp, a: u8, v: u8, cin: bool) -> int {
    match kind {
        AluOp::Add => spec_add_r(a, v),
        AluOp::Adc => spec_adc_r(a, v, cin),
        AluOp::Sub => spec_sub_r(a, v),
        AluOp::Sbc => spec_sbc_r(a, v, cin),
        AluOp::And => spec_and_r(a, v) as int,
        AluOp::Xor => spec_xor_r(a, v) as int,
        AluOp::Or => spec_or_r(a, v) as int,
        AluOp::Cp => a as int,
    }
}

/// The flags after one of the eight operations.
pub open spec fn spec_alu_f(kind: AluOp, a: u8, v: u8, cin: bool) -> Flags {
    match kind {
        AluOp::Add => spec_add_f(a, v),
        AluOp::Adc => spec_adc_f(a, v, cin),
        AluOp::Sub => spec_sub_f(a, v),
        AluOp::Sbc => spec_sbc_f(a, v, cin),
        AluOp::And => spec_and_f(a, v),
        AluOp::Xor => spec_xor_f(a, v),
        AluOp::Or => spec_or_f(a, v),
        AluOp::Cp => spec_cp_f(a, v),
    }
}

/// `state` with only the accumulator replaced.
pub open spec fn with_a(state: Cpu, a: u8) -> Cpu {
    Cpu { registers: Registers { a: a, ..state.registers }, ..state }
}

/// ADD A,v: adds into the accumulator and returns the flags for the caller
/// to install.
pub fn add(state: &mut Cpu, val: u8) -> (r: Flags)
    ensures
        *final(state) == with_a(*old(state), (spec_add_r(old(state).registers.a, val)) as u8),
        r == spec_add_f(old(state).registers.a, val),
{
    let prev = state.registers.a;
    state.registers.a = prev.wrapping_add(val);
    let h: bool = (prev & 0x0F) as u16 + (val & 0x0F) as u16 > 0x0F;
    let carry: bool = prev as u16 + val as u16 > 0xFF;
    Flags { z: state.registers.a == 0, n: false, h: h, c: carry }
}

/// ADC A,v: adds value and prior carry into the accumulator.
pub fn adc(state: &mut Cpu, val: u8) -> (r: Flags)
    ensures
        *final(state) == with_a(
            *old(state),
            (spec_adc_r(old(state).registers.a, val, old(state).flags.c)) as u8,
        ),
        r == spec_adc_f(old(state).registers.a, val, old(state).flags.c),
{
    let prev = state.registers.a;
    let cin = crate::cpu::flag_to_u8(state.flags.c);
    state.registers.a = prev.wrapping_add(val).wrapping_add(cin);
    let h: bool = (prev & 0x0F) as u16 + (val & 0x0F) as u16 + cin as u16 > 0x0F;
    let carry: bool = prev as u16 + val as u16 + cin as u16 > 0xFF;
    Flags { z: state.registers.a == 0, n: false, h: h, c: carry }
}

/// SUB A,v: subtracts from the accumulator.
pub fn sub(state: &mut Cpu, val: u8) -> (r: Flags)
    ensures
        *final(state) == with_a(*old(state), (spec_sub_r(old(state).registers.a, val)) as u8),
        r == spec_sub_f(old(state).registers.a, val),
{
    let prev = state.registers.a;
    state.registers.a = prev.wrapping_sub(val);
    Flags {
        z: state.registers.a == 0,
        n: true,
        h: (prev & 0x0F) < (val & 0x0F),
        c: prev < val,
    }
}

/// SBC A,v: subtracts value and prior carry from the accumulator.
pub fn sbc(state: &mut Cpu, val: u8) -> (r: Flags)
    ensures
        *final(state) == with_a(
            *old(state),
            (spec_sbc_r(old(state).registers.a, val, old(state).flags.c)) as u8,
        ),
        r == spec_sbc_f(old(state).registers.a, val, old(state).flags.c),
{
    let prev = state.registers.a;
    let cin = crate::cpu::flag_to_u8(state.flags.c);
    state.registers.a = prev.wrapping_sub(val).wrapping_sub(cin);
    let h: bool = ((prev & 0x0F) as u16) < ((val & 0x0F) as u16 + cin as u16);
    let carry: bool = (prev as u16) < (val as u16 + cin as u16);
    Flags { z: state.registers.a == 0, n: true, h: h, c: carry }
}

/// AND A,v.
pub fn and_(state: &mut Cpu, val: u8) -> (r: Flags)
    ensures
        *final(state) == with_a(*old(state), spec_and_r(old(state).registers.a, val)),
        r == spec_and_f(old(state).registers.a, val),
{
    state.registers.a = state.registers.a & val;
    Flags { z: state.registers.a == 0, n: false, h: true, c: false }
}

/// XOR A,v.
pub fn xor_(state: &mut Cpu, val: u8) -> (r: Flags)
    ensures
        *final(state) == with_a(*old(state), spec_xor_r(old(state).registers.a, val)),
        r == spec_xor_f(old(state).registers.a, val),
{
    state.registers.a = state.registers.a ^ val;
    Flags { z: state.registers.a == 0, n: false, h: false, c: false }
}

/// OR A,v.
pub fn or_(state: &mut Cpu, val: u8) -> (r: Flags)
    ensures
        *final(state) == with_a(*old(state), spec_or_r(old(state).registers.a, val)),
        r == spec_or_f(old(state).registers.a, val),
{
    state.registers.a = state.registers.a | val;
    Flags { z: state.registers.a == 0, n: false, h: false, c: false }
}

/// CP A,v: the flags of SUB with the accumulator untouched.
pub fn cp(state: &mut Cpu, val: u8) -> (r: Flags)
    ensures
        *final(state) == *old(state),
        r == spec_cp_f(old(state).registers.a, val),
{
    Flags {
        z: state.registers.a == val,
        n: true,
        h: (state.registers.a & 0x0F) < (val & 0x0F),
        c: state.registers.a < val,
    }
}

/// Dispatches one of the eight accumulator operations.
pub fn alu_apply(state: &mut Cpu, kind: AluOp, val: u8) -> (r: Flags)
    ensures
        *final(state) == with_a(
            *old(state),
            (spec_alu_r(kind, old(state).registers.a, val, old(state).flags.c)) as u8,
        ),
        r == spec_alu_f(kind, old(state).registers.a, val, old(state).flags.c),
{
    match kind {
        AluOp::Add => crate::alu::add(state, val),
        AluOp::Adc => adc(state, val),
        AluOp::Sub => crate::alu::sub(state, val),
        AluOp::Sbc => sbc(state, val),
        AluOp::And => and_(state, val),
        AluOp::Xor => xor_(state, val),
        AluOp::Or => or_(state, val),
        AluOp::Cp => cp(state, val),
    }
}

/// Result of a left rotate: through the carry flag when asked, else the
/// top bit wraps to the bottom.
pub open spec fn spec_rot_left_r(v: u8, through: bool, cin: bool) -> u8 {
    if through {
        v << 1 | (if cin { 1u8 } else { 0u8 })
    } else {
        v << 1 | v >> 7
    }
}

/// Result of a right rotate.
pub open spec fn spec_rot_right_r(v: u8, through: bool, cin: bool) -> u8 {
    if through {
        (if cin { 0x80u8 } else { 0u8 }) | v >> 1
    } else {
        (v & 1) << 7 | v >> 1
    }
}

/// Rotates left, loading C from the outgoing bit 7.  Z, N, H are the
/// caller's business: the A-register forms clear them, the CB forms set Z.
pub fn rotate_left(state: &mut Cpu, through_carry_flag: bool, val: u8) -> (r: u8)
    ensures
        r == spec_rot_left_r(val, through_carry_flag, old(state).flags.c),
        *final(state) == (Cpu {
            flags: Flags { c: val >> 7 == 1, ..old(state).flags },
            ..*old(state)
        }),
{
    let b7 = val >> 7;
    let result = if through_carry_flag {
        val << 1 | (if state.flags.c { 1u8 } else { 0u8 })
    } else {
        val << 1 | b7
    };
    state.flags.c = b7 == 1;
    result
}

/// Rotates right, loading C from the outgoing bit 0.
pub fn rotate_right(state: &mut Cpu, through_carry_flag: bool, val: u8) -> (r: u8)
    ensures
        r == spec_rot_right_r(val, through_carry_flag, old(state).flags.c),
        *final(state) == (Cpu {
            flags: Flags { c: val & 1 == 1, ..old(state).flags },
            ..*old(state)
        }),
{
    let b0 = val & 1u8;
    let result = if through_carry_flag {
        (if state.flags.c { 0x80u8 } else { 0u8 }) | val >> 1
    } else {
        b0 << 7 | val >> 1
    };
    state.flags.c = b0 == 1;
    result
}

/// SLA: shift left, bit 7 to carry.
pub fn sla_r8(state: &mut Cpu, val: u8) -> (r: u8)
    ensures
        r == val << 1,
        final(state).flags == (Flags {
            z: val << 1 == 0,
            n: false,
            h: false,
            c: val & 0x80 == 0x80,
        }),
        *final(state) == (Cpu { flags: final(state).flags, ..*old(state) }),
{
    let new_val = val << 1;
    state.flags.z = new_val == 0;
    state.flags.n = false;
    state.flags.h = false;
    state.flags.c = val & 0x80 == 0x80;
    new_val
}

/// SRA: arithmetic shift right, bit 7 kept, bit 0 to carry.
pub fn sra_r8(state: &mut Cpu, val: u8) -> (r: u8)
    ensures
        r == (val & 0x80) | val >> 1,
        final(state).flags == (Flags {
            z: (val & 0x80) | val >> 1 == 0,
            n: false,
            h: false,
            c: val & 1 == 1,
        }),
        *final(state) == (Cpu { flags: final(state).flags, ..*old(state) }),
{
    let new_val = (val & 0x80) | val >> 1;
    state.flags.z = new_val == 0;
    state.flags.n = false;
    state.flags.h = false;
    state.flags.c = val & 0x01 == 0x01;
    new_val
}

/// SWAP: exchanges the nibbles.
pub fn swap_r8(state: &mut Cpu, val: u8) -> (r: u8)
    ensures
        r == (val & 0x0F) << 4 | (val & 0xF0) >> 4,
        final(state).flags == (Flags {
            z: (val & 0x0F) << 4 | (val & 0xF0) >> 4 == 0,
            n: false,
            h: false,
            c: false,
        }),
        *final(state) == (Cpu { flags: final(state).flags, ..*old(state) }),
{
    let new_val = (val & 0x0F) << 4 | (val & 0xF0) >> 4;
    state.flags.z = new_val == 0;
    state.flags.n = false;
    state.flags.h = false;
    state.flags.c = false;
    new_val
}

/// SRL: logical shift right, bit 0 to carry.
pub fn srl_r8(state: &mut Cpu, val: u8) -> (r: u8)
    ensures
        r == val >> 1,
        final(state).flags == (Flags {
            z: val >> 1 == 0,
            n: false,
            h: false,
            c: val & 1 == 1,
        }),
        *final(state) == (Cpu { flags: final(state).flags, ..*old(state) }),
{
    let new_val = val >> 1;
    state.flags.z = new_val == 0;
    state.flags.n = false;
    state.flags.h = false;
    state.flags.c = val & 0x01 == 0x01;
    new_val
}

/// The accumulator after DAA, which repairs a BCD result after an ADD or
/// SUB family operation.
pub open spec fn spec_daa_r(a: u8, f: Flags) -> int {
    if !f.n {
        let a1 = if f.c || a > 0x99 {
            wrap8(a + 0x60)
        } else {
            a as int
        };
        if f.h || (a1 as u8) & 0x0F > 0x09 {
            wrap8(a1 + 0x06)
        } else {
            a1
        }
    } else {
        let a1 = if f.c {
            wrap8(a - 0x60)
        } else {
            a as int
        };
        if f.h {
            wrap8(a1 - 0x06)
        } else {
            a1
        }
    }
}

/// The flags after DAA: C latches for the additive 0x60 adjustment, Z from
/// the final accumulator, H always cleared.
pub open spec fn spec_daa_f(a: u8, f: Flags) -> Flags {
    Flags {
        z: spec_daa_r(a, f) == 0,
        n: f.n,
        h: false,
        c: f.c || (!f.n && a > 0x99),
    }
}

/// The half-carry flag of ADD SP,e8 and LD HL,SP+e8: the low nibbles of
/// SP and of the offset byte, treated as unsigned, carry past 0x0F.
pub open spec fn spec_sp_h(prev: u16, imm: u8) -> bool {
    (prev & 0x0F) + (imm as u16 & 0x0F) > 0x0F
}

/// The carry flag of ADD SP,e8 and LD HL,SP+e8: the low bytes of SP and
/// of the offset byte, treated as unsigned, carry past 0xFF.
pub open spec fn spec_sp_c(prev: u16, imm: u8) -> bool {
    (prev & 0xFF) + (imm as u16 & 0xFF) > 0xFF
}

/// The offset byte of a relative jump or SP adjustment read as a signed
/// value.
pub open spec fn signed8(v: u8) -> int {
    if v < 0x80 {
        v as int
    } else {
        v - 0x100
    }
}

/// H and C for the SP+e8 family.
pub fn sp_offset_flags(prev: u16, imm: u8) -> (r: (bool, bool))
    ensures
        r.0 == spec_sp_h(prev, imm),
        r.1 == spec_sp_c(prev, imm),
{
    proof {
        crate::bits::lemma_low_masks(prev);
        crate::bits::lemma_low_masks(imm as u16);
    }
    let h: bool = (prev & 0x0F) + (imm as u16 & 0x0F) > 0x0F;
    let c: bool = (prev & 0xFF) + (imm as u16 & 0xFF) > 0xFF;
    (h, c)
}

/// Adds the signed offset byte to a 16-bit value, wrapping.
pub fn add_signed16(prev: u16, imm: u8) -> (r: u16)
    ensures
        r == crate::cpu::wrap16(prev + signed8(imm)),
{
    if imm < 0x80 {
        prev.wrapping_add(imm as u16)
    } else {
        prev.wrapping_sub(0x100 - imm as u16)
    }
}

} // verus!
