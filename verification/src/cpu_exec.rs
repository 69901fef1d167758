//! Instruction decode and execution: operand families, the opcode
//! helpers, the prefixed page, and interrupt dispatch.
//!
//! The decoder works by bit pattern.  Every helper carries an exact
//! contract over the register file, the flags, and the memory effect; the
//! cycle counts all flow from one specification-level timing table, so a
//! single source of truth covers both the dispatcher and the tests.

use vstd::prelude::*;
use crate::alu::{AluOp, alu_apply, spec_alu_f, spec_alu_r};
use crate::cpu::{Cpu, Flags, Registers, pair16, wrap8, wrap16, spec_f_register, spec_flags_of};
use crate::interrupts::{Interrupt, spec_int_bit, spec_int_vector};
use crate::mmu::{Mmu, spec_read, spec_store, spec_store2, spec_store3};

verus! {

/// The 8-bit operand family encoded in the low three bits of an opcode.
#[derive(Debug, Clone, Copy, PartialEq, Eq, Structural)]
pub enum R8 {
    B,
    C,
    D,
    E,
    H,
    L,
    HLMem,
    A,
}

/// The 16-bit register family.
#[derive(Debug, Clone, Copy, PartialEq, Eq, Structural)]
pub enum R16 {
    BC,
    DE,
    HL,
    SP,
}

/// The 16-bit memory-operand family: BC, DE, HL with post-increment, HL
/// with post-decrement.
#[derive(Debug, Clone, Copy, PartialEq, Eq, Structural)]
pub enum R16Mem {
    BC,
    DE,
    HLI,
    HLD,
}

/// The four condition codes of the conditional jumps, calls and returns.
#[derive(Debug, Clone, Copy, PartialEq, Eq, Structural)]
pub enum Cond {
    NZ,
    Z,
    NC,
    C,
}

/// The 16-bit family used by PUSH and POP.
#[derive(Debug, Clone, Copy, PartialEq, Eq, Structural)]
pub enum R16Stk {
    BC,
    DE,
    HL,
    AF,
}

/// The operand family of a 3-bit code.
pub open spec fn spec_r8(code: u8) -> R8 {
    if code == 0 {
        R8::B
    } else if code == 1 {
        R8::C
    } else if code == 2 {
        R8::D
    } else if code == 3 {
        R8::E
    } else if code == 4 {
        R8::H
    } else if code == 5 {
        R8::L
    } else if code == 6 {
        R8::HLMem
    } else {
        R8::A
    }
}

/// Decodes a 3-bit operand code.
pub fn r8(code: u8) -> (r: R8)
    requires
        code < 8,
    ensures
        r == spec_r8(code),
{
    match code {
        0 => R8::B,
        1 => R8::C,
        2 => R8::D,
        3 => R8::E,
        4 => R8::H,
        5 => R8::L,
        6 => R8::HLMem,
        _ => R8::A,
    }
}

/// The 16-bit family of a 2-bit code.
pub open spec fn spec_r16(code: u8) -> R16 {
    if code == 0 {
        R16::BC
    } else if code == 1 {
        R16::DE
    } else if code == 2 {
        R16::HL
    } else {
        R16::SP
    }
}

/// Decodes a 2-bit 16-bit-register code.
pub fn r16(opcode: u8) -> (r: R16)
    requires
        opcode < 4,
    ensures
        r == spec_r16(opcode),
{
    match opcode {
        0 => R16::BC,
        1 => R16::DE,
        2 => R16::HL,
        _ => R16::SP,
    }
}

/// The memory-operand family of a 2-bit code.
pub open spec fn spec_r16_mem(code: u8) -> R16Mem {
    if code == 0 {
        R16Mem::BC
    } else if code == 1 {
        R16Mem::DE
    } else if code == 2 {
        R16Mem::HLI
    } else {
        R16Mem::HLD
    }
}

/// Decodes a 2-bit memory-operand code.
pub fn r16_mem(x: u8) -> (r: R16Mem)
    requires
        x < 4,
    ensures
        r == spec_r16_mem(x),
{
    match x {
        0 => R16Mem::BC,
        1 => R16Mem::DE,
        2 => R16Mem::HLI,
        _ => R16Mem::HLD,
    }
}

/// The condition of a 2-bit code.
pub open spec fn spec_cond(code: u8) -> Cond {
    if code == 0 {
        Cond::NZ
    } else if code == 1 {
        Cond::Z
    } else if code == 2 {
        Cond::NC
    } else {
        Cond::C
    }
}

/// Decodes a 2-bit condition code.
pub fn cond(code: u8) -> (r: Cond)
    requires
        code < 4,
    ensures
        r == spec_cond(code),
{
    match code {
        0 => Cond::NZ,
        1 => Cond::Z,
        2 => Cond::NC,
        _ => Cond::C,
    }
}

/// The stack family of a 2-bit code.
pub open spec fn spec_r16stk(code: u8) -> R16Stk {
    if code == 0 {
        R16Stk::BC
    } else if code == 1 {
        R16Stk::DE
    } else if code == 2 {
        R16Stk::HL
    } else {
        R16Stk::AF
    }
}

/// Decodes a 2-bit stack-family code.
pub fn r16stk(code: u8) -> (r: R16Stk)
    requires
        code < 4,
    ensures
        r == spec_r16stk(code),
{
    match code {
        0 => R16Stk::BC,
        1 => R16Stk::DE,
        2 => R16Stk::HL,
        _ => R16Stk::AF,
    }
}

/// Whether a condition holds of the flag state.
pub open spec fn spec_cond_holds(c: Cond, f: Flags) -> bool {
    match c {
        Cond::NZ => !f.z,
        Cond::Z => f.z,
        Cond::NC => !f.c,
        Cond::C => f.c,
    }
}

/// Whether the condition encoded in bits 4-3 of the opcode holds.
pub open spec fn spec_cond_taken(op: u8, f: Flags) -> bool {
    spec_cond_holds(spec_cond((op & 0x18) >> 3), f)
}

/// The program counter, stack pointer, latches and cycle counter of the
/// processor are untouched.
pub open spec fn spec_flow_frame(a: Cpu, b: Cpu) -> bool {
    &&& b.pc == a.pc
    &&& b.sp == a.sp
    &&& b.ime == a.ime
    &&& b.ime_delay == a.ime_delay
    &&& b.halted == a.halted
    &&& b.stopped == a.stopped
    &&& b.clock_cycles == a.clock_cycles
}

/// The value of an 8-bit operand: a register, or the byte at [HL].
pub open spec fn spec_get_r8(c: Cpu, m: &Mmu, r: R8) -> u8 {
    match r {
        R8::B => c.registers.b,
        R8::C => c.registers.c,
        R8::D => c.registers.d,
        R8::E => c.registers.e,
        R8::H => c.registers.h,
        R8::L => c.registers.l,
        R8::HLMem => spec_read(m, pair16(c.registers.h, c.registers.l)),
        R8::A => c.registers.a,
    }
}

/// The register file with one plain 8-bit operand replaced ([HL] writes go
/// to memory instead and leave the file alone).
pub open spec fn spec_set_r8_regs(regs: Registers, r: R8, v: u8) -> Registers {
    match r {
        R8::B => Registers { b: v, ..regs },
        R8::C => Registers { c: v, ..regs },
        R8::D => Registers { d: v, ..regs },
        R8::E => Registers { e: v, ..regs },
        R8::H => Registers { h: v, ..regs },
        R8::L => Registers { l: v, ..regs },
        R8::HLMem => regs,
        R8::A => Registers { a: v, ..regs },
    }
}

/// Reads an 8-bit operand: a register, or the byte behind [HL].
pub fn get_register_value(state: &mut Cpu, mem: &Mmu, register: R8) -> (r: u8)
    requires
        mem.wf(),
    ensures
        r == spec_get_r8(*old(state), mem, register),
        final(state).registers == old(state).registers,
        final(state).flags == old(state).flags,
        spec_flow_frame(*old(state), *final(state)),
{
    match register {
        R8::B => state.registers.b,
        R8::C => state.registers.c,
        R8::D => state.registers.d,
        R8::E => state.registers.e,
        R8::H => state.registers.h,
        R8::L => state.registers.l,
        R8::HLMem => mem.get(state.registers.get_hl() as usize),
        R8::A => state.registers.a,
    }
}

/// Writes an 8-bit operand: into the register file, or through the memory
/// unit at [HL].
pub fn set_register_value(state: &mut Cpu, mem: &mut Mmu, register: R8, value: u8) -> (r: ())
    requires
        old(mem).wf(),
    ensures
        final(mem).wf(),
        final(state).registers == spec_set_r8_regs(old(state).registers, register, value),
        final(state).flags == old(state).flags,
        spec_flow_frame(*old(state), *final(state)),
        register == R8::HLMem ==> spec_store(
            old(mem),
            final(mem),
            (pair16(old(state).registers.h, old(state).registers.l)) as u16,
            value,
        ),
        register != R8::HLMem ==> *final(mem) == *old(mem),
{
    match register {
        R8::B => state.registers.b = value,
        R8::C => state.registers.c = value,
        R8::D => state.registers.d = value,
        R8::E => state.registers.e = value,
        R8::H => state.registers.h = value,
        R8::L => state.registers.l = value,
        R8::HLMem => {
            let addr = state.registers.get_hl();
            mem.set(addr, value);
        },
        R8::A => state.registers.a = value,
    }
}

/// Loads a 16-bit immediate into a register pair or SP.
pub fn ld_r16(pair: R16, cpu: &mut Cpu, val: u16)
    ensures
        final(cpu).flags == old(cpu).flags,
        final(cpu).pc == old(cpu).pc,
        final(cpu).ime == old(cpu).ime,
        final(cpu).ime_delay == old(cpu).ime_delay,
        final(cpu).halted == old(cpu).halted,
        final(cpu).stopped == old(cpu).stopped,
        final(cpu).clock_cycles == old(cpu).clock_cycles,
        match pair {
            R16::BC => pair16(final(cpu).registers.b, final(cpu).registers.c) == val && final(cpu).registers.d == old(cpu).registers.d && final(cpu).registers.e == old(cpu).registers.e && final(cpu).registers.h == old(cpu).registers.h && final(cpu).registers.l == old(cpu).registers.l && final(cpu).registers.a == old(cpu).registers.a && final(cpu).sp == old(cpu).sp,
            R16::DE => pair16(final(cpu).registers.d, final(cpu).registers.e) == val && final(cpu).registers.b == old(cpu).registers.b && final(cpu).registers.c == old(cpu).registers.c && final(cpu).registers.h == old(cpu).registers.h && final(cpu).registers.l == old(cpu).registers.l && final(cpu).registers.a == old(cpu).registers.a && final(cpu).sp == old(cpu).sp,
            R16::HL => pair16(final(cpu).registers.h, final(cpu).registers.l) == val && final(cpu).registers.b == old(cpu).registers.b && final(cpu).registers.c == old(cpu).registers.c && final(cpu).registers.d == old(cpu).registers.d && final(cpu).registers.e == old(cpu).registers.e && final(cpu).registers.a == old(cpu).registers.a && final(cpu).sp == old(cpu).sp,
            R16::SP => final(cpu).sp == val && final(cpu).registers == old(cpu).registers,
        },
{
    match pair {
        R16::BC => cpu.registers.set_bc(val),
        R16::DE => cpu.registers.set_de(val),
        R16::HL => cpu.registers.set_hl(val),
        R16::SP => {
            cpu.sp = val as usize;
        },
    }
}

/// The address named by a memory-operand family.
pub open spec fn spec_r16_mem_addr(c: Cpu, pair: R16Mem) -> int {
    match pair {
        R16Mem::BC => pair16(c.registers.b, c.registers.c),
        R16Mem::DE => pair16(c.registers.d, c.registers.e),
        R16Mem::HLI => pair16(c.registers.h, c.registers.l),
        R16Mem::HLD => pair16(c.registers.h, c.registers.l),
    }
}

/// Stores the accumulator at [r16mem], stepping HL for the HL+ and HL-
/// forms.
pub fn ld_r16_mem_a(pair: R16Mem, cpu: &mut Cpu, mem: &mut Mmu)
    requires
        old(mem).wf(),
    ensures
        final(mem).wf(),
        spec_store(
            old(mem),
            final(mem),
            (spec_r16_mem_addr(*old(cpu), pair)) as u16,
            old(cpu).registers.a,
        ),
        final(cpu).flags == old(cpu).flags,
        final(cpu).clock_cycles == old(cpu).clock_cycles,
        spec_flow_frame(*old(cpu), *final(cpu)),
        match pair {
            R16Mem::BC => final(cpu).registers == old(cpu).registers,
            R16Mem::DE => final(cpu).registers == old(cpu).registers,
            R16Mem::HLI => pair16(final(cpu).registers.h, final(cpu).registers.l) == wrap16(
                pair16(old(cpu).registers.h, old(cpu).registers.l) + 1,
            ) && final(cpu).registers == (Registers {
                h: final(cpu).registers.h,
                l: final(cpu).registers.l,
                ..old(cpu).registers
            }),
            R16Mem::HLD => pair16(final(cpu).registers.h, final(cpu).registers.l) == wrap16(
                pair16(old(cpu).registers.h, old(cpu).registers.l) - 1,
            ) && final(cpu).registers == (Registers {
                h: final(cpu).registers.h,
                l: final(cpu).registers.l,
                ..old(cpu).registers
            }),
        },
{
    match pair {
        R16Mem::BC => {
            let addr = cpu.registers.get_bc();
            mem.set(addr, cpu.registers.a);
        },
        R16Mem::DE => {
            let addr = cpu.registers.get_de();
            mem.set(addr, cpu.registers.a);
        },
        R16Mem::HLD => {
            let addr = cpu.registers.get_hl();
            mem.set(addr, cpu.registers.a);
            cpu.registers.dec_hl();
        },
        R16Mem::HLI => {
            let addr = cpu.registers.get_hl();
            mem.set(addr, cpu.registers.a);
            cpu.registers.inc_hl();
        },
    }
}

/// Loads the accumulator from [r16mem], stepping HL for the HL+ and HL-
/// forms.
pub fn ld_a_r16_mem(pair: R16Mem, cpu: &mut Cpu, mem: &mut Mmu)
    requires
        old(mem).wf(),
    ensures
        *final(mem) == *old(mem),
        final(cpu).registers.a == spec_read(old(mem), spec_r16_mem_addr(*old(cpu), pair)),
        final(cpu).flags == old(cpu).flags,
        final(cpu).clock_cycles == old(cpu).clock_cycles,
        spec_flow_frame(*old(cpu), *final(cpu)),
        match pair {
            R16Mem::BC => final(cpu).registers == (Registers {
                a: final(cpu).registers.a,
                ..old(cpu).registers
            }),
            R16Mem::DE => final(cpu).registers == (Registers {
                a: final(cpu).registers.a,
                ..old(cpu).registers
            }),
            R16Mem::HLI => pair16(final(cpu).registers.h, final(cpu).registers.l) == wrap16(
                pair16(old(cpu).registers.h, old(cpu).registers.l) + 1,
            ) && final(cpu).registers == (Registers {
                a: final(cpu).registers.a,
                h: final(cpu).registers.h,
                l: final(cpu).registers.l,
                ..old(cpu).registers
            }),
            R16Mem::HLD => pair16(final(cpu).registers.h, final(cpu).registers.l) == wrap16(
                pair16(old(cpu).registers.h, old(cpu).registers.l) - 1,
            ) && final(cpu).registers == (Registers {
                a: final(cpu).registers.a,
                h: final(cpu).registers.h,
                l: final(cpu).registers.l,
                ..old(cpu).registers
            }),
        },
{
    match pair {
        R16Mem::BC => {
            let addr = cpu.registers.get_bc();
            cpu.registers.a = mem.get(addr as usize);
        },
        R16Mem::DE => {
            let addr = cpu.registers.get_de();
            cpu.registers.a = mem.get(addr as usize);
        },
        R16Mem::HLD => {
            let addr = cpu.registers.get_hl();
            cpu.registers.a = mem.get(addr as usize);
            cpu.registers.dec_hl();
        },
        R16Mem::HLI => {
            let addr = cpu.registers.get_hl();
            cpu.registers.a = mem.get(addr as usize);
            cpu.registers.inc_hl();
        },
    }
}

/// Stores SP little-endian at the immediate address.
pub fn ld_imm16_sp(cpu: &mut Cpu, mem: &mut Mmu, addr: u16)
    requires
        old(mem).wf(),
        addr < 0xFFFF,
    ensures
        final(mem).wf(),
        spec_store2(
            old(mem),
            final(mem),
            addr,
            (old(cpu).sp & 0xFF) as u8,
            (addr + 1) as u16,
            ((old(cpu).sp >> 8) & 0xFF) as u8,
        ),
        *final(cpu) == *old(cpu),
{
    let lo = (cpu.sp & 0xFF) as u8;
    let hi = ((cpu.sp >> 8) & 0xFF) as u8;
    mem.set(addr, lo);
    let ghost mid = *mem;
    mem.set(addr + 1, hi);
    proof {
        assert(spec_store(old(mem), &mid, addr, lo) && mid.wf() && spec_store(
            &mid,
            final(mem),
            (addr + 1) as u16,
            hi,
        ));
    }
}

/// Steps a 16-bit register pair or SP up by one, wrapping.
pub fn inc_r16(cpu: &mut Cpu, opcode: u8)
    ensures
        final(cpu).flags == old(cpu).flags,
        final(cpu).pc == old(cpu).pc,
        final(cpu).ime == old(cpu).ime,
        final(cpu).ime_delay == old(cpu).ime_delay,
        final(cpu).halted == old(cpu).halted,
        final(cpu).stopped == old(cpu).stopped,
        final(cpu).clock_cycles == old(cpu).clock_cycles,
        match spec_r16((opcode & 0x30) >> 4) {
            R16::BC => pair16(final(cpu).registers.b, final(cpu).registers.c) == wrap16(
                pair16(old(cpu).registers.b, old(cpu).registers.c) + 1,
            ) && final(cpu).registers == (Registers {
                b: final(cpu).registers.b,
                c: final(cpu).registers.c,
                ..old(cpu).registers
            }) && final(cpu).sp == old(cpu).sp,
            R16::DE => pair16(final(cpu).registers.d, final(cpu).registers.e) == wrap16(
                pair16(old(cpu).registers.d, old(cpu).registers.e) + 1,
            ) && final(cpu).registers == (Registers {
                d: final(cpu).registers.d,
                e: final(cpu).registers.e,
                ..old(cpu).registers
            }) && final(cpu).sp == old(cpu).sp,
            R16::HL => pair16(final(cpu).registers.h, final(cpu).registers.l) == wrap16(
                pair16(old(cpu).registers.h, old(cpu).registers.l) + 1,
            ) && final(cpu).registers == (Registers {
                h: final(cpu).registers.h,
                l: final(cpu).registers.l,
                ..old(cpu).registers
            }) && final(cpu).sp == old(cpu).sp,
            R16::SP => final(cpu).sp == (if old(cpu).sp >= 0xFFFF {
                0int
            } else {
                old(cpu).sp + 1
            }) && final(cpu).registers == old(cpu).registers,
        },
{
    proof {
        crate::bits::lemma_op_fields(opcode);
    }
    match r16((opcode & 0x30) >> 4) {
        R16::BC => {
            let (b, c) = crate::cpu::inc_8_8(cpu.registers.b, cpu.registers.c);
            cpu.registers.b = b;
            cpu.registers.c = c;
        },
        R16::DE => {
            let (d, e) = crate::cpu::inc_8_8(cpu.registers.d, cpu.registers.e);
            cpu.registers.d = d;
            cpu.registers.e = e;
        },
        R16::HL => {
            let (h, l) = crate::cpu::inc_8_8(cpu.registers.h, cpu.registers.l);
            cpu.registers.h = h;
            cpu.registers.l = l;
        },
        R16::SP => {
            cpu.sp = if cpu.sp >= 0xFFFF {
                0
            } else {
                cpu.sp + 1
            };
        },
    }
}

/// Steps a 16-bit register pair or SP down by one, wrapping.
pub fn dec_r16(cpu: &mut Cpu, opcode: u8)
    ensures
        final(cpu).flags == old(cpu).flags,
        final(cpu).pc == old(cpu).pc,
        final(cpu).ime == old(cpu).ime,
        final(cpu).ime_delay == old(cpu).ime_delay,
        final(cpu).halted == old(cpu).halted,
        final(cpu).stopped == old(cpu).stopped,
        final(cpu).clock_cycles == old(cpu).clock_cycles,
        match spec_r16((opcode & 0x30) >> 4) {
            R16::BC => pair16(final(cpu).registers.b, final(cpu).registers.c) == wrap16(
                pair16(old(cpu).registers.b, old(cpu).registers.c) - 1,
            ) && final(cpu).registers == (Registers {
                b: final(cpu).registers.b,
                c: final(cpu).registers.c,
                ..old(cpu).registers
            }) && final(cpu).sp == old(cpu).sp,
            R16::DE => pair16(final(cpu).registers.d, final(cpu).registers.e) == wrap16(
                pair16(old(cpu).registers.d, old(cpu).registers.e) - 1,
            ) && final(cpu).registers == (Registers {
                d: final(cpu).registers.d,
                e: final(cpu).registers.e,
                ..old(cpu).registers
            }) && final(cpu).sp == old(cpu).sp,
            R16::HL => pair16(final(cpu).registers.h, final(cpu).registers.l) == wrap16(
                pair16(old(cpu).registers.h, old(cpu).registers.l) - 1,
            ) && final(cpu).registers == (Registers {
                h: final(cpu).registers.h,
                l: final(cpu).registers.l,
                ..old(cpu).registers
            }) && final(cpu).sp == old(cpu).sp,
            R16::SP => final(cpu).sp == (if old(cpu).sp == 0 {
                0xFFFFint
            } else {
                old(cpu).sp - 1
            }) && final(cpu).registers == old(cpu).registers,
        },
{
    proof {
        crate::bits::lemma_op_fields(opcode);
    }
    match r16((opcode & 0x30) >> 4) {
        R16::BC => {
            let (b, c) = crate::cpu::dec_8_8(cpu.registers.b, cpu.registers.c);
            cpu.registers.b = b;
            cpu.registers.c = c;
        },
        R16::DE => {
            let (d, e) = crate::cpu::dec_8_8(cpu.registers.d, cpu.registers.e);
            cpu.registers.d = d;
            cpu.registers.e = e;
        },
        R16::HL => {
            let (h, l) = crate::cpu::dec_8_8(cpu.registers.h, cpu.registers.l);
            cpu.registers.h = h;
            cpu.registers.l = l;
        },
        R16::SP => {
            cpu.sp = if cpu.sp == 0 {
                0xFFFF
            } else {
                cpu.sp - 1
            };
        },
    }
}

/// The value after an INC r8.
pub open spec fn spec_inc_val(v: u8) -> u8 {
    wrap8(v + 1) as u8
}

/// The flags after an INC r8: C is untouched.
pub open spec fn spec_inc_flags(v: u8, f: Flags) -> Flags {
    Flags { z: spec_inc_val(v) == 0, n: false, h: spec_inc_val(v) & 0x0F == 0, c: f.c }
}

/// INC r8: steps the decoded operand up by one, wrapping.
pub fn inc_r8(cpu: &mut Cpu, mem: &mut Mmu, opcode: u8) -> (r: u64)
    requires
        old(mem).wf(),
    ensures
        final(mem).wf(),
        r == (if spec_r8((opcode & 0x38) >> 3) == R8::HLMem {
            3int
        } else {
            1int
        }),
        ({
            let reg = spec_r8((opcode & 0x38) >> 3);
            let v = spec_get_r8(*old(cpu), old(mem), reg);
            &&& final(cpu).flags == spec_inc_flags(v, old(cpu).flags)
            &&& final(cpu).registers == spec_set_r8_regs(
                old(cpu).registers,
                reg,
                spec_inc_val(v),
            )
            &&& (reg == R8::HLMem ==> spec_store(
                old(mem),
                final(mem),
                (pair16(old(cpu).registers.h, old(cpu).registers.l)) as u16,
                spec_inc_val(v),
            ))
            &&& (reg != R8::HLMem ==> *final(mem) == *old(mem))
            &&& spec_flow_frame(*old(cpu), *final(cpu))
        }),
{
    proof {
        crate::bits::lemma_op_fields(opcode);
    }
    let reg = r8((opcode & 0x38) >> 3);
    let v = get_register_value(cpu, mem, reg);
    let result = v.wrapping_add(1);
    set_register_value(cpu, mem, reg, result);
    cpu.flags.z = result == 0;
    cpu.flags.n = false;
    cpu.flags.h = result & 0x0F == 0;
    if reg == R8::HLMem {
        3
    } else {
        1
    }
}

/// The value after a DEC r8.
pub open spec fn spec_dec_val(v: u8) -> u8 {
    wrap8(v - 1) as u8
}

/// The flags after a DEC r8: C is untouched.
pub open spec fn spec_dec_flags(v: u8, f: Flags) -> Flags {
    Flags { z: spec_dec_val(v) == 0, n: true, h: spec_dec_val(v) & 0x0F == 0x0F, c: f.c }
}

/// DEC r8: steps the decoded operand down by one, wrapping.
pub fn dec_r8(cpu: &mut Cpu, mem: &mut Mmu, opcode: u8) -> (r: u64)
    requires
        old(mem).wf(),
    ensures
        final(mem).wf(),
        r == (if spec_r8((opcode & 0x38) >> 3) == R8::HLMem {
            3int
        } else {
            1int
        }),
        ({
            let reg = spec_r8((opcode & 0x38) >> 3);
            let v = spec_get_r8(*old(cpu), old(mem), reg);
            &&& final(cpu).flags == spec_dec_flags(v, old(cpu).flags)
            &&& final(cpu).registers == spec_set_r8_regs(
                old(cpu).registers,
                reg,
                spec_dec_val(v),
            )
            &&& (reg == R8::HLMem ==> spec_store(
                old(mem),
                final(mem),
                (pair16(old(cpu).registers.h, old(cpu).registers.l)) as u16,
                spec_dec_val(v),
            ))
            &&& (reg != R8::HLMem ==> *final(mem) == *old(mem))
            &&& spec_flow_frame(*old(cpu), *final(cpu))
        }),
{
    proof {
        crate::bits::lemma_op_fields(opcode);
    }
    let reg = r8((opcode & 0x38) >> 3);
    let v = get_register_value(cpu, mem, reg);
    let result = v.wrapping_sub(1);
    set_register_value(cpu, mem, reg, result);
    cpu.flags.z = result == 0;
    cpu.flags.n = true;
    cpu.flags.h = result & 0x0F == 0x0F;
    if reg == R8::HLMem {
        3
    } else {
        1
    }
}

/// LD r8,imm8: loads an immediate into the decoded operand.
pub fn ld_r8_imm(state: &mut Cpu, mem: &mut Mmu, opcode: u8, val: u8) -> (r: u64)
    requires
        old(mem).wf(),
    ensures
        final(mem).wf(),
        r == (if spec_r8((opcode & 0x38) >> 3) == R8::HLMem {
            3int
        } else {
            2int
        }),
        ({
            let reg = spec_r8((opcode & 0x38) >> 3);
            &&& final(state).registers == spec_set_r8_regs(old(state).registers, reg, val)
            &&& final(state).flags == old(state).flags
            &&& (reg == R8::HLMem ==> spec_store(
                old(mem),
                final(mem),
                (pair16(old(state).registers.h, old(state).registers.l)) as u16,
                val,
            ))
            &&& (reg != R8::HLMem ==> *final(mem) == *old(mem))
            &&& spec_flow_frame(*old(state), *final(state))
        }),
{
    proof {
        crate::bits::lemma_op_fields(opcode);
    }
    let reg = r8((opcode & 0x38) >> 3);
    set_register_value(state, mem, reg, val);
    if reg == R8::HLMem {
        3
    } else {
        2
    }
}

/// HALT: stops instruction decode until an interrupt pends.
pub fn halt(state: &mut Cpu, _mem: &mut Mmu) -> (r: u64)
    ensures
        r == 1,
        *final(state) == (Cpu { halted: true, ..*old(state) }),
        *final(_mem) == *old(_mem),
{
    state.halted = true;
    1
}

/// LD r8,r8 (0x76 is HALT): copies between operands.
pub fn ld_r8_r8(state: &mut Cpu, mem: &mut Mmu, opcode: u8) -> (r: u64)
    requires
        old(mem).wf(),
    ensures
        final(mem).wf(),
        ({
            let dest = spec_r8((opcode & 0x38) >> 3);
            let src = spec_r8(opcode & 0x07);
            if dest == R8::HLMem && src == R8::HLMem {
                &&& r == 1
                &&& *final(state) == (Cpu { halted: true, ..*old(state) })
                &&& *final(mem) == *old(mem)
            } else {
                let v = spec_get_r8(*old(state), old(mem), src);
                &&& r == (if dest == R8::HLMem || src == R8::HLMem {
                    2int
                } else {
                    1int
                })
                &&& final(state).registers == spec_set_r8_regs(old(state).registers, dest, v)
                &&& final(state).flags == old(state).flags
                &&& (dest == R8::HLMem ==> spec_store(
                    old(mem),
                    final(mem),
                    (pair16(old(state).registers.h, old(state).registers.l)) as u16,
                    v,
                ))
                &&& (dest != R8::HLMem ==> *final(mem) == *old(mem))
                &&& spec_flow_frame(*old(state), *final(state))
            }
        }),
{
    proof {
        crate::bits::lemma_op_fields(opcode);
    }
    let dest = r8((opcode & 0x38) >> 3);
    let src = r8(opcode & 0x07);
    if src == R8::HLMem && dest == R8::HLMem {
        return halt(state, mem);
    }
    let src_value = get_register_value(state, mem, src);
    set_register_value(state, mem, dest, src_value);
    if src == R8::HLMem || dest == R8::HLMem {
        2
    } else {
        1
    }
}

/// Dispatches one accumulator operation on the decoded register operand.
pub fn operate(state: &mut Cpu, mem: &mut Mmu, opcode: u8, kind: AluOp) -> (r: (Flags, u64))
    requires
        old(mem).wf(),
    ensures
        *final(mem) == *old(mem),
        ({
            let operand = spec_r8(opcode & 0x07);
            let v = spec_get_r8(*old(state), old(mem), operand);
            &&& r.0 == spec_alu_f(kind, old(state).registers.a, v, old(state).flags.c)
            &&& r.1 == (if operand == R8::HLMem {
                2int
            } else {
                1int
            })
            &&& final(state).registers == (Registers {
                a: (spec_alu_r(kind, old(state).registers.a, v, old(state).flags.c)) as u8,
                ..old(state).registers
            })
            &&& final(state).flags == old(state).flags
            &&& spec_flow_frame(*old(state), *final(state))
        }),
{
    proof {
        crate::bits::lemma_op_fields(opcode);
    }
    let operand = r8(opcode & 0x07);
    let val = get_register_value(state, mem, operand);
    let f = alu_apply(state, kind, val);
    (f, if operand == R8::HLMem {
        2
    } else {
        1
    })
}

/// Dispatches one accumulator operation on the immediate operand.
pub fn operate_imm(state: &mut Cpu, mem: &Mmu, kind: AluOp) -> (r: Flags)
    requires
        mem.wf(),
        old(state).pc + 1 < 0x10000,
    ensures
        ({
            let v = spec_read(mem, old(state).pc + 1);
            &&& r == spec_alu_f(kind, old(state).registers.a, v, old(state).flags.c)
            &&& final(state).registers == (Registers {
                a: (spec_alu_r(kind, old(state).registers.a, v, old(state).flags.c)) as u8,
                ..old(state).registers
            })
            &&& final(state).flags == old(state).flags
            &&& final(state).clock_cycles == old(state).clock_cycles
            &&& spec_flow_frame(*old(state), *final(state))
        }),
{
    let val = mem.get(state.pc + 1);
    alu_apply(state, kind, val)
}

/// The destination of a relative jump: the end of the instruction plus
/// the signed offset byte, with the pointer-width wrap of the host
/// arithmetic on a backward jump past zero.
pub open spec fn spec_jr_dest(pc: usize, imm: u8) -> int {
    if imm < 0x80 {
        pc + 2 + imm
    } else if pc + 2 >= 0x100 - imm {
        pc + 2 - (0x100 - imm)
    } else {
        pc + 2 - (0x100 - imm) + usize::MAX + 1
    }
}

/// JR: a relative jump by the signed immediate.
pub fn jr(state: &mut Cpu, mem: &Mmu)
    requires
        mem.wf(),
        old(state).pc + 2 <= 0x10000,
    ensures
        final(state).pc == spec_jr_dest(old(state).pc, spec_read(mem, old(state).pc + 1)),
        *final(state) == (Cpu { pc: final(state).pc, ..*old(state) }),
{
    let val = mem.get(state.pc + 1);
    state.pc += 2;
    if val < 0x80 {
        state.pc += val as usize;
    } else {
        state.pc = state.pc.wrapping_sub(0x100 - val as usize);
    }
}

/// The 16-bit immediate of the instruction at `pc`, little-endian.
pub open spec fn spec_imm16(m: &Mmu, pc: int) -> int {
    spec_read(m, pc + 2) * 256 + spec_read(m, pc + 1)
}

/// JP: an absolute jump to the immediate address.
pub fn jp(state: &mut Cpu, mem: &Mmu)
    requires
        mem.wf(),
        old(state).pc + 2 < 0x10000,
    ensures
        final(state).pc == spec_imm16(mem, old(state).pc as int),
        *final(state) == (Cpu { pc: final(state).pc, ..*old(state) }),
{
    let lo = mem.get(state.pc + 1);
    let hi = mem.get(state.pc + 2);
    state.pc = crate::cpu::pack16(hi, lo) as usize;
}

/// JR cc: takes the relative jump when the decoded condition holds.
pub fn jr_cond(state: &mut Cpu, mem: &Mmu, opcode: u8) -> (r: u64)
    requires
        mem.wf(),
        old(state).pc + 2 <= 0x10000,
    ensures
        r == (if spec_cond_taken(opcode, old(state).flags) {
            3int
        } else {
            2int
        }),
        final(state).pc == (if spec_cond_taken(opcode, old(state).flags) {
            spec_jr_dest(old(state).pc, spec_read(mem, old(state).pc + 1))
        } else {
            old(state).pc + 2
        }),
        *final(state) == (Cpu { pc: final(state).pc, ..*old(state) }),
{
    proof {
        crate::bits::lemma_op_fields(opcode);
    }
    let taken = match cond((opcode & 0x18) >> 3) {
        Cond::NZ => !state.flags.z,
        Cond::Z => state.flags.z,
        Cond::NC => !state.flags.c,
        Cond::C => state.flags.c,
    };
    if taken {
        jr(state, mem);
        3
    } else {
        state.pc += 2;
        2
    }
}

/// JP cc: takes the absolute jump when the decoded condition holds.
pub fn jp_cond(state: &mut Cpu, mem: &Mmu, opcode: u8) -> (r: u64)
    requires
        mem.wf(),
        old(state).pc + 2 < 0x10000,
    ensures
        r == (if spec_cond_taken(opcode, old(state).flags) {
            4int
        } else {
            3int
        }),
        final(state).pc == (if spec_cond_taken(opcode, old(state).flags) {
            spec_imm16(mem, old(state).pc as int)
        } else {
            old(state).pc + 3
        }),
        *final(state) == (Cpu { pc: final(state).pc, ..*old(state) }),
{
    proof {
        crate::bits::lemma_op_fields(opcode);
    }
    let taken = match cond((opcode & 0x18) >> 3) {
        Cond::NZ => !state.flags.z,
        Cond::Z => state.flags.z,
        Cond::NC => !state.flags.c,
        Cond::C => state.flags.c,
    };
    if taken {
        jp(state, mem);
        4
    } else {
        state.pc += 3;
        3
    }
}

/// The return address on the stack: the little-endian pair at SP.
pub open spec fn spec_ret_dest(m: &Mmu, sp: int) -> int {
    spec_read(m, sp + 1) * 256 + spec_read(m, sp)
}

/// RET: pops the return address.
pub fn ret(state: &mut Cpu, mem: &mut Mmu)
    requires
        old(mem).wf(),
        old(state).sp + 1 < 0x10000,
    ensures
        *final(mem) == *old(mem),
        final(state).pc == spec_ret_dest(old(mem), old(state).sp as int),
        final(state).sp == old(state).sp + 2,
        *final(state) == (Cpu { pc: final(state).pc, sp: final(state).sp, ..*old(state) }),
{
    let lo = mem.get(state.sp);
    let hi = mem.get(state.sp + 1);
    state.pc = crate::cpu::pack16(hi, lo) as usize;
    state.sp += 2;
}

/// RET cc: pops the return address when the decoded condition holds.
pub fn ret_cond(state: &mut Cpu, mem: &mut Mmu, opcode: u8) -> (r: u64)
    requires
        old(mem).wf(),
        old(state).pc < 0x10000,
        spec_cond_taken(opcode, old(state).flags) ==> old(state).sp + 1 < 0x10000,
    ensures
        *final(mem) == *old(mem),
        r == (if spec_cond_taken(opcode, old(state).flags) {
            5int
        } else {
            2int
        }),
        final(state).pc == (if spec_cond_taken(opcode, old(state).flags) {
            spec_ret_dest(old(mem), old(state).sp as int)
        } else {
            old(state).pc + 1
        }),
        final(state).sp == (if spec_cond_taken(opcode, old(state).flags) {
            old(state).sp + 2
        } else {
            old(state).sp as int
        }),
        *final(state) == (Cpu { pc: final(state).pc, sp: final(state).sp, ..*old(state) }),
{
    proof {
        crate::bits::lemma_op_fields(opcode);
    }
    let taken = match cond((opcode & 0x18) >> 3) {
        Cond::NZ => !state.flags.z,
        Cond::Z => state.flags.z,
        Cond::NC => !state.flags.c,
        Cond::C => state.flags.c,
    };
    if taken {
        ret(state, mem);
        5
    } else {
        state.pc += 1;
        2
    }
}

/// CALL: pushes the address after the instruction, then jumps to the
/// immediate target (read after the push, as the hardware's bus order has
/// it).
pub fn call(state: &mut Cpu, mem: &mut Mmu)
    requires
        old(mem).wf(),
        2 <= old(state).sp <= 0x10000,
        old(state).pc + 2 < 0x10000,
    ensures
        final(mem).wf(),
        spec_store2(
            old(mem),
            final(mem),
            (old(state).sp - 1) as u16,
            (((old(state).pc + 3) as usize >> 8) & 0xFF) as u8,
            (old(state).sp - 2) as u16,
            ((old(state).pc + 3) as usize & 0xFF) as u8,
        ),
        final(state).pc == spec_imm16(final(mem), old(state).pc as int),
        final(state).sp == old(state).sp - 2,
        final(state).registers == old(state).registers,
        final(state).flags == old(state).flags,
        final(state).ime == old(state).ime,
        final(state).ime_delay == old(state).ime_delay,
        final(state).halted == old(state).halted,
        final(state).stopped == old(state).stopped,
        final(state).clock_cycles == old(state).clock_cycles,
{
    let ret_addr = state.pc + 3;
    let hi = ((ret_addr >> 8) & 0xFF) as u8;
    let lo = (ret_addr & 0xFF) as u8;
    state.sp -= 1;
    mem.set(state.sp as u16, hi);
    let ghost mid = *mem;
    state.sp -= 1;
    mem.set(state.sp as u16, lo);
    proof {
        assert(spec_store(old(mem), &mid, (old(state).sp - 1) as u16, hi) && mid.wf()
            && spec_store(&mid, mem, (old(state).sp - 2) as u16, lo));
    }
    jp(state, mem);
}

/// CALL cc: calls when the decoded condition holds.
pub fn call_cond(state: &mut Cpu, mem: &mut Mmu, opcode: u8) -> (r: u64)
    requires
        old(mem).wf(),
        old(state).pc + 2 < 0x10000,
        spec_cond_taken(opcode, old(state).flags) ==> 2 <= old(state).sp <= 0x10000,
    ensures
        final(mem).wf(),
        r == (if spec_cond_taken(opcode, old(state).flags) {
            6int
        } else {
            3int
        }),
        spec_cond_taken(opcode, old(state).flags) ==> spec_store2(
            old(mem),
            final(mem),
            (old(state).sp - 1) as u16,
            (((old(state).pc + 3) as usize >> 8) & 0xFF) as u8,
            (old(state).sp - 2) as u16,
            ((old(state).pc + 3) as usize & 0xFF) as u8,
        ) && final(state).pc == spec_imm16(final(mem), old(state).pc as int) && final(state).sp
            == old(state).sp - 2,
        !spec_cond_taken(opcode, old(state).flags) ==> *final(mem) == *old(mem) && final(state).pc
            == old(state).pc + 3 && final(state).sp == old(state).sp,
        final(state).registers == old(state).registers,
        final(state).flags == old(state).flags,
        final(state).ime == old(state).ime,
        final(state).ime_delay == old(state).ime_delay,
        final(state).halted == old(state).halted,
        final(state).stopped == old(state).stopped,
        final(state).clock_cycles == old(state).clock_cycles,
{
    proof {
        crate::bits::lemma_op_fields(opcode);
    }
    let taken = match cond((opcode & 0x18) >> 3) {
        Cond::NZ => !state.flags.z,
        Cond::Z => state.flags.z,
        Cond::NC => !state.flags.c,
        Cond::C => state.flags.c,
    };
    if taken {
        call(state, mem);
        6
    } else {
        state.pc += 3;
        3
    }
}

/// The high byte a stack family pushes.
pub open spec fn spec_stk_hi(c: Cpu, s: R16Stk) -> u8 {
    match s {
        R16Stk::BC => c.registers.b,
        R16Stk::DE => c.registers.d,
        R16Stk::HL => c.registers.h,
        R16Stk::AF => c.registers.a,
    }
}

/// The low byte a stack family pushes; AF pushes the wire F value, whose
/// low nibble is always zero.
pub open spec fn spec_stk_lo(c: Cpu, s: R16Stk) -> u8 {
    match s {
        R16Stk::BC => c.registers.c,
        R16Stk::DE => c.registers.e,
        R16Stk::HL => c.registers.l,
        R16Stk::AF => spec_f_register(c.flags),
    }
}

/// POP r16stk: pops into the decoded family; AF reloads the flag nibble
/// and discards the rest of the byte.
pub fn pop_r16stk(state: &mut Cpu, mem: &mut Mmu, opcode: u8)
    requires
        old(mem).wf(),
        old(state).sp + 1 < 0x10000,
    ensures
        *final(mem) == *old(mem),
        final(state).sp == old(state).sp + 2,
        final(state).pc == old(state).pc,
        final(state).ime == old(state).ime,
        final(state).ime_delay == old(state).ime_delay,
        final(state).halted == old(state).halted,
        final(state).stopped == old(state).stopped,
        final(state).clock_cycles == old(state).clock_cycles,
        ({
            let lo = spec_read(old(mem), old(state).sp as int);
            let hi = spec_read(old(mem), old(state).sp + 1);
            match spec_r16stk((opcode & 0x30) >> 4) {
                R16Stk::BC => final(state).registers == (Registers {
                    b: hi,
                    c: lo,
                    ..old(state).registers
                }) && final(state).flags == old(state).flags,
                R16Stk::DE => final(state).registers == (Registers {
                    d: hi,
                    e: lo,
                    ..old(state).registers
                }) && final(state).flags == old(state).flags,
                R16Stk::HL => final(state).registers == (Registers {
                    h: hi,
                    l: lo,
                    ..old(state).registers
                }) && final(state).flags == old(state).flags,
                R16Stk::AF => final(state).registers == (Registers {
                    a: hi,
                    ..old(state).registers
                }) && final(state).flags == spec_flags_of(lo),
            }
        }),
{
    proof {
        crate::bits::lemma_op_fields(opcode);
    }
    match r16stk((opcode & 0x30) >> 4) {
        R16Stk::AF => {
            let f = mem.get(state.sp);
            state.flags = Flags {
                z: f & 0x80 != 0,
                n: f & 0x40 != 0,
                h: f & 0x20 != 0,
                c: f & 0x10 != 0,
            };
            state.sp += 1;
            state.registers.a = mem.get(state.sp);
            state.sp += 1;
        },
        R16Stk::BC => {
            state.registers.c = mem.get(state.sp);
            state.sp += 1;
            state.registers.b = mem.get(state.sp);
            state.sp += 1;
        },
        R16Stk::DE => {
            state.registers.e = mem.get(state.sp);
            state.sp += 1;
            state.registers.d = mem.get(state.sp);
            state.sp += 1;
        },
        R16Stk::HL => {
            state.registers.l = mem.get(state.sp);
            state.sp += 1;
            state.registers.h = mem.get(state.sp);
            state.sp += 1;
        },
    }
}

/// PUSH r16stk: pushes the decoded family, high byte first.
pub fn push_r16stk(state: &mut Cpu, mem: &mut Mmu, opcode: u8)
    requires
        old(mem).wf(),
        2 <= old(state).sp <= 0x10000,
    ensures
        final(mem).wf(),
        spec_store2(
            old(mem),
            final(mem),
            (old(state).sp - 1) as u16,
            spec_stk_hi(*old(state), spec_r16stk((opcode & 0x30) >> 4)),
            (old(state).sp - 2) as u16,
            spec_stk_lo(*old(state), spec_r16stk((opcode & 0x30) >> 4)),
        ),
        final(state).sp == old(state).sp - 2,
        *final(state) == (Cpu { sp: final(state).sp, ..*old(state) }),
{
    proof {
        crate::bits::lemma_op_fields(opcode);
    }
    let stk = r16stk((opcode & 0x30) >> 4);
    let hi: u8 = match stk {
        R16Stk::BC => state.registers.b,
        R16Stk::DE => state.registers.d,
        R16Stk::HL => state.registers.h,
        R16Stk::AF => state.registers.a,
    };
    let lo: u8 = match stk {
        R16Stk::BC => state.registers.c,
        R16Stk::DE => state.registers.e,
        R16Stk::HL => state.registers.l,
        R16Stk::AF => state.get_f_register(),
    };
    state.sp -= 1;
    mem.set(state.sp as u16, hi);
    let ghost mid = *mem;
    state.sp -= 1;
    mem.set(state.sp as u16, lo);
    proof {
        assert(spec_store(old(mem), &mid, (old(state).sp - 1) as u16, hi) && mid.wf()
            && spec_store(&mid, mem, (old(state).sp - 2) as u16, lo));
    }
}

/// Z set when the selected bit of the operand is clear; the BIT family.
pub fn bit(state: &mut Cpu, mem: &mut Mmu, opcode: u8)
    requires
        old(mem).wf(),
    ensures
        *final(mem) == *old(mem),
        final(state).flags == (Flags {
            z: spec_get_r8(*old(state), old(mem), spec_r8(opcode & 0x07)) & (1u8 << ((opcode
                & 0x38) >> 3)) == 0,
            ..old(state).flags
        }),
        final(state).registers == old(state).registers,
        spec_flow_frame(*old(state), *final(state)),
{
    proof {
        crate::bits::lemma_op_fields(opcode);
    }
    let b = (opcode & 0x38) >> 3;
    let operand = r8(opcode & 0x07);
    let val = get_register_value(state, mem, operand);
    state.flags.z = val & (1u8 << b) == 0;
}

/// RES: clears the selected bit of the operand.
pub fn res(state: &mut Cpu, mem: &mut Mmu, opcode: u8)
    requires
        old(mem).wf(),
    ensures
        final(mem).wf(),
        ({
            let operand = spec_r8(opcode & 0x07);
            let v = spec_get_r8(*old(state), old(mem), operand);
            let nv = v & !(1u8 << ((opcode & 0x38) >> 3));
            &&& final(state).registers == spec_set_r8_regs(old(state).registers, operand, nv)
            &&& final(state).flags == old(state).flags
            &&& (operand == R8::HLMem ==> spec_store(
                old(mem),
                final(mem),
                (pair16(old(state).registers.h, old(state).registers.l)) as u16,
                nv,
            ))
            &&& (operand != R8::HLMem ==> *final(mem) == *old(mem))
            &&& spec_flow_frame(*old(state), *final(state))
        }),
{
    proof {
        crate::bits::lemma_op_fields(opcode);
    }
    let b = (opcode & 0x38) >> 3;
    let operand = r8(opcode & 0x07);
    let val = get_register_value(state, mem, operand);
    set_register_value(state, mem, operand, val & !(1u8 << b));
}

/// SET: sets the selected bit of the operand.
pub fn set(state: &mut Cpu, mem: &mut Mmu, opcode: u8)
    requires
        old(mem).wf(),
    ensures
        final(mem).wf(),
        ({
            let operand = spec_r8(opcode & 0x07);
            let v = spec_get_r8(*old(state), old(mem), operand);
            let nv = v | (1u8 << ((opcode & 0x38) >> 3));
            &&& final(state).registers == spec_set_r8_regs(old(state).registers, operand, nv)
            &&& final(state).flags == old(state).flags
            &&& (operand == R8::HLMem ==> spec_store(
                old(mem),
                final(mem),
                (pair16(old(state).registers.h, old(state).registers.l)) as u16,
                nv,
            ))
            &&& (operand != R8::HLMem ==> *final(mem) == *old(mem))
            &&& spec_flow_frame(*old(state), *final(state))
        }),
{
    proof {
        crate::bits::lemma_op_fields(opcode);
    }
    let b = (opcode & 0x38) >> 3;
    let operand = r8(opcode & 0x07);
    let val = get_register_value(state, mem, operand);
    set_register_value(state, mem, operand, val | (1u8 << b));
}

/// The operand value after a prefixed operation (BIT leaves it alone).
pub open spec fn spec_cb_result(cb: u8, v: u8, cin: bool) -> u8 {
    if cb & 0xF8 == 0x00 {
        crate::alu::spec_rot_left_r(v, false, cin)
    } else if cb & 0xF8 == 0x08 {
        crate::alu::spec_rot_right_r(v, false, cin)
    } else if cb & 0xF8 == 0x10 {
        crate::alu::spec_rot_left_r(v, true, cin)
    } else if cb & 0xF8 == 0x18 {
        crate::alu::spec_rot_right_r(v, true, cin)
    } else if cb & 0xF8 == 0x20 {
        v << 1
    } else if cb & 0xF8 == 0x28 {
        (v & 0x80) | v >> 1
    } else if cb & 0xF8 == 0x30 {
        (v & 0x0F) << 4 | (v & 0xF0) >> 4
    } else if cb & 0xF8 == 0x38 {
        v >> 1
    } else if cb & 0xC0 == 0x40 {
        v
    } else if cb & 0xC0 == 0x80 {
        v & !(1u8 << ((cb & 0x38) >> 3))
    } else {
        v | (1u8 << ((cb & 0x38) >> 3))
    }
}

/// The flags after a prefixed operation.
pub open spec fn spec_cb_flags(cb: u8, v: u8, f: Flags) -> Flags {
    if cb & 0xF8 == 0x00 || cb & 0xF8 == 0x10 {
        Flags { z: spec_cb_result(cb, v, f.c) == 0, n: false, h: false, c: v >> 7 == 1 }
    } else if cb & 0xF8 == 0x08 || cb & 0xF8 == 0x18 {
        Flags { z: spec_cb_result(cb, v, f.c) == 0, n: false, h: false, c: v & 1 == 1 }
    } else if cb & 0xF8 == 0x20 {
        Flags { z: v << 1 == 0, n: false, h: false, c: v & 0x80 == 0x80 }
    } else if cb & 0xF8 == 0x28 {
        Flags { z: (v & 0x80) | v >> 1 == 0, n: false, h: false, c: v & 1 == 1 }
    } else if cb & 0xF8 == 0x30 {
        Flags { z: (v & 0x0F) << 4 | (v & 0xF0) >> 4 == 0, n: false, h: false, c: false }
    } else if cb & 0xF8 == 0x38 {
        Flags { z: v >> 1 == 0, n: false, h: false, c: v & 1 == 1 }
    } else if cb & 0xC0 == 0x40 {
        Flags { z: v & (1u8 << ((cb & 0x38) >> 3)) == 0, n: false, h: true, c: f.c }
    } else {
        f
    }
}

/// Machine cycles of a prefixed instruction: BIT on [HL] takes 3, other
/// [HL] forms 4, register forms 2.
pub open spec fn spec_cb_cycles(cb: u8) -> int {
    if cb & 0x07 == 6 {
        if cb & 0xC0 == 0x40 {
            3
        } else {
            4
        }
    } else {
        2
    }
}

/// The 0xCB prefix page: rotates, shifts, SWAP, and the BIT/RES/SET
/// families on the decoded operand.
#[verifier::rlimit(100)]
pub fn execute_prefix_cb(state: &mut Cpu, mem: &mut Mmu) -> (r: u64)
    requires
        old(mem).wf(),
        old(state).pc + 1 < 0x10000,
    ensures
        final(mem).wf(),
        ({
            let cb = spec_read(old(mem), old(state).pc + 1);
            let operand = spec_r8(cb & 0x07);
            let v = spec_get_r8(*old(state), old(mem), operand);
            let nv = spec_cb_result(cb, v, old(state).flags.c);
            &&& r == spec_cb_cycles(cb)
            &&& final(state).pc == old(state).pc + 1
            &&& final(state).flags == spec_cb_flags(cb, v, old(state).flags)
            &&& final(state).registers == (if cb & 0xC0 == 0x40 {
                old(state).registers
            } else {
                spec_set_r8_regs(old(state).registers, operand, nv)
            })
            &&& (operand == R8::HLMem && cb & 0xC0 != 0x40 ==> spec_store(
                old(mem),
                final(mem),
                (pair16(old(state).registers.h, old(state).registers.l)) as u16,
                nv,
            ))
            &&& (operand != R8::HLMem || cb & 0xC0 == 0x40 ==> *final(mem) == *old(mem))
            &&& final(state).sp == old(state).sp
            &&& final(state).ime == old(state).ime
            &&& final(state).ime_delay == old(state).ime_delay
            &&& final(state).halted == old(state).halted
            &&& final(state).stopped == old(state).stopped
            &&& final(state).clock_cycles == old(state).clock_cycles
        }),
{
    let opcode = mem.get(state.pc + 1);
    proof {
        crate::bits::lemma_op_fields(opcode);
        crate::bits::lemma_cb_family(opcode);
    }
    let operand = r8(opcode & 0x07);
    let val = get_register_value(state, mem, operand);
    let mut write_back = true;
    let mut new_val = val;
    if opcode & 0xF8 == 0x00 {
        new_val = crate::alu::rotate_left(state, false, val);
        state.flags.n = false;
        state.flags.h = false;
        state.flags.z = new_val == 0;
    } else if opcode & 0xF8 == 0x08 {
        new_val = crate::alu::rotate_right(state, false, val);
        state.flags.n = false;
        state.flags.h = false;
        state.flags.z = new_val == 0;
    } else if opcode & 0xF8 == 0x10 {
        new_val = crate::alu::rotate_left(state, true, val);
        state.flags.n = false;
        state.flags.h = false;
        state.flags.z = new_val == 0;
    } else if opcode & 0xF8 == 0x18 {
        new_val = crate::alu::rotate_right(state, true, val);
        state.flags.n = false;
        state.flags.h = false;
        state.flags.z = new_val == 0;
    } else if opcode & 0xF8 == 0x20 {
        new_val = crate::alu::sla_r8(state, val);
    } else if opcode & 0xF8 == 0x28 {
        new_val = crate::alu::sra_r8(state, val);
    } else if opcode & 0xF8 == 0x30 {
        new_val = crate::alu::swap_r8(state, val);
    } else if opcode & 0xF8 == 0x38 {
        new_val = crate::alu::srl_r8(state, val);
    } else if opcode & 0xC0 == 0x40 {
        state.flags.z = val & (1u8 << ((opcode & 0x38) >> 3)) == 0;
        state.flags.n = false;
        state.flags.h = true;
        write_back = false;
    } else if opcode & 0xC0 == 0x80 {
        new_val = val & !(1u8 << ((opcode & 0x38) >> 3));
    } else {
        new_val = val | (1u8 << ((opcode & 0x38) >> 3));
    }
    proof {
        assert(new_val == spec_cb_result(
            spec_read(old(mem), old(state).pc + 1),
            spec_get_r8(*old(state), old(mem), spec_r8(opcode & 0x07)),
            old(state).flags.c,
        ));
        assert(state.flags == spec_cb_flags(
            spec_read(old(mem), old(state).pc + 1),
            spec_get_r8(*old(state), old(mem), spec_r8(opcode & 0x07)),
            old(state).flags,
        ));
        assert(write_back == (opcode & 0xC0 != 0x40));
    }
    if write_back {
        set_register_value(state, mem, operand, new_val);
    }
    state.pc += 1;
    if operand == R8::HLMem && opcode & 0xC0 == 0x40 {
        3
    } else if operand == R8::HLMem {
        4
    } else {
        2
    }
}


/// The eleven opcodes with no decoding: holes in the map.
pub open spec fn spec_op_supported(op: u8) -> bool {
    !(op == 0xD3 || op == 0xDB || op == 0xDD || op == 0xE3 || op == 0xE4 || op == 0xEB
        || op == 0xEC || op == 0xED || op == 0xF4 || op == 0xFC || op == 0xFD)
}

/// The byte length of an instruction, prefix page included.
pub open spec fn spec_instr_len(op: u8) -> int {
    if op == 0x00 {
        1int
    } else if op & 0xCF == 0x01 {
        3int
    } else if op & 0xCF == 0x02 {
        1int
    } else if op & 0xCF == 0x0A {
        1int
    } else if op == 0x08 {
        3int
    } else if op & 0xCF == 0x03 {
        1int
    } else if op & 0xCF == 0x0B {
        1int
    } else if op & 0xCF == 0x09 {
        1int
    } else if op & 0xC7 == 0x04 {
        1int
    } else if op & 0xC7 == 0x05 {
        1int
    } else if op & 0xC7 == 0x06 {
        2int
    } else if op == 0x07 || op == 0x0F || op == 0x17 || op == 0x1F {
        1int
    } else if op == 0x27 || op == 0x2F || op == 0x37 || op == 0x3F {
        1int
    } else if op == 0x18 {
        2int
    } else if op & 0xE7 == 0x20 {
        2int
    } else if op == 0x10 {
        2int
    } else if op & 0xC0 == 0x40 {
        1int
    } else if op & 0xF8 == 0x80 {
        1int
    } else if op & 0xF8 == 0x88 {
        1int
    } else if op & 0xF8 == 0x90 {
        1int
    } else if op & 0xF8 == 0x98 {
        1int
    } else if op & 0xF8 == 0xA0 {
        1int
    } else if op & 0xF8 == 0xA8 {
        1int
    } else if op & 0xF8 == 0xB0 {
        1int
    } else if op & 0xF8 == 0xB8 {
        1int
    } else if op == 0xC6 {
        2int
    } else if op == 0xCE {
        2int
    } else if op == 0xD6 {
        2int
    } else if op == 0xDE {
        2int
    } else if op == 0xE6 {
        2int
    } else if op == 0xEE {
        2int
    } else if op == 0xF6 {
        2int
    } else if op == 0xFE {
        2int
    } else if op & 0xE7 == 0xC0 {
        1int
    } else if op == 0xC9 {
        1int
    } else if op == 0xD9 {
        1int
    } else if op & 0xE7 == 0xC2 {
        3int
    } else if op == 0xC3 {
        3int
    } else if op == 0xE9 {
        1int
    } else if op & 0xE7 == 0xC4 {
        3int
    } else if op == 0xCD {
        3int
    } else if op & 0xC7 == 0xC7 {
        1int
    } else if op & 0xCF == 0xC1 {
        1int
    } else if op & 0xCF == 0xC5 {
        1int
    } else if op == 0xE2 {
        1int
    } else if op == 0xE0 {
        2int
    } else if op == 0xEA {
        3int
    } else if op == 0xF2 {
        1int
    } else if op == 0xF0 {
        2int
    } else if op == 0xFA {
        3int
    } else if op == 0xE8 {
        2int
    } else if op == 0xF8 {
        2int
    } else if op == 0xF9 {
        1int
    } else if op == 0xF3 {
        1int
    } else if op == 0xFB {
        1int
    } else if op == 0xCB {
        2int
    } else {
        1int
    }
}

/// The canonical machine-cycle table: the single source of truth for
/// instruction timing.  Conditional forms charge the extra cycle exactly
/// when the branch is taken; `cb` is the byte after a 0xCB prefix.
pub open spec fn spec_m_cycles(op: u8, cb: u8, f: Flags) -> int {
    if op == 0x00 {
        1int
    } else if op & 0xCF == 0x01 {
        3int
    } else if op & 0xCF == 0x02 {
        2int
    } else if op & 0xCF == 0x0A {
        2int
    } else if op == 0x08 {
        5int
    } else if op & 0xCF == 0x03 {
        2int
    } else if op & 0xCF == 0x0B {
        2int
    } else if op & 0xCF == 0x09 {
        2int
    } else if op & 0xC7 == 0x04 {
        if (op & 0x38) >> 3 == 6 { 3int } else { 1int }
    } else if op & 0xC7 == 0x05 {
        if (op & 0x38) >> 3 == 6 { 3int } else { 1int }
    } else if op & 0xC7 == 0x06 {
        if (op & 0x38) >> 3 == 6 { 3int } else { 2int }
    } else if op == 0x07 || op == 0x0F || op == 0x17 || op == 0x1F {
        1int
    } else if op == 0x27 || op == 0x2F || op == 0x37 || op == 0x3F {
        1int
    } else if op == 0x18 {
        3int
    } else if op & 0xE7 == 0x20 {
        if spec_cond_taken(op, f) { 3int } else { 2int }
    } else if op == 0x10 {
        1int
    } else if op & 0xC0 == 0x40 {
        if op == 0x76 { 1int } else if op & 0x07 == 6 || (op & 0x38) >> 3 == 6 { 2int } else { 1int }
    } else if op & 0xF8 == 0x80 {
        if op & 0x07 == 6 { 2int } else { 1int }
    } else if op & 0xF8 == 0x88 {
        if op & 0x07 == 6 { 2int } else { 1int }
    } else if op & 0xF8 == 0x90 {
        if op & 0x07 == 6 { 2int } else { 1int }
    } else if op & 0xF8 == 0x98 {
        if op & 0x07 == 6 { 2int } else { 1int }
    } else if op & 0xF8 == 0xA0 {
        if op & 0x07 == 6 { 2int } else { 1int }
    } else if op & 0xF8 == 0xA8 {
        if op & 0x07 == 6 { 2int } else { 1int }
    } else if op & 0xF8 == 0xB0 {
        if op & 0x07 == 6 { 2int } else { 1int }
    } else if op & 0xF8 == 0xB8 {
        if op & 0x07 == 6 { 2int } else { 1int }
    } else if op == 0xC6 {
        2int
    } else if op == 0xCE {
        2int
    } else if op == 0xD6 {
        2int
    } else if op == 0xDE {
        2int
    } else if op == 0xE6 {
        2int
    } else if op == 0xEE {
        2int
    } else if op == 0xF6 {
        2int
    } else if op == 0xFE {
        2int
    } else if op & 0xE7 == 0xC0 {
        if spec_cond_taken(op, f) { 5int } else { 2int }
    } else if op == 0xC9 {
        4int
    } else if op == 0xD9 {
        4int
    } else if op & 0xE7 == 0xC2 {
        if spec_cond_taken(op, f) { 4int } else { 3int }
    } else if op == 0xC3 {
        4int
    } else if op == 0xE9 {
        1int
    } else if op & 0xE7 == 0xC4 {
        if spec_cond_taken(op, f) { 6int } else { 3int }
    } else if op == 0xCD {
        6int
    } else if op & 0xC7 == 0xC7 {
        4int
    } else if op & 0xCF == 0xC1 {
        3int
    } else if op & 0xCF == 0xC5 {
        4int
    } else if op == 0xE2 {
        2int
    } else if op == 0xE0 {
        3int
    } else if op == 0xEA {
        4int
    } else if op == 0xF2 {
        2int
    } else if op == 0xF0 {
        3int
    } else if op == 0xFA {
        4int
    } else if op == 0xE8 {
        4int
    } else if op == 0xF8 {
        3int
    } else if op == 0xF9 {
        2int
    } else if op == 0xF3 {
        1int
    } else if op == 0xFB {
        1int
    } else if op == 0xCB {
        spec_cb_cycles(cb)
    } else {
        1int
    }
}

/// The program counter after one instruction.  `m_after` is the memory
/// after the instruction's own stores: a call pushes first and fetches its
/// target afterwards, exactly as the implementation orders its accesses.
pub open spec fn spec_next_pc(c: Cpu, m_after: &Mmu, op: u8) -> int {
    if op == 0x00 {
        c.pc + 1
    } else if op & 0xCF == 0x01 {
        c.pc + 3
    } else if op & 0xCF == 0x02 {
        c.pc + 1
    } else if op & 0xCF == 0x0A {
        c.pc + 1
    } else if op == 0x08 {
        c.pc + 3
    } else if op & 0xCF == 0x03 {
        c.pc + 1
    } else if op & 0xCF == 0x0B {
        c.pc + 1
    } else if op & 0xCF == 0x09 {
        c.pc + 1
    } else if op & 0xC7 == 0x04 {
        c.pc + 1
    } else if op & 0xC7 == 0x05 {
        c.pc + 1
    } else if op & 0xC7 == 0x06 {
        c.pc + 2
    } else if op == 0x07 || op == 0x0F || op == 0x17 || op == 0x1F {
        c.pc + 1
    } else if op == 0x27 || op == 0x2F || op == 0x37 || op == 0x3F {
        c.pc + 1
    } else if op == 0x18 {
        spec_jr_dest(c.pc, spec_read(m_after, c.pc + 1))
    } else if op & 0xE7 == 0x20 {
        if spec_cond_taken(op, c.flags) { spec_jr_dest(c.pc, spec_read(m_after, c.pc + 1)) } else { c.pc + 2 }
    } else if op == 0x10 {
        c.pc + 2
    } else if op & 0xC0 == 0x40 {
        c.pc + 1
    } else if op & 0xF8 == 0x80 {
        c.pc + 1
    } else if op & 0xF8 == 0x88 {
        c.pc + 1
    } else if op & 0xF8 == 0x90 {
        c.pc + 1
    } else if op & 0xF8 == 0x98 {
        c.pc + 1
    } else if op & 0xF8 == 0xA0 {
        c.pc + 1
    } else if op & 0xF8 == 0xA8 {
        c.pc + 1
    } else if op & 0xF8 == 0xB0 {
        c.pc + 1
    } else if op & 0xF8 == 0xB8 {
        c.pc + 1
    } else if op == 0xC6 {
        c.pc + 2
    } else if op == 0xCE {
        c.pc + 2
    } else if op == 0xD6 {
        c.pc + 2
    } else if op == 0xDE {
        c.pc + 2
    } else if op == 0xE6 {
        c.pc + 2
    } else if op == 0xEE {
        c.pc + 2
    } else if op == 0xF6 {
        c.pc + 2
    } else if op == 0xFE {
        c.pc + 2
    } else if op & 0xE7 == 0xC0 {
        if spec_cond_taken(op, c.flags) { spec_ret_dest(m_after, c.sp as int) } else { c.pc + 1 }
    } else if op == 0xC9 {
        spec_ret_dest(m_after, c.sp as int)
    } else if op == 0xD9 {
        spec_ret_dest(m_after, c.sp as int)
    } else if op & 0xE7 == 0xC2 {
        if spec_cond_taken(op, c.flags) { spec_imm16(m_after, c.pc as int) } else { c.pc + 3 }
    } else if op == 0xC3 {
        spec_imm16(m_after, c.pc as int)
    } else if op == 0xE9 {
        pair16(c.registers.h, c.registers.l)
    } else if op & 0xE7 == 0xC4 {
        if spec_cond_taken(op, c.flags) { spec_imm16(m_after, c.pc as int) } else { c.pc + 3 }
    } else if op == 0xCD {
        spec_imm16(m_after, c.pc as int)
    } else if op & 0xC7 == 0xC7 {
        (op & 0x38) as int
    } else if op & 0xCF == 0xC1 {
        c.pc + 1
    } else if op & 0xCF == 0xC5 {
        c.pc + 1
    } else if op == 0xE2 {
        c.pc + 1
    } else if op == 0xE0 {
        c.pc + 2
    } else if op == 0xEA {
        c.pc + 3
    } else if op == 0xF2 {
        c.pc + 1
    } else if op == 0xF0 {
        c.pc + 2
    } else if op == 0xFA {
        c.pc + 3
    } else if op == 0xE8 {
        c.pc + 2
    } else if op == 0xF8 {
        c.pc + 2
    } else if op == 0xF9 {
        c.pc + 1
    } else if op == 0xF3 {
        c.pc + 1
    } else if op == 0xFB {
        c.pc + 1
    } else if op == 0xCB {
        c.pc + 2
    } else {
        c.pc + 1
    }
}


/// Whether the instruction stores into the address space: the memory
/// destinations of the load families, the DIV reset of STOP, the pushes
/// of calls and restarts, and the prefixed read-modify-writes on [HL].
pub open spec fn spec_writes_mem(op: u8, cb: u8, f: Flags) -> bool {
    if op == 0x00 {
        false
    } else if op & 0xCF == 0x01 {
        false
    } else if op & 0xCF == 0x02 {
        true
    } else if op & 0xCF == 0x0A {
        false
    } else if op == 0x08 {
        true
    } else if op & 0xCF == 0x03 {
        false
    } else if op & 0xCF == 0x0B {
        false
    } else if op & 0xCF == 0x09 {
        false
    } else if op & 0xC7 == 0x04 {
        (op & 0x38) >> 3 == 6
    } else if op & 0xC7 == 0x05 {
        (op & 0x38) >> 3 == 6
    } else if op & 0xC7 == 0x06 {
        (op & 0x38) >> 3 == 6
    } else if op == 0x07 || op == 0x0F || op == 0x17 || op == 0x1F {
        false
    } else if op == 0x27 || op == 0x2F || op == 0x37 || op == 0x3F {
        false
    } else if op == 0x18 {
        false
    } else if op & 0xE7 == 0x20 {
        false
    } else if op == 0x10 {
        true
    } else if op & 0xC0 == 0x40 {
        op != 0x76 && (op & 0x38) >> 3 == 6
    } else if op & 0xF8 == 0x80 {
        false
    } else if op & 0xF8 == 0x88 {
        false
    } else if op & 0xF8 == 0x90 {
        false
    } else if op & 0xF8 == 0x98 {
        false
    } else if op & 0xF8 == 0xA0 {
        false
    } else if op & 0xF8 == 0xA8 {
        false
    } else if op & 0xF8 == 0xB0 {
        false
    } else if op & 0xF8 == 0xB8 {
        false
    } else if op == 0xC6 {
        false
    } else if op == 0xCE {
        false
    } else if op == 0xD6 {
        false
    } else if op == 0xDE {
        false
    } else if op == 0xE6 {
        false
    } else if op == 0xEE {
        false
    } else if op == 0xF6 {
        false
    } else if op == 0xFE {
        false
    } else if op & 0xE7 == 0xC0 {
        false
    } else if op == 0xC9 {
        false
    } else if op == 0xD9 {
        false
    } else if op & 0xE7 == 0xC2 {
        false
    } else if op == 0xC3 {
        false
    } else if op == 0xE9 {
        false
    } else if op & 0xE7 == 0xC4 {
        spec_cond_taken(op, f)
    } else if op == 0xCD {
        true
    } else if op & 0xC7 == 0xC7 {
        true
    } else if op & 0xCF == 0xC1 {
        false
    } else if op & 0xCF == 0xC5 {
        true
    } else if op == 0xE2 {
        true
    } else if op == 0xE0 {
        true
    } else if op == 0xEA {
        true
    } else if op == 0xF2 {
        false
    } else if op == 0xF0 {
        false
    } else if op == 0xFA {
        false
    } else if op == 0xE8 {
        false
    } else if op == 0xF8 {
        false
    } else if op == 0xF9 {
        false
    } else if op == 0xF3 {
        false
    } else if op == 0xFB {
        false
    } else if op == 0xCB {
        cb & 0x07 == 6 && cb & 0xC0 != 0x40
    } else {
        false
    }
}


/// The unchanged-data case: register file, flags and stack pointer all
/// keep their values.
pub open spec fn spec_same_data(c: Cpu, c2: Cpu) -> bool {
    c2.registers == c.registers && c2.flags == c.flags && c2.sp == c.sp
}

/// The effect of one instruction on the register file, the flags, the
/// stack pointer, and (for the storing opcodes) the memory unit.  `m` is
/// the memory before the instruction and `m2` after; the program counter,
/// the latches and the cycle counter are covered by the caller's other
/// clauses, and non-storing opcodes leave memory untouched by the
/// store-classification clause.
pub open spec fn spec_data_effect(c: Cpu, m: &Mmu, c2: Cpu, m2: &Mmu) -> bool {
    let op = spec_read(m, c.pc as int);
    let cb = spec_read(m, c.pc + 1);
    if op == 0x00 {
        spec_same_data(c, c2)
    } else if op & 0xCF == 0x01 {
        let v = spec_imm16(m, c.pc as int);
        c2.flags == c.flags && match spec_r16((op & 0x30) >> 4) {
            R16::BC => pair16(c2.registers.b, c2.registers.c) == v && c2.registers == (Registers {
                b: c2.registers.b,
                c: c2.registers.c,
                ..c.registers
            }) && c2.sp == c.sp,
            R16::DE => pair16(c2.registers.d, c2.registers.e) == v && c2.registers == (Registers {
                d: c2.registers.d,
                e: c2.registers.e,
                ..c.registers
            }) && c2.sp == c.sp,
            R16::HL => pair16(c2.registers.h, c2.registers.l) == v && c2.registers == (Registers {
                h: c2.registers.h,
                l: c2.registers.l,
                ..c.registers
            }) && c2.sp == c.sp,
            R16::SP => c2.sp == v && c2.registers == c.registers,
        }
    } else if op & 0xCF == 0x02 {
        let pair = spec_r16_mem((op & 0x30) >> 4);
        c2.flags == c.flags && c2.sp == c.sp && spec_store(
            m,
            m2,
            (spec_r16_mem_addr(c, pair)) as u16,
            c.registers.a,
        ) && match pair {
            R16Mem::BC => c2.registers == c.registers,
            R16Mem::DE => c2.registers == c.registers,
            R16Mem::HLI => pair16(c2.registers.h, c2.registers.l) == wrap16(
                pair16(c.registers.h, c.registers.l) + 1,
            ) && c2.registers == (Registers {
                h: c2.registers.h,
                l: c2.registers.l,
                ..c.registers
            }),
            R16Mem::HLD => pair16(c2.registers.h, c2.registers.l) == wrap16(
                pair16(c.registers.h, c.registers.l) - 1,
            ) && c2.registers == (Registers {
                h: c2.registers.h,
                l: c2.registers.l,
                ..c.registers
            }),
        }
    } else if op & 0xCF == 0x0A {
        let pair = spec_r16_mem((op & 0x30) >> 4);
        let v = spec_read(m, spec_r16_mem_addr(c, pair));
        c2.flags == c.flags && c2.sp == c.sp && c2.registers.a == v && match pair {
            R16Mem::BC => c2.registers == (Registers { a: c2.registers.a, ..c.registers }),
            R16Mem::DE => c2.registers == (Registers { a: c2.registers.a, ..c.registers }),
            R16Mem::HLI => pair16(c2.registers.h, c2.registers.l) == wrap16(
                pair16(c.registers.h, c.registers.l) + 1,
            ) && c2.registers == (Registers {
                a: c2.registers.a,
                h: c2.registers.h,
                l: c2.registers.l,
                ..c.registers
            }),
            R16Mem::HLD => pair16(c2.registers.h, c2.registers.l) == wrap16(
                pair16(c.registers.h, c.registers.l) - 1,
            ) && c2.registers == (Registers {
                a: c2.registers.a,
                h: c2.registers.h,
                l: c2.registers.l,
                ..c.registers
            }),
        }
    } else if op == 0x08 {
        spec_same_data(c, c2) && spec_store2(
            m,
            m2,
            (spec_imm16(m, c.pc as int)) as u16,
            (c.sp & 0xFF) as u8,
            (spec_imm16(m, c.pc as int) + 1) as u16,
            ((c.sp >> 8) & 0xFF) as u8,
        )
    } else if op & 0xCF == 0x03 {
        c2.flags == c.flags && match spec_r16((op & 0x30) >> 4) {
            R16::BC => pair16(c2.registers.b, c2.registers.c) == wrap16(
                pair16(c.registers.b, c.registers.c) + 1,
            ) && c2.registers == (Registers {
                b: c2.registers.b,
                c: c2.registers.c,
                ..c.registers
            }) && c2.sp == c.sp,
            R16::DE => pair16(c2.registers.d, c2.registers.e) == wrap16(
                pair16(c.registers.d, c.registers.e) + 1,
            ) && c2.registers == (Registers {
                d: c2.registers.d,
                e: c2.registers.e,
                ..c.registers
            }) && c2.sp == c.sp,
            R16::HL => pair16(c2.registers.h, c2.registers.l) == wrap16(
                pair16(c.registers.h, c.registers.l) + 1,
            ) && c2.registers == (Registers {
                h: c2.registers.h,
                l: c2.registers.l,
                ..c.registers
            }) && c2.sp == c.sp,
            R16::SP => c2.sp == (if c.sp >= 0xFFFF {
                0int
            } else {
                c.sp + 1
            }) && c2.registers == c.registers,
        }
    } else if op & 0xCF == 0x0B {
        c2.flags == c.flags && match spec_r16((op & 0x30) >> 4) {
            R16::BC => pair16(c2.registers.b, c2.registers.c) == wrap16(
                pair16(c.registers.b, c.registers.c) - 1,
            ) && c2.registers == (Registers {
                b: c2.registers.b,
                c: c2.registers.c,
                ..c.registers
            }) && c2.sp == c.sp,
            R16::DE => pair16(c2.registers.d, c2.registers.e) == wrap16(
                pair16(c.registers.d, c.registers.e) - 1,
            ) && c2.registers == (Registers {
                d: c2.registers.d,
                e: c2.registers.e,
                ..c.registers
            }) && c2.sp == c.sp,
            R16::HL => pair16(c2.registers.h, c2.registers.l) == wrap16(
                pair16(c.registers.h, c.registers.l) - 1,
            ) && c2.registers == (Registers {
                h: c2.registers.h,
                l: c2.registers.l,
                ..c.registers
            }) && c2.sp == c.sp,
            R16::SP => c2.sp == (if c.sp == 0 {
                0xFFFFint
            } else {
                c.sp - 1
            }) && c2.registers == c.registers,
        }
    } else if op & 0xCF == 0x09 {
        let hl = pair16(c.registers.h, c.registers.l);
        let operand = match spec_r16((op & 0x30) >> 4) {
            R16::BC => pair16(c.registers.b, c.registers.c),
            R16::DE => pair16(c.registers.d, c.registers.e),
            R16::HL => pair16(c.registers.h, c.registers.l),
            R16::SP => c.sp as int,
        };
        c2.sp == c.sp && ((c.sp <= 0xFFFF || (op & 0x30) >> 4 != 3) ==> (pair16(
            c2.registers.h,
            c2.registers.l,
        ) == wrap16(hl + operand) && c2.registers == (Registers {
            h: c2.registers.h,
            l: c2.registers.l,
            ..c.registers
        }) && c2.flags == (Flags {
            z: c.flags.z,
            n: false,
            h: (operand % 0x1000) + (hl % 0x1000) > 0xFFF,
            c: operand + hl > 0xFFFF,
        })))
    } else if op & 0xC7 == 0x04 {
        let reg = spec_r8((op & 0x38) >> 3);
        let v = spec_get_r8(c, m, reg);
        c2.sp == c.sp && c2.flags == spec_inc_flags(v, c.flags) && c2.registers
            == spec_set_r8_regs(c.registers, reg, spec_inc_val(v)) && (reg == R8::HLMem
            ==> spec_store(
            m,
            m2,
            (pair16(c.registers.h, c.registers.l)) as u16,
            spec_inc_val(v),
        ))
    } else if op & 0xC7 == 0x05 {
        let reg = spec_r8((op & 0x38) >> 3);
        let v = spec_get_r8(c, m, reg);
        c2.sp == c.sp && c2.flags == spec_dec_flags(v, c.flags) && c2.registers
            == spec_set_r8_regs(c.registers, reg, spec_dec_val(v)) && (reg == R8::HLMem
            ==> spec_store(
            m,
            m2,
            (pair16(c.registers.h, c.registers.l)) as u16,
            spec_dec_val(v),
        ))
    } else if op & 0xC7 == 0x06 {
        let reg = spec_r8((op & 0x38) >> 3);
        let v = spec_read(m, c.pc + 1);
        c2.sp == c.sp && c2.flags == c.flags && c2.registers == spec_set_r8_regs(
            c.registers,
            reg,
            v,
        ) && (reg == R8::HLMem ==> spec_store(
            m,
            m2,
            (pair16(c.registers.h, c.registers.l)) as u16,
            v,
        ))
    } else if op == 0x07 {
        c2.sp == c.sp && c2.registers == (Registers {
            a: crate::alu::spec_rot_left_r(c.registers.a, false, c.flags.c),
            ..c.registers
        }) && c2.flags == (Flags { z: false, n: false, h: false, c: c.registers.a >> 7 == 1 })
    } else if op == 0x0F {
        c2.sp == c.sp && c2.registers == (Registers {
            a: crate::alu::spec_rot_right_r(c.registers.a, false, c.flags.c),
            ..c.registers
        }) && c2.flags == (Flags { z: false, n: false, h: false, c: c.registers.a & 1 == 1 })
    } else if op == 0x17 {
        c2.sp == c.sp && c2.registers == (Registers {
            a: crate::alu::spec_rot_left_r(c.registers.a, true, c.flags.c),
            ..c.registers
        }) && c2.flags == (Flags { z: false, n: false, h: false, c: c.registers.a >> 7 == 1 })
    } else if op == 0x1F {
        c2.sp == c.sp && c2.registers == (Registers {
            a: crate::alu::spec_rot_right_r(c.registers.a, true, c.flags.c),
            ..c.registers
        }) && c2.flags == (Flags { z: false, n: false, h: false, c: c.registers.a & 1 == 1 })
    } else if op == 0x27 {
        c2.sp == c.sp && c2.registers == (Registers {
            a: (crate::alu::spec_daa_r(c.registers.a, c.flags)) as u8,
            ..c.registers
        }) && c2.flags == crate::alu::spec_daa_f(c.registers.a, c.flags)
    } else if op == 0x2F {
        c2.sp == c.sp && c2.registers == (Registers { a: !c.registers.a, ..c.registers })
            && c2.flags == (Flags { z: c.flags.z, n: true, h: true, c: c.flags.c })
    } else if op == 0x37 {
        c2.sp == c.sp && c2.registers == c.registers && c2.flags == (Flags {
            z: c.flags.z,
            n: false,
            h: false,
            c: true,
        })
    } else if op == 0x3F {
        c2.sp == c.sp && c2.registers == c.registers && c2.flags == (Flags {
            z: c.flags.z,
            n: false,
            h: false,
            c: !c.flags.c,
        })
    } else if op == 0x18 {
        spec_same_data(c, c2)
    } else if op & 0xE7 == 0x20 {
        spec_same_data(c, c2)
    } else if op == 0x10 {
        spec_same_data(c, c2) && spec_store(m, m2, 0xFF04, 0)
    } else if op & 0xC0 == 0x40 {
        if op == 0x76 {
            spec_same_data(c, c2)
        } else {
            let dest = spec_r8((op & 0x38) >> 3);
            let v = spec_get_r8(c, m, spec_r8(op & 0x07));
            c2.sp == c.sp && c2.flags == c.flags && c2.registers == spec_set_r8_regs(
                c.registers,
                dest,
                v,
            ) && (dest == R8::HLMem ==> spec_store(
                m,
                m2,
                (pair16(c.registers.h, c.registers.l)) as u16,
                v,
            ))
        }
    } else if op & 0xF8 == 0x80 {
        spec_alu_data(c, m, c2, op, AluOp::Add)
    } else if op & 0xF8 == 0x88 {
        spec_alu_data(c, m, c2, op, AluOp::Adc)
    } else if op & 0xF8 == 0x90 {
        spec_alu_data(c, m, c2, op, AluOp::Sub)
    } else if op & 0xF8 == 0x98 {
        spec_alu_data(c, m, c2, op, AluOp::Sbc)
    } else if op & 0xF8 == 0xA0 {
        spec_alu_data(c, m, c2, op, AluOp::And)
    } else if op & 0xF8 == 0xA8 {
        spec_alu_data(c, m, c2, op, AluOp::Xor)
    } else if op & 0xF8 == 0xB0 {
        spec_alu_data(c, m, c2, op, AluOp::Or)
    } else if op & 0xF8 == 0xB8 {
        spec_alu_data(c, m, c2, op, AluOp::Cp)
    } else if op == 0xC6 {
        spec_alu_imm_data(c, m, c2, AluOp::Add)
    } else if op == 0xCE {
        spec_alu_imm_data(c, m, c2, AluOp::Adc)
    } else if op == 0xD6 {
        spec_alu_imm_data(c, m, c2, AluOp::Sub)
    } else if op == 0xDE {
        spec_alu_imm_data(c, m, c2, AluOp::Sbc)
    } else if op == 0xE6 {
        spec_alu_imm_data(c, m, c2, AluOp::And)
    } else if op == 0xEE {
        spec_alu_imm_data(c, m, c2, AluOp::Xor)
    } else if op == 0xF6 {
        spec_alu_imm_data(c, m, c2, AluOp::Or)
    } else if op == 0xFE {
        spec_alu_imm_data(c, m, c2, AluOp::Cp)
    } else if op & 0xE7 == 0xC0 {
        c2.registers == c.registers && c2.flags == c.flags && c2.sp == (if spec_cond_taken(
            op,
            c.flags,
        ) {
            c.sp + 2
        } else {
            c.sp as int
        })
    } else if op == 0xC9 {
        c2.registers == c.registers && c2.flags == c.flags && c2.sp == c.sp + 2
    } else if op == 0xD9 {
        c2.registers == c.registers && c2.flags == c.flags && c2.sp == c.sp + 2
    } else if op & 0xE7 == 0xC2 {
        spec_same_data(c, c2)
    } else if op == 0xC3 {
        spec_same_data(c, c2)
    } else if op == 0xE9 {
        spec_same_data(c, c2)
    } else if op & 0xE7 == 0xC4 {
        c2.registers == c.registers && c2.flags == c.flags && (if spec_cond_taken(op, c.flags) {
            c2.sp == c.sp - 2 && spec_store2(
                m,
                m2,
                (c.sp - 1) as u16,
                (((c.pc + 3) as usize >> 8) & 0xFF) as u8,
                (c.sp - 2) as u16,
                ((c.pc + 3) as usize & 0xFF) as u8,
            )
        } else {
            c2.sp == c.sp
        })
    } else if op == 0xCD {
        c2.registers == c.registers && c2.flags == c.flags && c2.sp == c.sp - 2 && spec_store2(
            m,
            m2,
            (c.sp - 1) as u16,
            (((c.pc + 3) as usize >> 8) & 0xFF) as u8,
            (c.sp - 2) as u16,
            ((c.pc + 3) as usize & 0xFF) as u8,
        )
    } else if op & 0xC7 == 0xC7 {
        c2.registers == c.registers && c2.flags == c.flags && c2.sp == c.sp - 2 && spec_store2(
            m,
            m2,
            (c.sp - 1) as u16,
            (((c.pc + 1) as usize >> 8) & 0xFF) as u8,
            (c.sp - 2) as u16,
            ((c.pc + 1) as usize & 0xFF) as u8,
        )
    } else if op & 0xCF == 0xC1 {
        let lo = spec_read(m, c.sp as int);
        let hi = spec_read(m, c.sp + 1);
        c2.sp == c.sp + 2 && match spec_r16stk((op & 0x30) >> 4) {
            R16Stk::BC => c2.registers == (Registers { b: hi, c: lo, ..c.registers }) && c2.flags
                == c.flags,
            R16Stk::DE => c2.registers == (Registers { d: hi, e: lo, ..c.registers }) && c2.flags
                == c.flags,
            R16Stk::HL => c2.registers == (Registers { h: hi, l: lo, ..c.registers }) && c2.flags
                == c.flags,
            R16Stk::AF => c2.registers == (Registers { a: hi, ..c.registers }) && c2.flags
                == spec_flags_of(lo),
        }
    } else if op & 0xCF == 0xC5 {
        c2.registers == c.registers && c2.flags == c.flags && c2.sp == c.sp - 2 && spec_store2(
            m,
            m2,
            (c.sp - 1) as u16,
            spec_stk_hi(c, spec_r16stk((op & 0x30) >> 4)),
            (c.sp - 2) as u16,
            spec_stk_lo(c, spec_r16stk((op & 0x30) >> 4)),
        )
    } else if op == 0xE2 {
        spec_same_data(c, c2) && spec_store(
            m,
            m2,
            (0xFF00 + c.registers.c as int) as u16,
            c.registers.a,
        )
    } else if op == 0xE0 {
        spec_same_data(c, c2) && spec_store(
            m,
            m2,
            (0xFF00 + spec_read(m, c.pc + 1) as int) as u16,
            c.registers.a,
        )
    } else if op == 0xEA {
        spec_same_data(c, c2) && spec_store(
            m,
            m2,
            (spec_imm16(m, c.pc as int)) as u16,
            c.registers.a,
        )
    } else if op == 0xF2 {
        c2.flags == c.flags && c2.sp == c.sp && c2.registers == (Registers {
            a: spec_read(m, 0xFF00 + c.registers.c as int),
            ..c.registers
        })
    } else if op == 0xF0 {
        c2.flags == c.flags && c2.sp == c.sp && c2.registers == (Registers {
            a: spec_read(m, 0xFF00 + spec_read(m, c.pc + 1) as int),
            ..c.registers
        })
    } else if op == 0xFA {
        c2.flags == c.flags && c2.sp == c.sp && c2.registers == (Registers {
            a: spec_read(m, spec_imm16(m, c.pc as int)),
            ..c.registers
        })
    } else if op == 0xE8 {
        let prev = (c.sp & 0xFFFF) as u16;
        let imm = spec_read(m, c.pc + 1);
        c2.registers == c.registers && c2.sp == wrap16(prev + crate::alu::signed8(imm))
            && c2.flags == (Flags {
            z: false,
            n: false,
            h: crate::alu::spec_sp_h(prev, imm),
            c: crate::alu::spec_sp_c(prev, imm),
        })
    } else if op == 0xF8 {
        let prev = (c.sp & 0xFFFF) as u16;
        let imm = spec_read(m, c.pc + 1);
        c2.sp == c.sp && pair16(c2.registers.h, c2.registers.l) == wrap16(
            prev + crate::alu::signed8(imm),
        ) && c2.registers == (Registers {
            h: c2.registers.h,
            l: c2.registers.l,
            ..c.registers
        }) && c2.flags == (Flags {
            z: false,
            n: false,
            h: crate::alu::spec_sp_h(prev, imm),
            c: crate::alu::spec_sp_c(prev, imm),
        })
    } else if op == 0xF9 {
        c2.registers == c.registers && c2.flags == c.flags && c2.sp == pair16(
            c.registers.h,
            c.registers.l,
        )
    } else if op == 0xF3 {
        spec_same_data(c, c2)
    } else if op == 0xFB {
        spec_same_data(c, c2)
    } else if op == 0xCB {
        let operand = spec_r8(cb & 0x07);
        let v = spec_get_r8(c, m, operand);
        let nv = spec_cb_result(cb, v, c.flags.c);
        c2.sp == c.sp && c2.flags == spec_cb_flags(cb, v, c.flags) && c2.registers == (if cb
            & 0xC0 == 0x40 {
            c.registers
        } else {
            spec_set_r8_regs(c.registers, operand, nv)
        }) && (operand == R8::HLMem && cb & 0xC0 != 0x40 ==> spec_store(
            m,
            m2,
            (pair16(c.registers.h, c.registers.l)) as u16,
            nv,
        ))
    } else {
        spec_same_data(c, c2)
    }
}

/// The data effect of one register-operand accumulator operation.
pub open spec fn spec_alu_data(c: Cpu, m: &Mmu, c2: Cpu, op: u8, kind: AluOp) -> bool {
    let v = spec_get_r8(c, m, spec_r8(op & 0x07));
    c2.sp == c.sp && c2.registers == (Registers {
        a: (spec_alu_r(kind, c.registers.a, v, c.flags.c)) as u8,
        ..c.registers
    }) && c2.flags == spec_alu_f(kind, c.registers.a, v, c.flags.c)
}

/// The data effect of one immediate-operand accumulator operation.
pub open spec fn spec_alu_imm_data(c: Cpu, m: &Mmu, c2: Cpu, kind: AluOp) -> bool {
    let v = spec_read(m, c.pc + 1);
    c2.sp == c.sp && c2.registers == (Registers {
        a: (spec_alu_r(kind, c.registers.a, v, c.flags.c)) as u8,
        ..c.registers
    }) && c2.flags == spec_alu_f(kind, c.registers.a, v, c.flags.c)
}

/// Whether the instruction pushes onto the stack.
pub open spec fn spec_pushes(op: u8, f: Flags) -> bool {
    op & 0xCF == 0xC5 || op & 0xC7 == 0xC7 || op == 0xCD || (op & 0xE7 == 0xC4
        && spec_cond_taken(op, f))
}

/// Whether the instruction pops from the stack.
pub open spec fn spec_pops(op: u8, f: Flags) -> bool {
    op & 0xCF == 0xC1 || op == 0xC9 || op == 0xD9 || (op & 0xE7 == 0xC0 && spec_cond_taken(
        op,
        f,
    ))
}


/// The load families, 16-bit steps, and INC/DEC on 8-bit operands.
#[verifier::rlimit(100)]
fn execute_block_loads(state: &mut Cpu, mem: &mut Mmu, op: u8) -> (r: u64)
    requires
        old(mem).wf(),
        old(state).pc < 0x10000,
        op == spec_read(old(mem), old(state).pc as int),
        old(state).pc + spec_instr_len(op) <= 0x10000,
        op == 0x08 ==> spec_imm16(old(mem), old(state).pc as int) < 0xFFFF,
        spec_pushes(op, old(state).flags) ==> 2 <= old(state).sp <= 0x10000,
        spec_pops(op, old(state).flags) ==> old(state).sp + 1 < 0x10000,
        op == 0x00 || op & 0xCF == 0x01 || op & 0xCF == 0x02 || op & 0xCF == 0x0A || op == 0x08 || op & 0xCF == 0x03 || op & 0xCF == 0x0B || op & 0xCF == 0x09 || op & 0xC7 == 0x04 || op & 0xC7 == 0x05 || op & 0xC7 == 0x06,
    ensures
        final(mem).wf(),
        r == spec_m_cycles(op, spec_read(old(mem), old(state).pc + 1), old(state).flags),
        1 <= r <= 6,
        final(state).pc == spec_next_pc(*old(state), final(mem), op),
        final(state).halted == (old(state).halted || op == 0x76),
        final(state).stopped == old(state).stopped,
        final(state).ime == (if op == 0xF3 {
            false
        } else if op == 0xD9 {
            true
        } else {
            old(state).ime
        }),
        final(state).ime_delay == (old(state).ime_delay || op == 0xFB),
        final(state).clock_cycles == old(state).clock_cycles,
        !spec_writes_mem(op, spec_read(old(mem), old(state).pc + 1), old(state).flags) ==> *final(mem) == *old(mem),
        spec_data_effect(*old(state), old(mem), *final(state), final(mem)),
{
    proof {
        crate::bits::lemma_op_fields(op);
        crate::bits::lemma_opcode_coverage(op);
        crate::bits::lemma_arm_identities(op);
    }
    let clock_cycles: u64;
        if op == 0x00 {
            clock_cycles = 1;
            state.pc += 1;
        } else if op & 0xCF == 0x01 {
            let lo = mem.get(state.pc + 1);
            let hi = mem.get(state.pc + 2);
            let imm16 = crate::cpu::pack16(hi, lo);
            ld_r16(r16((op & 0x30) >> 4), state, imm16);
            clock_cycles = 3;
            state.pc += 3;
        } else if op & 0xCF == 0x02 {
            ld_r16_mem_a(r16_mem((op & 0x30) >> 4), state, mem);
            clock_cycles = 2;
            state.pc += 1;
        } else if op & 0xCF == 0x0A {
            ld_a_r16_mem(r16_mem((op & 0x30) >> 4), state, mem);
            clock_cycles = 2;
            state.pc += 1;
        } else if op == 0x08 {
            let lo = mem.get(state.pc + 1);
            let hi = mem.get(state.pc + 2);
            let addr = crate::cpu::pack16(hi, lo);
            ld_imm16_sp(state, mem, addr);
            clock_cycles = 5;
            state.pc += 3;
        } else if op & 0xCF == 0x03 {
            inc_r16(state, op);
            clock_cycles = 2;
            state.pc += 1;
        } else if op & 0xCF == 0x0B {
            dec_r16(state, op);
            clock_cycles = 2;
            state.pc += 1;
        } else if op & 0xCF == 0x09 {
            let hl = state.registers.get_hl();
            match r16((op & 0x30) >> 4) {
                R16::BC => {
                    let (h, l, cflag, hflag) = crate::cpu::add_8_8(
                        state.registers.b,
                        state.registers.c,
                        hl,
                    );
                    let v = crate::cpu::pack16(h, l);
                    state.registers.set_hl(v);
                    state.flags.n = false;
                    state.flags.c = cflag;
                    state.flags.h = hflag;
                },
                R16::DE => {
                    let (h, l, cflag, hflag) = crate::cpu::add_8_8(
                        state.registers.d,
                        state.registers.e,
                        hl,
                    );
                    let v = crate::cpu::pack16(h, l);
                    state.registers.set_hl(v);
                    state.flags.n = false;
                    state.flags.c = cflag;
                    state.flags.h = hflag;
                },
                R16::HL => {
                    let (h, l, cflag, hflag) = crate::cpu::add_8_8(
                        state.registers.h,
                        state.registers.l,
                        hl,
                    );
                    let v = crate::cpu::pack16(h, l);
                    state.registers.set_hl(v);
                    state.flags.n = false;
                    state.flags.c = cflag;
                    state.flags.h = hflag;
                },
                R16::SP => {
                    proof {
                        if state.sp <= 0xFFFF {
                            crate::bits::lemma_usize_split16(state.sp);
                        }
                    }
                    let (h, l, cflag, hflag) = crate::cpu::add_8_8(
                        #[verifier::truncate] ((state.sp >> 8) as u8),
                        #[verifier::truncate] ((state.sp & 0xFF) as u8),
                        hl,
                    );
                    let v = crate::cpu::pack16(h, l);
                    state.registers.set_hl(v);
                    state.flags.n = false;
                    state.flags.c = cflag;
                    state.flags.h = hflag;
                },
            }
            clock_cycles = 2;
            state.pc += 1;
        } else if op & 0xC7 == 0x04 {
            clock_cycles = inc_r8(state, mem, op);
            state.pc += 1;
        } else if op & 0xC7 == 0x05 {
            clock_cycles = dec_r8(state, mem, op);
            state.pc += 1;
        } else if op & 0xC7 == 0x06 {
            let v = mem.get(state.pc + 1);
            clock_cycles = ld_r8_imm(state, mem, op, v);
            state.pc += 2;
        } else {
        proof {
            assert(false);
        }
        clock_cycles = 1;
    }
    clock_cycles
}

/// Rotates on A, DAA, the flag toggles, relative jumps, STOP.
#[verifier::rlimit(100)]
fn execute_block_acc_flow(state: &mut Cpu, mem: &mut Mmu, op: u8) -> (r: u64)
    requires
        old(mem).wf(),
        old(state).pc < 0x10000,
        op == spec_read(old(mem), old(state).pc as int),
        old(state).pc + spec_instr_len(op) <= 0x10000,
        op == 0x08 ==> spec_imm16(old(mem), old(state).pc as int) < 0xFFFF,
        spec_pushes(op, old(state).flags) ==> 2 <= old(state).sp <= 0x10000,
        spec_pops(op, old(state).flags) ==> old(state).sp + 1 < 0x10000,
        op == 0x07 || op == 0x0F || op == 0x17 || op == 0x1F || op == 0x27 || op == 0x2F || op == 0x37 || op == 0x3F || op == 0x18 || op & 0xE7 == 0x20 || op == 0x10,
        !(op == 0x00 || op & 0xCF == 0x01 || op & 0xCF == 0x02 || op & 0xCF == 0x0A || op == 0x08 || op & 0xCF == 0x03 || op & 0xCF == 0x0B || op & 0xCF == 0x09 || op & 0xC7 == 0x04 || op & 0xC7 == 0x05 || op & 0xC7 == 0x06),
    ensures
        final(mem).wf(),
        r == spec_m_cycles(op, spec_read(old(mem), old(state).pc + 1), old(state).flags),
        1 <= r <= 6,
        final(state).pc == spec_next_pc(*old(state), final(mem), op),
        final(state).halted == (old(state).halted || op == 0x76),
        final(state).stopped == old(state).stopped,
        final(state).ime == (if op == 0xF3 {
            false
        } else if op == 0xD9 {
            true
        } else {
            old(state).ime
        }),
        final(state).ime_delay == (old(state).ime_delay || op == 0xFB),
        final(state).clock_cycles == old(state).clock_cycles,
        !spec_writes_mem(op, spec_read(old(mem), old(state).pc + 1), old(state).flags) ==> *final(mem) == *old(mem),
        spec_data_effect(*old(state), old(mem), *final(state), final(mem)),
{
    proof {
        crate::bits::lemma_op_fields(op);
        crate::bits::lemma_opcode_coverage(op);
        crate::bits::lemma_arm_identities(op);
    }
    let clock_cycles: u64;
        if op == 0x07 {
            let v = crate::alu::rotate_left(state, false, state.registers.a);
            state.registers.a = v;
            state.flags.z = false;
            state.flags.n = false;
            state.flags.h = false;
            clock_cycles = 1;
            state.pc += 1;
        } else if op == 0x0F {
            let v = crate::alu::rotate_right(state, false, state.registers.a);
            state.registers.a = v;
            state.flags.z = false;
            state.flags.n = false;
            state.flags.h = false;
            clock_cycles = 1;
            state.pc += 1;
        } else if op == 0x17 {
            let v = crate::alu::rotate_left(state, true, state.registers.a);
            state.registers.a = v;
            state.flags.z = false;
            state.flags.n = false;
            state.flags.h = false;
            clock_cycles = 1;
            state.pc += 1;
        } else if op == 0x1F {
            let v = crate::alu::rotate_right(state, true, state.registers.a);
            state.registers.a = v;
            state.flags.z = false;
            state.flags.n = false;
            state.flags.h = false;
            clock_cycles = 1;
            state.pc += 1;
        } else if op == 0x27 {
            if !state.flags.n {
                if state.flags.c || state.registers.a > 0x99 {
                    state.registers.a = state.registers.a.wrapping_add(0x60);
                    state.flags.c = true;
                }
                if state.flags.h || state.registers.a & 0x0F > 0x09 {
                    state.registers.a = state.registers.a.wrapping_add(0x06);
                }
            } else {
                if state.flags.c {
                    state.registers.a = state.registers.a.wrapping_sub(0x60);
                }
                if state.flags.h {
                    state.registers.a = state.registers.a.wrapping_sub(0x06);
                }
            }
            state.flags.z = state.registers.a == 0;
            state.flags.h = false;
            clock_cycles = 1;
            state.pc += 1;
        } else if op == 0x2F {
            state.registers.a = !state.registers.a;
            state.flags.n = true;
            state.flags.h = true;
            clock_cycles = 1;
            state.pc += 1;
        } else if op == 0x37 {
            state.flags.n = false;
            state.flags.h = false;
            state.flags.c = true;
            clock_cycles = 1;
            state.pc += 1;
        } else if op == 0x3F {
            state.flags.n = false;
            state.flags.h = false;
            state.flags.c = !state.flags.c;
            clock_cycles = 1;
            state.pc += 1;
        } else if op == 0x18 {
            jr(state, mem);
            clock_cycles = 3;
        } else if op & 0xE7 == 0x20 {
            clock_cycles = jr_cond(state, mem, op);
        } else if op == 0x10 {
            mem.set(0xFF04, 0);
            state.pc += 2;
            clock_cycles = 1;
        } else {
        proof {
            assert(false);
        }
        clock_cycles = 1;
    }
    clock_cycles
}

/// The register-to-register loads, HALT, and the accumulator block.
#[verifier::rlimit(100)]
fn execute_block_ld_alu(state: &mut Cpu, mem: &mut Mmu, op: u8) -> (r: u64)
    requires
        old(mem).wf(),
        old(state).pc < 0x10000,
        op == spec_read(old(mem), old(state).pc as int),
        old(state).pc + spec_instr_len(op) <= 0x10000,
        op == 0x08 ==> spec_imm16(old(mem), old(state).pc as int) < 0xFFFF,
        spec_pushes(op, old(state).flags) ==> 2 <= old(state).sp <= 0x10000,
        spec_pops(op, old(state).flags) ==> old(state).sp + 1 < 0x10000,
        op & 0xC0 == 0x40 || op & 0xF8 == 0x80 || op & 0xF8 == 0x88 || op & 0xF8 == 0x90 || op & 0xF8 == 0x98 || op & 0xF8 == 0xA0 || op & 0xF8 == 0xA8 || op & 0xF8 == 0xB0 || op & 0xF8 == 0xB8 || op == 0xC6 || op == 0xCE || op == 0xD6 || op == 0xDE || op == 0xE6 || op == 0xEE || op == 0xF6 || op == 0xFE,
        !(op == 0x00 || op & 0xCF == 0x01 || op & 0xCF == 0x02 || op & 0xCF == 0x0A || op == 0x08 || op & 0xCF == 0x03 || op & 0xCF == 0x0B || op & 0xCF == 0x09 || op & 0xC7 == 0x04 || op & 0xC7 == 0x05 || op & 0xC7 == 0x06 || op == 0x07 || op == 0x0F || op == 0x17 || op == 0x1F || op == 0x27 || op == 0x2F || op == 0x37 || op == 0x3F || op == 0x18 || op & 0xE7 == 0x20 || op == 0x10),
    ensures
        final(mem).wf(),
        r == spec_m_cycles(op, spec_read(old(mem), old(state).pc + 1), old(state).flags),
        1 <= r <= 6,
        final(state).pc == spec_next_pc(*old(state), final(mem), op),
        final(state).halted == (old(state).halted || op == 0x76),
        final(state).stopped == old(state).stopped,
        final(state).ime == (if op == 0xF3 {
            false
        } else if op == 0xD9 {
            true
        } else {
            old(state).ime
        }),
        final(state).ime_delay == (old(state).ime_delay || op == 0xFB),
        final(state).clock_cycles == old(state).clock_cycles,
        !spec_writes_mem(op, spec_read(old(mem), old(state).pc + 1), old(state).flags) ==> *final(mem) == *old(mem),
        spec_data_effect(*old(state), old(mem), *final(state), final(mem)),
{
    proof {
        crate::bits::lemma_op_fields(op);
        crate::bits::lemma_opcode_coverage(op);
        crate::bits::lemma_arm_identities(op);
    }
    let clock_cycles: u64;
        if op & 0xC0 == 0x40 {
            clock_cycles = ld_r8_r8(state, mem, op);
            state.pc += 1;
        } else if op & 0xF8 == 0x80 {
            let (f, c) = operate(state, mem, op, AluOp::Add);
            state.flags = f;
            clock_cycles = c;
            state.pc += 1;
        } else if op & 0xF8 == 0x88 {
            let (f, c) = operate(state, mem, op, AluOp::Adc);
            state.flags = f;
            clock_cycles = c;
            state.pc += 1;
        } else if op & 0xF8 == 0x90 {
            let (f, c) = operate(state, mem, op, AluOp::Sub);
            state.flags = f;
            clock_cycles = c;
            state.pc += 1;
        } else if op & 0xF8 == 0x98 {
            let (f, c) = operate(state, mem, op, AluOp::Sbc);
            state.flags = f;
            clock_cycles = c;
            state.pc += 1;
        } else if op & 0xF8 == 0xA0 {
            let (f, c) = operate(state, mem, op, AluOp::And);
            state.flags = f;
            clock_cycles = c;
            state.pc += 1;
        } else if op & 0xF8 == 0xA8 {
            let (f, c) = operate(state, mem, op, AluOp::Xor);
            state.flags = f;
            clock_cycles = c;
            state.pc += 1;
        } else if op & 0xF8 == 0xB0 {
            let (f, c) = operate(state, mem, op, AluOp::Or);
            state.flags = f;
            clock_cycles = c;
            state.pc += 1;
        } else if op & 0xF8 == 0xB8 {
            let (f, c) = operate(state, mem, op, AluOp::Cp);
            state.flags = f;
            clock_cycles = c;
            state.pc += 1;
        } else if op == 0xC6 {
            state.flags = operate_imm(state, mem, AluOp::Add);
            clock_cycles = 2;
            state.pc += 2;
        } else if op == 0xCE {
            state.flags = operate_imm(state, mem, AluOp::Adc);
            clock_cycles = 2;
            state.pc += 2;
        } else if op == 0xD6 {
            state.flags = operate_imm(state, mem, AluOp::Sub);
            clock_cycles = 2;
            state.pc += 2;
        } else if op == 0xDE {
            state.flags = operate_imm(state, mem, AluOp::Sbc);
            clock_cycles = 2;
            state.pc += 2;
        } else if op == 0xE6 {
            state.flags = operate_imm(state, mem, AluOp::And);
            clock_cycles = 2;
            state.pc += 2;
        } else if op == 0xEE {
            state.flags = operate_imm(state, mem, AluOp::Xor);
            clock_cycles = 2;
            state.pc += 2;
        } else if op == 0xF6 {
            state.flags = operate_imm(state, mem, AluOp::Or);
            clock_cycles = 2;
            state.pc += 2;
        } else if op == 0xFE {
            state.flags = operate_imm(state, mem, AluOp::Cp);
            clock_cycles = 2;
            state.pc += 2;
        } else {
        proof {
            assert(false);
        }
        clock_cycles = 1;
    }
    clock_cycles
}

/// Returns, jumps, calls, restarts, and the stack family.
#[verifier::rlimit(100)]
fn execute_block_flow(state: &mut Cpu, mem: &mut Mmu, op: u8) -> (r: u64)
    requires
        old(mem).wf(),
        old(state).pc < 0x10000,
        op == spec_read(old(mem), old(state).pc as int),
        old(state).pc + spec_instr_len(op) <= 0x10000,
        op == 0x08 ==> spec_imm16(old(mem), old(state).pc as int) < 0xFFFF,
        spec_pushes(op, old(state).flags) ==> 2 <= old(state).sp <= 0x10000,
        spec_pops(op, old(state).flags) ==> old(state).sp + 1 < 0x10000,
        op & 0xE7 == 0xC0 || op == 0xC9 || op == 0xD9 || op & 0xE7 == 0xC2 || op == 0xC3 || op == 0xE9 || op & 0xE7 == 0xC4 || op == 0xCD || op & 0xC7 == 0xC7 || op & 0xCF == 0xC1 || op & 0xCF == 0xC5,
        !(op == 0x00 || op & 0xCF == 0x01 || op & 0xCF == 0x02 || op & 0xCF == 0x0A || op == 0x08 || op & 0xCF == 0x03 || op & 0xCF == 0x0B || op & 0xCF == 0x09 || op & 0xC7 == 0x04 || op & 0xC7 == 0x05 || op & 0xC7 == 0x06 || op == 0x07 || op == 0x0F || op == 0x17 || op == 0x1F || op == 0x27 || op == 0x2F || op == 0x37 || op == 0x3F || op == 0x18 || op & 0xE7 == 0x20 || op == 0x10),
        !(op & 0xC0 == 0x40 || op & 0xF8 == 0x80 || op & 0xF8 == 0x88 || op & 0xF8 == 0x90 || op & 0xF8 == 0x98 || op & 0xF8 == 0xA0 || op & 0xF8 == 0xA8 || op & 0xF8 == 0xB0 || op & 0xF8 == 0xB8 || op == 0xC6 || op == 0xCE || op == 0xD6 || op == 0xDE || op == 0xE6 || op == 0xEE || op == 0xF6 || op == 0xFE),
    ensures
        final(mem).wf(),
        r == spec_m_cycles(op, spec_read(old(mem), old(state).pc + 1), old(state).flags),
        1 <= r <= 6,
        final(state).pc == spec_next_pc(*old(state), final(mem), op),
        final(state).halted == (old(state).halted || op == 0x76),
        final(state).stopped == old(state).stopped,
        final(state).ime == (if op == 0xF3 {
            false
        } else if op == 0xD9 {
            true
        } else {
            old(state).ime
        }),
        final(state).ime_delay == (old(state).ime_delay || op == 0xFB),
        final(state).clock_cycles == old(state).clock_cycles,
        !spec_writes_mem(op, spec_read(old(mem), old(state).pc + 1), old(state).flags) ==> *final(mem) == *old(mem),
        spec_data_effect(*old(state), old(mem), *final(state), final(mem)),
{
    proof {
        crate::bits::lemma_op_fields(op);
        crate::bits::lemma_opcode_coverage(op);
        crate::bits::lemma_arm_identities(op);
    }
    let clock_cycles: u64;
        if op & 0xE7 == 0xC0 {
            clock_cycles = ret_cond(state, mem, op);
        } else if op == 0xC9 {
            ret(state, mem);
            clock_cycles = 4;
        } else if op == 0xD9 {
            state.ime = true;
            ret(state, mem);
            clock_cycles = 4;
        } else if op & 0xE7 == 0xC2 {
            clock_cycles = jp_cond(state, mem, op);
        } else if op == 0xC3 {
            jp(state, mem);
            clock_cycles = 4;
        } else if op == 0xE9 {
            state.pc = state.registers.get_hl() as usize;
            clock_cycles = 1;
        } else if op & 0xE7 == 0xC4 {
            clock_cycles = call_cond(state, mem, op);
        } else if op == 0xCD {
            call(state, mem);
            clock_cycles = 6;
        } else if op & 0xC7 == 0xC7 {
            let ret_addr = state.pc + 1;
            let hi = #[verifier::truncate] (((ret_addr >> 8) & 0xFF) as u8);
            let lo = #[verifier::truncate] ((ret_addr & 0xFF) as u8);
            state.sp -= 1;
            mem.set(state.sp as u16, hi);
            let ghost mid = *mem;
            state.sp -= 1;
            mem.set(state.sp as u16, lo);
            proof {
                assert(spec_store(old(mem), &mid, (old(state).sp - 1) as u16, hi) && mid.wf()
                    && spec_store(&mid, mem, (old(state).sp - 2) as u16, lo));
            }
            clock_cycles = 4;
            state.pc = (op & 0x38) as usize;
        } else if op & 0xCF == 0xC1 {
            pop_r16stk(state, mem, op);
            clock_cycles = 3;
            state.pc += 1;
        } else if op & 0xCF == 0xC5 {
            push_r16stk(state, mem, op);
            clock_cycles = 4;
            state.pc += 1;
        } else {
        proof {
            assert(false);
        }
        clock_cycles = 1;
    }
    clock_cycles
}

/// The high-page loads, SP adjustments, interrupt latches, prefix page.
#[verifier::rlimit(100)]
fn execute_block_io(state: &mut Cpu, mem: &mut Mmu, op: u8) -> (r: u64)
    requires
        old(mem).wf(),
        old(state).pc < 0x10000,
        op == spec_read(old(mem), old(state).pc as int),
        old(state).pc + spec_instr_len(op) <= 0x10000,
        op == 0x08 ==> spec_imm16(old(mem), old(state).pc as int) < 0xFFFF,
        spec_pushes(op, old(state).flags) ==> 2 <= old(state).sp <= 0x10000,
        spec_pops(op, old(state).flags) ==> old(state).sp + 1 < 0x10000,
        op == 0xE2 || op == 0xE0 || op == 0xEA || op == 0xF2 || op == 0xF0 || op == 0xFA || op == 0xE8 || op == 0xF8 || op == 0xF9 || op == 0xF3 || op == 0xFB || op == 0xCB,
        !(op == 0x00 || op & 0xCF == 0x01 || op & 0xCF == 0x02 || op & 0xCF == 0x0A || op == 0x08 || op & 0xCF == 0x03 || op & 0xCF == 0x0B || op & 0xCF == 0x09 || op & 0xC7 == 0x04 || op & 0xC7 == 0x05 || op & 0xC7 == 0x06 || op == 0x07 || op == 0x0F || op == 0x17 || op == 0x1F || op == 0x27 || op == 0x2F || op == 0x37 || op == 0x3F || op == 0x18 || op & 0xE7 == 0x20 || op == 0x10),
        !(op & 0xC0 == 0x40 || op & 0xF8 == 0x80 || op & 0xF8 == 0x88 || op & 0xF8 == 0x90 || op & 0xF8 == 0x98 || op & 0xF8 == 0xA0 || op & 0xF8 == 0xA8 || op & 0xF8 == 0xB0 || op & 0xF8 == 0xB8 || op == 0xC6 || op == 0xCE || op == 0xD6 || op == 0xDE || op == 0xE6 || op == 0xEE || op == 0xF6 || op == 0xFE),
        !(op & 0xE7 == 0xC0 || op == 0xC9 || op == 0xD9 || op & 0xE7 == 0xC2 || op == 0xC3 || op == 0xE9 || op & 0xE7 == 0xC4 || op == 0xCD || op & 0xC7 == 0xC7 || op & 0xCF == 0xC1 || op & 0xCF == 0xC5),
    ensures
        final(mem).wf(),
        r == spec_m_cycles(op, spec_read(old(mem), old(state).pc + 1), old(state).flags),
        1 <= r <= 6,
        final(state).pc == spec_next_pc(*old(state), final(mem), op),
        final(state).halted == (old(state).halted || op == 0x76),
        final(state).stopped == old(state).stopped,
        final(state).ime == (if op == 0xF3 {
            false
        } else if op == 0xD9 {
            true
        } else {
            old(state).ime
        }),
        final(state).ime_delay == (old(state).ime_delay || op == 0xFB),
        final(state).clock_cycles == old(state).clock_cycles,
        !spec_writes_mem(op, spec_read(old(mem), old(state).pc + 1), old(state).flags) ==> *final(mem) == *old(mem),
        spec_data_effect(*old(state), old(mem), *final(state), final(mem)),
{
    proof {
        crate::bits::lemma_op_fields(op);
        crate::bits::lemma_opcode_coverage(op);
        crate::bits::lemma_arm_identities(op);
    }
    let clock_cycles: u64;
        if op == 0xE2 {
            mem.set(0xFF00 + state.registers.c as u16, state.registers.a);
            clock_cycles = 2;
            state.pc += 1;
        } else if op == 0xE0 {
            let addr = mem.get(state.pc + 1) as u16;
            mem.set(0xFF00 + addr, state.registers.a);
            clock_cycles = 3;
            state.pc += 2;
        } else if op == 0xEA {
            let lo = mem.get(state.pc + 1);
            let hi = mem.get(state.pc + 2);
            let addr = crate::cpu::pack16(hi, lo);
            mem.set(addr, state.registers.a);
            clock_cycles = 4;
            state.pc += 3;
        } else if op == 0xF2 {
            state.registers.a = mem.get(0xFF00 + state.registers.c as usize);
            clock_cycles = 2;
            state.pc += 1;
        } else if op == 0xF0 {
            let addr = mem.get(state.pc + 1) as usize;
            state.registers.a = mem.get(0xFF00 + addr);
            clock_cycles = 3;
            state.pc += 2;
        } else if op == 0xFA {
            let lo = mem.get(state.pc + 1);
            let hi = mem.get(state.pc + 2);
            let addr = crate::cpu::pack16(hi, lo);
            state.registers.a = mem.get(addr as usize);
            clock_cycles = 4;
            state.pc += 3;
        } else if op == 0xE8 {
            let imm = mem.get(state.pc + 1);
            let prev = #[verifier::truncate] ((state.sp & 0xFFFF) as u16);
            let (hf, cf) = crate::alu::sp_offset_flags(prev, imm);
            let result = crate::alu::add_signed16(prev, imm);
            state.sp = result as usize;
            state.flags.z = false;
            state.flags.n = false;
            state.flags.h = hf;
            state.flags.c = cf;
            clock_cycles = 4;
            state.pc += 2;
        } else if op == 0xF8 {
            let imm = mem.get(state.pc + 1);
            let prev = #[verifier::truncate] ((state.sp & 0xFFFF) as u16);
            let (hf, cf) = crate::alu::sp_offset_flags(prev, imm);
            let result = crate::alu::add_signed16(prev, imm);
            state.registers.set_hl(result);
            state.flags.z = false;
            state.flags.n = false;
            state.flags.h = hf;
            state.flags.c = cf;
            clock_cycles = 3;
            state.pc += 2;
        } else if op == 0xF9 {
            state.sp = state.registers.get_hl() as usize;
            clock_cycles = 2;
            state.pc += 1;
        } else if op == 0xF3 {
            state.ime = false;
            clock_cycles = 1;
            state.pc += 1;
        } else if op == 0xFB {
            state.ime_delay = true;
            clock_cycles = 1;
            state.pc += 1;
        } else if op == 0xCB {
            clock_cycles = execute_prefix_cb(state, mem);
            state.pc += 1;
        } else {
        proof {
            assert(false);
        }
        clock_cycles = 1;
    }
    clock_cycles
}

impl Cpu {
    /// Decodes and runs one instruction, applies its effects, advances PC,
    /// and returns the consumed T-cycles: four times the machine-cycle
    /// count of the canonical timing table.
    #[verifier::rlimit(100)]
    pub fn execute(&mut self, mem: &mut Mmu) -> (r: u64)
        requires
            old(mem).wf(),
            old(self).pc < 0x10000,
            spec_op_supported(spec_read(old(mem), old(self).pc as int)),
            old(self).pc + spec_instr_len(spec_read(old(mem), old(self).pc as int)) <= 0x10000,
            spec_read(old(mem), old(self).pc as int) == 0x08 ==> spec_imm16(
                old(mem),
                old(self).pc as int,
            ) < 0xFFFF,
            spec_pushes(spec_read(old(mem), old(self).pc as int), old(self).flags) ==> 2 <= old(self).sp <= 0x10000,
            spec_pops(spec_read(old(mem), old(self).pc as int), old(self).flags) ==> old(self).sp
                + 1 < 0x10000,
        ensures
            final(mem).wf(),
            r == 4 * spec_m_cycles(
                spec_read(old(mem), old(self).pc as int),
                spec_read(old(mem), old(self).pc + 1),
                old(self).flags,
            ),
            4 <= r <= 24,
            final(self).pc == spec_next_pc(
                *old(self),
                final(mem),
                spec_read(old(mem), old(self).pc as int),
            ),
            final(self).halted == (old(self).halted || spec_read(old(mem), old(self).pc as int)
                == 0x76),
            final(self).stopped == old(self).stopped,
            final(self).ime == (if spec_read(old(mem), old(self).pc as int) == 0xF3 {
                false
            } else if spec_read(old(mem), old(self).pc as int) == 0xD9 {
                true
            } else {
                old(self).ime
            }),
            final(self).ime_delay == (old(self).ime_delay || spec_read(
                old(mem),
                old(self).pc as int,
            ) == 0xFB),
            final(self).clock_cycles == vstd::wrapping::usize_specs::wrapping_add(
                old(self).clock_cycles,
                (spec_m_cycles(
                    spec_read(old(mem), old(self).pc as int),
                    spec_read(old(mem), old(self).pc + 1),
                    old(self).flags,
                )) as usize,
            ),
            !spec_writes_mem(
                spec_read(old(mem), old(self).pc as int),
                spec_read(old(mem), old(self).pc + 1),
                old(self).flags,
            ) ==> *final(mem) == *old(mem),
            spec_data_effect(*old(self), old(mem), *final(self), final(mem)),
    {
        let op = mem.get(self.pc);
        proof {
            crate::bits::lemma_opcode_coverage(op);
        }
        let m: u64;
        if op == 0x00 || op & 0xCF == 0x01 || op & 0xCF == 0x02 || op & 0xCF == 0x0A || op == 0x08 || op & 0xCF == 0x03 || op & 0xCF == 0x0B || op & 0xCF == 0x09 || op & 0xC7 == 0x04 || op & 0xC7 == 0x05 || op & 0xC7 == 0x06 {
            m = execute_block_loads(self, mem, op);
        } else if op == 0x07 || op == 0x0F || op == 0x17 || op == 0x1F || op == 0x27 || op == 0x2F || op == 0x37 || op == 0x3F || op == 0x18 || op & 0xE7 == 0x20 || op == 0x10 {
            m = execute_block_acc_flow(self, mem, op);
        } else if op & 0xC0 == 0x40 || op & 0xF8 == 0x80 || op & 0xF8 == 0x88 || op & 0xF8 == 0x90 || op & 0xF8 == 0x98 || op & 0xF8 == 0xA0 || op & 0xF8 == 0xA8 || op & 0xF8 == 0xB0 || op & 0xF8 == 0xB8 || op == 0xC6 || op == 0xCE || op == 0xD6 || op == 0xDE || op == 0xE6 || op == 0xEE || op == 0xF6 || op == 0xFE {
            m = execute_block_ld_alu(self, mem, op);
        } else if op & 0xE7 == 0xC0 || op == 0xC9 || op == 0xD9 || op & 0xE7 == 0xC2 || op == 0xC3 || op == 0xE9 || op & 0xE7 == 0xC4 || op == 0xCD || op & 0xC7 == 0xC7 || op & 0xCF == 0xC1 || op & 0xCF == 0xC5 {
            m = execute_block_flow(self, mem, op);
        } else if op == 0xE2 || op == 0xE0 || op == 0xEA || op == 0xF2 || op == 0xF0 || op == 0xFA || op == 0xE8 || op == 0xF8 || op == 0xF9 || op == 0xF3 || op == 0xFB || op == 0xCB {
            m = execute_block_io(self, mem, op);
        } else {
            proof {
                assert(false);
            }
            m = 1;
        }
        self.clock_cycles = self.clock_cycles.wrapping_add(m as usize);
        m * 4
    }
}

/// The line that interrupt dispatch will service: the highest-priority
/// one that is both pending in IF and enabled in IE.
pub open spec fn spec_first_enabled(ifb: u8, ieb: u8) -> Option<Interrupt> {
    if ifb & 0x01 != 0 && ieb & 0x01 != 0 {
        Some(Interrupt::VBlank)
    } else if ifb & 0x02 != 0 && ieb & 0x02 != 0 {
        Some(Interrupt::LcdStat)
    } else if ifb & 0x04 != 0 && ieb & 0x04 != 0 {
        Some(Interrupt::Timer)
    } else if ifb & 0x08 != 0 && ieb & 0x08 != 0 {
        Some(Interrupt::Serial)
    } else if ifb & 0x10 != 0 && ieb & 0x10 != 0 {
        Some(Interrupt::Joypad)
    } else {
        None
    }
}

impl Cpu {
    /// Services one line: acknowledges it in IF, drops IME, pushes PC
    /// little-endian, jumps to the vector, and charges the five machine
    /// cycles of the dispatch.
    pub fn handle_interrupt(&mut self, mem: &mut Mmu, interrupt: &Interrupt)
        requires
            old(mem).wf(),
            2 <= old(self).sp <= 0x10000,
        ensures
            final(mem).wf(),
            spec_store3(
                old(mem),
                final(mem),
                0xFF0F,
                old(mem)@[0xFF0F] & !spec_int_bit(*interrupt),
                (old(self).sp - 2) as u16,
                (old(self).pc & 0xFF) as u8,
                (old(self).sp - 1) as u16,
                #[verifier::truncate] ((old(self).pc >> 8) as u8),
            ),
            final(self).pc == spec_int_vector(*interrupt),
            final(self).sp == old(self).sp - 2,
            !final(self).ime,
            final(self).clock_cycles == vstd::wrapping::usize_specs::wrapping_add(
                old(self).clock_cycles,
                5,
            ),
            *final(self) == (Cpu {
                pc: final(self).pc,
                sp: final(self).sp,
                ime: false,
                clock_cycles: final(self).clock_cycles,
                ..*old(self)
            }),
    {
        let ghost m0 = *mem;
        interrupt.clear(mem);
        let ghost m1 = *mem;
        self.ime = false;
        self.sp -= 2;
        let lo = (self.pc & 0xFF) as u8;
        let hi = #[verifier::truncate] ((self.pc >> 8) as u8);
        mem.set(self.sp as u16, lo);
        let ghost m2 = *mem;
        mem.set(self.sp as u16 + 1, hi);
        self.pc = interrupt.address() as usize;
        self.clock_cycles = self.clock_cycles.wrapping_add(5);
        proof {
            assert(spec_store(&m1, &m2, (old(self).sp - 2) as u16, lo) && m2.wf() && spec_store(
                &m2,
                mem,
                (old(self).sp - 1) as u16,
                hi,
            ));
            assert(spec_store2(
                &m1,
                mem,
                (old(self).sp - 2) as u16,
                lo,
                (old(self).sp - 1) as u16,
                hi,
            ));
            assert(spec_store(
                &m0,
                &m1,
                0xFF0F,
                old(mem)@[0xFF0F] & !spec_int_bit(*interrupt),
            ) && m1.wf());
        }
    }

    /// Examines IE and IF: a pending enabled line leaves HALT; if IME is
    /// set, the highest-priority such line is serviced and IME drops, so
    /// at most one line is dispatched per call.  Returns the T-cycles the
    /// dispatch consumed: twenty (five machine cycles) when a line was
    /// serviced, zero otherwise.
    pub fn handle_interrupts(&mut self, mem: &mut Mmu) -> (r: u64)
        requires
            old(mem).wf(),
            old(self).ime && spec_first_enabled(old(mem)@[0xFF0F], old(mem)@[0xFFFF]).is_some()
                ==> 2 <= old(self).sp <= 0x10000,
        ensures
            final(mem).wf(),
            final(self).halted == (old(self).halted && old(mem)@[0xFF0F] & old(mem)@[0xFFFF]
                & 0x1F == 0),
            ({
                let svc = spec_first_enabled(old(mem)@[0xFF0F], old(mem)@[0xFFFF]);
                if old(self).ime && svc.is_some() {
                    &&& r == 20
                    &&& !final(self).ime
                    &&& final(self).pc == spec_int_vector(svc.unwrap())
                    &&& final(self).sp == old(self).sp - 2
                    &&& spec_store3(
                        old(mem),
                        final(mem),
                        0xFF0F,
                        old(mem)@[0xFF0F] & !spec_int_bit(svc.unwrap()),
                        (old(self).sp - 2) as u16,
                        (old(self).pc & 0xFF) as u8,
                        (old(self).sp - 1) as u16,
                        #[verifier::truncate] ((old(self).pc >> 8) as u8),
                    )
                    &&& final(self).clock_cycles
                        == vstd::wrapping::usize_specs::wrapping_add(old(self).clock_cycles, 5)
                    &&& *final(self) == (Cpu {
                        pc: final(self).pc,
                        sp: final(self).sp,
                        ime: false,
                        halted: final(self).halted,
                        clock_cycles: final(self).clock_cycles,
                        ..*old(self)
                    })
                } else {
                    &&& r == 0
                    &&& *final(mem) == *old(mem)
                    &&& *final(self) == (Cpu { halted: final(self).halted, ..*old(self) })
                }
            }),
    {
        let ifb = mem.get(0xFF0F);
        let ieb = mem.get(0xFFFF);
        if ifb & ieb & 0x1F != 0 {
            self.halted = false;
        }
        if self.ime {
            if ifb & 0x01 != 0 && ieb & 0x01 != 0 {
                self.handle_interrupt(mem, &Interrupt::VBlank);
                return 20;
            } else if ifb & 0x02 != 0 && ieb & 0x02 != 0 {
                self.handle_interrupt(mem, &Interrupt::LcdStat);
                return 20;
            } else if ifb & 0x04 != 0 && ieb & 0x04 != 0 {
                self.handle_interrupt(mem, &Interrupt::Timer);
                return 20;
            } else if ifb & 0x08 != 0 && ieb & 0x08 != 0 {
                self.handle_interrupt(mem, &Interrupt::Serial);
                return 20;
            } else if ifb & 0x10 != 0 && ieb & 0x10 != 0 {
                self.handle_interrupt(mem, &Interrupt::Joypad);
                return 20;
            }
        }
        0
    }
}

} // verus!
