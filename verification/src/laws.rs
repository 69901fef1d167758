//! The crate-level laws: properties that tie several components'
//! contracts together, each proved once and for all inputs.

use vstd::prelude::*;
use crate::alu::{spec_add_r, spec_add_f, spec_sub_r, spec_sub_f, spec_daa_r, spec_daa_f, spec_sp_c, spec_sp_h};
use crate::cpu::{Cpu, Flags, spec_f_register, spec_flags_of};
use crate::cpu_exec::{R16Stk, spec_m_cycles, spec_stk_hi, spec_stk_lo};
use crate::mmu::{Mmu, spec_plain_store, spec_read, spec_store, spec_store2};

verus! {

/// Every instruction consumes a strictly positive machine-cycle count,
/// and none takes more than six machine cycles: the timing table is
/// bounded for all processor states and all opcodes.
pub proof fn lemma_cycles_positive(op: u8, cb: u8, f: Flags)
    ensures
        1 <= spec_m_cycles(op, cb, f) <= 6,
{
}

/// The external-RAM gate: with a cartridge that has external RAM, after a
/// control write of `v` to the enable range, reads of the external window
/// return the stored byte exactly when the low nibble of `v` is 0xA, and
/// 0xFF otherwise.
pub proof fn lemma_ram_gate(m1: Mmu, m2: Mmu, ctrl: u16, v: u8, addr: int)
    requires
        m1.wf(),
        m1.mapped(),
        m1.has_cart_ram(),
        ctrl < 0x2000,
        spec_store(&m1, &m2, ctrl, v),
        0xA000 <= addr < 0xC000,
    ensures
        spec_read(&m2, addr) == (if v & 0x0F == 0x0A {
            m2@[addr]
        } else {
            0xFF
        }),
{
}

/// A pushed register pair reads back exactly from the stack, provided the
/// two stack cells are plain memory; the AF pair reads its flag nibble
/// back intact, and the low nibble of the pushed F byte is always zero.
pub proof fn lemma_push_pop_roundtrip(c: Cpu, m0: Mmu, m2: Mmu, s: R16Stk)
    requires
        m0.wf(),
        2 <= c.sp <= 0x10000,
        spec_plain_store(&m0, (c.sp - 1) as u16),
        spec_plain_store(&m0, (c.sp - 2) as u16),
        spec_store2(
            &m0,
            &m2,
            (c.sp - 1) as u16,
            spec_stk_hi(c, s),
            (c.sp - 2) as u16,
            spec_stk_lo(c, s),
        ),
    ensures
        spec_read(&m2, c.sp - 2) == spec_stk_lo(c, s),
        spec_read(&m2, c.sp - 1) == spec_stk_hi(c, s),
        s == R16Stk::AF ==> spec_flags_of(spec_read(&m2, c.sp - 2)) == c.flags && spec_read(
            &m2,
            c.sp - 2,
        ) & 0x0F == 0,
{
    let mid = choose|mid: Mmu|
        spec_store(&m0, &mid, (c.sp - 1) as u16, spec_stk_hi(c, s)) && mid.wf() && spec_store(
            &mid,
            &m2,
            (c.sp - 2) as u16,
            spec_stk_lo(c, s),
        );
    assert(spec_store(&m0, &mid, (c.sp - 1) as u16, spec_stk_hi(c, s)) && mid.wf()
        && spec_store(&mid, &m2, (c.sp - 2) as u16, spec_stk_lo(c, s)));
    if s == R16Stk::AF {
        let z: u8 = if c.flags.z {
            1
        } else {
            0
        };
        let n: u8 = if c.flags.n {
            1
        } else {
            0
        };
        let h: u8 = if c.flags.h {
            1
        } else {
            0
        };
        let cf: u8 = if c.flags.c {
            1
        } else {
            0
        };
        crate::bits::lemma_flag_pack(z, n, h, cf);
        crate::bits::lemma_flag_nonzero(z, n, h, cf);
    }
}

/// Decimal adjust repairs a BCD addition: for BCD operands up to 0x99,
/// ADD then DAA leaves the BCD encoding of the decimal sum modulo 100 in
/// the accumulator, the carry flag holds the decimal carry, and the zero
/// flag marks a zero decimal result.
pub proof fn lemma_daa_add_bcd(a: u8, b: u8)
    by (bit_vector)
    requires
        a <= 0x99,
        b <= 0x99,
        a & 0x0F <= 9,
        b & 0x0F <= 9,
    ensures
        ({
            let s = (a >> 4) * 10 + (a & 0x0F) + (b >> 4) * 10 + (b & 0x0F);
            let r = spec_add_r(a, b) as u8;
            let f = spec_add_f(a, b);
            &&& spec_daa_r(r, f) == ((s % 100) / 10) * 16 + s % 10
            &&& spec_daa_f(r, f).c == (s >= 100)
            &&& spec_daa_f(r, f).z == (s % 100 == 0)
        }),
{
}

/// Decimal adjust repairs a BCD subtraction: for BCD operands, SUB then
/// DAA leaves the BCD difference modulo 100 in the accumulator, and the
/// carry flag holds the decimal borrow.
pub proof fn lemma_daa_sub_bcd(a: u8, b: u8)
    by (bit_vector)
    requires
        a <= 0x99,
        b <= 0x99,
        a & 0x0F <= 9,
        b & 0x0F <= 9,
    ensures
        ({
            let va = (a >> 4) * 10 + (a & 0x0F);
            let vb = (b >> 4) * 10 + (b & 0x0F);
            let d = (va + 100 - vb) % 100;
            let r = spec_sub_r(a, b) as u8;
            let f = spec_sub_f(a, b);
            &&& spec_daa_r(r, f) == (d / 10) * 16 + d % 10
            &&& spec_daa_f(r, f).c == (va < vb)
        }),
{
}

/// Adding the offset byte -1 to SP carries from the low byte exactly when
/// that byte is at least one, and half-carries from the low nibble
/// exactly when that nibble is at least one.
pub proof fn lemma_sp_minus_one_flags(sp: u16)
    by (bit_vector)
    ensures
        spec_sp_c(sp, 0xFF) == (sp & 0xFF >= 1),
        spec_sp_h(sp, 0xFF) == (sp & 0x0F >= 1),
{
}

} // verus!
