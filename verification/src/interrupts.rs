//! The interrupt controller: five lines aggregated through IF (0xFF0F) and
//! gated by IE (0xFFFF), in strict priority order.

use vstd::prelude::*;
use crate::mmu::Mmu;

verus! {

/// The five interrupt lines, highest priority first.
#[derive(Debug, Clone, Copy, PartialEq, Eq, Structural)]
pub enum Interrupt {
    VBlank,
    LcdStat,
    Timer,
    Serial,
    Joypad,
}

/// The line's bit in IE and IF.
pub open spec fn spec_int_bit(i: Interrupt) -> u8 {
    match i {
        Interrupt::VBlank => 0x01,
        Interrupt::LcdStat => 0x02,
        Interrupt::Timer => 0x04,
        Interrupt::Serial => 0x08,
        Interrupt::Joypad => 0x10,
    }
}

/// The pending lines of an IF byte, highest priority first.
pub open spec fn spec_pending(b: u8) -> Seq<Interrupt> {
    (if b & 0x01 != 0 {
        seq![Interrupt::VBlank]
    } else {
        Seq::empty()
    }) + (if b & 0x02 != 0 {
        seq![Interrupt::LcdStat]
    } else {
        Seq::empty()
    }) + (if b & 0x04 != 0 {
        seq![Interrupt::Timer]
    } else {
        Seq::empty()
    }) + (if b & 0x08 != 0 {
        seq![Interrupt::Serial]
    } else {
        Seq::empty()
    }) + (if b & 0x10 != 0 {
        seq![Interrupt::Joypad]
    } else {
        Seq::empty()
    })
}

/// The pending interrupts in priority order, read from IF.
pub fn get_interrupts(mem: &Mmu) -> (r: Vec<Interrupt>)
    requires
        mem.wf(),
    ensures
        r@ == spec_pending(mem@[0xFF0F]),
{
    let byte = mem.get(0xFF0F);
    let mut interrupts: Vec<Interrupt> = Vec::new();
    if byte & 0x01 != 0 {
        interrupts.push(Interrupt::VBlank);
    }
    if byte & 0x02 != 0 {
        interrupts.push(Interrupt::LcdStat);
    }
    if byte & 0x04 != 0 {
        interrupts.push(Interrupt::Timer);
    }
    if byte & 0x08 != 0 {
        interrupts.push(Interrupt::Serial);
    }
    if byte & 0x10 != 0 {
        interrupts.push(Interrupt::Joypad);
    }
    proof {
        assert(interrupts@ =~= spec_pending(mem@[0xFF0F]));
    }
    interrupts
}

impl Interrupt {
    /// The line's bit position in IE and IF.
    pub fn priority(&self) -> (r: u8)
        ensures
            r < 5,
            (1u8 << r) == spec_int_bit(*self),
    {
        proof {
            crate::bits::lemma_small_shl();
        }
        match self {
            Interrupt::VBlank => 0,
            Interrupt::LcdStat => 1,
            Interrupt::Timer => 2,
            Interrupt::Serial => 3,
            Interrupt::Joypad => 4,
        }
    }

    /// The line's bit mask in IE and IF.
    pub fn bit(&self) -> (r: u8)
        ensures
            r == spec_int_bit(*self),
    {
        match self {
            Interrupt::VBlank => 0x01,
            Interrupt::LcdStat => 0x02,
            Interrupt::Timer => 0x04,
            Interrupt::Serial => 0x08,
            Interrupt::Joypad => 0x10,
        }
    }

    /// The service vector the line jumps to.
    pub fn address(&self) -> (r: u16)
        ensures
            r == spec_int_vector(*self),
    {
        match self {
            Interrupt::VBlank => 0x40,
            Interrupt::LcdStat => 0x48,
            Interrupt::Timer => 0x50,
            Interrupt::Serial => 0x58,
            Interrupt::Joypad => 0x60,
        }
    }

    /// Whether the line is both enabled in IE and pending in IF.
    pub fn enabled(&self, mem: &Mmu) -> (r: bool)
        requires
            mem.wf(),
    ensures
            r == (mem@[0xFFFF] & spec_int_bit(*self) != 0 && mem@[0xFF0F] & spec_int_bit(*self)
                != 0),
    {
        let b = self.bit();
        let ie = mem.get(0xFFFF) & b != 0;
        let if_ = mem.get(0xFF0F) & b != 0;
        ie && if_
    }

    /// Acknowledges the line: clears its bit in IF.
    pub fn clear(&self, mem: &mut Mmu)
        requires
            old(mem).wf(),
        ensures
            final(mem).wf(),
            crate::mmu::spec_store(
                old(mem),
                final(mem),
                0xFF0F,
                old(mem)@[0xFF0F] & !spec_int_bit(*self),
            ),
            final(mem)@ == old(mem)@.update(
                0xFF0F,
                old(mem)@[0xFF0F] & !spec_int_bit(*self),
            ),
    {
        let b = self.bit();
        let if_ = mem.get(0xFF0F);
        mem.set(0xFF0F, if_ & !b);
    }

    /// Raises the line: sets its bit in IF.
    pub fn trigger(&self, mem: &mut Mmu)
        requires
            old(mem).wf(),
        ensures
            final(mem).wf(),
            crate::mmu::spec_store(
                old(mem),
                final(mem),
                0xFF0F,
                old(mem)@[0xFF0F] | spec_int_bit(*self),
            ),
            final(mem)@ == old(mem)@.update(
                0xFF0F,
                old(mem)@[0xFF0F] | spec_int_bit(*self),
            ),
    {
        let b = self.bit();
        let if_ = mem.get(0xFF0F);
        mem.set(0xFF0F, if_ | b);
    }
}

/// The service vector of each line.
pub open spec fn spec_int_vector(i: Interrupt) -> u16 {
    match i {
        Interrupt::VBlank => 0x40,
        Interrupt::LcdStat => 0x48,
        Interrupt::Timer => 0x50,
        Interrupt::Serial => 0x58,
        Interrupt::Joypad => 0x60,
    }
}

} // verus!
