//! The timer: DIV driven from the cycle counter through the memory unit,
//! and TIMA counting at the rate TAC selects, reloading from TMA and
//! raising the timer interrupt on overflow.

use vstd::prelude::*;
use vstd::arithmetic::div_mod::{
    lemma_fundamental_div_mod_converse,
    lemma_mod_sub_multiples_vanish,
    lemma_small_mod,
};
use crate::interrupts::Interrupt;
use crate::mmu::Mmu;

verus! {

/// The TIMA divider register.
pub const TIMA: usize = 0xFF05;

/// The TIMA reload value.
pub const TMA: usize = 0xFF06;

/// The timer control register.
pub const TAC: usize = 0xFF07;

/// The cycle period TAC bits 1-0 select, in T-cycles.
pub open spec fn spec_tac_period(tac: u8) -> int {
    if tac & 0x03 == 0 {
        1024
    } else if tac & 0x03 == 1 {
        16
    } else if tac & 0x03 == 2 {
        64
    } else {
        256
    }
}

/// The timer's private accumulator toward the next TIMA tick.
pub struct Timer {
    cycle_accum: u32,
}

impl Timer {
    /// The accumulated cycles toward the next tick.
    pub closed spec fn spec_accum(&self) -> u32 {
        self.cycle_accum
    }

    /// A timer with nothing accumulated.
    pub fn new() -> (r: Self)
        ensures
            r.spec_accum() == 0,
    {
        Timer { cycle_accum: 0 }
    }

    /// Advances TIMA by a cycle count when TAC enables it; on each
    /// overflow TIMA reloads from TMA and the timer interrupt is raised.
    /// The divider behind 0xFF04 advances unconditionally.
    pub fn step(&mut self, mem: &mut Mmu, t_cycles: u16)
        requires
            old(mem).wf(),
            old(self).spec_accum() + t_cycles <= u32::MAX,
        ensures
            final(mem).wf(),
            ({
                let tac = old(mem)@[TAC as int];
                let period = spec_tac_period(tac);
                &&& (tac & 0x04 == 0 ==> final(self).spec_accum() == old(self).spec_accum())
                &&& (tac & 0x04 != 0 ==> final(self).spec_accum() == (old(self).spec_accum()
                    + t_cycles) % period && final(self).spec_accum() < period)
                // One elapsed period steps TIMA once: a plain increment, or
                // the TMA reload with the interrupt raised on wrap.
                &&& (tac & 0x04 != 0 && old(self).spec_accum() + t_cycles < 2 * period && old(self).spec_accum() + t_cycles >= period ==> (if old(mem)@[TIMA as int] == 0xFF {
                    final(mem)@[TIMA as int] == old(mem)@[TMA as int] && final(mem)@[0xFF0F]
                        & 0x04 == 0x04
                } else {
                    final(mem)@[TIMA as int] == old(mem)@[TIMA as int] + 1
                }))
                // No full period: TIMA stands still.
                &&& (tac & 0x04 == 0 || old(self).spec_accum() + t_cycles < period ==> final(mem)@[TIMA as int] == old(mem)@[TIMA as int])
                // However many periods elapse, TIMA adds one per period as
                // long as it stays below the overflow.
                &&& (tac & 0x04 != 0 && old(mem)@[TIMA as int] + (old(self).spec_accum()
                    + t_cycles) / period <= 0xFF ==> final(mem)@[TIMA as int]
                    == old(mem)@[TIMA as int] + (old(self).spec_accum() + t_cycles) / period)
                // When one overflow falls among the elapsed periods, TIMA
                // continues from the TMA reload and the interrupt is up.
                &&& (tac & 0x04 != 0 && old(mem)@[TIMA as int] + (old(self).spec_accum()
                    + t_cycles) / period > 0xFF && old(mem)@[TMA as int] + ((old(
                    self,
                ).spec_accum() + t_cycles) / period - (0x100 - old(mem)@[TIMA as int])) <= 0xFF
                    ==> final(mem)@[TIMA as int] == old(mem)@[TMA as int] + ((old(
                    self,
                ).spec_accum() + t_cycles) / period - (0x100 - old(mem)@[TIMA as int]))
                    && final(mem)@[0xFF0F] & 0x04 == 0x04)
                // The divider advances by the same cycles and surfaces its
                // upper byte.
                &&& final(mem).div_count() == crate::cpu::wrap16(
                    old(mem).div_count() + t_cycles,
                ) as u16
                &&& final(mem)@[0xFF04] == (final(mem).div_count() >> 8) as u8
            }),
    {
        mem.tick_div(t_cycles);
        let ghost mem1 = *mem;
        let tac = mem.get(TAC);
        if tac & 0x04 != 0 {
            let period: u32 = if tac & 0x03 == 0 {
                1024
            } else if tac & 0x03 == 1 {
                16
            } else if tac & 0x03 == 2 {
                64
            } else {
                256
            };
            self.cycle_accum = self.cycle_accum + t_cycles as u32;
            let ghost start = self.cycle_accum;
            let ghost mut ticks: int = 0;
            while self.cycle_accum >= period
                invariant
                    mem.wf(),
                    16 <= period <= 1024,
                    period == spec_tac_period(tac),
                    self.cycle_accum as int % (period as int) == start as int % (period as int),
                    self.cycle_accum <= start,
                    start - self.cycle_accum == ticks * period,
                    ticks >= 0,
                    ticks >= 1 ==> start >= period,
                    start < 2 * period && ticks == 1 ==> (if mem1@[TIMA as int] == 0xFF {
                        mem@[TIMA as int] == mem1@[TMA as int] && mem@[0xFF0F] & 0x04 == 0x04
                    } else {
                        mem@[TIMA as int] == mem1@[TIMA as int] + 1
                    }),
                    mem1@[TIMA as int] + ticks <= 0xFF ==> mem@[TIMA as int]
                        == mem1@[TIMA as int] + ticks,
                    mem1@[TIMA as int] + ticks > 0xFF && mem1@[TMA as int] + (ticks - (0x100
                        - mem1@[TIMA as int])) <= 0xFF ==> mem@[TIMA as int]
                        == mem1@[TMA as int] + (ticks - (0x100 - mem1@[TIMA as int]))
                        && mem@[0xFF0F] & 0x04 == 0x04,
                    mem@[TMA as int] == mem1@[TMA as int],
                    ticks == 0 ==> *mem == mem1,
                    mem@[TAC as int] == mem1@[TAC as int],
                    mem@[0xFF04] == mem1@[0xFF04],
                    mem.div_count() == mem1.div_count(),
                decreases self.cycle_accum,
            {
                proof {
                    lemma_mod_sub_multiples_vanish(self.cycle_accum as int, period as int);
                }
                self.cycle_accum = self.cycle_accum - period;
                let tima = mem.get(TIMA);
                if tima == 0xFF {
                    let tma = mem.get(TMA);
                    mem.set(TIMA as u16, tma);
                    let ghost if_cur = mem@[0xFF0F];
                    Interrupt::Timer.trigger(mem);
                    proof {
                        crate::bits::lemma_timer_bit(if_cur);
                    }
                } else {
                    mem.set(TIMA as u16, tima + 1);
                }
                proof {
                    ticks = ticks + 1;
                }
            }
            proof {
                lemma_small_mod(self.cycle_accum as nat, period as nat);
                lemma_fundamental_div_mod_converse(
                    start as int,
                    period as int,
                    ticks,
                    self.cycle_accum as int,
                );
                if period <= start < 2 * period {
                    assert(ticks == 1) by (nonlinear_arith)
                        requires
                            start - self.cycle_accum == ticks * period,
                            0 <= self.cycle_accum < period,
                            period <= start < 2 * period,
                    ;
                }
            }
        }
    }
}

} // verus!
