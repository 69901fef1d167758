//! The audio generator's decision logic: period assembly, the frequency
//! sweep, the volume envelope, duty selection, wave-table reads, and the
//! 512 Hz frame-sequencer derivation from DIV.
//!
//! Sample synthesis itself runs at the host rate in host code; everything
//! here maps register bytes and channel state to the next integer channel
//! state, so the synthesis layer only evaluates a wave at a frequency the
//! core has already fixed.

use vstd::prelude::*;

verus! {

/// The 11-bit period of a pulse or wave channel, assembled from its low
/// register and the low three bits of its high register.
pub fn period_value(nrx3: u8, nrx4: u8) -> (r: u16)
    ensures
        r == ((nrx4 & 0x07) as u16) << 8 | nrx3 as u16,
        r < 0x800,
{
    proof {
        crate::bits::lemma_period_bound(nrx3, nrx4);
    }
    ((nrx4 & 0x07) as u16) << 8 | nrx3 as u16
}

/// One frequency-sweep step: the shifted period is added to or taken from
/// the current one; an additive overflow past 0x7FF disables the channel.
pub fn sweep_next(initial: u16, shift: u8, increase: bool) -> (r: (u16, bool))
    requires
        initial < 0x800,
        shift < 16,
    ensures
        increase ==> r.0 == initial + (initial >> shift) && r.1 == (r.0 > 0x7FF),
        !increase ==> r.0 == initial - (initial >> shift) && !r.1,
{
    proof {
        crate::bits::lemma_shr_le(initial, shift);
    }
    if increase {
        let next = initial + (initial >> shift);
        (next, next > 0x7FF)
    } else {
        (initial - (initial >> shift), false)
    }
}

/// One envelope step: the volume moves one unit toward its rail and
/// saturates at 0 and 15.
pub fn envelope_step(volume: u8, increasing: bool) -> (r: u8)
    ensures
        increasing ==> r == (if volume >= 15 {
            15u8
        } else {
            (volume + 1) as u8
        }),
        !increasing ==> r == (if volume == 0 {
            0u8
        } else {
            (volume - 1) as u8
        }),
{
    if increasing {
        if volume >= 15 {
            15
        } else {
            volume + 1
        }
    } else {
        if volume == 0 {
            0
        } else {
            volume - 1
        }
    }
}

/// The duty index of a pulse channel: bits 7-6 of its length/duty
/// register, selecting 12.5, 25, 50 or 75 percent.
pub fn duty_index(nrx1: u8) -> (r: u8)
    ensures
        r == nrx1 >> 6,
        r < 4,
{
    proof {
        crate::bits::lemma_op_fields(nrx1);
    }
    nrx1 >> 6
}

/// The wave channel's right-shift for its volume code: mute, full, half,
/// quarter.
pub fn wave_volume_shift(nr32: u8) -> (r: u8)
    ensures
        nr32 & 0x60 == 0x00 ==> r == 4,
        nr32 & 0x60 == 0x20 ==> r == 0,
        nr32 & 0x60 == 0x40 ==> r == 1,
        nr32 & 0x60 == 0x60 ==> r == 2,
        r <= 4,
{
    let code = nr32 & 0x60;
    if code == 0x00 {
        4
    } else if code == 0x20 {
        0
    } else if code == 0x40 {
        1
    } else {
        2
    }
}

/// One 4-bit sample from the 32-entry wave table: even positions read the
/// low nibble, odd ones the high nibble, shifted by the volume code.
pub fn wave_sample(wave_ram: &Vec<u8>, position: usize, shift: u8) -> (r: u8)
    requires
        wave_ram@.len() == 16,
        position < 32,
        shift < 8,
    ensures
        position % 2 == 0 ==> r == (wave_ram@[position as int / 2] & 0x0F) >> shift,
        position % 2 == 1 ==> r == (wave_ram@[position as int / 2] >> 4) >> shift,
        r <= 0x0F,
{
    proof {
        crate::bits::lemma_nibbles(wave_ram@[position as int / 2]);
        crate::bits::lemma_shr_nibble(wave_ram@[position as int / 2], shift);
    }
    let byte = wave_ram[position / 2];
    if position % 2 == 0 {
        (byte & 0x0F) >> shift
    } else {
        (byte >> 4) >> shift
    }
}

/// The 512 Hz tick of the frame sequencer: a falling edge of DIV bit 4.
pub fn div_apu_tick(last_div: u8, div: u8) -> (r: bool)
    ensures
        r == (last_div & 0x10 == 0x10 && div & 0x10 == 0),
{
    last_div & 0x10 == 0x10 && div & 0x10 == 0
}

/// Which units a frame-sequencer step clocks: the length counter on even
/// steps, the envelope on step seven, the sweep on steps two and six.
pub fn sequencer_ticks(step: u8) -> (r: (bool, bool, bool))
    requires
        step < 8,
    ensures
        r.0 == (step % 2 == 0),
        r.1 == (step == 7),
        r.2 == (step == 2 || step == 6),
{
    (step % 2 == 0, step == 7, step == 2 || step == 6)
}

/// One pulse channel's integer state between frame-sequencer ticks.
#[derive(Debug, Clone, Copy, PartialEq, Eq, Structural)]
pub struct PulseChannelState {
    pub enabled: bool,
    pub volume: u8,
    pub env_increasing: bool,
    pub env_pace: u8,
    pub env_count: u8,
    pub sweep_count: u8,
}

impl PulseChannelState {
    /// A silent, disabled channel.
    pub fn new() -> (r: Self)
        ensures
            r == spec_pulse_reset(),
    {
        PulseChannelState {
            enabled: false,
            volume: 0,
            env_increasing: false,
            env_pace: 0,
            env_count: 0,
            sweep_count: 0,
        }
    }
}

/// The reset state of a pulse channel.
pub open spec fn spec_pulse_reset() -> PulseChannelState {
    PulseChannelState {
        enabled: false,
        volume: 0,
        env_increasing: false,
        env_pace: 0,
        env_count: 0,
        sweep_count: 0,
    }
}

/// One 512 Hz frame-sequencer tick of a pulse channel over its register
/// bytes: the trigger and DAC gates, the 64 Hz envelope at step seven,
/// and for channel one the 128 Hz sweep at steps two and six.  Returns
/// the next state and, when the sweep rewrote the period, the new low
/// and high period register bytes.
pub open spec fn spec_pulse_tick(
    st: PulseChannelState,
    nr10: u8,
    nrx2: u8,
    nrx3: u8,
    nrx4: u8,
    channel1: bool,
    step: u8,
) -> (PulseChannelState, Option<(u8, u8)>) {
    // A set trigger bit restarts the channel from its registers.
    let st1 = if nrx4 & 0x80 != 0 {
        PulseChannelState {
            enabled: true,
            volume: nrx2 >> 4,
            env_increasing: nrx2 & 0x08 != 0,
            env_pace: nrx2 & 0x07,
            env_count: 0,
            sweep_count: 0,
        }
    } else {
        st
    };
    // A zeroed DAC silences the channel.
    let st2 = if nrx2 & 0xF8 == 0 {
        PulseChannelState { enabled: false, ..st1 }
    } else {
        st1
    };
    // The envelope moves the volume one unit toward its rail on its pace.
    let st3 = if step == 7 && st2.env_pace != 0 {
        if st2.env_count + 1 >= st2.env_pace {
            PulseChannelState {
                env_count: 0,
                volume: (if st2.env_increasing {
                    if st2.volume >= 15 {
                        15u8
                    } else {
                        (st2.volume + 1) as u8
                    }
                } else {
                    if st2.volume == 0 {
                        0u8
                    } else {
                        (st2.volume - 1) as u8
                    }
                }),
                ..st2
            }
        } else {
            PulseChannelState { env_count: (st2.env_count + 1) as u8, ..st2 }
        }
    } else {
        st2
    };
    // The sweep shifts the period on its pace and disables the channel on
    // overflow past the 11-bit range.
    if channel1 && (step == 2 || step == 6) && (nr10 >> 4) & 0x07 != 0 {
        if st3.sweep_count + 1 >= (nr10 >> 4) & 0x07 {
            let p = (((nrx4 & 0x07) as u16) << 8 | nrx3 as u16) as int;
            let shifted = ((((nrx4 & 0x07) as u16) << 8 | nrx3 as u16) >> (nr10 & 0x07)) as int;
            if nr10 & 0x08 == 0 {
                if p + shifted > 0x7FF {
                    (
                        PulseChannelState { sweep_count: 0, enabled: false, ..st3 },
                        None,
                    )
                } else {
                    (
                        PulseChannelState { sweep_count: 0, ..st3 },
                        Some(
                            (
                                ((p + shifted) as u16 & 0xFF) as u8,
                                (nrx4 & 0xC0) | (((p + shifted) as u16 >> 8) & 0x07) as u8,
                            ),
                        ),
                    )
                }
            } else {
                (
                    PulseChannelState { sweep_count: 0, ..st3 },
                    Some(
                        (
                            ((p - shifted) as u16 & 0xFF) as u8,
                            (nrx4 & 0xC0) | (((p - shifted) as u16 >> 8) & 0x07) as u8,
                        ),
                    ),
                )
            }
        } else {
            (PulseChannelState { sweep_count: (st3.sweep_count + 1) as u8, ..st3 }, None)
        }
    } else {
        (st3, None)
    }
}

/// Runs one frame-sequencer tick of a pulse channel: reads the channel's
/// registers, applies the trigger, DAC, envelope and sweep rules, writes
/// a swept period back to the period registers, and keeps the channel's
/// bit in the sound-on register in step with the enable flag.
pub fn pulse_frame_tick(
    st: &mut PulseChannelState,
    mem: &mut crate::mmu::Mmu,
    channel1: bool,
    step: u8,
)
    requires
        old(mem).wf(),
        step < 8,
        old(st).env_pace < 8,
        old(st).env_count < 8,
        old(st).sweep_count < 8,
    ensures
        final(mem).wf(),
        ({
            let nrx2_a: int = if channel1 { 0xFF12 } else { 0xFF17 };
            let nrx3_a: int = if channel1 { 0xFF13 } else { 0xFF18 };
            let nrx4_a: int = if channel1 { 0xFF14 } else { 0xFF19 };
            let chbit: u8 = if channel1 { 0x01 } else { 0x02 };
            let tick = spec_pulse_tick(
                *old(st),
                old(mem)@[0xFF10],
                old(mem)@[nrx2_a],
                old(mem)@[nrx3_a],
                old(mem)@[nrx4_a],
                channel1,
                step,
            );
            let written = (match tick.1 {
                Some(wb) => old(mem)@.update(nrx3_a, wb.0).update(nrx4_a, wb.1),
                None => old(mem)@,
            });
            &&& *final(st) == tick.0
            &&& final(mem)@ == written.update(
                0xFF26,
                (old(mem)@[0xFF26] & !chbit) | (if tick.0.enabled {
                    chbit
                } else {
                    0u8
                }),
            )
        }),
{
    let nrx2_addr: usize = if channel1 {
        0xFF12
    } else {
        0xFF17
    };
    let nrx3_addr: usize = if channel1 {
        0xFF13
    } else {
        0xFF18
    };
    let nrx4_addr: usize = if channel1 {
        0xFF14
    } else {
        0xFF19
    };
    let chbit: u8 = if channel1 {
        0x01
    } else {
        0x02
    };
    let nr10 = mem.get(0xFF10);
    let nrx2 = mem.get(nrx2_addr);
    let nrx3 = mem.get(nrx3_addr);
    let nrx4 = mem.get(nrx4_addr);
    if nrx4 & 0x80 != 0 {
        st.enabled = true;
        st.volume = nrx2 >> 4;
        st.env_increasing = nrx2 & 0x08 != 0;
        st.env_pace = nrx2 & 0x07;
        st.env_count = 0;
        st.sweep_count = 0;
    }
    if nrx2 & 0xF8 == 0 {
        st.enabled = false;
    }
    proof {
        crate::bits::lemma_op_fields(nrx2);
    }
    if step == 7 && st.env_pace != 0 {
        if st.env_count + 1 >= st.env_pace {
            st.env_count = 0;
            st.volume = envelope_step(st.volume, st.env_increasing);
        } else {
            st.env_count = st.env_count + 1;
        }
    }
    proof {
        crate::bits::lemma_op_fields(nr10);
        crate::bits::lemma_op_fields((nr10 >> 4));
    }
    if channel1 && (step == 2 || step == 6) && (nr10 >> 4) & 0x07 != 0 {
        if st.sweep_count + 1 >= (nr10 >> 4) & 0x07 {
            st.sweep_count = 0;
            let p = period_value(nrx3, nrx4);
            let (np, overflow) = sweep_next(p, nr10 & 0x07, nr10 & 0x08 == 0);
            if overflow {
                st.enabled = false;
            } else {
                mem.set(nrx3_addr as u16, (np & 0xFF) as u8);
                mem.set(nrx4_addr as u16, (nrx4 & 0xC0) | ((np >> 8) & 0x07) as u8);
            }
        } else {
            st.sweep_count = st.sweep_count + 1;
        }
    }
    let nr52 = mem.get(0xFF26);
    let v52 = (nr52 & !chbit) | (if st.enabled {
        chbit
    } else {
        0u8
    });
    mem.set(0xFF26, v52);
}

} // verus!
