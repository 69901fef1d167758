//! CPU state: registers, flags, and the 8/16-bit pairing helpers.
//!
//! The processor keeps seven 8-bit registers paired into BC, DE and HL,
//! a flag nibble, a program counter, a stack pointer, the interrupt master
//! enable latch with its one-instruction delay slot, and the HALT and STOP
//! latches.  The reset values follow the canonical post-boot state.

use vstd::prelude::*;

verus! {

/// The 16-bit number formed by a high and a low byte.
pub open spec fn pair16(hi: u8, lo: u8) -> int {
    hi * 256 + lo
}

/// One step of 16-bit wrap-around: sound for any value within one
/// wrap of the 16-bit range, which covers a sum of two 16-bit values
/// as well as a single decrement.
pub open spec fn wrap16(v: int) -> int {
    if v >= 0x10000 {
        v - 0x10000
    } else if v < 0 {
        v + 0x10000
    } else {
        v
    }
}

/// One step of 8-bit wrap-around, sound within one wrap of the 8-bit range.
pub open spec fn wrap8(v: int) -> int {
    if v >= 0x100 {
        v - 0x100
    } else if v < 0 {
        v + 0x100
    } else {
        v
    }
}

/// The Z, N, H, C flags, packed into the high nibble of F on the wire.
#[derive(Debug, Clone, Copy, PartialEq, Eq, Structural)]
pub struct Flags {
    pub z: bool,
    pub n: bool,
    pub h: bool,
    pub c: bool,
}

impl Default for Flags {
    /// All four flags cleared.
    fn default() -> (r: Self)
        ensures
            r == (Flags { z: false, n: false, h: false, c: false }),
    {
        Flags { z: false, n: false, h: false, c: false }
    }
}

/// The eight-bit register file (F is kept as [`Flags`] instead).
#[derive(Debug, Clone, Copy, PartialEq, Eq, Structural)]
pub struct Registers {
    pub a: u8,
    pub b: u8,
    pub c: u8,
    pub d: u8,
    pub e: u8,
    pub h: u8,
    pub l: u8,
}

impl Default for Registers {
    /// The canonical post-boot register file: A=0x01, BC=0x0013,
    /// DE=0x00D8, HL=0x014D.
    fn default() -> (r: Self)
        ensures
            r == (Registers {
                a: 0x01,
                b: 0x00,
                c: 0x13,
                d: 0x00,
                e: 0xD8,
                h: 0x01,
                l: 0x4D,
            }),
    {
        Registers { a: 0x01, b: 0x00, c: 0x13, d: 0x00, e: 0xD8, h: 0x01, l: 0x4D }
    }
}

/// Packs a high and a low byte into one 16-bit value.
pub fn pack16(hi: u8, lo: u8) -> (r: u16)
    ensures
        r == pair16(hi, lo),
{
    proof {
        crate::bits::lemma_pack16(hi, lo);
    }
    (hi as u16) << 8 | lo as u16
}

/// Adds `val` to the 16-bit pair `x:y`, wrapping, and reports the carry out
/// of bit 15 and the carry out of bit 11.
pub fn add_8_8(x: u8, y: u8, val: u16) -> (r: (u8, u8, bool, bool))
    ensures
        pair16(r.0, r.1) == wrap16(pair16(x, y) + val),
        r.2 == (pair16(x, y) + val > 0xFFFF),
        r.3 == ((pair16(x, y) % 0x1000) + (val % 0x1000) > 0xFFF),
{
    let a: u16 = pack16(x, y);
    let result: u16 = a.wrapping_add(val);
    let overflow: bool = a as u32 + val as u32 > 0xFFFF;
    let half: bool = (a & 0xFFF) as u32 + (val & 0xFFF) as u32 > 0xFFF;
    proof {
        crate::bits::lemma_split16(result);
        crate::bits::lemma_mask12(a);
        crate::bits::lemma_mask12(val);
        crate::bits::lemma_split16(a);
    }
    ((result >> 8) as u8, (result & 0xFF) as u8, overflow, half)
}

/// Increments the 16-bit pair `x:y`, wrapping at 0xFFFF.
pub fn inc_8_8(x: u8, y: u8) -> (r: (u8, u8))
    ensures
        pair16(r.0, r.1) == wrap16(pair16(x, y) + 1),
{
    if y == 0xFF {
        if x == 0xFF {
            (0, 0)
        } else {
            (x + 1, 0)
        }
    } else {
        (x, y + 1)
    }
}

/// Decrements the 16-bit pair `x:y`, wrapping at 0.
pub fn dec_8_8(x: u8, y: u8) -> (r: (u8, u8))
    ensures
        pair16(r.0, r.1) == wrap16(pair16(x, y) - 1),
{
    if y == 0 {
        if x == 0 {
            (0xFF, 0xFF)
        } else {
            (x - 1, 0xFF)
        }
    } else {
        (x, y - 1)
    }
}

/// 1 for a set flag, 0 for a clear one.
pub fn flag_to_u8(x: bool) -> (r: u8)
    ensures
        r == (if x { 1u8 } else { 0u8 }),
{
    if x {
        1u8
    } else {
        0u8
    }
}

impl Registers {
    /// The BC pair.
    pub fn get_bc(&self) -> (r: u16)
        ensures
            r == pair16(self.b, self.c),
    {
        pack16(self.b, self.c)
    }

    /// Stores a 16-bit value into the BC pair.
    pub fn set_bc(&mut self, val: u16)
        ensures
            pair16(final(self).b, final(self).c) == val,
            *final(self) == (Registers { b: final(self).b, c: final(self).c, ..*old(self) }),
    {
        proof {
            crate::bits::lemma_split16(val);
        }
        self.b = (val >> 8) as u8;
        self.c = (val & 0xFF) as u8;
    }

    /// The DE pair.
    pub fn get_de(&self) -> (r: u16)
        ensures
            r == pair16(self.d, self.e),
    {
        pack16(self.d, self.e)
    }

    /// Stores a 16-bit value into the DE pair.
    pub fn set_de(&mut self, val: u16)
        ensures
            pair16(final(self).d, final(self).e) == val,
            *final(self) == (Registers { d: final(self).d, e: final(self).e, ..*old(self) }),
    {
        proof {
            crate::bits::lemma_split16(val);
        }
        self.d = (val >> 8) as u8;
        self.e = (val & 0xFF) as u8;
    }

    /// The HL pair.
    pub fn get_hl(&self) -> (r: u16)
        ensures
            r == pair16(self.h, self.l),
    {
        pack16(self.h, self.l)
    }

    /// Stores a 16-bit value into the HL pair.
    pub fn set_hl(&mut self, val: u16)
        ensures
            pair16(final(self).h, final(self).l) == val,
            *final(self) == (Registers { h: final(self).h, l: final(self).l, ..*old(self) }),
    {
        proof {
            crate::bits::lemma_split16(val);
        }
        self.h = (val >> 8) as u8;
        self.l = (val & 0xFF) as u8;
    }

    /// Increments HL, wrapping at 0xFFFF.
    pub fn inc_hl(&mut self)
        ensures
            pair16(final(self).h, final(self).l) == wrap16(pair16(old(self).h, old(self).l) + 1),
            *final(self) == (Registers { h: final(self).h, l: final(self).l, ..*old(self) }),
    {
        let (h, l) = inc_8_8(self.h, self.l);
        self.h = h;
        self.l = l;
    }

    /// Decrements HL, wrapping at 0.
    pub fn dec_hl(&mut self)
        ensures
            pair16(final(self).h, final(self).l) == wrap16(pair16(old(self).h, old(self).l) - 1),
            *final(self) == (Registers { h: final(self).h, l: final(self).l, ..*old(self) }),
    {
        let (h, l) = dec_8_8(self.h, self.l);
        self.h = h;
        self.l = l;
    }
}

/// The full processor state.
#[derive(Debug, Clone, Copy, PartialEq, Eq, Structural)]
pub struct Cpu {
    pub registers: Registers,
    pub flags: Flags,
    pub pc: usize,
    pub sp: usize,
    pub ime: bool,
    pub ime_delay: bool,
    pub halted: bool,
    pub stopped: bool,
    pub clock_cycles: usize,
}

impl Default for Cpu {
    /// The post-boot state: AF=0x01B0 (Z, H and C set), BC=0x0013,
    /// DE=0x00D8, HL=0x014D, SP=0xFFFE, PC=0x0100, IME off.
    fn default() -> (r: Self)
        ensures
            r.registers == (Registers {
                a: 0x01,
                b: 0x00,
                c: 0x13,
                d: 0x00,
                e: 0xD8,
                h: 0x01,
                l: 0x4D,
            }),
            r.flags == (Flags { z: true, n: false, h: true, c: true }),
            r.pc == 0x0100,
            r.sp == 0xFFFE,
            !r.ime,
            !r.ime_delay,
            !r.halted,
            !r.stopped,
            r.clock_cycles == 0,
    {
        Cpu {
            registers: Registers::default(),
            flags: Flags { z: true, n: false, h: true, c: true },
            pc: 0x0100,
            sp: 0xFFFE,
            ime: false,
            ime_delay: false,
            halted: false,
            stopped: false,
            clock_cycles: 0,
        }
    }
}

impl Cpu {
    /// A processor in the canonical post-boot state: AF=0x01B0 (Z, H and
    /// C set), BC=0x0013, DE=0x00D8, HL=0x014D, SP=0xFFFE, PC=0x0100,
    /// IME off; the same state [`Cpu::default`] gives.
    pub fn new() -> (r: Self)
        ensures
            r.registers == (Registers {
                a: 0x01,
                b: 0x00,
                c: 0x13,
                d: 0x00,
                e: 0xD8,
                h: 0x01,
                l: 0x4D,
            }),
            r.flags == (Flags { z: true, n: false, h: true, c: true }),
            r.pc == 0x0100,
            r.sp == 0xFFFE,
            !r.ime,
            !r.ime_delay,
            !r.halted,
            !r.stopped,
            r.clock_cycles == 0,
    {
        Cpu {
            registers: Registers::default(),
            flags: Flags { z: true, n: false, h: true, c: true },
            pc: 0x0100,
            sp: 0xFFFE,
            ime: false,
            ime_delay: false,
            halted: false,
            stopped: false,
            clock_cycles: 0,
        }
    }

    /// The F register: Z, N, H, C packed into bits 7 to 4, low nibble zero.
    pub fn get_f_register(&self) -> (r: u8)
        ensures
            r == spec_f_register(self.flags),
            r & 0x0F == 0,
            r & 0xF0 == r,
    {
        let b7: u8 = if self.flags.z { 1 } else { 0 };
        let b6: u8 = if self.flags.n { 1 } else { 0 };
        let b5: u8 = if self.flags.h { 1 } else { 0 };
        let b4: u8 = if self.flags.c { 1 } else { 0 };
        proof {
            crate::bits::lemma_flag_pack(b7, b6, b5, b4);
        }
        b7 << 7 | b6 << 6 | b5 << 5 | b4 << 4
    }

    /// Commits a pending interrupt enable: EI takes effect only after the
    /// instruction that follows it has completed.
    pub fn enable_ime_delayed(&mut self)
        ensures
            final(self).ime == (old(self).ime || old(self).ime_delay),
            !final(self).ime_delay,
            *final(self) == (Cpu {
                ime: final(self).ime,
                ime_delay: false,
                ..*old(self)
            }),
    {
        if self.ime_delay {
            self.ime = true;
            self.ime_delay = false;
        }
    }
}

/// The wire value of the F register for a given flag state.
pub open spec fn spec_f_register(f: Flags) -> u8 {
    ((if f.z { 1u8 } else { 0u8 }) << 7 | (if f.n { 1u8 } else { 0u8 }) << 6 | (if f.h {
        1u8
    } else {
        0u8
    }) << 5 | (if f.c { 1u8 } else { 0u8 }) << 4)
}

/// The flag state read back from a wire F value: bits 7 to 4.
pub open spec fn spec_flags_of(v: u8) -> Flags {
    Flags {
        z: v & 0x80 != 0,
        n: v & 0x40 != 0,
        h: v & 0x20 != 0,
        c: v & 0x10 != 0,
    }
}

} // verus!
