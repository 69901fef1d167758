//! Bit-level facts used throughout the core.
//!
//! The instruction decoder and the memory-mapped registers live on masks and
//! shifts; the default solver treats those operators as opaque, so the facts
//! needed to justify decode bounds and byte packing are collected here as
//! bit-vector lemmas.

use vstd::prelude::*;

verus! {

/// Bounds of the fields that the opcode decoder extracts.
pub proof fn lemma_op_fields(op: u8)
    by (bit_vector)
    ensures
        op & 0x07 < 8,
        (op >> 3) & 0x07 < 8,
        (op & 0x38) >> 3 < 8,
        (op & 0x30) >> 4 < 4,
        (op & 0x18) >> 3 < 4,
        op & 0x1F < 0x20,
        op & 0x38 <= 0x38,
        op >> 6 < 4,
        op & 0x03 < 4,
{
}

/// A 16-bit value assembled from a high and a low byte takes them back apart.
pub proof fn lemma_pack16(hi: u8, lo: u8)
    by (bit_vector)
    ensures
        ((hi as u16) << 8 | lo as u16) >> 8 == hi as u16,
        ((hi as u16) << 8 | lo as u16) & 0xFF == lo as u16,
        (hi as u16) << 8 | lo as u16 == hi as u16 * 256 + lo as u16,
        ((hi as u16) << 8 | lo as u16) as usize == hi as usize * 256 + lo as usize,
{
}

/// A 16-bit value splits into its high and low bytes and reassembles.
pub proof fn lemma_split16(v: u16)
    by (bit_vector)
    ensures
        v >> 8 < 256,
        v & 0xFF < 256,
        v == (v >> 8) * 256 + (v & 0xFF),
        ((v >> 8) as u8 as u16) << 8 | (v & 0xFF) as u8 as u16 == v,
        (v >> 8) as u8 as u16 == v >> 8,
        (v & 0xFF) as u8 as u16 == v & 0xFF,
{
}

/// The low twelve bits of a 16-bit value, as mask and as remainder.
pub proof fn lemma_mask12(v: u16)
    by (bit_vector)
    ensures
        v & 0xFFF < 0x1000,
        v & 0xFFF == v % 0x1000,
{
}

/// Bounds of the low-nibble and low-byte masks of a 16-bit value.
pub proof fn lemma_low_masks(v: u16)
    by (bit_vector)
    ensures
        v & 0x0F <= 0x0F,
        v & 0xFF <= 0xFF,
{
}

/// Small shifts of one evaluate to the five interrupt masks.
pub proof fn lemma_small_shl()
    by (bit_vector)
    ensures
        1u8 << 0u8 == 0x01u8,
        1u8 << 1u8 == 0x02u8,
        1u8 << 2u8 == 0x04u8,
        1u8 << 3u8 == 0x08u8,
        1u8 << 4u8 == 0x10u8,
{
}

/// The prefixed-page family masks: a shift/rotate pattern is never a
/// BIT pattern.
pub proof fn lemma_cb_family(op: u8)
    by (bit_vector)
    ensures
        op & 0xF8 == 0x00 ==> op & 0xC0 != 0x40,
        op & 0xF8 == 0x08 ==> op & 0xC0 != 0x40,
        op & 0xF8 == 0x10 ==> op & 0xC0 != 0x40,
        op & 0xF8 == 0x18 ==> op & 0xC0 != 0x40,
        op & 0xF8 == 0x20 ==> op & 0xC0 != 0x40,
        op & 0xF8 == 0x28 ==> op & 0xC0 != 0x40,
        op & 0xF8 == 0x30 ==> op & 0xC0 != 0x40,
        op & 0xF8 == 0x38 ==> op & 0xC0 != 0x40,
        op & 0xC0 == 0x80 ==> op & 0xC0 != 0x40,
{
}

/// Every opcode is either one of the decoder's patterns or one of the
/// eleven holes in the map; and the HALT slot is exactly the LD [HL],[HL]
/// encoding.
pub proof fn lemma_opcode_coverage(op: u8)
    by (bit_vector)
    ensures
        op == 0x00 || op & 0xCF == 0x01 || op & 0xCF == 0x02 || op & 0xCF == 0x0A || op == 0x08
            || op & 0xCF == 0x03 || op & 0xCF == 0x0B || op & 0xCF == 0x09 || op & 0xC7 == 0x04
            || op & 0xC7 == 0x05 || op & 0xC7 == 0x06 || op == 0x07 || op == 0x0F || op == 0x17
            || op == 0x1F || op == 0x27 || op == 0x2F || op == 0x37 || op == 0x3F || op == 0x18
            || op & 0xE7 == 0x20 || op == 0x10 || op & 0xC0 == 0x40 || op & 0xF8 == 0x80
            || op & 0xF8 == 0x88 || op & 0xF8 == 0x90 || op & 0xF8 == 0x98 || op & 0xF8 == 0xA0
            || op & 0xF8 == 0xA8 || op & 0xF8 == 0xB0 || op & 0xF8 == 0xB8 || op == 0xC6
            || op == 0xCE || op == 0xD6 || op == 0xDE || op == 0xE6 || op == 0xEE || op == 0xF6
            || op == 0xFE || op & 0xE7 == 0xC0 || op == 0xC9 || op == 0xD9 || op & 0xE7 == 0xC2
            || op == 0xC3 || op == 0xE9 || op & 0xE7 == 0xC4 || op == 0xCD || op & 0xC7 == 0xC7
            || op & 0xCF == 0xC1 || op & 0xCF == 0xC5 || op == 0xE2 || op == 0xE0 || op == 0xEA
            || op == 0xF2 || op == 0xF0 || op == 0xFA || op == 0xE8 || op == 0xF8 || op == 0xF9
            || op == 0xF3 || op == 0xFB || op == 0xCB || op == 0xD3 || op == 0xDB || op == 0xDD
            || op == 0xE3 || op == 0xE4 || op == 0xEB || op == 0xEC || op == 0xED || op == 0xF4
            || op == 0xFC || op == 0xFD,
        (op & 0xC0 == 0x40 && (op & 0x38) >> 3 == 6 && op & 0x07 == 6) == (op == 0x76),
        (op & 0xCF == 0x03 && (op & 0x30) >> 4 == 3) == (op == 0x33),
{
}

/// A masked decode pattern never collides with the HALT, DI, RETI or
/// EI slots unless it contains them.
pub proof fn lemma_arm_identities(op: u8)
    by (bit_vector)
    ensures
        op & 0xCF == 0x01 ==> op != 0x76 && op != 0xF3 && op != 0xD9 && op != 0xFB,
        op & 0xCF == 0x02 ==> op != 0x76 && op != 0xF3 && op != 0xD9 && op != 0xFB,
        op & 0xCF == 0x0A ==> op != 0x76 && op != 0xF3 && op != 0xD9 && op != 0xFB,
        op & 0xCF == 0x03 ==> op != 0x76 && op != 0xF3 && op != 0xD9 && op != 0xFB,
        op & 0xCF == 0x0B ==> op != 0x76 && op != 0xF3 && op != 0xD9 && op != 0xFB,
        op & 0xCF == 0x09 ==> op != 0x76 && op != 0xF3 && op != 0xD9 && op != 0xFB,
        op & 0xC7 == 0x04 ==> op != 0x76 && op != 0xF3 && op != 0xD9 && op != 0xFB,
        op & 0xC7 == 0x05 ==> op != 0x76 && op != 0xF3 && op != 0xD9 && op != 0xFB,
        op & 0xC7 == 0x06 ==> op != 0x76 && op != 0xF3 && op != 0xD9 && op != 0xFB,
        op & 0xE7 == 0x20 ==> op != 0x76 && op != 0xF3 && op != 0xD9 && op != 0xFB,
        op & 0xC0 == 0x40 ==> op != 0xF3 && op != 0xD9 && op != 0xFB,
        op & 0xF8 == 0x80 ==> op != 0x76 && op != 0xF3 && op != 0xD9 && op != 0xFB,
        op & 0xF8 == 0x88 ==> op != 0x76 && op != 0xF3 && op != 0xD9 && op != 0xFB,
        op & 0xF8 == 0x90 ==> op != 0x76 && op != 0xF3 && op != 0xD9 && op != 0xFB,
        op & 0xF8 == 0x98 ==> op != 0x76 && op != 0xF3 && op != 0xD9 && op != 0xFB,
        op & 0xF8 == 0xA0 ==> op != 0x76 && op != 0xF3 && op != 0xD9 && op != 0xFB,
        op & 0xF8 == 0xA8 ==> op != 0x76 && op != 0xF3 && op != 0xD9 && op != 0xFB,
        op & 0xF8 == 0xB0 ==> op != 0x76 && op != 0xF3 && op != 0xD9 && op != 0xFB,
        op & 0xF8 == 0xB8 ==> op != 0x76 && op != 0xF3 && op != 0xD9 && op != 0xFB,
        op & 0xE7 == 0xC0 ==> op != 0x76 && op != 0xF3 && op != 0xD9 && op != 0xFB,
        op & 0xE7 == 0xC2 ==> op != 0x76 && op != 0xF3 && op != 0xD9 && op != 0xFB,
        op & 0xE7 == 0xC4 ==> op != 0x76 && op != 0xF3 && op != 0xD9 && op != 0xFB,
        op & 0xC7 == 0xC7 ==> op != 0x76 && op != 0xF3 && op != 0xD9 && op != 0xFB,
        op & 0xCF == 0xC1 ==> op != 0x76 && op != 0xF3 && op != 0xD9 && op != 0xFB,
        op & 0xCF == 0xC5 ==> op != 0x76 && op != 0xF3 && op != 0xD9 && op != 0xFB,
{
}

/// Composing the status byte: the mode bits land in bits 1-0, the
/// coincidence bit in bit 2, and the armed-source bits stay.
pub proof fn lemma_stat_compose(stat: u8, mode: u8, co: bool)
    by (bit_vector)
    requires
        mode < 4,
    ensures
        ((stat & 0xF8) | (if co { 0x04u8 } else { 0u8 }) | mode) & 0x03 == mode,
        (((stat & 0xF8) | (if co { 0x04u8 } else { 0u8 }) | mode) & 0x04 != 0) == co,
        ((stat & 0xF8) | (if co { 0x04u8 } else { 0u8 }) | mode) & 0xF8 == stat & 0xF8,
{
}

/// The tile-map address stays inside video RAM.
pub proof fn lemma_tilemap_addr(b: u16, y: u16, x: u16)
    by (bit_vector)
    requires
        b <= 1,
        y < 256,
        x < 256,
    ensures
        (0x9800u16 | (b << 10) | ((y >> 3) << 5) | (x >> 3)) < 0xA000,
{
}

/// The tile-data address stays inside the tile banks.
pub proof fn lemma_tiledata_addr(b: u16, tile: u16, fy: u16)
    by (bit_vector)
    requires
        b <= 1,
        tile < 256,
        fy < 8,
    ensures
        (0x8000u16 | (b << 12) | (tile << 4) | (fy << 1)) < 0xA000,
{
}

/// The sprite tile-data address stays inside the first tile bank.
pub proof fn lemma_sprite_addr(tile: u16, fy: u16)
    by (bit_vector)
    requires
        tile < 256,
        fy < 8,
    ensures
        (0x8000u16 | (tile << 4) | (fy << 1)) < 0x9000,
{
}

/// Raising the VBLANK line leaves its bit set through any later status
/// raise.
pub proof fn lemma_vblank_bit(v: u8, w: u8)
    by (bit_vector)
    ensures
        (v | 0x01) & 0x01 == 0x01,
        (w | 0x02) & 0x01 == w & 0x01,
        (w | 0x02) & 0x02 == 0x02,
{
}

/// Raising the timer line sets its bit.
pub proof fn lemma_timer_bit(v: u8)
    by (bit_vector)
    ensures
        (v | 0x04) & 0x04 == 0x04,
{
}

/// Reading the packed flag byte back through the flag-bit tests gives
/// the original bits.
pub proof fn lemma_flag_nonzero(z: u8, n: u8, h: u8, c: u8)
    by (bit_vector)
    requires
        z < 2,
        n < 2,
        h < 2,
        c < 2,
    ensures
        ((z << 7 | n << 6 | h << 5 | c << 4) & 0x80 != 0) == (z == 1),
        ((z << 7 | n << 6 | h << 5 | c << 4) & 0x40 != 0) == (n == 1),
        ((z << 7 | n << 6 | h << 5 | c << 4) & 0x20 != 0) == (h == 1),
        ((z << 7 | n << 6 | h << 5 | c << 4) & 0x10 != 0) == (c == 1),
{
}

/// The assembled 11-bit channel period stays below 0x800.
pub proof fn lemma_period_bound(lo: u8, hi: u8)
    by (bit_vector)
    ensures
        (((hi & 0x07) as u16) << 8 | lo as u16) < 0x800,
{
}

/// A right shift never grows a 16-bit value.
pub proof fn lemma_shr_le(v: u16, s: u8)
    by (bit_vector)
    requires
        s < 16,
    ensures
        v >> s <= v,
{
}

/// Shifting a nibble right keeps it a nibble.
pub proof fn lemma_shr_nibble(v: u8, s: u8)
    by (bit_vector)
    requires
        s < 8,
    ensures
        (v & 0x0F) >> s <= 0x0F,
        (v >> 4) >> s <= 0x0F,
{
}

/// A pointer-width value below 0x10000 splits into its high and low
/// bytes.
pub proof fn lemma_usize_split16(v: usize)
    by (bit_vector)
    requires
        v <= 0xFFFF,
    ensures
        (v >> 8) * 256 + (v & 0xFF) == v,
        v >> 8 <= 0xFF,
        v & 0xFF <= 0xFF,
{
}

/// The nibbles of a byte.
pub proof fn lemma_nibbles(v: u8)
    by (bit_vector)
    ensures
        v & 0x0F < 16,
        v >> 4 < 16,
        v & 0xF0 <= 0xF0,
        v == (v >> 4) * 16 + (v & 0x0F),
        (v & 0x0F) << 4 | (v & 0xF0) >> 4 == (v & 0x0F) * 16 + (v >> 4),
{
}

/// Packing the four flag bits into the high nibble of F and reading them back.
pub proof fn lemma_flag_pack(z: u8, n: u8, h: u8, c: u8)
    by (bit_vector)
    requires
        z < 2,
        n < 2,
        h < 2,
        c < 2,
    ensures
        ((z << 7 | n << 6 | h << 5 | c << 4) & 0x80) >> 7 == z,
        ((z << 7 | n << 6 | h << 5 | c << 4) & 0x40) >> 6 == n,
        ((z << 7 | n << 6 | h << 5 | c << 4) & 0x20) >> 5 == h,
        ((z << 7 | n << 6 | h << 5 | c << 4) & 0x10) >> 4 == c,
        (z << 7 | n << 6 | h << 5 | c << 4) & 0x0F == 0,
        (z << 7 | n << 6 | h << 5 | c << 4) & 0xF0 == (z << 7 | n << 6 | h << 5 | c << 4),
{
}

} // verus!
