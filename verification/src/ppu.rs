//! The pixel pipeline: a scanline-driven mode machine with background and
//! sprite FIFOs, a staged fetcher, and a published 160x144 RGB frame.
//!
//! Each scanline spends 80 cycles scanning OAM, a variable pixel-transfer
//! stretch, and the rest in horizontal blank; the three always total 456
//! cycles.  Ten lines of vertical blank follow line 143, and entry into
//! vertical blank raises the VBLANK interrupt and completes the frame.

use vstd::prelude::*;
use crate::interrupts::Interrupt;
use crate::mmu::{Mmu, spec_read};

verus! {

/// The LCD control register.
pub const LCDC: usize = 0xFF40;

/// The LCD status register.
pub const STAT: usize = 0xFF41;

/// Background vertical scroll.
pub const SCY: usize = 0xFF42;

/// Background horizontal scroll.
pub const SCX: usize = 0xFF43;

/// The current scanline.
pub const LY: usize = 0xFF44;

/// The scanline-compare register.
pub const LYC: usize = 0xFF45;

/// Background palette.
pub const BGP: usize = 0xFF47;

/// First object palette.
pub const OBP0: usize = 0xFF48;

/// Second object palette.
pub const OBP1: usize = 0xFF49;

/// Window top line.
pub const WY: usize = 0xFF4A;

/// Window left column plus seven.
pub const WX: usize = 0xFF4B;

/// Which palette register colours a queued pixel.
#[derive(Debug, Clone, Copy, PartialEq, Eq, Structural)]
pub enum Palette {
    Obp0,
    Obp1,
    Bgp,
}

/// One queued pixel: a 2-bit colour index, its palette, and the sprite
/// priority bit.
#[derive(Debug, Clone, Copy, PartialEq, Eq, Structural)]
pub struct Pixel {
    pub color: u8,
    pub palette: Palette,
    pub priority: bool,
}

/// One sprite table entry.
#[derive(Debug, Clone, Copy, PartialEq, Eq, Structural)]
pub struct Oam {
    pub y: u8,
    pub x: u8,
    pub tile: u8,
    pub flags: u8,
}

/// Reads one sprite entry from the object attribute table.
pub fn read_oam(mem: &Mmu, address: usize) -> (r: Oam)
    requires
        mem.wf(),
        address + 3 < 0x10000,
    ensures
        r == (Oam {
            y: spec_read(mem, address as int),
            x: spec_read(mem, address + 1),
            tile: spec_read(mem, address + 2),
            flags: spec_read(mem, address + 3),
        }),
{
    Oam {
        y: mem.get(address),
        x: mem.get(address + 1),
        tile: mem.get(address + 2),
        flags: mem.get(address + 3),
    }
}

/// Extracts one bit of a byte as 0 or 1.
pub fn get_bit(value: u8, bit: u8) -> (r: u8)
    requires
        bit < 8,
    ensures
        r == (if value & (1u8 << bit) != 0 {
            1u8
        } else {
            0u8
        }),
{
    if value & (1u8 << bit) != 0 {
        1
    } else {
        0
    }
}

/// The mode machine: object scan, pixel transfer, horizontal blank,
/// vertical blank.
#[derive(Debug, Clone, Copy, PartialEq, Eq, Structural)]
pub enum PpuMode {
    HBlank,
    VBlank,
    OamScan,
    PixelTransfer,
}

/// The mode bits the status register shows for each mode.
pub open spec fn spec_mode_code(m: PpuMode) -> u8 {
    match m {
        PpuMode::HBlank => 0,
        PpuMode::VBlank => 1,
        PpuMode::OamScan => 2,
        PpuMode::PixelTransfer => 3,
    }
}

/// Extra pixel-transfer cycles never stretch past the whole blank budget.
pub open spec fn spec_clamp_extra(e: int) -> int {
    if e > 204 {
        204
    } else {
        e
    }
}

/// The length of pixel transfer for a given extra-cycle count.
pub open spec fn spec_mode3_len(extra: int) -> int {
    172 + spec_clamp_extra(extra)
}

/// The length of horizontal blank for the same extra-cycle count.
pub open spec fn spec_hblank_len(extra: int) -> int {
    204 - spec_clamp_extra(extra)
}

/// Every scanline totals 456 cycles: the 80-cycle object scan, the
/// stretched pixel transfer, and the shrunken horizontal blank.
pub proof fn lemma_scanline_total(extra: int)
    ensures
        80 + spec_mode3_len(extra) + spec_hblank_len(extra) == 456,
{
}

/// Whether the status register arms an interrupt for this mode entry:
/// an armed coincidence source on a match, or the armed source of the
/// entered mode.
pub open spec fn spec_stat_raise(stat: u8, mode: u8, co: bool) -> bool {
    (co && stat & 0x40 != 0) || (mode == 0 && stat & 0x08 != 0) || (mode == 1 && stat & 0x10
        != 0) || (mode == 2 && stat & 0x20 != 0)
}

/// Whether a sprite entry is taken by the object scan for line `ly`:
/// a sprite at X zero is culled whatever its vertical span, and the
/// vertical span of 8 or 16 pixels must cover the line.
pub open spec fn spec_sprite_selected(e: Oam, ly: u8, tall: bool) -> bool {
    let height: int = if tall {
        16
    } else {
        8
    };
    e.x > 0 && ly + 16 > e.y && ly + 16 <= e.y + height
}

/// The raw sprite entry at table slot `i`.
pub open spec fn spec_oam_raw(m: &Mmu, i: int) -> Oam {
    Oam {
        y: spec_read(m, 0xFE00 + i * 4),
        x: spec_read(m, 0xFE00 + i * 4 + 1),
        tile: spec_read(m, 0xFE00 + i * 4 + 2),
        flags: spec_read(m, 0xFE00 + i * 4 + 3),
    }
}

/// A selected entry as the scan keeps it: in tall mode the tile index's
/// low bit is rewritten for the half of the double sprite the line falls
/// in.
pub open spec fn spec_oam_adjusted(e: Oam, ly: u8, tall: bool) -> Oam {
    if tall {
        if ly + 16 < e.y + 8 {
            Oam { tile: e.tile & 0xFE, ..e }
        } else {
            Oam { tile: e.tile | 0x01, ..e }
        }
    } else {
        e
    }
}

/// The object scan's result over the first `n` table slots: every
/// selected entry, in table order, capped at ten.
pub open spec fn spec_scan_list(m: &Mmu, ly: u8, tall: bool, n: int) -> Seq<Oam>
    decreases n,
{
    if n <= 0 {
        Seq::empty()
    } else {
        let rest = spec_scan_list(m, ly, tall, n - 1);
        let e = spec_oam_raw(m, n - 1);
        if spec_sprite_selected(e, ly, tall) && rest.len() < 10 {
            rest.push(spec_oam_adjusted(e, ly, tall))
        } else {
            rest
        }
    }
}

/// The pixel pipeline state.
pub struct Ppu {
    bg_fifo: Vec<Pixel>,
    sprite_fifo: Vec<Pixel>,
    sprite_buffer: Vec<Oam>,
    mode: PpuMode,
    pixel_buffer: Vec<u8>,
    lx: u8,
    window_counter: u8,
    window_seen: bool,
    tall_sprites: bool,
    cycle_counter: u32,
    mode3_extra: u32,
}

impl Ppu {
    /// The frame buffer is always exactly 160 x 144 RGB triples.
    pub closed spec fn wf(&self) -> bool {
        &&& self.pixel_buffer@.len() == 160 * 144 * 3
        &&& self.mode3_extra <= 204
    }

    /// The current mode.
    pub closed spec fn spec_mode(&self) -> PpuMode {
        self.mode
    }

    /// The window line counter.
    pub closed spec fn spec_window_counter(&self) -> u8 {
        self.window_counter
    }

    /// Whether the window fetcher has produced pixels on this scanline.
    pub closed spec fn spec_window_seen(&self) -> bool {
        self.window_seen
    }

    /// Whether sprites are sixteen pixels tall this frame.
    pub closed spec fn spec_tall(&self) -> bool {
        self.tall_sprites
    }

    /// The sprites the last object scan selected.
    pub closed spec fn spec_sprites(&self) -> Seq<Oam> {
        self.sprite_buffer@
    }

    /// The published frame view.
    pub closed spec fn spec_frame(&self) -> Seq<u8> {
        self.pixel_buffer@
    }

    /// The pipeline cursor inside the scanline.
    pub closed spec fn spec_lx(&self) -> u8 {
        self.lx
    }

    /// Cycles accumulated inside the current mode.
    pub closed spec fn spec_cycles(&self) -> u32 {
        self.cycle_counter
    }

    /// The extra pixel-transfer cycles of the current scanline.
    pub closed spec fn spec_extra(&self) -> u32 {
        self.mode3_extra
    }

    /// A pipeline at the top-left of the frame, in object scan.
    pub fn new() -> (r: Self)
        ensures
            r.wf(),
            r.spec_mode() == PpuMode::OamScan,
            r.spec_window_counter() == 0,
            !r.spec_window_seen(),
    {
        let mut pixel_buffer: Vec<u8> = Vec::new();
        let mut i: usize = 0;
        while i < 160 * 144 * 3
            invariant
                i <= 160 * 144 * 3,
                pixel_buffer@.len() == i,
            decreases 160 * 144 * 3 - i,
        {
            pixel_buffer.push(0);
            i += 1;
        }
        Ppu {
            bg_fifo: Vec::new(),
            sprite_fifo: Vec::new(),
            sprite_buffer: Vec::new(),
            mode: PpuMode::OamScan,
            pixel_buffer,
            lx: 0,
            window_counter: 0,
            window_seen: false,
            tall_sprites: false,
            cycle_counter: 0,
            mode3_extra: 0,
        }
    }

    /// The current value of the window line counter.
    pub fn window_counter_value(&self) -> (r: u8)
        ensures
            r == self.spec_window_counter(),
    {
        self.window_counter
    }

    /// How many sprites the last object scan selected.
    pub fn sprite_count(&self) -> (r: usize)
        ensures
            r == self.spec_sprites().len(),
    {
        self.sprite_buffer.len()
    }

    /// A copy of the published 160 x 144 RGB frame.
    pub fn framebuffer(&self) -> (r: Vec<u8>)
        requires
            self.wf(),
        ensures
            r@ == self.spec_frame(),
            r@.len() == 160 * 144 * 3,
    {
        let mut out: Vec<u8> = Vec::new();
        let mut i: usize = 0;
        while i < 160 * 144 * 3
            invariant
                self.wf(),
                i <= 160 * 144 * 3,
                out@.len() == i,
                forall|j: int| #![auto] 0 <= j < i ==> out@[j] == self.spec_frame()[j],
            decreases 160 * 144 * 3 - i,
        {
            out.push(self.pixel_buffer[i]);
            i += 1;
        }
        proof {
            assert(out@ =~= self.spec_frame());
        }
        out
    }

    /// Rewrites the status register for the current line: the mode bits,
    /// and the coincidence bit exactly when LY equals LYC; raises the
    /// status interrupt for an armed source.
    fn stat_update(mem: &mut Mmu, mode_code: u8, raise_sources: bool)
        requires
            old(mem).wf(),
            mode_code < 4,
        ensures
            final(mem).wf(),
            (final(mem)@[STAT as int] & 0x04 != 0) == (old(mem)@[LY as int] == old(mem)@[LYC as int]),
            final(mem)@[STAT as int] & 0x03 == mode_code,
            final(mem)@[STAT as int] & 0xF8 == old(mem)@[STAT as int] & 0xF8,
            forall|i: int|
                #![auto]
                0 <= i < 0x10000 && i != STAT && i != 0xFF0F ==> final(mem)@[i] == old(mem)@[i],
            final(mem)@[0xFF0F] & 0x01 == old(mem)@[0xFF0F] & 0x01,
            final(mem)@[0xFF0F as int] == (if raise_sources && spec_stat_raise(
                old(mem)@[STAT as int],
                mode_code,
                old(mem)@[LY as int] == old(mem)@[LYC as int],
            ) {
                old(mem)@[0xFF0F] | 0x02
            } else {
                old(mem)@[0xFF0F]
            }),
            final(mem).input_state() == old(mem).input_state(),
            final(mem).div_count() == old(mem).div_count(),
            crate::mmu::spec_banking_frame(old(mem), final(mem)),
            crate::mmu::spec_ctrl_frame(old(mem), final(mem)),
    {
        let stat = mem.get(STAT);
        let ly = mem.get(LY);
        let lyc = mem.get(LYC);
        let coincidence = ly == lyc;
        let composed = (stat & 0xF8) | (if coincidence {
            0x04u8
        } else {
            0u8
        }) | mode_code;
        proof {
            crate::bits::lemma_stat_compose(stat, mode_code, coincidence);
        }
        mem.set(STAT as u16, composed);
        if raise_sources {
            let ghost if0 = mem@[0xFF0F];
            if coincidence && stat & 0x40 != 0 {
                Interrupt::LcdStat.trigger(mem);
            } else if mode_code == 0 && stat & 0x08 != 0 {
                Interrupt::LcdStat.trigger(mem);
            } else if mode_code == 1 && stat & 0x10 != 0 {
                Interrupt::LcdStat.trigger(mem);
            } else if mode_code == 2 && stat & 0x20 != 0 {
                Interrupt::LcdStat.trigger(mem);
            }
            proof {
                crate::bits::lemma_vblank_bit(0, if0);
            }
        }
    }

    /// The linear object scan: takes up to ten sprites whose vertical span
    /// covers the line, never one with X zero; in tall mode the tile index
    /// is rewritten for the selected half.
    pub fn scan_sprites(&mut self, mem: &Mmu)
        requires
            old(self).wf(),
            mem.wf(),
        ensures
            final(self).wf(),
            final(self).spec_sprites() == spec_scan_list(
                mem,
                spec_read(mem, LY as int),
                old(self).spec_tall(),
                40,
            ),
            final(self).spec_sprites().len() <= 10,
            forall|i: int|
                #![auto]
                0 <= i < final(self).spec_sprites().len() ==> spec_sprite_selected(
                    final(self).spec_sprites()[i],
                    spec_read(mem, LY as int),
                    old(self).spec_tall(),
                ),
            final(self).spec_mode() == old(self).spec_mode(),
            final(self).spec_window_counter() == old(self).spec_window_counter(),
            final(self).spec_window_seen() == old(self).spec_window_seen(),
            final(self).spec_cycles() == old(self).spec_cycles(),
            final(self).spec_extra() == old(self).spec_extra(),
            final(self).spec_frame() == old(self).spec_frame(),
    {
        let ly = mem.get(LY);
        let height: u16 = if self.tall_sprites {
            16
        } else {
            8
        };
        let mut result: Vec<Oam> = Vec::new();
        let mut i: usize = 0;
        while i < 40
            invariant
                i <= 40,
                mem.wf(),
                ly == spec_read(mem, LY as int),
                height == (if old(self).tall_sprites {
                    16int
                } else {
                    8int
                }),
                result@.len() <= 10,
                forall|k: int|
                    #![auto]
                    0 <= k < result@.len() ==> spec_sprite_selected(
                        result@[k],
                        ly,
                        old(self).tall_sprites,
                    ),
                result@ == spec_scan_list(mem, ly, old(self).tall_sprites, i as int),
                *self == *old(self),
            decreases 40 - i,
        {
            let mut oam = read_oam(mem, 0xFE00 + i * 4);
            if oam.x > 0 && ly as u16 + 16 > oam.y as u16 && ly as u16 + 16 <= oam.y as u16
                + height && result.len() < 10 {
                if self.tall_sprites {
                    if (ly as u16) + 16 < oam.y as u16 + 8 {
                        oam.tile = oam.tile & 0xFE;
                    } else {
                        oam.tile = oam.tile | 0x01;
                    }
                }
                result.push(oam);
            }
            i += 1;
        }
        self.sprite_buffer = result;
    }

    /// The background/window merge rule: the sprite pixel wins unless
    /// sprites are off, the background has the bus, the sprite pixel is
    /// transparent, or the sprite yields priority to a coloured
    /// background.
    fn merge_pixels(&self, mem: &Mmu, bg: Pixel, sprite: Option<Pixel>) -> (r: Pixel)
        requires
            mem.wf(),
        ensures
            r == spec_merge(spec_read(mem, LCDC as int), bg, sprite),
    {
        if let Some(spr) = sprite {
            if mem.get(LCDC) & 0x01 == 0 {
                spr
            } else if mem.get(LCDC) & 0x02 == 0 {
                bg
            } else if (spr.priority && bg.color != 0) || spr.color == 0 {
                bg
            } else {
                spr
            }
        } else {
            bg
        }
    }
}

/// The merge rule as a function of the control register and the two
/// candidate pixels.
pub open spec fn spec_merge(lcdc: u8, bg: Pixel, sprite: Option<Pixel>) -> Pixel {
    match sprite {
        Option::None => bg,
        Option::Some(spr) => {
            if lcdc & 0x01 == 0 {
                spr
            } else if lcdc & 0x02 == 0 {
                bg
            } else if (spr.priority && bg.color != 0) || spr.color == 0 {
                bg
            } else {
                spr
            }
        },
    }
}

/// The 2-bit shade a palette register assigns to a colour index.
pub open spec fn spec_shade(pal: u8, color: u8) -> u8 {
    (pal >> ((color & 3) * 2)) & 3
}

/// The palette register a queued pixel resolves through.
pub open spec fn spec_palette_byte(m: &Mmu, p: Palette) -> u8 {
    match p {
        Palette::Bgp => spec_read(m, BGP as int),
        Palette::Obp0 => spec_read(m, OBP0 as int),
        Palette::Obp1 => spec_read(m, OBP1 as int),
    }
}

/// The RGB triple of a shade index.
pub open spec fn spec_shade_rgb(index: u8) -> (u8, u8, u8) {
    if index == 0 {
        (0x8Cu8, 0xB5u8, 0x28u8)
    } else if index == 1 {
        (0x6Cu8, 0x94u8, 0x21u8)
    } else if index == 2 {
        (0x42u8, 0x6Bu8, 0x29u8)
    } else {
        (0x21u8, 0x42u8, 0x31u8)
    }
}

/// The frame after one pixel is emitted at cursor `lx`: three bytes of
/// the resolved shade inside the visible region, untouched outside it.
pub open spec fn spec_frame_after(frame: Seq<u8>, m: &Mmu, lx: u8, p: Pixel) -> Seq<u8> {
    let ly = spec_read(m, LY as int);
    if 8 <= lx < 168 && ly < 144 {
        let off = (ly * 160 + lx - 8) * 3;
        let shade = spec_shade(spec_palette_byte(m, p.palette), p.color);
        frame.update(off, spec_shade_rgb(shade).0).update(off + 1, spec_shade_rgb(shade).1)
            .update(off + 2, spec_shade_rgb(shade).2)
    } else {
        frame
    }
}

/// The four shades of the hardware-style palette as RGB.
pub fn palette_rgb(index: u8) -> (r: (u8, u8, u8))
    ensures
        r == spec_shade_rgb(index),
{
    if index == 0 {
        (0x8C, 0xB5, 0x28)
    } else if index == 1 {
        (0x6C, 0x94, 0x21)
    } else if index == 2 {
        (0x42, 0x6B, 0x29)
    } else {
        (0x21, 0x42, 0x31)
    }
}

/// The colour index of pixel `i` of a background tile row, as the fetcher
/// assembles it from the two plane bytes.
pub open spec fn spec_bg_row_color(low: u8, high: u8, i: int) -> u8 {
    ((low >> ((7 - i) as u8)) & 1) << 1 | ((high >> ((7 - i) as u8)) & 1)
}

/// The eight background pixels of a tile row.
pub open spec fn spec_bg_row(low: u8, high: u8) -> Seq<Pixel> {
    Seq::new(
        8,
        |i: int| Pixel { color: spec_bg_row_color(low, high, i), palette: Palette::Bgp, priority: false },
    )
}

/// The tile-map address of the background fetcher.
pub open spec fn spec_bg_index_addr(lcdc: u8, yy: u8, xx: u8) -> u16 {
    0x9800u16 | ((if lcdc & 0x08 != 0 { 1u16 } else { 0u16 }) << 10) | (((yy as u16) >> 3) << 5)
        | ((xx as u16) >> 3)
}

/// The window fetcher's tile-map address, from the window line counter.
pub open spec fn spec_window_index_addr(lcdc: u8, wline: u8, lx: u8) -> u16 {
    0x9800u16 | ((if lcdc & 0x40 != 0 { 1u16 } else { 0u16 }) << 10) | (((wline as u16) >> 3)
        << 5) | ((lx as u16) >> 3)
}

/// The tile-data address: signed addressing unless LCDC bit 4 or the
/// index's high bit selects the unsigned bank.
pub open spec fn spec_tile_data_addr(lcdc: u8, tile: u8, fine_y: u8) -> u16 {
    0x8000u16 | ((if lcdc & 0x10 != 0 || tile & 0x80 != 0 { 0u16 } else { 1u16 }) << 12) | ((
    tile as u16) << 4) | ((fine_y as u16) << 1)
}

impl Ppu {
    /// Pushes the eight pixels of one background tile row.
    fn push_bg_tile_row(&mut self, low: u8, high: u8)
        requires
            old(self).wf(),
        ensures
            final(self).wf(),
            final(self).bg_fifo@ == old(self).bg_fifo@ + spec_bg_row(low, high),
            *final(self) == (Ppu { bg_fifo: final(self).bg_fifo, ..*old(self) }),
    {
        let mut i: u8 = 0;
        while i < 8
            invariant
                i <= 8,
                old(self).wf(),
                self.bg_fifo@.len() == old(self).bg_fifo@.len() + i,
                forall|k: int|
                    #![auto]
                    0 <= k < old(self).bg_fifo@.len() ==> self.bg_fifo@[k] == old(self).bg_fifo@[k],
                forall|k: int|
                    #![auto]
                    0 <= k < i ==> self.bg_fifo@[old(self).bg_fifo@.len() + k] == spec_bg_row(
                        low,
                        high,
                    )[k],
                *self == (Ppu { bg_fifo: self.bg_fifo, ..*old(self) }),
            decreases 8 - i,
        {
            let color = ((low >> (7 - i)) & 1) << 1 | ((high >> (7 - i)) & 1);
            self.bg_fifo.push(Pixel { color, palette: Palette::Bgp, priority: false });
            i += 1;
        }
        proof {
            assert(self.bg_fifo@ =~= old(self).bg_fifo@ + spec_bg_row(low, high));
        }
    }

    /// One background fetch: tile index, tile row bytes, eight pixels.
    fn fetch_bg(&mut self, mem: &Mmu)
        requires
            old(self).wf(),
            mem.wf(),
        ensures
            final(self).wf(),
            ({
                let lcdc = spec_read(mem, LCDC as int);
                let yy = crate::cpu::wrap8(
                    spec_read(mem, LY as int) + spec_read(mem, SCY as int),
                ) as u8;
                let xx = crate::cpu::wrap8(old(self).spec_lx() + spec_read(mem, SCX as int)) as u8;
                let tile = spec_read(mem, spec_bg_index_addr(lcdc, yy, xx) as int);
                let daddr = spec_tile_data_addr(lcdc, tile, yy & 0x07);
                let low = spec_read(mem, daddr as int);
                let high = spec_read(mem, daddr + 1);
                final(self).bg_fifo@ == old(self).bg_fifo@ + spec_bg_row(low, high)
            }),
            *final(self) == (Ppu { bg_fifo: final(self).bg_fifo, ..*old(self) }),
    {
        let lcdc = mem.get(LCDC);
        let yy = mem.get(LY).wrapping_add(mem.get(SCY));
        let xx = self.lx.wrapping_add(mem.get(SCX));
        let base_bit: u16 = if lcdc & 0x08 != 0 {
            1
        } else {
            0
        };
        let tile_id_addr: u16 = 0x9800u16 | (base_bit << 10) | (((yy as u16) >> 3) << 5) | ((
        xx as u16) >> 3);
        proof {
            crate::bits::lemma_tilemap_addr(base_bit, yy as u16, xx as u16);
        }
        let tile_id = mem.get(tile_id_addr as usize);
        let b12: u16 = if lcdc & 0x10 != 0 || tile_id & 0x80 != 0 {
            0
        } else {
            1
        };
        let fine_y = yy & 0x07;
        let addr: u16 = 0x8000u16 | (b12 << 12) | ((tile_id as u16) << 4) | ((fine_y as u16)
            << 1);
        proof {
            crate::bits::lemma_op_fields(yy);
            crate::bits::lemma_tiledata_addr(b12, tile_id as u16, fine_y as u16);
        }
        let low = mem.get(addr as usize);
        let high = mem.get(addr as usize + 1);
        self.push_bg_tile_row(low, high);
    }

    /// One window fetch: like the background fetch, but indexed by the
    /// window line counter and the plain cursor.
    fn fetch_window(&mut self, mem: &Mmu)
        requires
            old(self).wf(),
            mem.wf(),
        ensures
            final(self).wf(),
            ({
                let lcdc = spec_read(mem, LCDC as int);
                let tile = spec_read(
                    mem,
                    spec_window_index_addr(
                        lcdc,
                        old(self).spec_window_counter(),
                        old(self).spec_lx(),
                    ) as int,
                );
                let fine_y = (crate::cpu::wrap8(
                    spec_read(mem, LY as int) + spec_read(mem, WY as int),
                ) as u8) & 0x07;
                let daddr = spec_tile_data_addr(lcdc, tile, fine_y);
                let low = spec_read(mem, daddr as int);
                let high = spec_read(mem, daddr + 1);
                final(self).bg_fifo@ == old(self).bg_fifo@ + spec_bg_row(low, high)
            }),
            *final(self) == (Ppu { bg_fifo: final(self).bg_fifo, ..*old(self) }),
    {
        let lcdc = mem.get(LCDC);
        let base_bit: u16 = if lcdc & 0x40 != 0 {
            1
        } else {
            0
        };
        let tile_id_addr: u16 = 0x9800u16 | (base_bit << 10) | (((self.window_counter as u16)
            >> 3) << 5) | ((self.lx as u16) >> 3);
        proof {
            crate::bits::lemma_tilemap_addr(
                base_bit,
                self.window_counter as u16,
                self.lx as u16,
            );
        }
        let tile_id = mem.get(tile_id_addr as usize);
        let b12: u16 = if lcdc & 0x10 != 0 || tile_id & 0x80 != 0 {
            0
        } else {
            1
        };
        let wsum = mem.get(LY).wrapping_add(mem.get(WY));
        let fine_y = wsum & 0x07;
        let addr: u16 = 0x8000u16 | (b12 << 12) | ((tile_id as u16) << 4) | ((fine_y as u16)
            << 1);
        proof {
            crate::bits::lemma_op_fields(wsum);
            crate::bits::lemma_tiledata_addr(b12, tile_id as u16, fine_y as u16);
        }
        let low = mem.get(addr as usize);
        let high = mem.get(addr as usize + 1);
        self.push_bg_tile_row(low, high);
    }
}

/// The colour index of pixel `i` of a sprite row, honouring horizontal
/// flip.
pub open spec fn spec_sprite_row_color(low: u8, high: u8, flags: u8, i: int) -> u8 {
    let x: int = if flags & 0x20 != 0 {
        7 - i
    } else {
        i
    };
    ((low >> ((7 - x) as u8)) & 1) | (((high >> ((7 - x) as u8)) & 1) << 1)
}

/// One queued sprite pixel.
pub open spec fn spec_sprite_pixel(low: u8, high: u8, flags: u8, i: int) -> Pixel {
    Pixel {
        color: spec_sprite_row_color(low, high, flags, i),
        palette: (if flags & 0x10 == 0 {
            Palette::Obp0
        } else {
            Palette::Obp1
        }),
        priority: flags & 0x80 != 0,
    }
}

impl Ppu {
    /// Pushes the visible tail of one sprite row, honouring the flip
    /// flags; the first `lx - x` pixels fall off the left edge.
    fn push_sprite_tile_row(&mut self, mem: &Mmu, sprite: &Oam)
        requires
            old(self).wf(),
            mem.wf(),
            sprite.x <= old(self).spec_lx() < sprite.x + 8,
        ensures
            final(self).wf(),
            final(self).sprite_fifo@.len() == old(self).sprite_fifo@.len() + 8 - (old(self).spec_lx() - sprite.x),
            *final(self) == (Ppu { sprite_fifo: final(self).sprite_fifo, ..*old(self) }),
            forall|k: int|
                #![auto]
                0 <= k < old(self).sprite_fifo@.len() ==> final(self).sprite_fifo@[k] == old(self).sprite_fifo@[k],
    {
        let hflip = sprite.flags & 0x20 != 0;
        let vflip = sprite.flags & 0x40 != 0;
        let ydiff = mem.get(LY).wrapping_sub(sprite.y.wrapping_add(1));
        proof {
            crate::bits::lemma_op_fields(ydiff);
        }
        let y0 = ydiff & 0x07;
        let y = if vflip {
            7 - y0
        } else {
            y0
        };
        let addr: u16 = 0x8000u16 | ((sprite.tile as u16) << 4) | ((y as u16) << 1);
        proof {
            crate::bits::lemma_sprite_addr(sprite.tile as u16, y as u16);
        }
        let low = mem.get(addr as usize);
        let high = mem.get(addr as usize + 1);
        let start = self.lx - sprite.x;
        let mut i: u8 = start;
        while i < 8
            invariant
                start <= i <= 8,
                old(self).wf(),
                self.sprite_fifo@.len() == old(self).sprite_fifo@.len() + i - start,
                forall|k: int|
                    #![auto]
                    0 <= k < old(self).sprite_fifo@.len() ==> self.sprite_fifo@[k] == old(self).sprite_fifo@[k],
                *self == (Ppu { sprite_fifo: self.sprite_fifo, ..*old(self) }),
            decreases 8 - i,
        {
            let x = if hflip {
                7 - i
            } else {
                i
            };
            let color = ((low >> (7 - x)) & 1) | (((high >> (7 - x)) & 1) << 1);
            self.sprite_fifo.push(
                Pixel {
                    color,
                    palette: (if sprite.flags & 0x10 == 0 {
                        Palette::Obp0
                    } else {
                        Palette::Obp1
                    }),
                    priority: sprite.flags & 0x80 != 0,
                },
            );
            i += 1;
        }
    }

    /// Looks for a sprite whose window covers the cursor; on a hit, the
    /// leftmost such sprite's row is queued.
    fn fetch_obj(&mut self, mem: &Mmu) -> (r: bool)
        requires
            old(self).wf(),
            mem.wf(),
        ensures
            final(self).wf(),
            r == (exists|k: int|
                0 <= k < old(self).sprite_buffer@.len()
                    && #[trigger] spec_covers(old(self).sprite_buffer@[k], old(self).spec_lx())),
            !r ==> *final(self) == *old(self),
            r ==> final(self).sprite_fifo@.len() > old(self).sprite_fifo@.len() && *final(self)
                == (Ppu { sprite_fifo: final(self).sprite_fifo, ..*old(self) }),
    {
        let mut candidate_index: Option<usize> = None;
        let n = self.sprite_buffer.len();
        let mut index: usize = 0;
        while index < n
            invariant
                index <= n,
                n == self.sprite_buffer@.len(),
                self.wf(),
                mem.wf(),
                match candidate_index {
                    Some(c) => c < index && spec_covers(self.sprite_buffer@[c as int], self.lx),
                    None => forall|k: int|
                        0 <= k < index ==> !(#[trigger] spec_covers(
                            self.sprite_buffer@[k],
                            self.lx,
                        )),
                },
            decreases n - index,
        {
            let sprite = self.sprite_buffer[index];
            if let Some(candidate) = candidate_index {
                let cand = self.sprite_buffer[candidate];
                if sprite.x < cand.x && self.lx >= sprite.x && (self.lx as u16)
                    < sprite.x as u16 + 8 {
                    candidate_index = Some(index);
                }
            } else {
                if self.lx >= sprite.x && (self.lx as u16) < sprite.x as u16 + 8 {
                    candidate_index = Some(index);
                }
            }
            index += 1;
        }
        if let Some(idx) = candidate_index {
            let sprite = self.sprite_buffer[idx];
            self.push_sprite_tile_row(mem, &sprite);
            true
        } else {
            false
        }
    }

    /// Resolves a pixel through its palette register and writes it to the
    /// frame when the cursor is inside the visible 160 x 144 region.
    fn render_pixel(&mut self, mem: &Mmu, pixel: Pixel)
        requires
            old(self).wf(),
            mem.wf(),
        ensures
            final(self).wf(),
            *final(self) == (Ppu { pixel_buffer: final(self).pixel_buffer, ..*old(self) }),
            final(self).spec_frame().len() == old(self).spec_frame().len(),
            final(self).spec_frame() == spec_frame_after(
                old(self).spec_frame(),
                mem,
                old(self).spec_lx(),
                pixel,
            ),
    {
        if self.lx >= 8 && self.lx < 168 && mem.get(LY) < 144 {
            let palette = match pixel.palette {
                Palette::Bgp => mem.get(BGP),
                Palette::Obp0 => mem.get(OBP0),
                Palette::Obp1 => mem.get(OBP1),
            };
            proof {
                crate::bits::lemma_op_fields(pixel.color);
            }
            let shade = (palette >> ((pixel.color & 3) * 2)) & 3;
            let (pr, pg, pb) = palette_rgb(shade);
            let ly = mem.get(LY) as usize;
            let offset = (ly * 160 + self.lx as usize - 8) * 3;
            self.pixel_buffer.set(offset, pr);
            self.pixel_buffer.set(offset + 1, pg);
            self.pixel_buffer.set(offset + 2, pb);
        }
    }

    /// One pipeline step: pop-and-emit a pixel when the background FIFO
    /// holds a tile row, else run a fetch; returns the penalty cycles that
    /// stretch pixel transfer (sprite penalties and the window re-prime).
    fn draw_pixel(&mut self, mem: &Mmu, tile_offset: u8) -> (r: u32)
        requires
            old(self).wf(),
            mem.wf(),
            old(self).spec_lx() < 168,
        ensures
            final(self).wf(),
            r <= 17,
            old(self).bg_fifo@.len() >= 8 ==> final(self).spec_lx() == old(self).spec_lx() + 1,
            old(self).bg_fifo@.len() < 8 ==> final(self).bg_fifo@.len() >= 8 && final(self).spec_lx() == old(self).spec_lx(),
            final(self).spec_window_counter() == old(self).spec_window_counter(),
            final(self).spec_window_seen() == (old(self).spec_window_seen() || (old(self).bg_fifo@.len() < 8 && spec_window_active(mem, old(self).spec_lx()))),
            final(self).spec_mode() == old(self).spec_mode(),
            final(self).spec_cycles() == old(self).spec_cycles(),
            final(self).spec_extra() == old(self).spec_extra(),
            final(self).sprite_buffer@ == old(self).sprite_buffer@,
            final(self).spec_frame().len() == old(self).spec_frame().len(),
            // The step touches nothing outside scanline LY's 480 bytes.
            forall|i: int|
                #![auto]
                0 <= i < old(self).spec_frame().len() && !(spec_read(mem, LY as int) * 480 <= i
                    < spec_read(mem, LY as int) * 480 + 480) ==> final(self).spec_frame()[i]
                    == old(self).spec_frame()[i],
            // With a sprite already queued, the emitted pixel is exactly
            // the merge of the two queue heads.
            old(self).bg_fifo@.len() >= 8 && old(self).sprite_fifo@.len() > 0 ==> final(self).spec_frame() == spec_frame_after(
                old(self).spec_frame(),
                mem,
                old(self).spec_lx(),
                spec_merge(
                    spec_read(mem, LCDC as int),
                    old(self).bg_fifo@[0],
                    Some(old(self).sprite_fifo@[0]),
                ),
            ) && final(self).bg_fifo@ == old(self).bg_fifo@.remove(0) && final(self).sprite_fifo@
                == old(self).sprite_fifo@.remove(0),
            // With no sprite queued and none covering the cursor, the
            // emitted pixel is the background head itself.
            old(self).bg_fifo@.len() >= 8 && old(self).sprite_fifo@.len() == 0 && !(exists|k: int|
                0 <= k < old(self).sprite_buffer@.len() && #[trigger] spec_covers(
                    old(self).sprite_buffer@[k],
                    old(self).spec_lx(),
                )) ==> final(self).spec_frame() == spec_frame_after(
                old(self).spec_frame(),
                mem,
                old(self).spec_lx(),
                old(self).bg_fifo@[0],
            ) && final(self).bg_fifo@ == old(self).bg_fifo@.remove(0),
    {
        let window_active = mem.get(LCDC) & 0x20 != 0 && mem.get(WX) <= self.lx && mem.get(LY)
            >= mem.get(WY);
        let mut penalty: u32 = 0;
        if self.bg_fifo.len() >= 8 {
            if self.sprite_fifo.len() == 0 {
                if self.fetch_obj(mem) {
                    if self.lx == 0 {
                        penalty += 11;
                    } else {
                        let shift = self.lx as u32 + tile_offset as u32;
                        penalty += 6 + (if shift < 5 {
                            5 - shift
                        } else {
                            0
                        });
                    }
                }
            }
            let bg_pixel = self.bg_fifo.remove(0);
            if self.sprite_fifo.len() == 0 {
                self.render_pixel(mem, bg_pixel);
            } else {
                let sprite_pixel = self.sprite_fifo.remove(0);
                let merged = self.merge_pixels(mem, bg_pixel, Some(sprite_pixel));
                self.render_pixel(mem, merged);
            }
            self.lx += 1;
        } else if window_active {
            if !self.window_seen {
                penalty += 6;
            }
            self.window_seen = true;
            self.fetch_window(mem);
        } else {
            self.fetch_bg(mem);
        }
        penalty
    }

    /// Draws one full scanline through the pipeline and records the
    /// clamped extra cycles that stretch pixel transfer: the fine-scroll
    /// discard, the window re-prime, and the sprite penalties.
    fn draw_line(&mut self, mem: &Mmu)
        requires
            old(self).wf(),
            mem.wf(),
        ensures
            final(self).wf(),
            final(self).spec_extra() <= 204,
            final(self).spec_window_counter() == old(self).spec_window_counter(),
            final(self).spec_mode() == old(self).spec_mode(),
            final(self).spec_cycles() == old(self).spec_cycles(),
            final(self).spec_frame().len() == old(self).spec_frame().len(),
            // The line's pixels land only in scanline LY's 480 bytes.
            forall|i: int|
                #![auto]
                0 <= i < old(self).spec_frame().len() && !(spec_read(mem, LY as int) * 480 <= i
                    < spec_read(mem, LY as int) * 480 + 480) ==> final(self).spec_frame()[i]
                    == old(self).spec_frame()[i],
            old(self).spec_window_seen() ==> final(self).spec_window_seen(),
    {
        self.bg_fifo = Vec::new();
        self.sprite_fifo = Vec::new();
        self.lx = 0;
        let scx = mem.get(SCX);
        let tile_offset = scx & 0x07;
        proof {
            crate::bits::lemma_op_fields(scx);
        }
        let mut total: u32 = tile_offset as u32;
        while self.lx < 168
            invariant
                self.wf(),
                mem.wf(),
                total <= 204,
                self.spec_window_counter() == old(self).spec_window_counter(),
                self.spec_mode() == old(self).spec_mode(),
                self.spec_cycles() == old(self).spec_cycles(),
                self.spec_frame().len() == old(self).spec_frame().len(),
                forall|i: int|
                    #![auto]
                    0 <= i < old(self).spec_frame().len() && !(spec_read(mem, LY as int) * 480
                        <= i < spec_read(mem, LY as int) * 480 + 480) ==> self.spec_frame()[i]
                        == old(self).spec_frame()[i],
                old(self).spec_window_seen() ==> self.spec_window_seen(),
            decreases 168 - self.lx, (if self.bg_fifo@.len() >= 8 { 0int } else { 1int }),
        {
            let c = self.draw_pixel(mem, tile_offset);
            total = total + c;
            if total > 204 {
                total = 204;
            }
        }
        self.mode3_extra = total;
    }
}

/// Whether the window overlaps the cursor on this line: enabled, at or
/// past WX, at or below WY.
pub open spec fn spec_window_active(mem: &Mmu, lx: u8) -> bool {
    spec_read(mem, LCDC as int) & 0x20 != 0 && spec_read(mem, WX as int) <= lx && spec_read(
        mem,
        LY as int,
    ) >= spec_read(mem, WY as int)
}

/// Whether a sprite's 8-pixel window covers the cursor.
pub open spec fn spec_covers(e: Oam, lx: u8) -> bool {
    e.x <= lx < e.x + 8
}

impl Ppu {
    /// Advances the pipeline by a cycle count and drives the mode machine.
    ///
    /// Object scan runs 80 cycles, pixel transfer 172 plus the recorded
    /// extra, horizontal blank the balance of the 456-cycle line.  Entry
    /// into vertical blank raises the VBLANK interrupt, completes the
    /// frame, and returns true.  The status register is resynchronised on
    /// every call: its mode bits show the current mode, and its
    /// coincidence bit is set exactly when LY equals LYC.  The window
    /// line counter advances only at the end of a scanline on which the
    /// window actually produced pixels, and resets with the frame.
    pub fn render(&mut self, mem: &mut Mmu, cycles: u32) -> (r: bool)
        requires
            old(self).wf(),
            old(mem).wf(),
        ensures
            final(self).wf(),
            final(mem).wf(),
            final(mem)@[STAT as int] & 0x03 == spec_mode_code(final(self).spec_mode()),
            (final(mem)@[STAT as int] & 0x04 != 0) == (final(mem)@[LY as int] == final(mem)@[LYC as int]),
            r == (old(self).spec_mode() == PpuMode::HBlank && old(self).spec_cycles() + cycles
                >= spec_hblank_len(old(self).spec_extra() as int) && crate::cpu::wrap8(
                old(mem)@[LY as int] + 1,
            ) == 144),
            r ==> final(self).spec_mode() == PpuMode::VBlank && final(mem)@[0xFF0F] & 0x01
                == 0x01,
            final(self).spec_window_counter() == (if old(self).spec_mode() == PpuMode::VBlank
                && old(self).spec_cycles() + cycles >= 456 && crate::cpu::wrap8(
                old(mem)@[LY as int] + 1,
            ) >= 154 {
                0int
            } else if old(self).spec_mode() == PpuMode::HBlank && old(self).spec_cycles()
                + cycles >= spec_hblank_len(old(self).spec_extra() as int) && old(self).spec_window_seen() {
                crate::cpu::wrap8(old(self).spec_window_counter() + 1)
            } else {
                old(self).spec_window_counter() as int
            }),
            !old(self).spec_window_seen() && !(old(self).spec_mode() == PpuMode::VBlank) ==>
                final(self).spec_window_counter() == old(self).spec_window_counter(),
            // The frame changes only when the object scan completes and
            // the line is drawn, and then only in scanline LY's bytes.
            !(old(self).spec_mode() == PpuMode::OamScan && old(self).spec_cycles() + cycles
                >= 80) ==> final(self).spec_frame() == old(self).spec_frame(),
            forall|i: int|
                #![auto]
                0 <= i < old(self).spec_frame().len() && !(old(mem)@[LY as int] * 480 <= i < old(
                    mem,
                )@[LY as int] * 480 + 480) ==> final(self).spec_frame()[i] == old(
                    self,
                ).spec_frame()[i],
            // The scanline register moves only at line boundaries: up by
            // one at the end of a visible line or a blanking line, back
            // to zero at the end of the frame's last line.
            final(mem)@[LY as int] == (if old(self).spec_mode() == PpuMode::HBlank && old(
                self,
            ).spec_cycles() + cycles >= spec_hblank_len(old(self).spec_extra() as int) {
                crate::cpu::wrap8(old(mem)@[LY as int] + 1)
            } else if old(self).spec_mode() == PpuMode::VBlank && old(self).spec_cycles()
                + cycles >= 456 {
                if crate::cpu::wrap8(old(mem)@[LY as int] + 1) >= 154 {
                    0int
                } else {
                    crate::cpu::wrap8(old(mem)@[LY as int] + 1)
                }
            } else {
                old(mem)@[LY as int] as int
            }),
            // Horizontal-blank entry raises the status line when the
            // mode-0 source (or an armed coincidence) asks for it.
            old(self).spec_mode() == PpuMode::PixelTransfer && old(self).spec_cycles() + cycles
                >= 172 + old(self).spec_extra() && spec_stat_raise(
                old(mem)@[STAT as int],
                0,
                old(mem)@[LY as int] == old(mem)@[LYC as int],
            ) ==> final(mem)@[0xFF0F] & 0x02 == 0x02,
            // Object-scan entry at the next scanline raises the status
            // line for the mode-2 source.
            old(self).spec_mode() == PpuMode::HBlank && old(self).spec_cycles() + cycles
                >= spec_hblank_len(old(self).spec_extra() as int) && crate::cpu::wrap8(
                old(mem)@[LY as int] + 1,
            ) != 144 && spec_stat_raise(
                old(mem)@[STAT as int],
                2,
                crate::cpu::wrap8(old(mem)@[LY as int] + 1) == old(mem)@[LYC as int],
            ) ==> final(mem)@[0xFF0F] & 0x02 == 0x02,
            // Vertical-blank entry raises the status line for the mode-1
            // source.
            old(self).spec_mode() == PpuMode::HBlank && old(self).spec_cycles() + cycles
                >= spec_hblank_len(old(self).spec_extra() as int) && crate::cpu::wrap8(
                old(mem)@[LY as int] + 1,
            ) == 144 && spec_stat_raise(
                old(mem)@[STAT as int],
                1,
                144 == old(mem)@[LYC as int],
            ) ==> final(mem)@[0xFF0F] & 0x02 == 0x02,
    {
        if self.cycle_counter > u32::MAX - cycles {
            self.cycle_counter = u32::MAX;
        } else {
            self.cycle_counter = self.cycle_counter + cycles;
        }
        let mut frame_done = false;
        match self.mode {
            PpuMode::OamScan => {
                if self.cycle_counter >= 80 {
                    self.cycle_counter = self.cycle_counter - 80;
                    self.tall_sprites = mem.get(LCDC) & 0x04 != 0;
                    self.scan_sprites(mem);
                    self.mode = PpuMode::PixelTransfer;
                    self.draw_line(mem);
                }
            },
            PpuMode::PixelTransfer => {
                if self.cycle_counter >= 172 + self.mode3_extra {
                    self.cycle_counter = self.cycle_counter - (172 + self.mode3_extra);
                    self.mode = PpuMode::HBlank;
                    let ghost if0 = mem@[0xFF0F];
                    Self::stat_update(mem, 0, true);
                    proof {
                        crate::bits::lemma_vblank_bit(0, if0);
                    }
                }
            },
            PpuMode::HBlank => {
                if self.cycle_counter >= 204 - self.mode3_extra {
                    self.cycle_counter = self.cycle_counter - (204 - self.mode3_extra);
                    self.lx = 0;
                    if self.window_seen {
                        self.window_counter = self.window_counter.wrapping_add(1);
                    }
                    self.window_seen = false;
                    self.mode3_extra = 0;
                    let ly = mem.get(LY);
                    let new_ly = ly.wrapping_add(1);
                    mem.set(LY as u16, new_ly);
                    if new_ly == 144 {
                        self.mode = PpuMode::VBlank;
                        let ghost if_before = mem@[0xFF0F];
                        Interrupt::VBlank.trigger(mem);
                        let ghost if_after = mem@[0xFF0F];
                        Self::stat_update(mem, 1, true);
                        proof {
                            crate::bits::lemma_vblank_bit(if_before, if_after);
                        }
                        frame_done = true;
                    } else {
                        self.mode = PpuMode::OamScan;
                        let ghost if0 = mem@[0xFF0F];
                        Self::stat_update(mem, 2, true);
                        proof {
                            crate::bits::lemma_vblank_bit(0, if0);
                        }
                    }
                }
            },
            PpuMode::VBlank => {
                if self.cycle_counter >= 456 {
                    self.cycle_counter = self.cycle_counter - 456;
                    let ly = mem.get(LY);
                    let new_ly = ly.wrapping_add(1);
                    if new_ly >= 154 {
                        mem.set(LY as u16, 0);
                        self.window_counter = 0;
                        self.mode = PpuMode::OamScan;
                        Self::stat_update(mem, 2, true);
                    } else {
                        mem.set(LY as u16, new_ly);
                        Self::stat_update(mem, 1, false);
                    }
                }
            },
        }
        let code: u8 = match self.mode {
            PpuMode::HBlank => 0,
            PpuMode::VBlank => 1,
            PpuMode::OamScan => 2,
            PpuMode::PixelTransfer => 3,
        };
        Self::stat_update(mem, code, false);
        frame_done
    }
}

} // verus!
