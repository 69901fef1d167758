//! The memory-mapped I/O unit: a flat 64 KiB view, cartridge bank mapping,
//! MBC control-write decoding, OAM DMA, and the register side effects.
//!
//! With a mapper present, writes below 0x8000 are never data writes: they
//! select banks and gate the external RAM window.  Without one (the bare
//! test configuration) the address space behaves as flat memory apart from
//! the register side effects.

use vstd::prelude::*;
use crate::input::Input;

verus! {

/// Cartridge mapper families selected by the ROM header byte at 0x0147.
/// `NoMbc` is the bare harness configuration with nothing attached;
/// `RomOnly` is a 32 KiB cartridge without banking hardware.
#[derive(Debug, Clone, Copy, PartialEq, Eq, Structural)]
pub enum Mbc {
    NoMbc,
    RomOnly,
    Mbc1,
    Mbc2,
    Mbc3,
    Mbc5,
}

/// The memory unit: the 64 KiB view, the detached cartridge images, the
/// banking state, the joypad, and the internal divider counter behind
/// 0xFF04.
pub struct Mmu {
    memory: Vec<u8>,
    total_rom: Vec<u8>,
    total_ram: Vec<u8>,
    ram_bank: usize,
    mbc: Mbc,
    pub input: Input,
    has_external_ram: bool,
    enable_external_ram: bool,
    div_counter: u16,
}

impl View for Mmu {
    type V = Seq<u8>;

    /// The 64 KiB address-space view.
    closed spec fn view(&self) -> Seq<u8> {
        self.memory@
    }
}

/// The selected ROM bank for a control write, at the mapper's bank
/// width; bank 0 maps to 1 on every family but the widest, which allows
/// it.
pub open spec fn spec_rom_bank(m: Mbc, v: u8) -> int {
    match m {
        Mbc::Mbc2 => if v & 0x0F == 0 {
            1
        } else {
            (v & 0x0F) as int
        },
        Mbc::Mbc3 => if v & 0x7F == 0 {
            1
        } else {
            (v & 0x7F) as int
        },
        Mbc::Mbc5 => v as int,
        _ => if v & 0x1F == 0 {
            1
        } else {
            (v & 0x1F) as int
        },
    }
}

/// The selected RAM bank for a control write, at the mapper's bank
/// width.
pub open spec fn spec_ram_bank(m: Mbc, v: u8) -> int {
    match m {
        Mbc::Mbc3 => (v & 0x03) as int,
        Mbc::Mbc5 => (v & 0x0F) as int,
        _ => if v & 0x03 == 0 {
            1
        } else {
            (v & 0x03) as int
        },
    }
}

/// Two byte sequences of equal length that agree everywhere outside
/// `[lo, hi)`.
pub open spec fn same_outside(a: Seq<u8>, b: Seq<u8>, lo: int, hi: int) -> bool {
    b.len() == a.len() && forall|i: int|
        #![auto]
        0 <= i < a.len() && !(lo <= i < hi) ==> b[i] == a[i]
}

/// The composed read of the address space: the joypad register is derived
/// from the key matrix, and a disabled external-RAM window reads 0xFF.
pub open spec fn spec_read(m: &Mmu, addr: int) -> u8 {
    if addr == 0xFF00 {
        crate::input::spec_joyp(m.input_state())
    } else if 0xA000 <= addr < 0xC000 {
        if m.ram_enabled() {
            m@[addr]
        } else {
            0xFF
        }
    } else {
        m@[addr]
    }
}

/// The canonical post-boot byte of the address space: the fixed I/O
/// defaults, zero everywhere else.
pub open spec fn spec_boot_byte(i: int) -> u8 {
    if i == 0xFF00 { 0xCF }
    else if i == 0xFF02 { 0x7E }
    else if i == 0xFF04 { 0xAB }
    else if i == 0xFF10 { 0x80 }
    else if i == 0xFF11 { 0xBF }
    else if i == 0xFF12 { 0xF3 }
    else if i == 0xFF13 { 0xFF }
    else if i == 0xFF14 { 0xBF }
    else if i == 0xFF16 { 0x3F }
    else if i == 0xFF18 { 0xFF }
    else if i == 0xFF19 { 0xBF }
    else if i == 0xFF1A { 0x7F }
    else if i == 0xFF1B { 0xFF }
    else if i == 0xFF1C { 0x9F }
    else if i == 0xFF1D { 0xFF }
    else if i == 0xFF1E { 0xBF }
    else if i == 0xFF20 { 0xFF }
    else if i == 0xFF23 { 0xBF }
    else if i == 0xFF24 { 0x77 }
    else if i == 0xFF25 { 0xF3 }
    else if i == 0xFF26 { 0xF1 }
    else if i == 0xFF40 { 0x91 }
    else if i == 0xFF41 { 0x85 }
    else if i == 0xFF44 { 0x90 }
    else if i == 0xFF46 { 0xFF }
    else if i == 0xFF47 { 0xFC }
    else if i == 0xFF48 { 0xFF }
    else if i == 0xFF49 { 0xFF }
    else { 0 }
}

impl Mmu {
    /// The banking state invariant: a mapped cartridge carries a full RAM
    /// image and an in-range RAM bank.
    pub closed spec fn bank_inv(&self) -> bool {
        self.mbc != Mbc::NoMbc ==> self.total_ram@.len() == 0x8000 && self.ram_bank < 4
            && self.total_rom@.len() >= 0x8000
    }

    /// Structural soundness: the view is 64 KiB, and a mapped cartridge
    /// carries a full RAM image and an in-range RAM bank.
    pub open spec fn wf(&self) -> bool {
        &&& self@.len() == 0x10000
        &&& self.bank_inv()
    }

    /// Whether a cartridge mapper is present.
    pub open spec fn mapped(&self) -> bool {
        self.mapper() != Mbc::NoMbc
    }

    /// The mapper family.
    pub closed spec fn mapper(&self) -> Mbc {
        self.mbc
    }

    /// Whether the cartridge has external RAM at all.
    pub closed spec fn has_cart_ram(&self) -> bool {
        self.has_external_ram
    }

    /// Whether the external RAM window is currently enabled.
    pub closed spec fn ram_enabled(&self) -> bool {
        self.enable_external_ram
    }

    /// The detached ROM image.
    pub closed spec fn rom_image(&self) -> Seq<u8> {
        self.total_rom@
    }

    /// The detached RAM image.
    pub closed spec fn ram_image(&self) -> Seq<u8> {
        self.total_ram@
    }

    /// The RAM bank currently paged into 0xA000..0xC000.
    pub closed spec fn cur_ram_bank(&self) -> int {
        self.ram_bank as int
    }

    /// The internal 16-bit divider counter whose upper byte is DIV.
    pub closed spec fn div_count(&self) -> u16 {
        self.div_counter
    }

    /// The joypad state, for specifications.
    pub closed spec fn input_state(&self) -> Input {
        self.input
    }

    /// A unit with zeroed memory and no cartridge.
    pub fn new() -> (r: Self)
        ensures
            r.wf(),
            r@ == Seq::<u8>::new(0x10000, |i: int| 0u8),
            !r.mapped(),
            !r.ram_enabled(),
            !r.has_cart_ram(),
            r.input_state() == crate::input::spec_input_default(),
            r.div_count() == 0,
    {
        let mut memory: Vec<u8> = Vec::new();
        let mut i: usize = 0;
        while i < 0x10000
            invariant
                i <= 0x10000,
                memory@.len() == i,
                forall|j: int| #![auto] 0 <= j < i ==> memory@[j] == 0u8,
            decreases 0x10000 - i,
        {
            memory.push(0u8);
            i += 1;
        }
        proof {
            assert(memory@ =~= Seq::<u8>::new(0x10000, |i: int| 0u8));
        }
        Mmu {
            memory,
            total_rom: Vec::new(),
            total_ram: Vec::new(),
            ram_bank: 0,
            mbc: Mbc::NoMbc,
            input: Input::default(),
            has_external_ram: false,
            enable_external_ram: false,
            div_counter: 0,
        }
    }

    /// A unit with the canonical post-boot register defaults loaded.
    pub fn init() -> (r: Self)
        ensures
            r.wf(),
            r@.len() == 0x10000,
            !r.mapped(),
            !r.ram_enabled(),
            r.input_state() == crate::input::spec_input_default(),
            r@[0xFF40] == 0x91,
            r@[0xFF41] == 0x85,
            r@[0xFF44] == 0x90,
            r@[0xFF47] == 0xFC,
            r@[0xFF04] == 0xAB,
            r@[0xFF0F] == 0,
            r@[0xFFFF] == 0,
            forall|i: int| #![auto] 0 <= i < 0x10000 ==> r@[i] == spec_boot_byte(i),
            forall|i: int| 0 <= i < 0x8000 ==> r@[i] == 0u8,
    {
        let mut mmu = Mmu::new();
        mmu.memory.set(0xFF00, 0xCF);
        mmu.memory.set(0xFF01, 0x00);
        mmu.memory.set(0xFF02, 0x7E);
        mmu.memory.set(0xFF04, 0xAB);
        mmu.memory.set(0xFF05, 0x00);
        mmu.memory.set(0xFF06, 0x00);
        mmu.memory.set(0xFF07, 0x00);
        mmu.memory.set(0xFF10, 0x80);
        mmu.memory.set(0xFF11, 0xBF);
        mmu.memory.set(0xFF12, 0xF3);
        mmu.memory.set(0xFF13, 0xFF);
        mmu.memory.set(0xFF14, 0xBF);
        mmu.memory.set(0xFF16, 0x3F);
        mmu.memory.set(0xFF17, 0x00);
        mmu.memory.set(0xFF18, 0xFF);
        mmu.memory.set(0xFF19, 0xBF);
        mmu.memory.set(0xFF1A, 0x7F);
        mmu.memory.set(0xFF1B, 0xFF);
        mmu.memory.set(0xFF1C, 0x9F);
        mmu.memory.set(0xFF1D, 0xFF);
        mmu.memory.set(0xFF1E, 0xBF);
        mmu.memory.set(0xFF20, 0xFF);
        mmu.memory.set(0xFF21, 0x00);
        mmu.memory.set(0xFF22, 0x00);
        mmu.memory.set(0xFF23, 0xBF);
        mmu.memory.set(0xFF24, 0x77);
        mmu.memory.set(0xFF25, 0xF3);
        mmu.memory.set(0xFF26, 0xF1);
        mmu.memory.set(0xFF40, 0x91);
        mmu.memory.set(0xFF41, 0x85);
        mmu.memory.set(0xFF42, 0x00);
        mmu.memory.set(0xFF43, 0x00);
        mmu.memory.set(0xFF44, 0x90);
        mmu.memory.set(0xFF45, 0x00);
        mmu.memory.set(0xFF46, 0xFF);
        mmu.memory.set(0xFF47, 0xFC);
        mmu.memory.set(0xFF48, 0xFF);
        mmu.memory.set(0xFF49, 0xFF);
        mmu.memory.set(0xFF4A, 0x00);
        mmu.memory.set(0xFF4B, 0x00);
        mmu.memory.set(0xFFFF, 0x00);
        proof {
            assert forall|i: int| 0 <= i < 0x10000 implies mmu@[i] == spec_boot_byte(i) by {
            }
        }
        mmu
    }

    /// A unit whose program area from 0x0100 holds the given bytes: the
    /// bare configuration the instruction tests run on.
    pub fn init_with_vec(rom: Vec<u8>) -> (r: Self)
        requires
            rom@.len() <= 0x8000 - 0x100,
        ensures
            r.wf(),
            r@.len() == 0x10000,
            !r.mapped(),
            forall|i: int| #![auto] 0 <= i < rom@.len() ==> r@[0x100 + i] == rom@[i],
            forall|i: int| #![auto] 0 <= i < 0x100 ==> r@[i] == 0u8,
            forall|i: int|
                #![auto]
                0x100 + rom@.len() <= i < 0x10000 ==> r@[i] == spec_boot_byte(i),
            r.input_state() == crate::input::spec_input_default(),
    {
        let mut mmu = Mmu::init();
        let len = rom.len();
        let mut i: usize = 0;
        while i < len
            invariant
                i <= len,
                len == rom@.len(),
                len <= 0x8000 - 0x100,
                mmu@.len() == 0x10000,
                mmu.wf(),
                !mmu.mapped(),
                mmu.input_state() == crate::input::spec_input_default(),
                forall|j: int| #![auto] 0 <= j < i ==> mmu@[0x100 + j] == rom@[j],
                forall|j: int| #![auto] 0 <= j < 0x100 ==> mmu@[j] == 0u8,
                forall|j: int|
                    #![auto]
                    0x100 + i <= j < 0x10000 ==> mmu@[j] == spec_boot_byte(j),
            decreases len - i,
        {
            mmu.memory.set(0x100 + i, rom[i]);
            i += 1;
        }
        mmu
    }

    /// Loads a cartridge: copies the fixed 32 KiB into the view, keeps the
    /// full image for banking, allocates the RAM image, and selects the
    /// mapper from the header byte at 0x0147.  The header must name a
    /// supported mapper and the image must hold the full fixed area.
    pub fn initialize_memory(&mut self, rom: Vec<u8>)
        requires
            old(self).wf(),
            rom@.len() >= 0x8000,
            spec_header_supported(rom@[0x147]),
        ensures
            final(self).wf(),
            final(self).mapped(),
            final(self).mapper() == spec_mapper_of(rom@[0x147]),
            final(self).rom_image() == rom@,
            final(self).ram_image() == Seq::<u8>::new(0x8000, |i: int| 0u8),
            final(self)@.len() == 0x10000,
            forall|i: int| #![auto] 0 <= i < 0x8000 ==> final(self)@[i] == rom@[i],
            same_outside(old(self)@, final(self)@, 0, 0x8000),
            final(self).has_cart_ram() == spec_header_has_ram(rom@),
            !final(self).ram_enabled(),
            final(self).cur_ram_bank() == 1,
            final(self).input_state() == old(self).input_state(),
            final(self).div_count() == old(self).div_count(),
    {
        let mut i: usize = 0;
        while i < 0x8000
            invariant
                i <= 0x8000,
                rom@.len() >= 0x8000,
                self.memory@.len() == 0x10000,
                forall|j: int| #![auto] 0 <= j < i ==> self.memory@[j] == rom@[j],
                forall|j: int|
                    #![auto]
                    i <= j < 0x10000 ==> self.memory@[j] == old(self).memory@[j],
                self.total_rom == old(self).total_rom,
                self.total_ram == old(self).total_ram,
                self.ram_bank == old(self).ram_bank,
                self.mbc == old(self).mbc,
                self.input == old(self).input_state(),
                self.has_external_ram == old(self).has_external_ram,
                self.enable_external_ram == old(self).enable_external_ram,
                self.div_counter == old(self).div_counter,
            decreases 0x8000 - i,
        {
            let v = rom[i];
            self.memory.set(i, v);
            i += 1;
        }
        let mut ram: Vec<u8> = Vec::new();
        let mut j: usize = 0;
        while j < 0x8000
            invariant
                j <= 0x8000,
                ram@.len() == j,
                forall|k: int| #![auto] 0 <= k < j ==> ram@[k] == 0u8,
            decreases 0x8000 - j,
        {
            ram.push(0u8);
            j += 1;
        }
        proof {
            assert(ram@ =~= Seq::<u8>::new(0x8000, |i: int| 0u8));
        }
        let header = rom[0x147];
        let mbc2 = 0x05 <= header && header <= 0x06;
        let ram_size = rom[0x149];
        self.has_external_ram = ram_size != 0 || mbc2;
        self.enable_external_ram = false;
        self.ram_bank = 1;
        self.total_ram = ram;
        self.total_rom = rom;
        if header == 0x00 {
            self.mbc = Mbc::RomOnly;
        } else if 0x01 <= header && header <= 0x03 {
            self.mbc = Mbc::Mbc1;
        } else if mbc2 {
            self.mbc = Mbc::Mbc2;
        } else if 0x0F <= header && header <= 0x13 {
            self.mbc = Mbc::Mbc3;
        } else {
            self.mbc = Mbc::Mbc5;
        }
    }

    /// Pages the selected ROM bank into 0x4000..0x8000.  A bank beyond the
    /// end of the image leaves the window as it is.
    fn switch_rom_bank(&mut self, bank: u8)
        requires
            old(self).wf(),
            old(self).mapped(),
        ensures
            final(self).wf(),
            spec_rom_window_switched(old(self), final(self), bank),
            spec_ctrl_frame(old(self), final(self)),
            final(self).ram_enabled() == old(self).ram_enabled(),
            final(self).ram_image() == old(self).ram_image(),
            final(self).cur_ram_bank() == old(self).cur_ram_bank(),
            final(self).div_count() == old(self).div_count(),
            final(self).input_state() == old(self).input_state(),
    {
        let bk: usize = match self.mbc {
            Mbc::Mbc2 => {
                let m = bank & 0x0F;
                if m == 0 {
                    1
                } else {
                    m as usize
                }
            },
            Mbc::Mbc3 => {
                let m = bank & 0x7F;
                if m == 0 {
                    1
                } else {
                    m as usize
                }
            },
            Mbc::Mbc5 => bank as usize,
            _ => {
                let m = bank & 0x1F;
                if m == 0 {
                    1
                } else {
                    m as usize
                }
            },
        };
        let offset = bk * 0x4000;
        if offset + 0x4000 <= self.total_rom.len() {
            let mut i: usize = 0;
            while i < 0x4000
                invariant
                    i <= 0x4000,
                    self.memory@.len() == 0x10000,
                    offset + 0x4000 <= self.total_rom@.len(),
                    offset + 0x4000 <= 0x400000,
                    forall|j: int|
                        #![trigger self.memory@[0x4000 + j]]
                        0 <= j < i ==> self.memory@[0x4000 + j] == self.total_rom@[offset + j],
                    forall|j: int|
                        #![auto]
                        0 <= j < 0x10000 && !(0x4000 <= j < 0x4000 + i) ==> self.memory@[j]
                            == old(self).memory@[j],
                    self.total_rom == old(self).total_rom,
                    self.total_ram == old(self).total_ram,
                    self.ram_bank == old(self).ram_bank,
                    self.mbc == old(self).mbc,
                    self.input == old(self).input_state(),
                    self.has_external_ram == old(self).has_external_ram,
                    self.enable_external_ram == old(self).enable_external_ram,
                    self.div_counter == old(self).div_counter,
                decreases 0x4000 - i,
            {
                let v = self.total_rom[offset + i];
                self.memory.set(0x4000 + i, v);
                i += 1;
            }
        }
    }

    /// Flushes the outgoing RAM bank back to the detached image and pages
    /// the selected bank into 0xA000..0xC000.
    fn switch_ram_bank(&mut self, bank: u8)
        requires
            old(self).wf(),
            old(self).mapped(),
        ensures
            final(self).wf(),
            spec_ram_window_switched(old(self), final(self), bank),
            spec_ctrl_frame(old(self), final(self)),
            final(self).ram_enabled() == old(self).ram_enabled(),
            final(self).div_count() == old(self).div_count(),
            final(self).input_state() == old(self).input_state(),
    {
        let nb: usize = match self.mbc {
            Mbc::Mbc3 => (bank & 0x03) as usize,
            Mbc::Mbc5 => (bank & 0x0F) as usize,
            _ => {
                let m = bank & 0x03;
                if m == 0 {
                    1
                } else {
                    m as usize
                }
            },
        };
        proof {
            crate::bits::lemma_op_fields(bank);
        }
        if (nb + 1) * 0x2000 > self.total_ram.len() {
            return ;
        }
        let old_offset = self.ram_bank * 0x2000;
        let mut i: usize = 0;
        while i < 0x2000
            invariant
                i <= 0x2000,
                old(self).wf(),
                old(self).mapped(),
                old_offset == old(self).cur_ram_bank() * 0x2000,
                old_offset + 0x2000 <= 0x8000,
                self.memory == old(self).memory,
                self.total_ram@.len() == 0x8000,
                forall|j: int|
                    #![trigger self.total_ram@[old_offset + j]]
                    0 <= j < i ==> self.total_ram@[old_offset + j] == self.memory@[0xA000 + j],
                forall|j: int|
                    #![auto]
                    0 <= j < 0x8000 && !(old_offset <= j < old_offset + i) ==> self.total_ram@[j]
                        == old(self).total_ram@[j],
                self.total_rom == old(self).total_rom,
                self.ram_bank == old(self).ram_bank,
                self.mbc == old(self).mbc,
                self.input == old(self).input_state(),
                self.has_external_ram == old(self).has_external_ram,
                self.enable_external_ram == old(self).enable_external_ram,
                self.div_counter == old(self).div_counter,
            decreases 0x2000 - i,
        {
            let v = self.memory[0xA000 + i];
            self.total_ram.set(old_offset + i, v);
            i += 1;
        }
        let offset = nb * 0x2000;
        let mut k: usize = 0;
        while k < 0x2000
            invariant
                k <= 0x2000,
                offset == spec_ram_bank(old(self).mapper(), bank) * 0x2000,
                offset + 0x2000 <= 0x8000,
                self.memory@.len() == 0x10000,
                self.total_ram@.len() == 0x8000,
                forall|j: int|
                    #![trigger self.memory@[0xA000 + j]]
                    0 <= j < k ==> self.memory@[0xA000 + j] == self.total_ram@[offset + j],
                forall|j: int|
                    #![auto]
                    0 <= j < 0x10000 && !(0xA000 <= j < 0xA000 + k) ==> self.memory@[j] == old(self).memory@[j],
                forall|j: int|
                    #![trigger old(self).memory@[0xA000 + j]]
                    0 <= j < 0x2000 ==> self.total_ram@[old(self).cur_ram_bank() * 0x2000 + j]
                        == old(self).memory@[0xA000 + j],
                forall|j: int|
                    #![auto]
                    0 <= j < 0x8000 && !(old(self).cur_ram_bank() * 0x2000 <= j < old(self).cur_ram_bank() * 0x2000 + 0x2000) ==> self.total_ram@[j] == old(self).total_ram@[j],
                self.total_rom == old(self).total_rom,
                self.ram_bank == old(self).ram_bank,
                self.mbc == old(self).mbc,
                self.input == old(self).input_state(),
                self.has_external_ram == old(self).has_external_ram,
                self.enable_external_ram == old(self).enable_external_ram,
                self.div_counter == old(self).div_counter,
            decreases 0x2000 - k,
        {
            let v = self.total_ram[offset + k];
            self.memory.set(0xA000 + k, v);
            k += 1;
        }
        self.ram_bank = nb;
    }

    /// Copies 160 bytes from `address * 0x100` into the OAM table.
    pub fn dma_transfer(&mut self, address: u8)
        requires
            old(self).wf(),
        ensures
            final(self).wf(),
            forall|i: int|
                #![trigger final(self)@[0xFE00 + i]]
                0 <= i < 0xA0 ==> final(self)@[0xFE00 + i] == old(self)@[address * 0x100 + i],
            same_outside(old(self)@, final(self)@, 0xFE00, 0xFEA0),
            spec_ctrl_frame(old(self), final(self)),
            final(self).ram_enabled() == old(self).ram_enabled(),
            final(self).ram_image() == old(self).ram_image(),
            final(self).cur_ram_bank() == old(self).cur_ram_bank(),
            final(self).div_count() == old(self).div_count(),
            final(self).input_state() == old(self).input_state(),
    {
        let src = address as usize * 0x100;
        let mut i: usize = 0;
        while i < 0xA0
            invariant
                i <= 0xA0,
                src == address * 0x100,
                src + 0xA0 <= 0x10000,
                self.memory@.len() == 0x10000,
                forall|j: int|
                    #![trigger self.memory@[0xFE00 + j]]
                    0 <= j < i ==> self.memory@[0xFE00 + j] == old(self).memory@[src + j],
                forall|j: int|
                    #![auto]
                    0 <= j < 0x10000 && !(0xFE00 <= j < 0xFE00 + i) ==> self.memory@[j] == old(self).memory@[j],
                self.total_rom == old(self).total_rom,
                self.total_ram == old(self).total_ram,
                self.ram_bank == old(self).ram_bank,
                self.mbc == old(self).mbc,
                self.input == old(self).input_state(),
                self.has_external_ram == old(self).has_external_ram,
                self.enable_external_ram == old(self).enable_external_ram,
                self.div_counter == old(self).div_counter,
            decreases 0xA0 - i,
        {
            let v = self.memory[src + i];
            self.memory.set(0xFE00 + i, v);
            i += 1;
        }
    }

    /// One write into the address space, with the full MBC and register
    /// side-effect decoding.
    #[verifier::rlimit(60)]
    pub fn set(&mut self, address: u16, value: u8)
        requires
            old(self).wf(),
        ensures
            final(self).wf(),
            spec_store(old(self), final(self), address, value),
    {
        if self.mbc != Mbc::NoMbc && address < 0x2000 {
            self.enable_external_ram = self.has_external_ram && value & 0x0F == 0x0A;
        } else if self.mbc != Mbc::NoMbc && 0x2000 <= address && address < 0x4000 {
            self.switch_rom_bank(value);
        } else if self.mbc != Mbc::NoMbc && 0x4000 <= address && address < 0x6000 {
            self.switch_ram_bank(value);
        } else if self.mbc != Mbc::NoMbc && 0x6000 <= address && address < 0x8000 {
            // Mode select on MBC1-family carts; the simple banking model
            // keeps ROM mode, so the latch has no further effect.
        } else if 0xA000 <= address && address < 0xC000 {
            if self.enable_external_ram {
                self.memory.set(address as usize, value);
            }
        } else if address == 0xFF00 {
            self.input.write_ff00(value);
        } else if address == 0xFF04 {
            self.memory.set(0xFF04, 0);
            self.div_counter = 0;
        } else if address == 0xFF46 {
            self.dma_transfer(value);
        } else {
            self.memory.set(address as usize, value);
        }
    }

    /// One read of the address space.
    pub fn get(&self, address: usize) -> (r: u8)
        requires
            self.wf(),
            address < 0x10000,
        ensures
            r == spec_read(self, address as int),
    {
        if address == 0xFF00 {
            self.input.read_ff00()
        } else if 0xA000 <= address && address < 0xC000 {
            if self.enable_external_ram {
                self.memory[address]
            } else {
                0xFF
            }
        } else {
            self.memory[address]
        }
    }

    /// The sixteen wave-table bytes at 0xFF30..0xFF40.
    pub fn get_wave_ram(&self) -> (r: Vec<u8>)
        requires
            self.wf(),
        ensures
            r@ == self@.subrange(0xFF30, 0xFF40),
    {
        let mut out: Vec<u8> = Vec::new();
        let mut i: usize = 0;
        while i < 0x10
            invariant
                i <= 0x10,
                self.wf(),
                out@.len() == i,
                forall|j: int| #![auto] 0 <= j < i ==> out@[j] == self@[0xFF30 + j],
            decreases 0x10 - i,
        {
            out.push(self.memory[0xFF30 + i]);
            i += 1;
        }
        proof {
            assert(out@ =~= self@.subrange(0xFF30, 0xFF40));
        }
        out
    }

    /// Steps the DIV byte directly, wrapping; the host loop uses this when
    /// it paces the divider from wall time.
    pub fn inc_div(&mut self)
        requires
            old(self).wf(),
        ensures
            final(self).wf(),
            final(self)@ == old(self)@.update(
                0xFF04,
                crate::cpu::wrap8(old(self)@[0xFF04] + 1) as u8,
            ),
            spec_banking_frame(old(self), final(self)),
            spec_ctrl_frame(old(self), final(self)),
            final(self).input_state() == old(self).input_state(),
            final(self).div_count() == old(self).div_count(),
    {
        let v = self.memory[0xFF04];
        self.memory.set(0xFF04, v.wrapping_add(1));
    }

    /// Advances the internal divider by a cycle count and surfaces its
    /// upper byte at 0xFF04.
    pub fn tick_div(&mut self, t_cycles: u16)
        requires
            old(self).wf(),
        ensures
            final(self).wf(),
            final(self).div_count() == crate::cpu::wrap16(
                old(self).div_count() + t_cycles,
            ) as u16,
            final(self)@ == old(self)@.update(0xFF04, (final(self).div_count() >> 8) as u8),
            spec_banking_frame(old(self), final(self)),
            spec_ctrl_frame(old(self), final(self)),
            final(self).input_state() == old(self).input_state(),
    {
        self.div_counter = self.div_counter.wrapping_add(t_cycles);
        let v = (self.div_counter >> 8) as u8;
        self.memory.set(0xFF04, v);
    }
}

/// Whether the header byte names a supported mapper family.
pub open spec fn spec_header_supported(h: u8) -> bool {
    h == 0x00 || (0x01 <= h <= 0x03) || (0x05 <= h <= 0x06) || (0x0F <= h <= 0x13) || (0x19 <= h
        <= 0x1E)
}

/// The mapper family a supported header byte selects.
pub open spec fn spec_mapper_of(h: u8) -> Mbc {
    if h == 0x00 {
        Mbc::RomOnly
    } else if 0x01 <= h <= 0x03 {
        Mbc::Mbc1
    } else if 0x05 <= h <= 0x06 {
        Mbc::Mbc2
    } else if 0x0F <= h <= 0x13 {
        Mbc::Mbc3
    } else {
        Mbc::Mbc5
    }
}

/// Whether a cartridge image advertises external RAM: a nonzero RAM-size
/// byte, or the mapper family with internal RAM.
pub open spec fn spec_header_has_ram(rom: Seq<u8>) -> bool {
    rom[0x149] != 0 || (0x05 <= rom[0x147] <= 0x06)
}

/// The mapper identity and cartridge-RAM presence are untouched.
pub open spec fn spec_ctrl_frame(a: &Mmu, b: &Mmu) -> bool {
    &&& b.mapper() == a.mapper()
    &&& b.has_cart_ram() == a.has_cart_ram()
    &&& b.rom_image() == a.rom_image()
}

/// The whole banking state is untouched.
pub open spec fn spec_banking_frame(a: &Mmu, b: &Mmu) -> bool {
    &&& b.ram_enabled() == a.ram_enabled()
    &&& b.ram_image() == a.ram_image()
    &&& b.cur_ram_bank() == a.cur_ram_bank()
}

/// The ROM window after a bank-select write: replaced from the image when
/// the selected bank is inside it, untouched otherwise.
pub open spec fn spec_rom_window_switched(a: &Mmu, b: &Mmu, v: u8) -> bool {
    let bank = spec_rom_bank(a.mapper(), v);
    if (bank + 1) * 0x4000 <= a.rom_image().len() {
        &&& same_outside(a@, b@, 0x4000, 0x8000)
        &&& forall|j: int|
            #![trigger b@[0x4000 + j]]
            0 <= j < 0x4000 ==> b@[0x4000 + j] == a.rom_image()[bank * 0x4000 + j]
    } else {
        b@ == a@
    }
}

/// The RAM window and image after a bank-select write: the outgoing bank
/// is flushed to the image, then the selected bank is paged in.
pub open spec fn spec_ram_window_switched(a: &Mmu, b: &Mmu, v: u8) -> bool {
    let nb = spec_ram_bank(a.mapper(), v);
    let ob = a.cur_ram_bank();
    if (nb + 1) * 0x2000 > a.ram_image().len() {
        b@ == a@ && spec_banking_frame(a, b)
    } else {
    &&& b.cur_ram_bank() == nb
    &&& b.ram_image().len() == 0x8000
    &&& forall|j: int|
        #![trigger a@[0xA000 + j]]
        0 <= j < 0x2000 ==> b.ram_image()[ob * 0x2000 + j] == a@[0xA000 + j]
    &&& forall|j: int|
        #![auto]
        0 <= j < 0x8000 && !(ob * 0x2000 <= j < ob * 0x2000 + 0x2000) ==> b.ram_image()[j]
            == a.ram_image()[j]
    &&& forall|j: int|
        #![trigger b@[0xA000 + j]]
        0 <= j < 0x2000 ==> b@[0xA000 + j] == (if nb == ob {
            a@[0xA000 + j]
        } else {
            a.ram_image()[nb * 0x2000 + j]
        })
    &&& same_outside(a@, b@, 0xA000, 0xC000)
    }
}

/// Whether a write to this address is an ordinary byte store, free of any
/// mapper or register side effect.
pub open spec fn spec_plain_store(m: &Mmu, address: u16) -> bool {
    &&& address != 0xFF00
    &&& address != 0xFF04
    &&& address != 0xFF46
    &&& !(0xA000 <= address < 0xC000)
    &&& (m.mapped() ==> address >= 0x8000)
}


/// The full effect of one write `value` at `address`: the register side
/// effects, the MBC control decoding, and the ordinary byte store.
pub open spec fn spec_store(a: &Mmu, b: &Mmu, address: u16, value: u8) -> bool {
    &&& spec_ctrl_frame(a, b)
    // The divider resets on any write, whatever the value.
    &&& address == 0xFF04 ==> b@ == a@.update(0xFF04, 0u8) && b.div_count() == 0
        && spec_banking_frame(a, b)
    &&& address != 0xFF04 ==> b.div_count() == a.div_count()
    // The joypad write touches only the selector bits.
    &&& address == 0xFF00 ==> b@ == a@ && b.input_state() == (crate::input::Input {
        select_button_keys: value & 0x20 != 0,
        select_direction_keys: value & 0x10 != 0,
        ..a.input_state()
    }) && spec_banking_frame(a, b)
    &&& address != 0xFF00 ==> b.input_state() == a.input_state()
    // The DMA register copies a 160-byte page into OAM.
    &&& address == 0xFF46 ==> (forall|i: int|
        #![trigger b@[0xFE00 + i]]
        0 <= i < 0xA0 ==> b@[0xFE00 + i] == a@[value * 0x100 + i]) && same_outside(
        a@,
        b@,
        0xFE00,
        0xFEA0,
    ) && spec_banking_frame(a, b)
    // RAM gate: only the enable latch moves, and only with a mapper.
    &&& a.mapped() && address < 0x2000 ==> b@ == a@ && b.ram_enabled() == (a.has_cart_ram()
        && value & 0x0F == 0x0A) && b.ram_image() == a.ram_image() && b.cur_ram_bank()
        == a.cur_ram_bank()
    // ROM bank select.
    &&& a.mapped() && 0x2000 <= address < 0x4000 ==> spec_rom_window_switched(a, b, value)
        && b.ram_enabled() == a.ram_enabled() && b.ram_image() == a.ram_image()
        && b.cur_ram_bank() == a.cur_ram_bank()
    // RAM bank select: flush, then page in.
    &&& a.mapped() && 0x4000 <= address < 0x6000 ==> spec_ram_window_switched(a, b, value)
        && b.ram_enabled() == a.ram_enabled()
    // Banking-mode select: accepted and ignored.
    &&& a.mapped() && 0x6000 <= address < 0x8000 ==> b@ == a@ && spec_banking_frame(a, b)
    // External RAM window: written only while enabled.
    &&& 0xA000 <= address < 0xC000 ==> b@ == (if a.ram_enabled() {
        a@.update(address as int, value)
    } else {
        a@
    }) && spec_banking_frame(a, b)
    // Every other address is an ordinary byte store.
    &&& spec_plain_store(a, address) ==> b@ == a@.update(address as int, value)
        && spec_banking_frame(a, b)
}

/// Three writes in order.
pub open spec fn spec_store3(
    a: &Mmu,
    b: &Mmu,
    a1: u16,
    v1: u8,
    a2: u16,
    v2: u8,
    a3: u16,
    v3: u8,
) -> bool {
    exists|mid: Mmu|
        #![trigger spec_store(a, &mid, a1, v1)]
        spec_store(a, &mid, a1, v1) && mid.wf() && spec_store2(&mid, b, a2, v2, a3, v3)
}

/// Two writes in order.
pub open spec fn spec_store2(a: &Mmu, b: &Mmu, a1: u16, v1: u8, a2: u16, v2: u8) -> bool {
    exists|mid: Mmu|
        #![trigger spec_store(a, &mid, a1, v1)]
        spec_store(a, &mid, a1, v1) && mid.wf() && spec_store(&mid, b, a2, v2)
}

} // verus!
