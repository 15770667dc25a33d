use vstd::prelude::*;
use crate::cartridge::rom_reading::Mirroring;
use crate::cartridge::rom_with_pager::{RomData, RomDataView};
use crate::mapper::Mapper;
use crate::mapper::pager::{Page, PageSize, can_access, lemma_page_access, paged_read, paged_write};

verus! {

/// Which half of a 32 KiB PRG window or an 8 KiB CHR window an address falls in.
#[derive(Debug, Copy, Clone, Eq, PartialEq, Structural)]
pub enum AddressRange {
    Lo,
    Hi,
}

#[derive(Debug, Copy, Clone, Eq, PartialEq, Structural)]
pub enum PrgMode {
    Consecutive,
    FixFirst,
    FixLast,
}

#[derive(Debug, Copy, Clone, Eq, PartialEq, Structural)]
pub enum ChrMode {
    Consecutive,
    NonConsecutive,
}

/// The MMC1 control register: name-table mode in bits 0-1, PRG mode in bits 2-3,
/// CHR mode in bit 4.
#[derive(Copy, Clone, PartialEq, Eq, Structural)]
pub struct CtrlReg(pub u8);

impl CtrlReg {
    pub open spec fn nt_mode(self) -> u8 {
        self.0 & 0x03
    }

    pub open spec fn prg_mode_bits(self) -> u8 {
        (self.0 >> 2) & 0x03
    }

    pub open spec fn chr_mode_bit(self) -> u8 {
        (self.0 >> 4) & 0x01
    }

    pub open spec fn spec_prg_mode(self) -> PrgMode {
        if self.prg_mode_bits() <= 1 {
            PrgMode::Consecutive
        } else if self.prg_mode_bits() == 2 {
            PrgMode::FixFirst
        } else {
            PrgMode::FixLast
        }
    }

    pub open spec fn spec_chr_mode(self) -> ChrMode {
        if self.chr_mode_bit() == 0 { ChrMode::Consecutive } else { ChrMode::NonConsecutive }
    }

    /// Only the two-screen modes (2 and 3) are supported.
    pub fn mirroring(&self) -> (r: Mirroring)
        requires
            self.nt_mode() == 2 || self.nt_mode() == 3,
        ensures
            r == (if self.nt_mode() == 2 { Mirroring::Vertical } else { Mirroring::Horizontal }),
    {
        if self.0 & 0x03 == 2 {
            Mirroring::Vertical
        } else {
            Mirroring::Horizontal
        }
    }

    pub fn prg_mode(&self) -> (r: PrgMode)
        ensures
            r == self.spec_prg_mode(),
    {
        let id = (self.0 >> 2) & 0x03;
        if id <= 1 {
            PrgMode::Consecutive
        } else if id == 2 {
            PrgMode::FixFirst
        } else {
            PrgMode::FixLast
        }
    }

    pub fn chr_mode(&self) -> (r: ChrMode)
        ensures
            r == self.spec_chr_mode(),
    {
        if (self.0 >> 4) & 0x01 == 0 {
            ChrMode::Consecutive
        } else {
            ChrMode::NonConsecutive
        }
    }
}

/// The MMC1 serial port: five writes of bit 0 build a register value, low bit first;
/// a write with bit 7 set resets it.
#[derive(Copy, Clone, PartialEq, Eq, Structural)]
pub struct ShiftReg {
    pub val: u8,
    pub idx: u8,
}

impl ShiftReg {
    pub open spec fn wf(self) -> bool {
        self.idx <= 4
    }

    /// The register after a push, and the completed value if the push was the fifth.
    pub open spec fn spec_push(self, n: u8) -> (ShiftReg, Option<u8>) {
        if n >> 7 == 1 {
            (ShiftReg { val: 0, idx: 0 }, None)
        } else {
            let v = self.val | ((n & 1) << self.idx);
            if self.idx == 4 {
                (ShiftReg { val: 0, idx: 0 }, Some(v))
            } else {
                (ShiftReg { val: v, idx: (self.idx + 1) as u8 }, None)
            }
        }
    }

    pub fn new() -> (r: Self)
        ensures
            r == (ShiftReg { val: 0, idx: 0 }),
    {
        ShiftReg { val: 0, idx: 0 }
    }

    pub fn reset(&mut self)
        ensures
            *final(self) == (ShiftReg { val: 0, idx: 0 }),
    {
        self.val = 0;
        self.idx = 0;
    }

    pub fn push(&mut self, n: u8) -> (r: Option<u8>)
        requires
            old(self).wf(),
        ensures
            (*final(self), r) == old(self).spec_push(n),
            final(self).wf(),
    {
        if n >> 7 == 1 {
            self.reset();
        } else {
            self.val = self.val | ((n & 1) << self.idx);
            if self.idx == 4 {
                let result = self.val;
                self.reset();
                return Some(result);
            }
            self.idx = self.idx + 1;
        }
        None
    }
}

/// MMC1 (SxROM): registers loaded through a serial port select PRG and CHR banks.
#[derive(Copy, Clone, PartialEq, Eq, Structural)]
pub struct Mapper1 {
    pub shift_reg: ShiftReg,
    pub control_reg: CtrlReg,
    pub prg_0: usize,
    pub chr_0: usize,
    pub chr_1: usize,
}

impl Mapper1 {
    pub open spec fn wf(self) -> bool {
        self.shift_reg.wf()
    }

    pub fn new(rom: &RomData) -> (r: Self)
        ensures
            r.shift_reg == (ShiftReg { val: 0, idx: 0 }),
            r.control_reg == CtrlReg(0x0E),
            r.prg_0 == 0,
            r.chr_0 == 0,
            r.chr_1 == 0,
    {
        Mapper1 { shift_reg: ShiftReg::new(), control_reg: CtrlReg(0x0E), chr_0: 0, chr_1: 0, prg_0: 0 }
    }

    pub open spec fn spec_write_shift(self, address: u16, value: u8) -> Self {
        let (sr, done) = self.shift_reg.spec_push(value);
        let s = Mapper1 { shift_reg: sr, ..self };
        match done {
            Some(v) => if address <= 0x9FFF {
                Mapper1 { control_reg: CtrlReg(v), ..s }
            } else if address <= 0xBFFF {
                Mapper1 { chr_0: (v & 0x1F) as usize, ..s }
            } else if address <= 0xDFFF {
                Mapper1 { chr_1: (v & 0x1F) as usize, ..s }
            } else {
                Mapper1 { prg_0: (v & 0x0F) as usize, ..s }
            },
            None => s,
        }
    }

    fn write_shift(&mut self, address: u16, value: u8)
        requires
            old(self).wf(),
            0x8000 <= address,
        ensures
            *final(self) == old(self).spec_write_shift(address, value),
            final(self).wf(),
    {
        if let Some(shift_value) = self.shift_reg.push(value) {
            if address <= 0x9FFF {
                self.control_reg = CtrlReg(shift_value);
            } else if address <= 0xBFFF {
                self.chr_0 = (shift_value & 0x1F) as usize;
            } else if address <= 0xDFFF {
                self.chr_1 = (shift_value & 0x1F) as usize;
            } else {
                self.prg_0 = (shift_value & 0x0F) as usize;
            }
        }
    }

    fn read_paged_prg_ram(&self, rom: &RomData, offset: u16) -> (r: u8)
        requires
            can_access(rom.prg_ram.data@, Page::First(PageSize::EightKb), offset),
        ensures
            r == paged_read(rom.prg_ram.data@, Page::First(PageSize::EightKb), offset),
    {
        rom.prg_ram.read(Page::First(PageSize::EightKb), offset)
    }

    fn write_paged_prg_ram(&mut self, rom: &mut RomData, offset: u16, value: u8)
        requires
            can_access(old(rom).prg_ram.data@, Page::First(PageSize::EightKb), offset),
        ensures
            *final(self) == *old(self),
            final(rom)@ == (RomDataView {
                prg_ram: paged_write(old(rom)@.prg_ram, Page::First(PageSize::EightKb), offset, value),
                ..old(rom)@
            }),
    {
        rom.prg_ram.write(Page::First(PageSize::EightKb), offset, value);
    }

    /// The 4 KiB CHR page that each half of the pattern tables shows.
    pub open spec fn spec_get_page(self, address_range: AddressRange) -> Page {
        match self.control_reg.spec_chr_mode() {
            ChrMode::Consecutive => match address_range {
                AddressRange::Lo => Page::FromNth(self.chr_0, PageSize::FourKb),
                AddressRange::Hi => Page::FromNth((self.chr_0 + 1) as usize, PageSize::FourKb),
            },
            ChrMode::NonConsecutive => match address_range {
                AddressRange::Lo => Page::FromNth(self.chr_0, PageSize::FourKb),
                AddressRange::Hi => Page::FromNth(self.chr_1, PageSize::FourKb),
            },
        }
    }

    fn get_page(&self, address_range: AddressRange) -> (r: Page)
        requires
            self.chr_0 < usize::MAX,
        ensures
            r == self.spec_get_page(address_range),
    {
        match self.control_reg.chr_mode() {
            ChrMode::Consecutive => match address_range {
                AddressRange::Lo => Page::FromNth(self.chr_0, PageSize::FourKb),
                AddressRange::Hi => Page::FromNth(self.chr_0 + 1, PageSize::FourKb),
            },
            ChrMode::NonConsecutive => match address_range {
                AddressRange::Lo => Page::FromNth(self.chr_0, PageSize::FourKb),
                AddressRange::Hi => Page::FromNth(self.chr_1, PageSize::FourKb),
            },
        }
    }

    fn write_paged_chr_ram(&mut self, rom: &mut RomData, address_range: AddressRange, offset: u16, value: u8)
        requires
            old(self).chr_0 < usize::MAX,
            can_access(old(rom).chr_ram.data@, old(self).spec_get_page(address_range), offset),
        ensures
            *final(self) == *old(self),
            final(rom)@ == (RomDataView {
                chr_ram: paged_write(old(rom)@.chr_ram, old(self).spec_get_page(address_range), offset, value),
                ..old(rom)@
            }),
    {
        let page = self.get_page(address_range);
        rom.chr_ram.write(page, offset, value)
    }

    /// The 16 KiB PRG page that each half of the CPU window shows.
    pub open spec fn spec_prg_page(self, address_range: AddressRange) -> Page {
        match self.control_reg.spec_prg_mode() {
            PrgMode::FixFirst => match address_range {
                AddressRange::Lo => Page::First(PageSize::SixteenKb),
                AddressRange::Hi => Page::FromNth(self.prg_0, PageSize::SixteenKb),
            },
            PrgMode::FixLast => match address_range {
                AddressRange::Lo => Page::FromNth(self.prg_0, PageSize::SixteenKb),
                AddressRange::Hi => Page::Last(PageSize::SixteenKb),
            },
            PrgMode::Consecutive => match address_range {
                AddressRange::Lo => Page::FromNth(self.prg_0 & !1usize, PageSize::SixteenKb),
                AddressRange::Hi => Page::FromNth(self.prg_0 | 1, PageSize::SixteenKb),
            },
        }
    }

    fn read_paged_prg_rom(&self, rom: &RomData, address_range: AddressRange, offset: u16) -> (r: u8)
        requires
            can_access(rom.prg_rom.data@, self.spec_prg_page(address_range), offset),
        ensures
            r == paged_read(rom.prg_rom.data@, self.spec_prg_page(address_range), offset),
    {
        rom.prg_rom.read(self.prg_page(address_range), offset)
    }

    /// The PRG ROM page that an address range selects.
    fn prg_page(&self, address_range: AddressRange) -> (r: Page)
        ensures
            r == self.spec_prg_page(address_range),
    {
        match self.control_reg.prg_mode() {
            PrgMode::FixFirst => match address_range {
                AddressRange::Lo => Page::First(PageSize::SixteenKb),
                AddressRange::Hi => Page::FromNth(self.prg_0, PageSize::SixteenKb),
            },
            PrgMode::FixLast => match address_range {
                AddressRange::Lo => Page::FromNth(self.prg_0, PageSize::SixteenKb),
                AddressRange::Hi => Page::Last(PageSize::SixteenKb),
            },
            PrgMode::Consecutive => match address_range {
                AddressRange::Lo => Page::FromNth(self.prg_0 & !1usize, PageSize::SixteenKb),
                AddressRange::Hi => Page::FromNth(self.prg_0 | 1, PageSize::SixteenKb),
            },
        }
    }

    /// The CHR memory the PPU sees: RAM when the image has no CHR ROM.
    pub open spec fn chr(self, rom: RomDataView) -> Seq<u8> {
        if rom.rom_header.chr_rom_len == 0 { rom.chr_ram } else { rom.chr_rom }
    }

    fn read_paged_chr_rom(&self, rom: &RomData, address_range: AddressRange, offset: u16) -> (r: u8)
        requires
            self.chr_0 < usize::MAX,
            can_access(self.chr(rom@), self.spec_get_page(address_range), offset),
        ensures
            r == paged_read(self.chr(rom@), self.spec_get_page(address_range), offset),
    {
        let page = self.get_page(address_range);
        if rom.rom_header.chr_rom_len == 0 {
            rom.chr_ram.read(page, offset)
        } else {
            rom.chr_rom.read(page, offset)
        }
    }

    /// The half and offset that a PPU address below 0x2000 selects.
    pub open spec fn ppu_slot(address: u16) -> (AddressRange, u16) {
        if address <= 0x0FFF { (AddressRange::Lo, address) } else { (AddressRange::Hi, (address - 0x1000) as u16) }
    }
}

impl Mapper for Mapper1 {
    open spec fn cpu_read_ok(&self, rom: RomDataView, address: u16) -> bool {
        if 0x6000 <= address <= 0x7FFF {
            can_access(rom.prg_ram, Page::First(PageSize::EightKb), (address - 0x6000) as u16)
        } else if 0x8000 <= address <= 0xBFFF {
            can_access(rom.prg_rom, self.spec_prg_page(AddressRange::Lo), (address - 0x8000) as u16)
        } else if 0xC000 <= address {
            can_access(rom.prg_rom, self.spec_prg_page(AddressRange::Hi), (address - 0xC000) as u16)
        } else {
            false
        }
    }

    open spec fn cpu_read_value(&self, rom: RomDataView, address: u16) -> u8 {
        if 0x6000 <= address <= 0x7FFF {
            paged_read(rom.prg_ram, Page::First(PageSize::EightKb), (address - 0x6000) as u16)
        } else if 0x8000 <= address <= 0xBFFF {
            paged_read(rom.prg_rom, self.spec_prg_page(AddressRange::Lo), (address - 0x8000) as u16)
        } else {
            paged_read(rom.prg_rom, self.spec_prg_page(AddressRange::Hi), (address - 0xC000) as u16)
        }
    }

    open spec fn cpu_write_ok(&self, rom: RomDataView, address: u16) -> bool {
        if 0x6000 <= address <= 0x7FFF {
            can_access(rom.prg_ram, Page::First(PageSize::EightKb), (address - 0x6000) as u16)
        } else {
            0x8000 <= address && self.wf()
        }
    }

    open spec fn cpu_write_board(&self, rom: RomDataView, address: u16, data: u8) -> Self {
        if 0x8000 <= address { self.spec_write_shift(address, data) } else { *self }
    }

    open spec fn cpu_write_rom(&self, rom: RomDataView, address: u16, data: u8) -> RomDataView {
        if 0x6000 <= address <= 0x7FFF {
            RomDataView {
                prg_ram: paged_write(
                    rom.prg_ram,
                    Page::First(PageSize::EightKb),
                    (address - 0x6000) as u16,
                    data,
                ),
                ..rom
            }
        } else {
            rom
        }
    }

    open spec fn ppu_read_ok(&self, rom: RomDataView, address: u16) -> bool {
        &&& address <= 0x1FFF
        &&& self.chr_0 < usize::MAX
        &&& can_access(self.chr(rom), self.spec_get_page(Self::ppu_slot(address).0), Self::ppu_slot(address).1)
    }

    open spec fn ppu_read_value(&self, rom: RomDataView, address: u16) -> u8 {
        paged_read(self.chr(rom), self.spec_get_page(Self::ppu_slot(address).0), Self::ppu_slot(address).1)
    }

    open spec fn ppu_write_ok(&self, rom: RomDataView, address: u16) -> bool {
        &&& address <= 0x1FFF
        &&& self.chr_0 < usize::MAX
        &&& can_access(rom.chr_ram, self.spec_get_page(Self::ppu_slot(address).0), Self::ppu_slot(address).1)
    }

    open spec fn ppu_write_rom(&self, rom: RomDataView, address: u16, data: u8) -> RomDataView {
        RomDataView {
            chr_ram: paged_write(
                rom.chr_ram,
                self.spec_get_page(Self::ppu_slot(address).0),
                Self::ppu_slot(address).1,
                data,
            ),
            ..rom
        }
    }

    open spec fn mirroring_ok(&self) -> bool {
        self.control_reg.nt_mode() == 2 || self.control_reg.nt_mode() == 3
    }

    open spec fn mirroring_value(&self) -> Mirroring {
        if self.control_reg.nt_mode() == 2 { Mirroring::Vertical } else { Mirroring::Horizontal }
    }

    open spec fn irq_value(&self) -> bool {
        false
    }

    open spec fn after_scanline(&self) -> Self {
        *self
    }

    open spec fn after_clear_irq(&self) -> Self {
        *self
    }

    fn mapped_read_cpu_u8(&self, rom: &RomData, address: u16) -> (r: u8) {
        if 0x6000 <= address && address <= 0x7FFF {
            self.read_paged_prg_ram(rom, address - 0x6000)
        } else if 0x8000 <= address && address <= 0xBFFF {
            self.read_paged_prg_rom(rom, AddressRange::Lo, address - 0x8000)
        } else {
            self.read_paged_prg_rom(rom, AddressRange::Hi, address - 0xC000)
        }
    }

    fn cpu_readable(&self, rom: &RomData, address: u16) -> (r: bool) {
        if 0x6000 <= address && address <= 0x7FFF {
            rom.prg_ram.accessible(Page::First(PageSize::EightKb), address - 0x6000)
        } else if 0x8000 <= address && address <= 0xBFFF {
            rom.prg_rom.accessible(self.prg_page(AddressRange::Lo), address - 0x8000)
        } else if 0xC000 <= address {
            rom.prg_rom.accessible(self.prg_page(AddressRange::Hi), address - 0xC000)
        } else {
            false
        }
    }

    fn mapped_write_cpu_u8(&mut self, rom: &mut RomData, address: u16, data: u8) {
        if 0x6000 <= address && address <= 0x7FFF {
            self.write_paged_prg_ram(rom, address - 0x6000, data);
        } else {
            self.write_shift(address, data);
        }
    }

    fn mapped_read_ppu_u8(&self, rom: &RomData, address: u16) -> (r: u8) {
        if address <= 0x0FFF {
            self.read_paged_chr_rom(rom, AddressRange::Lo, address)
        } else {
            self.read_paged_chr_rom(rom, AddressRange::Hi, address - 0x1000)
        }
    }

    fn mapped_write_ppu_u8(&mut self, rom: &mut RomData, address: u16, data: u8) {
        if address <= 0x0FFF {
            self.write_paged_chr_ram(rom, AddressRange::Lo, address, data);
        } else {
            self.write_paged_chr_ram(rom, AddressRange::Hi, address - 0x1000, data);
        }
    }

    fn mirroring(&self) -> (r: Mirroring) {
        self.control_reg.mirroring()
    }

    fn irq_flag(&self) -> (r: bool) {
        false
    }

    fn signal_scanline(&mut self) {
    }

    fn clear_irq_flag(&mut self) {
    }
}


/// Law: from reset, five writes with bit 7 clear complete a value whose bits 0 to 4 are bit 0
/// of the five writes in order, and leave the port reset.
pub proof fn lemma_five_writes(n0: u8, n1: u8, n2: u8, n3: u8, n4: u8)
    requires
        n0 < 0x80,
        n1 < 0x80,
        n2 < 0x80,
        n3 < 0x80,
        n4 < 0x80,
    ensures
        ({
            let (s1, o1) = (ShiftReg { val: 0, idx: 0 }).spec_push(n0);
            let (s2, o2) = s1.spec_push(n1);
            let (s3, o3) = s2.spec_push(n2);
            let (s4, o4) = s3.spec_push(n3);
            let (s5, o5) = s4.spec_push(n4);
            &&& o1 is None && o2 is None && o3 is None && o4 is None
            &&& s5 == (ShiftReg { val: 0, idx: 0 })
            &&& o5 matches Some(x) && x & 1 == n0 & 1 && (x >> 1u8) & 1 == n1 & 1 && (x >> 2u8) & 1 == n2 & 1
                && (x >> 3u8) & 1 == n3 & 1 && (x >> 4u8) & 1 == n4 & 1 && x < 32 && x as int == (n0 % 2) + 2 * (
            n1 % 2) + 4 * (n2 % 2) + 8 * (n3 % 2) + 16 * (n4 % 2) && x & 0x1F == x && (x & 0x0F) as int == x as int % 16
        }),
{
    assert(n0 >> 7u8 != 1 && n1 >> 7u8 != 1 && n2 >> 7u8 != 1 && n3 >> 7u8 != 1 && n4 >> 7u8 != 1) by (bit_vector)
        requires
            n0 < 0x80,
            n1 < 0x80,
            n2 < 0x80,
            n3 < 0x80,
            n4 < 0x80,
    ;
    let x = ((((0u8 | ((n0 & 1) << 0u8)) | ((n1 & 1) << 1u8)) | ((n2 & 1) << 2u8)) | ((n3 & 1) << 3u8)) | ((n4 & 1)
        << 4u8);
    assert(x & 1 == n0 & 1 && (x >> 1u8) & 1 == n1 & 1 && (x >> 2u8) & 1 == n2 & 1 && (x >> 3u8) & 1 == n3 & 1 && (x
        >> 4u8) & 1 == n4 & 1 && x < 32 && x as int == (n0 % 2) + 2 * (n1 % 2) + 4 * (n2 % 2) + 8 * (n3 % 2) + 16 * (n4
        % 2) && x & 0x1F == x && (x & 0x0F) as int == x as int % 16) by (bit_vector)
        requires
            x == ((((0u8 | ((n0 & 1) << 0u8)) | ((n1 & 1) << 1u8)) | ((n2 & 1) << 2u8)) | ((n3 & 1) << 3u8)) | ((
            n4 & 1) << 4u8),
    ;
}

/// The 16 KiB PRG bank an MMC1 shows at a CPU address from 0x8000 up, in a PRG ROM of
/// `banks` banks. The PRG mode is bits 2-3 of the control register: modes 0 and 1 show the
/// 32 KiB pair that holds the PRG register's bank (even bank low, odd bank high); mode 2 fixes
/// the first bank low and switches the high window; mode 3 switches the low window and fixes
/// the last bank high.
pub open spec fn mmc1_window_bank(m: Mapper1, banks: int, address: u16) -> int {
    let mode = (m.control_reg.0 as int / 4) % 4;
    let p = m.prg_0 as int;
    let low = address < 0xC000;
    if mode <= 1 {
        if low { p - p % 2 } else { p - p % 2 + 1 }
    } else if mode == 2 {
        if low { 0 } else { p }
    } else {
        if low { p } else { banks - 1 }
    }
}

/// Law: a CPU read from 0x8000 up on an MMC1 is served exactly when the PRG ROM is a whole,
/// non-empty number of 16 KiB banks and the window's bank is one of them; it gives that bank's
/// byte at the address's offset within the window.
pub proof fn lemma_mmc1_prg_windows(m: Mapper1, rom: RomDataView, address: u16)
    requires
        0x8000 <= address,
    ensures
        ({
            let len = rom.prg_rom.len() as int;
            let bank = mmc1_window_bank(m, len / 0x4000, address);
            &&& m.cpu_read_ok(rom, address) == (len % 0x4000 == 0 && len >= 0x4000 && 0 <= bank < len / 0x4000)
            &&& m.cpu_read_ok(rom, address) ==> m.cpu_read_value(rom, address) == rom.prg_rom[bank * 0x4000
                + address as int % 0x4000]
        }),
{
    crate::bits::lemma_field_values(m.control_reg.0, 0, m.prg_0, 0, 0);
    if address < 0xC000 {
        lemma_page_access(rom.prg_rom, m.spec_prg_page(AddressRange::Lo), (address - 0x8000) as u16);
    } else {
        lemma_page_access(rom.prg_rom, m.spec_prg_page(AddressRange::Hi), (address - 0xC000) as u16);
    }
}

/// Law: the pattern space of an MMC1 is two 4 KiB halves. The low half shows CHR bank 0; the
/// high half shows the bank after it when bit 4 of the control register is clear, CHR bank 1
/// when it is set. A read is served exactly when the CHR memory (CHR RAM when the image has no
/// CHR ROM) is a whole, non-empty number of 4 KiB banks and the bank is one of them.
pub proof fn lemma_mmc1_chr_halves(m: Mapper1, rom: RomDataView, address: u16)
    requires
        address < 0x2000,
        m.chr_0 < usize::MAX,
    ensures
        ({
            let chr = if rom.rom_header.chr_rom_len == 0 { rom.chr_ram } else { rom.chr_rom };
            let len = chr.len() as int;
            let bank: int = if address < 0x1000 {
                m.chr_0 as int
            } else if (m.control_reg.0 as int / 16) % 2 == 0 {
                m.chr_0 as int + 1
            } else {
                m.chr_1 as int
            };
            &&& m.ppu_read_ok(rom, address) == (len % 0x1000 == 0 && len >= 0x1000 && bank < len / 0x1000)
            &&& m.ppu_read_ok(rom, address) ==> m.ppu_read_value(rom, address) == chr[bank * 0x1000 + address as int
                % 0x1000]
        }),
{
    crate::bits::lemma_field_values(m.control_reg.0, 0, 0, 0, 0);
    let (range, offset) = Mapper1::ppu_slot(address);
    lemma_page_access(m.chr(rom), m.spec_get_page(range), offset);
}

/// Law: five writes to one address from 0x8000 up, starting from an empty shift register,
/// each with bit 7 clear, load the register that the address selects with bit 0 of each
/// write, first write lowest: 0x8000-0x9FFF the control register, 0xA000-0xBFFF CHR bank 0,
/// 0xC000-0xDFFF CHR bank 1, 0xE000-0xFFFF the PRG bank (its low four bits). The shift
/// register is empty again and the other registers stay.
pub proof fn lemma_mmc1_serial_load(
    m: Mapper1,
    rom: RomDataView,
    address: u16,
    n0: u8,
    n1: u8,
    n2: u8,
    n3: u8,
    n4: u8,
)
    requires
        0x8000 <= address,
        m.shift_reg == (ShiftReg { val: 0, idx: 0 }),
        n0 < 0x80,
        n1 < 0x80,
        n2 < 0x80,
        n3 < 0x80,
        n4 < 0x80,
    ensures
        ({
            let m5 = m.cpu_write_board(rom, address, n0).cpu_write_board(rom, address, n1).cpu_write_board(
                rom,
                address,
                n2,
            ).cpu_write_board(rom, address, n3).cpu_write_board(rom, address, n4);
            let x = (n0 % 2) + 2 * (n1 % 2) + 4 * (n2 % 2) + 8 * (n3 % 2) + 16 * (n4 % 2);
            &&& m5.shift_reg == (ShiftReg { val: 0, idx: 0 })
            &&& m5.control_reg.0 == (if address <= 0x9FFF { x } else { m.control_reg.0 as int })
            &&& m5.chr_0 == (if 0xA000 <= address <= 0xBFFF { x } else { m.chr_0 as int })
            &&& m5.chr_1 == (if 0xC000 <= address <= 0xDFFF { x } else { m.chr_1 as int })
            &&& m5.prg_0 == (if 0xE000 <= address { x % 16 } else { m.prg_0 as int })
        }),
{
    lemma_five_writes(n0, n1, n2, n3, n4);
    let (s1, o1) = (ShiftReg { val: 0, idx: 0 }).spec_push(n0);
    let (s2, o2) = s1.spec_push(n1);
    let (s3, o3) = s2.spec_push(n2);
    let (s4, o4) = s3.spec_push(n3);
    let (s5, o5) = s4.spec_push(n4);
}

} // verus!
