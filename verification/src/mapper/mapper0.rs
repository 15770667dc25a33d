use vstd::prelude::*;
use crate::cartridge::rom_reading::Mirroring;
use crate::cartridge::rom_with_pager::{RomData, RomDataView};
use crate::cartridge::{CHR_ROM_BANK_SIZE, PRG_ROM_BANK_SIZE};
use crate::mapper::Mapper;
use crate::mapper::pager::{Page, PageSize, can_access, lemma_page_access, paged_read, paged_write};

verus! {

/// NROM: fixed PRG ROM (the last 16 KiB mirrored at 0xC000), PRG RAM at 0x6000, one CHR bank.
#[derive(Copy, Clone, PartialEq, Eq, Structural)]
pub struct Mapper0 {
    pub prg_bank: usize,
    pub chr_bank: usize,
    pub mirroring: Mirroring,
}

impl Mapper0 {
    pub fn new(rom: &RomData) -> (r: Mapper0)
        ensures
            r.mirroring == rom.rom_header.mirroring,
            r.prg_bank == rom.rom_header.prg_rom_len / PRG_ROM_BANK_SIZE,
            r.chr_bank == rom.rom_header.chr_rom_len / CHR_ROM_BANK_SIZE,
    {
        let mirroring = rom.rom_header.mirroring;
        let prg_bank = rom.rom_header.prg_rom_len / PRG_ROM_BANK_SIZE;
        let chr_bank = rom.rom_header.chr_rom_len / CHR_ROM_BANK_SIZE;
        Mapper0 { prg_bank, chr_bank, mirroring }
    }

    /// The CHR memory the PPU sees: RAM when the image has no CHR ROM.
    pub open spec fn chr(&self, rom: RomDataView) -> Seq<u8> {
        if self.chr_bank == 0 { rom.chr_ram } else { rom.chr_rom }
    }
}

impl Mapper for Mapper0 {
    open spec fn cpu_read_ok(&self, rom: RomDataView, address: u16) -> bool {
        if 0x6000 <= address <= 0x7FFF {
            can_access(rom.prg_ram, Page::First(PageSize::EightKb), (address - 0x6000) as u16)
        } else if 0x8000 <= address <= 0xBFFF {
            can_access(rom.prg_rom, Page::First(PageSize::SixteenKb), (address - 0x8000) as u16)
        } else if 0xC000 <= address {
            can_access(rom.prg_rom, Page::Last(PageSize::SixteenKb), (address - 0xC000) as u16)
        } else {
            false
        }
    }

    open spec fn cpu_read_value(&self, rom: RomDataView, address: u16) -> u8 {
        if 0x6000 <= address <= 0x7FFF {
            paged_read(rom.prg_ram, Page::First(PageSize::EightKb), (address - 0x6000) as u16)
        } else if 0x8000 <= address <= 0xBFFF {
            paged_read(rom.prg_rom, Page::First(PageSize::SixteenKb), (address - 0x8000) as u16)
        } else {
            paged_read(rom.prg_rom, Page::Last(PageSize::SixteenKb), (address - 0xC000) as u16)
        }
    }

    open spec fn cpu_write_ok(&self, rom: RomDataView, address: u16) -> bool {
        0x6000 <= address <= 0x7FFF
            && can_access(rom.prg_ram, Page::First(PageSize::EightKb), (address - 0x6000) as u16)
    }

    open spec fn cpu_write_board(&self, rom: RomDataView, address: u16, data: u8) -> Self {
        *self
    }

    open spec fn cpu_write_rom(&self, rom: RomDataView, address: u16, data: u8) -> RomDataView {
        RomDataView {
            prg_ram: paged_write(
                rom.prg_ram,
                Page::First(PageSize::EightKb),
                (address - 0x6000) as u16,
                data,
            ),
            ..rom
        }
    }

    open spec fn ppu_read_ok(&self, rom: RomDataView, address: u16) -> bool {
        can_access(self.chr(rom), Page::First(PageSize::EightKb), address)
    }

    open spec fn ppu_read_value(&self, rom: RomDataView, address: u16) -> u8 {
        paged_read(self.chr(rom), Page::First(PageSize::EightKb), address)
    }

    open spec fn ppu_write_ok(&self, rom: RomDataView, address: u16) -> bool {
        self.chr_bank == 0 ==> can_access(rom.chr_ram, Page::First(PageSize::EightKb), address)
    }

    open spec fn ppu_write_rom(&self, rom: RomDataView, address: u16, data: u8) -> RomDataView {
        if self.chr_bank == 0 {
            RomDataView {
                chr_ram: paged_write(rom.chr_ram, Page::First(PageSize::EightKb), address, data),
                ..rom
            }
        } else {
            rom
        }
    }

    open spec fn mirroring_ok(&self) -> bool {
        true
    }

    open spec fn mirroring_value(&self) -> Mirroring {
        self.mirroring
    }

    open spec fn irq_value(&self) -> bool {
        false
    }

    open spec fn after_scanline(&self) -> Self {
        *self
    }

    open spec fn after_clear_irq(&self) -> Self {
        *self
    }

    fn mapped_read_cpu_u8(&self, rom: &RomData, address: u16) -> (r: u8) {
        if 0x6000 <= address && address <= 0x7FFF {
            rom.prg_ram.read(Page::First(PageSize::EightKb), address - 0x6000)
        } else if 0x8000 <= address && address <= 0xBFFF {
            rom.prg_rom.read(Page::First(PageSize::SixteenKb), address - 0x8000)
        } else {
            rom.prg_rom.read(Page::Last(PageSize::SixteenKb), address - 0xC000)
        }
    }

    fn cpu_readable(&self, rom: &RomData, address: u16) -> (r: bool) {
        if 0x6000 <= address && address <= 0x7FFF {
            rom.prg_ram.accessible(Page::First(PageSize::EightKb), address - 0x6000)
        } else if 0x8000 <= address && address <= 0xBFFF {
            rom.prg_rom.accessible(Page::First(PageSize::SixteenKb), address - 0x8000)
        } else if 0xC000 <= address {
            rom.prg_rom.accessible(Page::Last(PageSize::SixteenKb), address - 0xC000)
        } else {
            false
        }
    }

    fn mapped_write_cpu_u8(&mut self, rom: &mut RomData, address: u16, data: u8) {
        rom.prg_ram.write(Page::First(PageSize::EightKb), address - 0x6000, data);
    }

    fn mapped_read_ppu_u8(&self, rom: &RomData, address: u16) -> (r: u8) {
        if self.chr_bank == 0 {
            rom.chr_ram.read(Page::First(PageSize::EightKb), address)
        } else {
            rom.chr_rom.read(Page::First(PageSize::EightKb), address)
        }
    }

    fn mapped_write_ppu_u8(&mut self, rom: &mut RomData, address: u16, data: u8) {
        if self.chr_bank == 0 {
            rom.chr_ram.write(Page::First(PageSize::EightKb), address, data);
        }
    }

    fn mirroring(&self) -> (r: Mirroring) {
        self.mirroring
    }

    fn irq_flag(&self) -> (r: bool) {
        false
    }

    fn signal_scanline(&mut self) {
    }

    fn clear_irq_flag(&mut self) {
    }
}

/// Law: NROM shows the first 16 KiB of PRG ROM at 0x8000-0xBFFF and the last 16 KiB at
/// 0xC000-0xFFFF, so a single 16 KiB bank appears twice; a read there is served exactly when
/// the PRG ROM is a whole, non-empty number of 16 KiB banks. Pattern reads below 0x2000 come
/// straight from the CHR memory (CHR RAM when the board has no CHR ROM bank).
pub proof fn lemma_nrom_reads(m: Mapper0, rom: RomDataView, address: u16)
    ensures
        0x8000 <= address ==> ({
            let len = rom.prg_rom.len() as int;
            let bank: int = if address < 0xC000 { 0 } else { len / 0x4000 - 1 };
            &&& m.cpu_read_ok(rom, address) == (len % 0x4000 == 0 && len >= 0x4000)
            &&& m.cpu_read_ok(rom, address) ==> m.cpu_read_value(rom, address) == rom.prg_rom[bank * 0x4000
                + address as int % 0x4000]
        }),
        address < 0x2000 ==> ({
            let chr = if m.chr_bank == 0 { rom.chr_ram } else { rom.chr_rom };
            &&& m.ppu_read_ok(rom, address) == (chr.len() % 0x2000 == 0 && chr.len() >= 0x2000)
            &&& m.ppu_read_ok(rom, address) ==> m.ppu_read_value(rom, address) == chr[address as int]
        }),
{
    if 0x8000 <= address {
        if address < 0xC000 {
            lemma_page_access(rom.prg_rom, Page::First(PageSize::SixteenKb), (address - 0x8000) as u16);
        } else {
            lemma_page_access(rom.prg_rom, Page::Last(PageSize::SixteenKb), (address - 0xC000) as u16);
        }
    }
    if address < 0x2000 {
        lemma_page_access(m.chr(rom), Page::First(PageSize::EightKb), address);
    }
}

} // verus!
