use vstd::prelude::*;
use crate::cartridge::rom_reading::Mirroring;
use crate::cartridge::rom_with_pager::{RomData, RomDataView};
use crate::mapper::Mapper;
use crate::mapper::pager::{Page, PageSize, can_access, lemma_page_access, paged_read};

verus! {

/// CNROM: fixed PRG ROM and a switchable 8 KiB CHR ROM bank.
#[derive(Copy, Clone, PartialEq, Eq, Structural)]
pub struct Mapper3 {
    pub chr_bank_select: usize,
    pub mirroring: Mirroring,
}

impl Mapper3 {
    pub fn new(rom: &RomData) -> (r: Mapper3)
        ensures
            r.chr_bank_select == 0,
            r.mirroring == rom.rom_header.mirroring,
    {
        let mirroring = rom.rom_header.mirroring;
        Mapper3 { chr_bank_select: 0, mirroring }
    }
}

impl Mapper for Mapper3 {
    open spec fn cpu_read_ok(&self, rom: RomDataView, address: u16) -> bool {
        if 0x8000 <= address <= 0xBFFF {
            can_access(rom.prg_rom, Page::First(PageSize::SixteenKb), (address - 0x8000) as u16)
        } else if 0xC000 <= address {
            can_access(rom.prg_rom, Page::Last(PageSize::SixteenKb), (address - 0xC000) as u16)
        } else {
            false
        }
    }

    open spec fn cpu_read_value(&self, rom: RomDataView, address: u16) -> u8 {
        if 0x8000 <= address <= 0xBFFF {
            paged_read(rom.prg_rom, Page::First(PageSize::SixteenKb), (address - 0x8000) as u16)
        } else {
            paged_read(rom.prg_rom, Page::Last(PageSize::SixteenKb), (address - 0xC000) as u16)
        }
    }

    open spec fn cpu_write_ok(&self, rom: RomDataView, address: u16) -> bool {
        true
    }

    open spec fn cpu_write_board(&self, rom: RomDataView, address: u16, data: u8) -> Self {
        if 0x8000 <= address {
            Mapper3 { chr_bank_select: (data & 0x03) as usize, ..*self }
        } else {
            *self
        }
    }

    open spec fn cpu_write_rom(&self, rom: RomDataView, address: u16, data: u8) -> RomDataView {
        rom
    }

    open spec fn ppu_read_ok(&self, rom: RomDataView, address: u16) -> bool {
        can_access(rom.chr_rom, Page::FromNth(self.chr_bank_select, PageSize::EightKb), address)
    }

    open spec fn ppu_read_value(&self, rom: RomDataView, address: u16) -> u8 {
        paged_read(rom.chr_rom, Page::FromNth(self.chr_bank_select, PageSize::EightKb), address)
    }

    open spec fn ppu_write_ok(&self, rom: RomDataView, address: u16) -> bool {
        true
    }

    open spec fn ppu_write_rom(&self, rom: RomDataView, address: u16, data: u8) -> RomDataView {
        rom
    }

    open spec fn mirroring_ok(&self) -> bool {
        true
    }

    open spec fn mirroring_value(&self) -> Mirroring {
        self.mirroring
    }

    open spec fn irq_value(&self) -> bool {
        false
    }

    open spec fn after_scanline(&self) -> Self {
        *self
    }

    open spec fn after_clear_irq(&self) -> Self {
        *self
    }

    fn mapped_read_cpu_u8(&self, rom: &RomData, address: u16) -> (r: u8) {
        if 0x8000 <= address && address <= 0xBFFF {
            rom.prg_rom.read(Page::First(PageSize::SixteenKb), address - 0x8000)
        } else {
            rom.prg_rom.read(Page::Last(PageSize::SixteenKb), address - 0xC000)
        }
    }

    fn cpu_readable(&self, rom: &RomData, address: u16) -> (r: bool) {
        if 0x8000 <= address && address <= 0xBFFF {
            rom.prg_rom.accessible(Page::First(PageSize::SixteenKb), address - 0x8000)
        } else if 0xC000 <= address {
            rom.prg_rom.accessible(Page::Last(PageSize::SixteenKb), address - 0xC000)
        } else {
            false
        }
    }

    fn mapped_write_cpu_u8(&mut self, rom: &mut RomData, address: u16, data: u8) {
        if 0x8000 <= address {
            self.chr_bank_select = (data & 0x03) as usize;
        }
    }

    fn mapped_read_ppu_u8(&self, rom: &RomData, address: u16) -> (r: u8) {
        rom.chr_rom.read(Page::FromNth(self.chr_bank_select, PageSize::EightKb), address)
    }

    fn mapped_write_ppu_u8(&mut self, rom: &mut RomData, address: u16, data: u8) {
    }

    fn mirroring(&self) -> (r: Mirroring) {
        self.mirroring
    }

    fn irq_flag(&self) -> (r: bool) {
        false
    }

    fn signal_scanline(&mut self) {
    }

    fn clear_irq_flag(&mut self) {
    }
}

/// Law: CNROM shows the 8 KiB CHR ROM bank that the last write from 0x8000 up chose with its
/// low two bits. A pattern read below 0x2000 is served exactly when the CHR ROM is a whole,
/// non-empty number of 8 KiB banks and the chosen bank is one of them.
pub proof fn lemma_cnrom_chr_bank(m: Mapper3, rom: RomDataView, select: u16, data: u8, address: u16)
    requires
        0x8000 <= select,
        address < 0x2000,
    ensures
        ({
            let m2 = m.cpu_write_board(rom, select, data);
            let bank = (data % 4) as int;
            let len = rom.chr_rom.len() as int;
            &&& m2.ppu_read_ok(rom, address) == (len % 0x2000 == 0 && bank < len / 0x2000)
            &&& m2.ppu_read_ok(rom, address) ==> m2.ppu_read_value(rom, address) == rom.chr_rom[bank * 0x2000
                + address as int]
        }),
{
    crate::bits::lemma_field_values(data, 0, 0, 0, 0);
    let m2 = m.cpu_write_board(rom, select, data);
    lemma_page_access(rom.chr_rom, Page::FromNth(m2.chr_bank_select, PageSize::EightKb), address);
}

} // verus!
