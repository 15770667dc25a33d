use vstd::prelude::*;
use crate::cartridge::rom_reading::Mirroring;
use crate::cartridge::rom_with_pager::{RomData, RomDataView};
use crate::cartridge::CHR_ROM_BANK_SIZE;
use crate::mapper::Mapper;
use crate::mapper::pager::{Page, PageSize, can_access, paged_read, paged_write};

verus! {

/// UxROM: a switchable 16 KiB PRG bank at 0x8000, the last bank fixed at 0xC000.
#[derive(Copy, Clone, PartialEq, Eq, Structural)]
pub struct Mapper2 {
    pub prg_bank_select: usize,
    pub chr_rom_pages: usize,
    pub mirroring: Mirroring,
}

impl Mapper2 {
    pub fn new(rom: &RomData) -> (r: Mapper2)
        ensures
            r.prg_bank_select == 0,
            r.chr_rom_pages == rom.rom_header.chr_rom_len / CHR_ROM_BANK_SIZE,
            r.mirroring == rom.rom_header.mirroring,
    {
        let mirroring = rom.rom_header.mirroring;
        let chr_rom_pages = rom.rom_header.chr_rom_len / CHR_ROM_BANK_SIZE;
        Mapper2 { prg_bank_select: 0, chr_rom_pages, mirroring }
    }

    pub open spec fn chr(&self, rom: RomDataView) -> Seq<u8> {
        if self.chr_rom_pages == 0 { rom.chr_ram } else { rom.chr_rom }
    }
}

impl Mapper for Mapper2 {
    open spec fn cpu_read_ok(&self, rom: RomDataView, address: u16) -> bool {
        if 0x6000 <= address <= 0x7FFF {
            true
        } else if 0x8000 <= address <= 0xBFFF {
            can_access(
                rom.prg_rom,
                Page::FromNth(self.prg_bank_select, PageSize::SixteenKb),
                (address - 0x8000) as u16,
            )
        } else if 0xC000 <= address {
            can_access(rom.prg_rom, Page::Last(PageSize::SixteenKb), (address - 0xC000) as u16)
        } else {
            false
        }
    }

    open spec fn cpu_read_value(&self, rom: RomDataView, address: u16) -> u8 {
        if 0x6000 <= address <= 0x7FFF {
            0
        } else if 0x8000 <= address <= 0xBFFF {
            paged_read(
                rom.prg_rom,
                Page::FromNth(self.prg_bank_select, PageSize::SixteenKb),
                (address - 0x8000) as u16,
            )
        } else {
            paged_read(rom.prg_rom, Page::Last(PageSize::SixteenKb), (address - 0xC000) as u16)
        }
    }

    open spec fn cpu_write_ok(&self, rom: RomDataView, address: u16) -> bool {
        0x8000 <= address
    }

    open spec fn cpu_write_board(&self, rom: RomDataView, address: u16, data: u8) -> Self {
        Mapper2 { prg_bank_select: (data & 0x0F) as usize, ..*self }
    }

    open spec fn cpu_write_rom(&self, rom: RomDataView, address: u16, data: u8) -> RomDataView {
        rom
    }

    open spec fn ppu_read_ok(&self, rom: RomDataView, address: u16) -> bool {
        can_access(self.chr(rom), Page::First(PageSize::EightKb), address)
    }

    open spec fn ppu_read_value(&self, rom: RomDataView, address: u16) -> u8 {
        paged_read(self.chr(rom), Page::First(PageSize::EightKb), address)
    }

    open spec fn ppu_write_ok(&self, rom: RomDataView, address: u16) -> bool {
        self.chr_rom_pages == 0 ==> can_access(
            rom.chr_ram,
            Page::First(PageSize::EightKb),
            address,
        )
    }

    open spec fn ppu_write_rom(&self, rom: RomDataView, address: u16, data: u8) -> RomDataView {
        if self.chr_rom_pages == 0 {
            RomDataView {
                chr_ram: paged_write(rom.chr_ram, Page::First(PageSize::EightKb), address, data),
                ..rom
            }
        } else {
            rom
        }
    }

    open spec fn mirroring_ok(&self) -> bool {
        true
    }

    open spec fn mirroring_value(&self) -> Mirroring {
        self.mirroring
    }

    open spec fn irq_value(&self) -> bool {
        false
    }

    open spec fn after_scanline(&self) -> Self {
        *self
    }

    open spec fn after_clear_irq(&self) -> Self {
        *self
    }

    fn mapped_read_cpu_u8(&self, rom: &RomData, address: u16) -> (r: u8) {
        if 0x6000 <= address && address <= 0x7FFF {
            0
        } else if 0x8000 <= address && address <= 0xBFFF {
            rom.prg_rom.read(
                Page::FromNth(self.prg_bank_select, PageSize::SixteenKb),
                address - 0x8000,
            )
        } else {
            rom.prg_rom.read(Page::Last(PageSize::SixteenKb), address - 0xC000)
        }
    }

    fn cpu_readable(&self, rom: &RomData, address: u16) -> (r: bool) {
        if 0x6000 <= address && address <= 0x7FFF {
            true
        } else if 0x8000 <= address && address <= 0xBFFF {
            rom.prg_rom.accessible(Page::FromNth(self.prg_bank_select, PageSize::SixteenKb), address - 0x8000)
        } else if 0xC000 <= address {
            rom.prg_rom.accessible(Page::Last(PageSize::SixteenKb), address - 0xC000)
        } else {
            false
        }
    }

    fn mapped_write_cpu_u8(&mut self, rom: &mut RomData, address: u16, data: u8) {
        self.prg_bank_select = (data & 0x0F) as usize;
    }

    fn mapped_read_ppu_u8(&self, rom: &RomData, address: u16) -> (r: u8) {
        if self.chr_rom_pages == 0 {
            rom.chr_ram.read(Page::First(PageSize::EightKb), address)
        } else {
            rom.chr_rom.read(Page::First(PageSize::EightKb), address)
        }
    }

    fn mapped_write_ppu_u8(&mut self, rom: &mut RomData, address: u16, data: u8) {
        if self.chr_rom_pages == 0 {
            rom.chr_ram.write(Page::First(PageSize::EightKb), address, data);
        }
    }

    fn mirroring(&self) -> (r: Mirroring) {
        self.mirroring
    }

    fn irq_flag(&self) -> (r: bool) {
        false
    }

    fn signal_scanline(&mut self) {
    }

    fn clear_irq_flag(&mut self) {
    }
}


/// Law: a write to 0x8000-0xFFFF maps the 16 KiB PRG bank named by its low four bits at
/// 0x8000-0xBFFF, readable when the ROM has that bank, while 0xC000-0xFFFF keeps showing the
/// last bank.
pub proof fn lemma_uxrom_bank_switch(m: Mapper2, rom: RomDataView, address: u16, data: u8, offset: u16)
    requires
        0x8000 <= address,
        offset < 0x4000,
    ensures
        ({
            let m2 = m.cpu_write_board(rom, address, data);
            let bank = (data & 0x0F) as int;
            &&& m2.cpu_read_value(rom, (0x8000 + offset) as u16) == rom.prg_rom[bank * 0x4000 + offset]
            &&& m2.cpu_read_ok(rom, (0x8000 + offset) as u16) == (rom.prg_rom.len() % 0x4000 == 0 && bank
                < rom.prg_rom.len() / 0x4000)
            &&& m2.cpu_read_value(rom, (0xC000 + offset) as u16) == m.cpu_read_value(rom, (0xC000 + offset) as u16)
            &&& m2.cpu_read_ok(rom, (0xC000 + offset) as u16) == m.cpu_read_ok(rom, (0xC000 + offset) as u16)
        }),
{
    let bank = (data & 0x0F) as int;
    let len = rom.prg_rom.len() as int;
    if len % 0x4000 == 0 && bank < len / 0x4000 {
        assert(bank * 0x4000 + offset < len) by (nonlinear_arith)
            requires
                0 <= bank < len / 0x4000,
                len % 0x4000 == 0,
                offset < 0x4000,
                len >= 0,
        ;
    }
}

} // verus!
