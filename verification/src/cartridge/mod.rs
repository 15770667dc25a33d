pub mod rom;
pub mod rom_reading;
pub mod rom_with_pager;
pub mod roms;

use vstd::prelude::*;
use crate::cartridge::rom_reading::{Mirroring, Rom, RomError, RomHeader, ines_error, ines_rom_ok};
use crate::cartridge::rom_with_pager::{RomData, RomDataView};
use crate::mapper::{AnyMapper, Mapper};
use crate::mapper::mapper0::Mapper0;
use crate::mapper::mapper2::Mapper2;
use crate::mapper::mapper3::Mapper3;
use crate::mapper::mapper4::Mapper4;

verus! {

pub const CHR_ROM_BANK_SIZE: usize = 0x2000;
pub const PRG_ROM_BANK_SIZE: usize = 0x4000;

/// Why a cartridge image could not be loaded.
#[derive(Copy, Clone, PartialEq, Eq, Structural, Debug)]
pub enum CartridgeError {
    Rom(RomError),
    MapperNotImplemented(u8),
}

/// A loaded cartridge: its board, its memories and its header.
pub struct Cartridge {
    pub mapper: AnyMapper,
    pub rom: RomData,
    pub rom_header: RomHeader,
}

/// The state of a cartridge as the contracts see it.
pub struct CartridgeView {
    pub mapper: AnyMapper,
    pub rom: RomDataView,
    pub rom_header: RomHeader,
}

impl View for Cartridge {
    type V = CartridgeView;

    open spec fn view(&self) -> CartridgeView {
        CartridgeView { mapper: self.mapper, rom: self.rom@, rom_header: self.rom_header }
    }
}

/// The board that a header's mapper number selects, if the emulator knows it.
pub open spec fn board_for(header: RomHeader) -> Option<AnyMapper> {
    if header.mapper == 0 {
        Some(AnyMapper::Nrom(Mapper0 {
            prg_bank: header.prg_rom_len / PRG_ROM_BANK_SIZE,
            chr_bank: header.chr_rom_len / CHR_ROM_BANK_SIZE,
            mirroring: header.mirroring,
        }))
    } else if header.mapper == 2 {
        Some(AnyMapper::UxRom(Mapper2 {
            prg_bank_select: 0,
            chr_rom_pages: header.chr_rom_len / CHR_ROM_BANK_SIZE,
            mirroring: header.mirroring,
        }))
    } else if header.mapper == 3 {
        Some(AnyMapper::CnRom(Mapper3 { chr_bank_select: 0, mirroring: header.mirroring }))
    } else if header.mapper == 4 {
        Some(AnyMapper::Mmc3(Mapper4 {
            prg_select: false,
            chr_select: false,
            registers: crate::mapper::mapper4::BankRegisters {
                r0: 0, r1: 0, r2: 0, r3: 0, r4: 0, r5: 0, r6: 0, r7: 0,
            },
            index: 0,
            mirroring: Mirroring::Horizontal,
            irq_counter: 0,
            irq_period: 0,
            irq_enabled: false,
            flag_irq: false,
        }))
    } else {
        None
    }
}

impl CartridgeView {
    pub closed spec fn cpu_read_ok(self, address: u16) -> bool {
        self.mapper.cpu_read_ok(self.rom, address)
    }

    pub closed spec fn cpu_read_value(self, address: u16) -> u8 {
        self.mapper.cpu_read_value(self.rom, address)
    }

    pub closed spec fn cpu_write_ok(self, address: u16) -> bool {
        self.mapper.cpu_write_ok(self.rom, address)
    }

    pub closed spec fn after_cpu_write(self, address: u16, data: u8) -> CartridgeView {
        CartridgeView {
            mapper: self.mapper.cpu_write_board(self.rom, address, data),
            rom: self.mapper.cpu_write_rom(self.rom, address, data),
            ..self
        }
    }

    pub closed spec fn ppu_read_ok(self, address: u16) -> bool {
        self.mapper.ppu_read_ok(self.rom, address)
    }

    pub closed spec fn ppu_read_value(self, address: u16) -> u8 {
        self.mapper.ppu_read_value(self.rom, address)
    }

    pub closed spec fn ppu_write_ok(self, address: u16) -> bool {
        self.mapper.ppu_write_ok(self.rom, address)
    }

    pub closed spec fn after_ppu_write(self, address: u16, data: u8) -> CartridgeView {
        CartridgeView { rom: self.mapper.ppu_write_rom(self.rom, address, data), ..self }
    }
}

/// Law: on the NROM and MMC3 boards, a byte written to the work RAM at 0x6000-0x7FFF is read
/// back at the same address.
pub proof fn lemma_work_ram_write_read(c: CartridgeView, address: u16, data: u8)
    requires
        c.mapper is Nrom || c.mapper is Mmc3,
        0x6000 <= address <= 0x7FFF,
        c.cpu_write_ok(address),
    ensures
        c.after_cpu_write(address, data).cpu_read_ok(address),
        c.after_cpu_write(address, data).cpu_read_value(address) == data,
{
    crate::mapper::pager::lemma_paged_write_read(
        c.rom.prg_ram,
        crate::mapper::pager::Page::First(crate::mapper::pager::PageSize::EightKb),
        (address - 0x6000) as u16,
        data,
    );
}

impl Cartridge {
    /// Loads an iNES image and builds the board its header names; boards 0, 2, 3 and 4
    /// are implemented.
    pub fn new(rom_bytes: &[u8]) -> (r: Result<Cartridge, CartridgeError>)
        ensures
            match r {
                Ok(c) => {
                    &&& ines_error(rom_bytes@) is None
                    &&& board_for(c.rom_header) == Some(c.mapper)
                    &&& exists|rom: Rom| ines_rom_ok(rom_bytes@, rom)
                        && c.rom_header == rom.rom_header
                        && c.rom@ == (RomDataView {
                            rom_header: rom.rom_header,
                            prg_rom: rom.prg_rom@,
                            prg_ram: rom.prg_ram@,
                            chr_rom: rom.chr_rom@,
                            chr_ram: rom.chr_ram@,
                        })
                },
                Err(CartridgeError::Rom(e)) => ines_error(rom_bytes@) == Some(e),
                Err(CartridgeError::MapperNotImplemented(m)) => {
                    &&& ines_error(rom_bytes@) is None
                    &&& exists|rom: Rom| ines_rom_ok(rom_bytes@, rom) && rom.rom_header.mapper == m
                    &&& board_for(rom_reading::ines_header(rom_bytes@)) is None
                },
            },
    {
        let rom = match Rom::read_from_file(rom_bytes) {
            Ok(rom) => rom,
            Err(e) => return Err(CartridgeError::Rom(e)),
        };
        let ghost g_rom = rom;
        let rom_header = rom.rom_header;
        let rom_data = RomData::new(rom);
        let mapper = if rom_header.mapper == 0 {
            AnyMapper::Nrom(Mapper0::new(&rom_data))
        } else if rom_header.mapper == 2 {
            AnyMapper::UxRom(Mapper2::new(&rom_data))
        } else if rom_header.mapper == 3 {
            AnyMapper::CnRom(Mapper3::new(&rom_data))
        } else if rom_header.mapper == 4 {
            AnyMapper::Mmc3(Mapper4::new(&rom_data))
        } else {
            return Err(CartridgeError::MapperNotImplemented(rom_header.mapper));
        };
        let c = Cartridge { mapper, rom: rom_data, rom_header };
        assert(c.rom@ == (RomDataView {
            rom_header: g_rom.rom_header,
            prg_rom: g_rom.prg_rom@,
            prg_ram: g_rom.prg_ram@,
            chr_rom: g_rom.chr_rom@,
            chr_ram: g_rom.chr_ram@,
        }));
        Ok(c)
    }

    /// A blank NROM cartridge with one page of each memory.
    pub fn mock_cartridge() -> (r: Cartridge)
        ensures
            r.rom_header == rom_reading::mock_header(),
            r.mapper == AnyMapper::Nrom(Mapper0 { prg_bank: 1, chr_bank: 1, mirroring: Mirroring::Horizontal }),
            r.rom@.prg_rom == Seq::new(0x4000, |i: int| 0u8),
            r.rom@.prg_ram == Seq::new(0x2000, |i: int| 0u8),
            r.rom@.chr_rom == Seq::new(0x2000, |i: int| 0u8),
            r.rom@.chr_ram == Seq::new(0x2000, |i: int| 0u8),
            r.rom@.rom_header == r.rom_header,
    {
        let rom = Rom::mock_rom();
        let rom_header = rom.rom_header;
        let rom_data = RomData::new(rom);
        let mapper = AnyMapper::Nrom(Mapper0::new(&rom_data));
        Cartridge { mapper, rom: rom_data, rom_header }
    }

    pub fn irq_flag(&self) -> (r: bool)
        ensures
            r == self.mapper.irq_value(),
    {
        self.mapper.irq_flag()
    }

    pub fn clear_irq_flag(&mut self)
        ensures
            final(self)@ == (CartridgeView { mapper: old(self).mapper.after_clear_irq(), ..old(self)@ }),
    {
        self.mapper.clear_irq_flag();
    }

    pub fn signal_scanline(&mut self)
        ensures
            final(self)@ == (CartridgeView { mapper: old(self).mapper.after_scanline(), ..old(self)@ }),
    {
        self.mapper.signal_scanline();
    }

    pub fn mirroring(&self) -> (r: Mirroring)
        requires
            self.mapper.mirroring_ok(),
        ensures
            r == self.mapper.mirroring_value(),
    {
        self.mapper.mirroring()
    }

    pub fn read_cpu(&self, address: u16) -> (r: u8)
        requires
            self@.cpu_read_ok(address),
        ensures
            r == self@.cpu_read_value(address),
    {
        self.mapper.mapped_read_cpu_u8(&self.rom, address)
    }

    /// Whether the board can serve a CPU read of `address`.
    pub fn cpu_readable(&self, address: u16) -> (r: bool)
        ensures
            r == self@.cpu_read_ok(address),
    {
        self.mapper.cpu_readable(&self.rom, address)
    }

    pub fn write_cpu(&mut self, address: u16, data: u8)
        requires
            old(self)@.cpu_write_ok(address),
        ensures
            final(self)@ == old(self)@.after_cpu_write(address, data),
    {
        self.mapper.mapped_write_cpu_u8(&mut self.rom, address, data);
    }

    pub fn read_ppu(&self, address: u16) -> (r: u8)
        requires
            self@.ppu_read_ok(address),
        ensures
            r == self@.ppu_read_value(address),
    {
        self.mapper.mapped_read_ppu_u8(&self.rom, address)
    }

    pub fn write_ppu(&mut self, address: u16, data: u8)
        requires
            old(self)@.ppu_write_ok(address),
        ensures
            final(self)@ == old(self)@.after_ppu_write(address, data),
    {
        self.mapper.mapped_write_ppu_u8(&mut self.rom, address, data);
    }
}


/// What the cartridge's accesses are: those of its board on its memories.
pub proof fn lemma_cartridge_access(c: CartridgeView, address: u16, data: u8)
    ensures
        c.cpu_read_ok(address) == c.mapper.cpu_read_ok(c.rom, address),
        c.cpu_read_value(address) == c.mapper.cpu_read_value(c.rom, address),
        c.cpu_write_ok(address) == c.mapper.cpu_write_ok(c.rom, address),
        c.after_cpu_write(address, data) == (CartridgeView {
            mapper: c.mapper.cpu_write_board(c.rom, address, data),
            rom: c.mapper.cpu_write_rom(c.rom, address, data),
            ..c
        }),
        c.ppu_read_ok(address) == c.mapper.ppu_read_ok(c.rom, address),
        c.ppu_read_value(address) == c.mapper.ppu_read_value(c.rom, address),
        c.ppu_write_ok(address) == c.mapper.ppu_write_ok(c.rom, address),
        c.after_ppu_write(address, data) == (CartridgeView { rom: c.mapper.ppu_write_rom(c.rom, address, data), ..c }),
{
}

} // verus!
