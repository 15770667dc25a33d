pub mod mapper0;
pub mod mapper1;
pub mod mapper2;
pub mod mapper3;
pub mod mapper4;




pub mod pager;

use vstd::prelude::*;
use crate::cartridge::rom_reading::Mirroring;
use crate::cartridge::rom_with_pager::{RomData, RomDataView};

verus! {

/// A cartridge board: it decides which byte of the cartridge memories the CPU and the PPU
/// see at each address, and which registers of its own a write changes.
///
/// Each operation comes with the spec functions that say when the board accepts it and
/// what it gives or changes.
pub trait Mapper: Sized {
    spec fn cpu_read_ok(&self, rom: RomDataView, address: u16) -> bool;

    spec fn cpu_read_value(&self, rom: RomDataView, address: u16) -> u8;

    spec fn cpu_write_ok(&self, rom: RomDataView, address: u16) -> bool;

    spec fn cpu_write_board(&self, rom: RomDataView, address: u16, data: u8) -> Self;

    spec fn cpu_write_rom(&self, rom: RomDataView, address: u16, data: u8) -> RomDataView;

    spec fn ppu_read_ok(&self, rom: RomDataView, address: u16) -> bool;

    spec fn ppu_read_value(&self, rom: RomDataView, address: u16) -> u8;

    spec fn ppu_write_ok(&self, rom: RomDataView, address: u16) -> bool;

    spec fn ppu_write_rom(&self, rom: RomDataView, address: u16, data: u8) -> RomDataView;

    spec fn mirroring_ok(&self) -> bool;

    spec fn mirroring_value(&self) -> Mirroring;

    spec fn irq_value(&self) -> bool;

    spec fn after_scanline(&self) -> Self;

    spec fn after_clear_irq(&self) -> Self;

    fn mapped_read_cpu_u8(&self, rom: &RomData, address: u16) -> (r: u8)
        requires
            self.cpu_read_ok(rom@, address),
        ensures
            r == self.cpu_read_value(rom@, address),
    ;

    /// Whether the board can serve a CPU read of `address`.
    fn cpu_readable(&self, rom: &RomData, address: u16) -> (r: bool)
        ensures
            r == self.cpu_read_ok(rom@, address),
    ;

    fn mapped_write_cpu_u8(&mut self, rom: &mut RomData, address: u16, data: u8)
        requires
            old(self).cpu_write_ok(old(rom)@, address),
        ensures
            *final(self) == old(self).cpu_write_board(old(rom)@, address, data),
            final(rom)@ == old(self).cpu_write_rom(old(rom)@, address, data),
    ;

    fn mapped_read_ppu_u8(&self, rom: &RomData, address: u16) -> (r: u8)
        requires
            self.ppu_read_ok(rom@, address),
        ensures
            r == self.ppu_read_value(rom@, address),
    ;

    fn mapped_write_ppu_u8(&mut self, rom: &mut RomData, address: u16, data: u8)
        requires
            old(self).ppu_write_ok(old(rom)@, address),
        ensures
            *final(self) == *old(self),
            final(rom)@ == old(self).ppu_write_rom(old(rom)@, address, data),
    ;

    fn mirroring(&self) -> (r: Mirroring)
        requires
            self.mirroring_ok(),
        ensures
            r == self.mirroring_value(),
    ;

    fn irq_flag(&self) -> (r: bool)
        ensures
            r == self.irq_value(),
    ;

    fn signal_scanline(&mut self)
        ensures
            *final(self) == old(self).after_scanline(),
    ;

    fn clear_irq_flag(&mut self)
        ensures
            *final(self) == old(self).after_clear_irq(),
    ;
}

} // verus!

verus! {

use crate::mapper::mapper0::Mapper0;
use crate::mapper::mapper1::Mapper1;
use crate::mapper::mapper2::Mapper2;
use crate::mapper::mapper3::Mapper3;
use crate::mapper::mapper4::Mapper4;

/// The boards the emulator knows, chosen when a cartridge is loaded.
#[derive(Copy, Clone, PartialEq, Eq, Structural)]
pub enum AnyMapper {
    Nrom(Mapper0),
    Mmc1(Mapper1),
    UxRom(Mapper2),
    CnRom(Mapper3),
    Mmc3(Mapper4),
}

impl Mapper for AnyMapper {
    open spec fn cpu_read_ok(&self, rom: RomDataView, address: u16) -> bool {
        match *self {
            AnyMapper::Nrom(m) => m.cpu_read_ok(rom, address),
            AnyMapper::Mmc1(m) => m.cpu_read_ok(rom, address),
            AnyMapper::UxRom(m) => m.cpu_read_ok(rom, address),
            AnyMapper::CnRom(m) => m.cpu_read_ok(rom, address),
            AnyMapper::Mmc3(m) => m.cpu_read_ok(rom, address),
        }
    }

    open spec fn cpu_read_value(&self, rom: RomDataView, address: u16) -> u8 {
        match *self {
            AnyMapper::Nrom(m) => m.cpu_read_value(rom, address),
            AnyMapper::Mmc1(m) => m.cpu_read_value(rom, address),
            AnyMapper::UxRom(m) => m.cpu_read_value(rom, address),
            AnyMapper::CnRom(m) => m.cpu_read_value(rom, address),
            AnyMapper::Mmc3(m) => m.cpu_read_value(rom, address),
        }
    }

    open spec fn cpu_write_ok(&self, rom: RomDataView, address: u16) -> bool {
        match *self {
            AnyMapper::Nrom(m) => m.cpu_write_ok(rom, address),
            AnyMapper::Mmc1(m) => m.cpu_write_ok(rom, address),
            AnyMapper::UxRom(m) => m.cpu_write_ok(rom, address),
            AnyMapper::CnRom(m) => m.cpu_write_ok(rom, address),
            AnyMapper::Mmc3(m) => m.cpu_write_ok(rom, address),
        }
    }

    open spec fn cpu_write_board(&self, rom: RomDataView, address: u16, data: u8) -> Self {
        match *self {
            AnyMapper::Nrom(m) => AnyMapper::Nrom(m.cpu_write_board(rom, address, data)),
            AnyMapper::Mmc1(m) => AnyMapper::Mmc1(m.cpu_write_board(rom, address, data)),
            AnyMapper::UxRom(m) => AnyMapper::UxRom(m.cpu_write_board(rom, address, data)),
            AnyMapper::CnRom(m) => AnyMapper::CnRom(m.cpu_write_board(rom, address, data)),
            AnyMapper::Mmc3(m) => AnyMapper::Mmc3(m.cpu_write_board(rom, address, data)),
        }
    }

    open spec fn cpu_write_rom(&self, rom: RomDataView, address: u16, data: u8) -> RomDataView {
        match *self {
            AnyMapper::Nrom(m) => m.cpu_write_rom(rom, address, data),
            AnyMapper::Mmc1(m) => m.cpu_write_rom(rom, address, data),
            AnyMapper::UxRom(m) => m.cpu_write_rom(rom, address, data),
            AnyMapper::CnRom(m) => m.cpu_write_rom(rom, address, data),
            AnyMapper::Mmc3(m) => m.cpu_write_rom(rom, address, data),
        }
    }

    open spec fn ppu_read_ok(&self, rom: RomDataView, address: u16) -> bool {
        match *self {
            AnyMapper::Nrom(m) => m.ppu_read_ok(rom, address),
            AnyMapper::Mmc1(m) => m.ppu_read_ok(rom, address),
            AnyMapper::UxRom(m) => m.ppu_read_ok(rom, address),
            AnyMapper::CnRom(m) => m.ppu_read_ok(rom, address),
            AnyMapper::Mmc3(m) => m.ppu_read_ok(rom, address),
        }
    }

    open spec fn ppu_read_value(&self, rom: RomDataView, address: u16) -> u8 {
        match *self {
            AnyMapper::Nrom(m) => m.ppu_read_value(rom, address),
            AnyMapper::Mmc1(m) => m.ppu_read_value(rom, address),
            AnyMapper::UxRom(m) => m.ppu_read_value(rom, address),
            AnyMapper::CnRom(m) => m.ppu_read_value(rom, address),
            AnyMapper::Mmc3(m) => m.ppu_read_value(rom, address),
        }
    }

    open spec fn ppu_write_ok(&self, rom: RomDataView, address: u16) -> bool {
        match *self {
            AnyMapper::Nrom(m) => m.ppu_write_ok(rom, address),
            AnyMapper::Mmc1(m) => m.ppu_write_ok(rom, address),
            AnyMapper::UxRom(m) => m.ppu_write_ok(rom, address),
            AnyMapper::CnRom(m) => m.ppu_write_ok(rom, address),
            AnyMapper::Mmc3(m) => m.ppu_write_ok(rom, address),
        }
    }

    open spec fn ppu_write_rom(&self, rom: RomDataView, address: u16, data: u8) -> RomDataView {
        match *self {
            AnyMapper::Nrom(m) => m.ppu_write_rom(rom, address, data),
            AnyMapper::Mmc1(m) => m.ppu_write_rom(rom, address, data),
            AnyMapper::UxRom(m) => m.ppu_write_rom(rom, address, data),
            AnyMapper::CnRom(m) => m.ppu_write_rom(rom, address, data),
            AnyMapper::Mmc3(m) => m.ppu_write_rom(rom, address, data),
        }
    }

    open spec fn mirroring_ok(&self) -> bool {
        match *self {
            AnyMapper::Nrom(m) => m.mirroring_ok(),
            AnyMapper::Mmc1(m) => m.mirroring_ok(),
            AnyMapper::UxRom(m) => m.mirroring_ok(),
            AnyMapper::CnRom(m) => m.mirroring_ok(),
            AnyMapper::Mmc3(m) => m.mirroring_ok(),
        }
    }

    open spec fn mirroring_value(&self) -> Mirroring {
        match *self {
            AnyMapper::Nrom(m) => m.mirroring_value(),
            AnyMapper::Mmc1(m) => m.mirroring_value(),
            AnyMapper::UxRom(m) => m.mirroring_value(),
            AnyMapper::CnRom(m) => m.mirroring_value(),
            AnyMapper::Mmc3(m) => m.mirroring_value(),
        }
    }

    open spec fn irq_value(&self) -> bool {
        match *self {
            AnyMapper::Mmc3(m) => m.irq_value(),
            _ => false,
        }
    }

    open spec fn after_scanline(&self) -> Self {
        match *self {
            AnyMapper::Mmc3(m) => AnyMapper::Mmc3(m.after_scanline()),
            _ => *self,
        }
    }

    open spec fn after_clear_irq(&self) -> Self {
        match *self {
            AnyMapper::Mmc3(m) => AnyMapper::Mmc3(m.after_clear_irq()),
            _ => *self,
        }
    }

    fn mapped_read_cpu_u8(&self, rom: &RomData, address: u16) -> (r: u8) {
        match self {
            AnyMapper::Nrom(m) => m.mapped_read_cpu_u8(rom, address),
            AnyMapper::Mmc1(m) => m.mapped_read_cpu_u8(rom, address),
            AnyMapper::UxRom(m) => m.mapped_read_cpu_u8(rom, address),
            AnyMapper::CnRom(m) => m.mapped_read_cpu_u8(rom, address),
            AnyMapper::Mmc3(m) => m.mapped_read_cpu_u8(rom, address),
        }
    }

    fn cpu_readable(&self, rom: &RomData, address: u16) -> (r: bool) {
        match self {
            AnyMapper::Nrom(m) => m.cpu_readable(rom, address),
            AnyMapper::Mmc1(m) => m.cpu_readable(rom, address),
            AnyMapper::UxRom(m) => m.cpu_readable(rom, address),
            AnyMapper::CnRom(m) => m.cpu_readable(rom, address),
            AnyMapper::Mmc3(m) => m.cpu_readable(rom, address),
        }
    }

    fn mapped_write_cpu_u8(&mut self, rom: &mut RomData, address: u16, data: u8) {
        match self {
            AnyMapper::Nrom(m) => m.mapped_write_cpu_u8(rom, address, data),
            AnyMapper::Mmc1(m) => m.mapped_write_cpu_u8(rom, address, data),
            AnyMapper::UxRom(m) => m.mapped_write_cpu_u8(rom, address, data),
            AnyMapper::CnRom(m) => m.mapped_write_cpu_u8(rom, address, data),
            AnyMapper::Mmc3(m) => m.mapped_write_cpu_u8(rom, address, data),
        }
    }

    fn mapped_read_ppu_u8(&self, rom: &RomData, address: u16) -> (r: u8) {
        match self {
            AnyMapper::Nrom(m) => m.mapped_read_ppu_u8(rom, address),
            AnyMapper::Mmc1(m) => m.mapped_read_ppu_u8(rom, address),
            AnyMapper::UxRom(m) => m.mapped_read_ppu_u8(rom, address),
            AnyMapper::CnRom(m) => m.mapped_read_ppu_u8(rom, address),
            AnyMapper::Mmc3(m) => m.mapped_read_ppu_u8(rom, address),
        }
    }

    fn mapped_write_ppu_u8(&mut self, rom: &mut RomData, address: u16, data: u8) {
        match self {
            AnyMapper::Nrom(m) => m.mapped_write_ppu_u8(rom, address, data),
            AnyMapper::Mmc1(m) => m.mapped_write_ppu_u8(rom, address, data),
            AnyMapper::UxRom(m) => m.mapped_write_ppu_u8(rom, address, data),
            AnyMapper::CnRom(m) => m.mapped_write_ppu_u8(rom, address, data),
            AnyMapper::Mmc3(m) => m.mapped_write_ppu_u8(rom, address, data),
        }
    }

    fn mirroring(&self) -> (r: Mirroring) {
        match self {
            AnyMapper::Nrom(m) => m.mirroring(),
            AnyMapper::Mmc1(m) => m.mirroring(),
            AnyMapper::UxRom(m) => m.mirroring(),
            AnyMapper::CnRom(m) => m.mirroring(),
            AnyMapper::Mmc3(m) => m.mirroring(),
        }
    }

    fn irq_flag(&self) -> (r: bool) {
        match self {
            AnyMapper::Mmc3(m) => m.irq_flag(),
            _ => false,
        }
    }

    fn signal_scanline(&mut self) {
        match self {
            AnyMapper::Mmc3(m) => m.signal_scanline(),
            _ => {},
        }
    }

    fn clear_irq_flag(&mut self) {
        match self {
            AnyMapper::Mmc3(m) => m.clear_irq_flag(),
            _ => {},
        }
    }
}

} // verus!
