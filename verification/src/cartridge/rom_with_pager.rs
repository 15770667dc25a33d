use vstd::prelude::*;
use crate::cartridge::rom_reading::{Rom, RomHeader};
use crate::mapper::pager::Pager;

verus! {

/// The memories of a cartridge, each addressed by pages.
pub struct RomData {
    pub rom_header: RomHeader,
    pub prg_rom: Pager,
    pub prg_ram: Pager,
    pub chr_rom: Pager,
    pub chr_ram: Pager,
}

/// The contents of a cartridge's memories.
pub struct RomDataView {
    pub rom_header: RomHeader,
    pub prg_rom: Seq<u8>,
    pub prg_ram: Seq<u8>,
    pub chr_rom: Seq<u8>,
    pub chr_ram: Seq<u8>,
}

impl View for RomData {
    type V = RomDataView;

    open spec fn view(&self) -> RomDataView {
        RomDataView {
            rom_header: self.rom_header,
            prg_rom: self.prg_rom.data@,
            prg_ram: self.prg_ram.data@,
            chr_rom: self.chr_rom.data@,
            chr_ram: self.chr_ram.data@,
        }
    }
}

impl RomData {
    pub fn new(rom: Rom) -> (r: RomData)
        ensures
            r.rom_header == rom.rom_header,
            r.prg_rom.data@ == rom.prg_rom@,
            r.prg_ram.data@ == rom.prg_ram@,
            r.chr_rom.data@ == rom.chr_rom@,
            r.chr_ram.data@ == rom.chr_ram@,
    {
        let rom_header = rom.rom_header;
        let prg_rom = Pager::new(rom.prg_rom);
        let prg_ram = Pager::new(rom.prg_ram);
        let chr_rom = Pager::new(rom.chr_rom);
        let chr_ram = Pager::new(rom.chr_ram);

        RomData { rom_header, prg_rom, prg_ram, chr_rom, chr_ram }
    }
}

} // verus!
