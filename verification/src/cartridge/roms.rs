use vstd::prelude::*;

verus! {

/// The program and character ROMs of a cartridge.
#[derive(Clone)]
pub struct Roms {
    pub prg_rom: Vec<u8>,
    pub chr_rom: Vec<u8>,
}

impl Roms {
    pub fn new(prg_rom: Vec<u8>, chr_rom: Vec<u8>) -> (r: Roms)
        ensures
            r.prg_rom@ == prg_rom@,
            r.chr_rom@ == chr_rom@,
    {
        Roms { prg_rom, chr_rom }
    }
}

} // verus!
