use vstd::prelude::*;

verus! {

/// How the two physical name tables are mapped onto the four logical ones.
#[derive(Copy, Clone, PartialEq, Eq, Structural, Debug)]
pub enum Mirroring {
    Vertical,
    Horizontal,
}

/// The fields of an iNES header that the emulator uses.
#[derive(Copy, Clone, Debug)]
pub struct RomHeader {
    pub prg_rom_len: usize,
    pub chr_rom_len: usize,
    pub prg_ram_len: usize,
    pub chr_ram_len: usize,
    pub mirroring: Mirroring,
    pub mapper: u8,
    pub flag_persistent: bool,
    pub flag_trainer: bool,
    pub flag_vs_unisystem: bool,
    pub flag_playchoice_10: bool,
    pub flag_bus_conflicts: bool,
}

pub const PRG_ROM_PAGE_SIZE: usize = 0x4000;
pub const PRG_RAM_PAGE_SIZE: usize = 0x2000;
pub const CHR_ROM_PAGE_SIZE: usize = 0x2000;
pub const CHR_RAM_PAGE_SIZE: usize = 0x2000;

/// Why a byte string is not an iNES image that this emulator can load.
#[derive(Copy, Clone, PartialEq, Eq, Structural, Debug)]
pub enum RomError {
    /// The file does not start with `NES\x1A`.
    InvalidHeader,
    /// The file ends inside the header bytes 4 to 10.
    HeaderTruncated,
    /// Header bytes 11 to 15 are missing or not all zero.
    NonZeroPadding,
    /// The header announces the NES 2.0 format.
    Nes2Unsupported,
    /// The header asks for four-screen name tables.
    UnsupportedMirroring,
    /// The file ends inside the PRG ROM.
    PrgRomTruncated,
    /// The file ends inside the CHR ROM.
    ChrRomTruncated,
    /// Bytes follow the CHR ROM.
    UnexpectedSize,
}

/// A loaded cartridge image: its header, its ROMs, and zeroed RAMs of the sizes it asks for.
#[derive(Clone, Debug)]
pub struct Rom {
    pub rom_header: RomHeader,
    pub prg_rom: Vec<u8>,
    pub prg_ram: Vec<u8>,
    pub chr_rom: Vec<u8>,
    pub chr_ram: Vec<u8>,
}

pub open spec fn ines_magic_ok(b: Seq<u8>) -> bool {
    b.len() >= 4 && b[0] == 0x4E && b[1] == 0x45 && b[2] == 0x53 && b[3] == 0x1A
}

pub open spec fn ines_prg_rom_len(b: Seq<u8>) -> nat {
    b[4] as nat * 0x4000
}

pub open spec fn ines_chr_rom_len(b: Seq<u8>) -> nat {
    b[5] as nat * 0x2000
}

/// The header that the bytes 4 to 10 of an iNES image describe.
pub open spec fn ines_header(b: Seq<u8>) -> RomHeader {
    let flags_6 = b[6];
    let flags_7 = b[7];
    let flags_8 = b[8];
    let flags_10 = b[10];
    RomHeader {
        prg_rom_len: ines_prg_rom_len(b) as usize,
        chr_rom_len: ines_chr_rom_len(b) as usize,
        prg_ram_len: ((if flags_8 > 0 { flags_8 as nat } else { 1 }) * 0x2000) as usize,
        chr_ram_len: (if b[5] == 0 { 0x2000 } else { b[5] as nat * 0x2000 }) as usize,
        mirroring: if flags_6 & 0x01 > 0 { Mirroring::Vertical } else { Mirroring::Horizontal },
        mapper: ((flags_6 & 0xF0) >> 4) | (flags_7 & 0xF0),
        flag_persistent: flags_6 & 0x02 > 0,
        flag_trainer: flags_6 & 0x04 > 0,
        flag_vs_unisystem: flags_7 & 0x01 > 0,
        flag_playchoice_10: flags_7 & 0x02 > 0,
        flag_bus_conflicts: flags_10 & 0x20 > 0,
    }
}

/// The first reason, in the order the loader checks them, why `b` cannot be loaded.
pub open spec fn ines_error(b: Seq<u8>) -> Option<RomError> {
    if !ines_magic_ok(b) {
        Some(RomError::InvalidHeader)
    } else if b.len() < 11 {
        Some(RomError::HeaderTruncated)
    } else if b.len() < 16 || !(b[11] == 0 && b[12] == 0 && b[13] == 0 && b[14] == 0 && b[15] == 0) {
        Some(RomError::NonZeroPadding)
    } else if (b[7] & 0x0C) >> 2 == 2 {
        Some(RomError::Nes2Unsupported)
    } else if b[6] & 0x08 > 0 {
        Some(RomError::UnsupportedMirroring)
    } else if b.len() < 16 + ines_prg_rom_len(b) {
        Some(RomError::PrgRomTruncated)
    } else if b.len() < 16 + ines_prg_rom_len(b) + ines_chr_rom_len(b) {
        Some(RomError::ChrRomTruncated)
    } else if b.len() > 16 + ines_prg_rom_len(b) + ines_chr_rom_len(b) {
        Some(RomError::UnexpectedSize)
    } else {
        None
    }
}

/// What a successful load of the image `b` gives.
pub open spec fn ines_rom_ok(b: Seq<u8>, rom: Rom) -> bool {
    let h = ines_header(b);
    let p = ines_prg_rom_len(b) as int;
    let c = ines_chr_rom_len(b) as int;
    &&& rom.rom_header == h
    &&& rom.prg_rom@ == b.subrange(16, 16 + p)
    &&& rom.chr_rom@ == b.subrange(16 + p, 16 + p + c)
    &&& rom.prg_ram@ == Seq::new(h.prg_ram_len as nat, |i: int| 0u8)
    &&& rom.chr_ram@ == Seq::new(h.chr_ram_len as nat, |i: int| 0u8)
}

pub(crate) fn copy_range(bytes: &[u8], start: usize, len: usize) -> (r: Vec<u8>)
    requires
        start + len <= bytes@.len(),
    ensures
        r@ == bytes@.subrange(start as int, start + len),
{
    let mut out: Vec<u8> = Vec::new();
    let mut i: usize = 0;
    let total = bytes.len();
    while i < len
        invariant
            total == bytes@.len(),
            start + len <= bytes@.len(),
            i <= len,
            out@ == bytes@.subrange(start as int, start + i),
        decreases len - i,
    {
        out.push(bytes[start + i]);
        i = i + 1;
        assert(out@ =~= bytes@.subrange(start as int, start + i));
    }
    out
}

/// A vector of `len` zero bytes.
pub fn zeroed(len: usize) -> (r: Vec<u8>)
    ensures
        r@ == Seq::new(len as nat, |i: int| 0u8),
{
    let mut out: Vec<u8> = Vec::new();
    let mut i: usize = 0;
    while i < len
        invariant
            i <= len,
            out@ =~= Seq::new(i as nat, |k: int| 0u8),
        decreases len - i,
    {
        out.push(0u8);
        i = i + 1;
    }
    out
}

/// The header of the blank test image: one page of each memory, NROM, horizontal mirroring.
pub open spec fn mock_header() -> RomHeader {
    RomHeader {
        prg_rom_len: PRG_ROM_PAGE_SIZE,
        chr_rom_len: CHR_ROM_PAGE_SIZE,
        prg_ram_len: PRG_RAM_PAGE_SIZE,
        chr_ram_len: CHR_RAM_PAGE_SIZE,
        mirroring: Mirroring::Horizontal,
        mapper: 0,
        flag_persistent: false,
        flag_trainer: false,
        flag_vs_unisystem: false,
        flag_playchoice_10: false,
        flag_bus_conflicts: false,
    }
}

impl Rom {
    /// Parses an iNES image. It fails exactly where `ines_error` names a reason.
    pub fn read_from_file(rom_bytes: &[u8]) -> (r: Result<Rom, RomError>)
        ensures
            match r {
                Ok(rom) => ines_error(rom_bytes@) is None && ines_rom_ok(rom_bytes@, rom),
                Err(e) => ines_error(rom_bytes@) == Some(e),
            },
    {
        let bytes = rom_bytes;
        let n = bytes.len();
        if n < 4 || !(bytes[0] == 0x4E && bytes[1] == 0x45 && bytes[2] == 0x53 && bytes[3] == 0x1A) {
            return Err(RomError::InvalidHeader);
        }
        if n < 11 {
            return Err(RomError::HeaderTruncated);
        }
        let prg_rom_pages = bytes[4];
        let chr_rom_pages = bytes[5];
        let flags_6 = bytes[6];
        let flags_7 = bytes[7];
        let flags_8 = bytes[8];
        let flags_10 = bytes[10];

        if n < 16 || !(bytes[11] == 0 && bytes[12] == 0 && bytes[13] == 0 && bytes[14] == 0
            && bytes[15] == 0) {
            return Err(RomError::NonZeroPadding);
        }

        let flag_mirror = (flags_6 & 0x01) > 0x00;
        let flag_persistent = (flags_6 & 0x02) > 0x00;
        let flag_trainer = (flags_6 & 0x04) > 0x00;
        let flag_four_screen_vram = (flags_6 & 0x08) > 0x00;
        let mapper_lo = (flags_6 & 0xF0) >> 4;

        let flag_vs_unisystem = (flags_7 & 0x01) > 0x00;
        let flag_playchoice_10 = (flags_7 & 0x02) > 0x00;
        let flag_rom_format = (flags_7 & 0x0C) >> 2;
        let mapper_hi = flags_7 & 0xF0;

        let flag_bus_conflicts = (flags_10 & 0x20) > 0x00;

        if flag_rom_format == 2 {
            return Err(RomError::Nes2Unsupported);
        }
        if flag_four_screen_vram {
            return Err(RomError::UnsupportedMirroring);
        }

        let prg_rom_len = prg_rom_pages as usize * PRG_ROM_PAGE_SIZE;
        let chr_rom_len = chr_rom_pages as usize * CHR_ROM_PAGE_SIZE;

        let prg_ram_size: u8 = if flags_8 > 0 { flags_8 } else { 1 };
        let prg_ram_len = prg_ram_size as usize * PRG_RAM_PAGE_SIZE;

        let chr_ram_len = if chr_rom_pages == 0 {
            CHR_RAM_PAGE_SIZE
        } else {
            chr_rom_pages as usize * CHR_RAM_PAGE_SIZE
        };

        let mirroring = if flag_mirror { Mirroring::Vertical } else { Mirroring::Horizontal };

        let mapper = mapper_lo | mapper_hi;

        let rom_header = RomHeader {
            prg_rom_len,
            chr_rom_len,
            prg_ram_len,
            chr_ram_len,
            mirroring,
            mapper,
            flag_persistent,
            flag_trainer,
            flag_vs_unisystem,
            flag_playchoice_10,
            flag_bus_conflicts,
        };

        if n - 16 < prg_rom_len {
            return Err(RomError::PrgRomTruncated);
        }
        let prg_rom = copy_range(bytes, 16, prg_rom_len);
        let prg_ram = zeroed(prg_ram_len);

        if n - 16 - prg_rom_len < chr_rom_len {
            return Err(RomError::ChrRomTruncated);
        }
        let chr_rom = copy_range(bytes, 16 + prg_rom_len, chr_rom_len);
        let chr_ram = zeroed(chr_ram_len);

        if n - 16 - prg_rom_len > chr_rom_len {
            return Err(RomError::UnexpectedSize);
        }

        Ok(Rom { rom_header, prg_rom, prg_ram, chr_rom, chr_ram })
    }

    /// A blank NROM image with one page of each memory.
    pub fn mock_rom() -> (r: Rom)
        ensures
            r.rom_header == mock_header(),
            r.prg_rom@ == Seq::new(PRG_ROM_PAGE_SIZE as nat, |i: int| 0u8),
            r.prg_ram@ == Seq::new(PRG_RAM_PAGE_SIZE as nat, |i: int| 0u8),
            r.chr_rom@ == Seq::new(CHR_ROM_PAGE_SIZE as nat, |i: int| 0u8),
            r.chr_ram@ == Seq::new(CHR_RAM_PAGE_SIZE as nat, |i: int| 0u8),
    {
        let rom_header = RomHeader {
            prg_rom_len: PRG_ROM_PAGE_SIZE,
            chr_rom_len: CHR_ROM_PAGE_SIZE,
            prg_ram_len: PRG_RAM_PAGE_SIZE,
            chr_ram_len: CHR_RAM_PAGE_SIZE,
            mirroring: Mirroring::Horizontal,
            mapper: 0,
            flag_persistent: false,
            flag_trainer: false,
            flag_vs_unisystem: false,
            flag_playchoice_10: false,
            flag_bus_conflicts: false,
        };
        Rom {
            rom_header,
            prg_rom: zeroed(rom_header.prg_rom_len),
            prg_ram: zeroed(rom_header.prg_ram_len),
            chr_rom: zeroed(rom_header.chr_rom_len),
            chr_ram: zeroed(rom_header.chr_ram_len),
        }
    }
}

/// Law: what a successful load holds. The PRG ROM is the 16 KiB banks that byte 4 counts,
/// right after the 16-byte header, and the CHR ROM the 8 KiB banks that byte 5 counts, right
/// after them; nothing follows. An image with no CHR ROM gets 8 KiB of CHR RAM, one with CHR ROM
/// as much CHR RAM as CHR ROM; the PRG RAM is 8 KiB per bank that byte 8 counts, at least one.
/// Both RAMs start zeroed.
pub proof fn lemma_loaded_image(b: Seq<u8>, rom: Rom)
    requires
        ines_error(b) is None,
        ines_rom_ok(b, rom),
    ensures
        rom.prg_rom@.len() == b[4] as int * 0x4000,
        rom.chr_rom@.len() == b[5] as int * 0x2000,
        b.len() == 16 + rom.prg_rom@.len() + rom.chr_rom@.len(),
        forall|i: int| 0 <= i < rom.prg_rom@.len() ==> rom.prg_rom@[i] == b[16 + i],
        forall|i: int| 0 <= i < rom.chr_rom@.len() ==> rom.chr_rom@[i] == b[16 + b[4] as int * 0x4000 + i],
        b[5] == 0 ==> rom.rom_header.chr_ram_len == 0x2000,
        b[5] != 0 ==> rom.rom_header.chr_ram_len == rom.chr_rom@.len(),
        rom.chr_ram@.len() == rom.rom_header.chr_ram_len,
        rom.prg_ram@.len() == rom.rom_header.prg_ram_len,
        rom.rom_header.prg_ram_len == (if b[8] == 0 { 1 } else { b[8] as int }) * 0x2000,
        forall|i: int| 0 <= i < rom.chr_ram@.len() ==> rom.chr_ram@[i] == 0,
        forall|i: int| 0 <= i < rom.prg_ram@.len() ==> rom.prg_ram@[i] == 0,
{
}

} // verus!
