use vstd::prelude::*;
use crate::cartridge::rom_reading::copy_range;

verus! {

/// The television standard that a cartridge header names.
#[derive(Debug, Copy, Clone, PartialEq, Eq, Structural)]
pub enum TVSystem {
    NTSC,
    PAL,
    DualCompatible,
}

impl TVSystem {
    /// Decodes the two TV-system bits of header byte 10; the value 2 names no system.
    pub fn to_enum(value: u8) -> (r: TVSystem)
        requires
            value == 0 || value == 1 || value == 3,
        ensures
            value == 0 ==> r == TVSystem::NTSC,
            value == 1 ==> r == TVSystem::PAL,
            value == 3 ==> r == TVSystem::DualCompatible,
    {
        match value {
            0 => TVSystem::NTSC,
            1 => TVSystem::PAL,
            _ => TVSystem::DualCompatible,
        }
    }
}

/// Name-table arrangements, four-screen VRAM included.
#[derive(Debug, Copy, Clone, PartialEq, Eq, Structural)]
pub enum Mirroring {
    Vertical,
    Horizontal,
    FourSreenVram,
}

impl Mirroring {
    pub fn to_enum(value: u8) -> (r: Mirroring)
        requires
            value <= 2,
        ensures
            value == 0 ==> r == Mirroring::Vertical,
            value == 1 ==> r == Mirroring::Horizontal,
            value == 2 ==> r == Mirroring::FourSreenVram,
    {
        match value {
            0 => Mirroring::Vertical,
            1 => Mirroring::Horizontal,
            _ => Mirroring::FourSreenVram,
        }
    }
}

/// The header fields of an iNES image, TV system included.
#[derive(Clone)]
pub struct RomHeader {
    pub prg_rom_len: usize,
    pub chr_rom_len: usize,
    pub prg_ram_len: usize,
    pub chr_ram_len: usize,
    pub mirroring: Mirroring,
    pub mapper: u8,
    pub flag_persistent: bool,
    pub flag_trainer: bool,
    pub flag_vs_unisystem: bool,
    pub flag_playchoice_10: bool,
    pub tv_system: TVSystem,
    pub flag_bus_conflicts: bool,
}

/// A cartridge image with its title.
#[derive(Clone)]
pub struct Rom {
    pub rom_header: RomHeader,
    pub prg_rom: Vec<u8>,
    pub chr_rom: Vec<u8>,
    pub title: String,
}

/// The text that `String::from_utf8_lossy` makes of `bytes`: their UTF-8 decoding with each
/// invalid sequence replaced by U+FFFD.
pub uninterp spec fn lossy_utf8(bytes: Seq<u8>) -> Seq<char>;

/// Decodes `bytes` with `String::from_utf8_lossy`. The contract names the text that comes out
/// and leaves the decoding unstated.
#[verifier::external_body]
fn utf8_lossy(bytes: &[u8]) -> (r: String)
    ensures
        r@ == lossy_utf8(bytes@),
{
    String::from_utf8_lossy(bytes).into_owned()
}

pub open spec fn titled_prg_len(b: Seq<u8>) -> int {
    b[4] as int * 0x4000
}

pub open spec fn titled_chr_len(b: Seq<u8>) -> int {
    b[5] as int * 0x2000
}

/// The images this loader reads: the `NES\x1A` mark, zero padding in bytes 11 to 15, not the
/// NES 2.0 format, a known TV system, both ROMs present, and at most a 128-byte title after
/// them.
pub open spec fn titled_image_ok(b: Seq<u8>) -> bool {
    &&& b.len() >= 16
    &&& b[0] == 0x4E && b[1] == 0x45 && b[2] == 0x53 && b[3] == 0x1A
    &&& b[11] == 0 && b[12] == 0 && b[13] == 0 && b[14] == 0 && b[15] == 0
    &&& (b[7] & 0x0C) >> 2u8 != 2
    &&& b[10] & 0x03 != 2
    &&& 16 + titled_prg_len(b) + titled_chr_len(b) <= b.len() <= 16 + titled_prg_len(b) + titled_chr_len(b) + 0x80
}

/// The header that bytes 4 to 10 describe; PRG RAM only where byte 10 announces it.
pub open spec fn titled_header(b: Seq<u8>) -> RomHeader {
    let flags_6 = b[6];
    let flags_7 = b[7];
    let flags_8 = b[8];
    let flags_10 = b[10];
    RomHeader {
        prg_rom_len: titled_prg_len(b) as usize,
        chr_rom_len: titled_chr_len(b) as usize,
        prg_ram_len: (if flags_10 & 0x10 == 0 {
            0
        } else if flags_8 == 0 {
            0x2000
        } else {
            flags_8 as nat * 0x2000
        }) as usize,
        chr_ram_len: if b[5] == 0 { 0x2000 } else { 0 },
        mirroring: if flags_6 & 0x08 != 0 {
            Mirroring::FourSreenVram
        } else if flags_6 & 0x01 != 0 {
            Mirroring::Vertical
        } else {
            Mirroring::Horizontal
        },
        mapper: ((flags_6 & 0xF0) >> 4u8) | (((flags_7 & 0xF0) >> 4u8) << 4u8),
        flag_persistent: flags_6 & 0x02 != 0,
        flag_trainer: flags_6 & 0x04 != 0,
        flag_vs_unisystem: flags_7 & 0x01 != 0,
        flag_playchoice_10: flags_7 & 0x02 != 0,
        tv_system: if flags_10 & 0x03 == 0 {
            TVSystem::NTSC
        } else if flags_10 & 0x03 == 1 {
            TVSystem::PAL
        } else {
            TVSystem::DualCompatible
        },
        flag_bus_conflicts: flags_10 & 0x20 != 0,
    }
}

impl Rom {
    /// Reads an iNES image with the title that may follow its ROMs.
    pub fn read_from_file(rom_bytes: &[u8]) -> (r: Rom)
        requires
            titled_image_ok(rom_bytes@),
        ensures
            r.rom_header == titled_header(rom_bytes@),
            r.prg_rom@ == rom_bytes@.subrange(16, 16 + titled_prg_len(rom_bytes@)),
            r.chr_rom@ == rom_bytes@.subrange(
                16 + titled_prg_len(rom_bytes@),
                16 + titled_prg_len(rom_bytes@) + titled_chr_len(rom_bytes@),
            ),
            r.title@ == lossy_utf8(
                rom_bytes@.subrange(16 + titled_prg_len(rom_bytes@) + titled_chr_len(rom_bytes@), rom_bytes@.len() as int),
            ),
    {
        let bytes = rom_bytes;
        let prg_rom_size = bytes[4];
        let chr_rom_size = bytes[5];
        let flags_6 = bytes[6];
        let flags_7 = bytes[7];
        let prg_ram_size = bytes[8];
        let flags_10 = bytes[10];

        let flag_mirror = (flags_6 & 0x01) != 0;
        let flag_persistent = (flags_6 & 0x02) != 0;
        let flag_trainer = (flags_6 & 0x04) != 0;
        let flag_four_screen_vram = (flags_6 & 0x08) != 0;
        let mapper_lo = (flags_6 & 0xF0) >> 4u8;

        let flag_vs_unisystem = (flags_7 & 0x01) != 0;
        let flag_playchoice_10 = (flags_7 & 0x02) != 0;
        let mapper_hi = (flags_7 & 0xF0) >> 4u8;

        let flag_tv_system = flags_10 & 0x03;
        let flag_prg_ram = (flags_10 & 0x10) != 0;
        let flag_bus_conflicts = (flags_10 & 0x20) != 0;

        let prg_rom_len = prg_rom_size as usize * 0x4000;
        let chr_rom_len = chr_rom_size as usize * 0x2000;
        let prg_ram_len: usize = if !flag_prg_ram {
            0
        } else if prg_ram_size == 0 {
            0x2000
        } else {
            prg_ram_size as usize * 0x2000
        };
        let chr_ram_len: usize = if chr_rom_size == 0 { 0x2000 } else { 0 };
        let mirroring = if flag_four_screen_vram {
            Mirroring::FourSreenVram
        } else if flag_mirror {
            Mirroring::Vertical
        } else {
            Mirroring::Horizontal
        };
        let mapper = mapper_lo | (mapper_hi << 4u8);
        proof { crate::bits::lemma_and_u8_le(flags_10, 0x03); }
        let tv_system = TVSystem::to_enum(flag_tv_system);

        let rom_header = RomHeader {
            prg_rom_len,
            chr_rom_len,
            prg_ram_len,
            chr_ram_len,
            mirroring,
            mapper,
            flag_persistent,
            flag_trainer,
            flag_vs_unisystem,
            flag_playchoice_10,
            tv_system,
            flag_bus_conflicts,
        };

        let prg_rom = copy_range(bytes, 16, prg_rom_len);
        let chr_rom = copy_range(bytes, 16 + prg_rom_len, chr_rom_len);
        let title_bytes = vstd::slice::slice_subrange(bytes, 16 + prg_rom_len + chr_rom_len, bytes.len());
        let title = utf8_lossy(title_bytes);

        Rom { rom_header, prg_rom, chr_rom, title }
    }
}

/// Law: the header of a titled image. The board number takes its low nibble from the top of
/// byte 6 and its high nibble from the top of byte 7; an image with no CHR ROM announces 8 KiB
/// of CHR RAM and one with CHR ROM none; PRG RAM is announced only by bit 4 of byte 10, as
/// 8 KiB per bank that byte 8 counts, at least one.
pub proof fn lemma_titled_header(b: Seq<u8>)
    requires
        titled_image_ok(b),
    ensures
        titled_header(b).mapper as int == b[6] as int / 16 + (b[7] as int / 16) * 16,
        titled_header(b).chr_ram_len == (if b[5] == 0 { 0x2000usize } else { 0 }),
        titled_header(b).prg_ram_len as int == (if b[10] & 0x10 == 0 {
            0
        } else if b[8] == 0 {
            0x2000
        } else {
            b[8] as int * 0x2000
        }),
        titled_header(b).prg_rom_len == b[4] as int * 0x4000,
        titled_header(b).chr_rom_len == b[5] as int * 0x2000,
{
    crate::bits::lemma_field_values(b[6], b[7], 0, 0, 0);
}

} // verus!
