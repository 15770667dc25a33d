use vstd::prelude::*;
use crate::ppu::registers::{PpuCtrlFlags, bit_of, get_nth_bit, nth_bit};

verus! {

/// The attribute byte of an OAM entry: palette in bits 0-1, priority in bit 5, flips in
/// bits 6 and 7.
#[derive(Copy, Clone, PartialEq, Eq, Structural, Debug)]
pub struct SpriteAttributes(pub u8);

impl SpriteAttributes {
    pub open spec fn spec_palette(&self) -> u8 { self.0 & 0x03 }
    pub open spec fn spec_is_behind_background(&self) -> bool { bit_of(self.0, 5) }
    pub open spec fn spec_flip_x(&self) -> bool { bit_of(self.0, 6) }
    pub open spec fn spec_flip_y(&self) -> bool { bit_of(self.0, 7) }

    #[verifier::when_used_as_spec(spec_palette)]
    pub fn palette(&self) -> (r: u8) ensures r == self.0 & 0x03 { self.0 & 0x03 }
    #[verifier::when_used_as_spec(spec_is_behind_background)]
    pub fn is_behind_background(&self) -> (r: bool) ensures r == bit_of(self.0, 5) { (self.0 >> 5u8) & 1 == 1 }
    #[verifier::when_used_as_spec(spec_flip_x)]
    pub fn flip_x(&self) -> (r: bool) ensures r == bit_of(self.0, 6) { (self.0 >> 6u8) & 1 == 1 }
    #[verifier::when_used_as_spec(spec_flip_y)]
    pub fn flip_y(&self) -> (r: bool) ensures r == bit_of(self.0, 7) { (self.0 >> 7u8) & 1 == 1 }
}

#[derive(Debug, Copy, Clone, PartialEq, Eq, Structural)]
pub struct SpriteTileIndex(pub u8);

/// A sprite taken from OAM, with the two pattern bytes of its current row once loaded.
#[derive(Debug, Copy, Clone, PartialEq, Eq, Structural)]
pub struct Sprite {
    pub x: u8,
    pub y: u8,
    pub index: SpriteTileIndex,
    pub attributes: SpriteAttributes,
    pub data_lo: u8,
    pub data_hi: u8,
    pub oam_index: usize,
}

/// The sprite that the four OAM bytes `bytes` describe.
pub open spec fn sprite_of(oam_index: usize, bytes: Seq<u8>) -> Sprite {
    Sprite {
        y: bytes[0],
        index: SpriteTileIndex(bytes[1]),
        attributes: SpriteAttributes(bytes[2]),
        x: bytes[3],
        data_lo: 0,
        data_hi: 0,
        oam_index,
    }
}

impl Sprite {
    /// The pattern address of the row of this sprite that scan line `scan_line` shows.
    pub open spec fn spec_tile_address(self, control_flags: PpuCtrlFlags, scan_line: usize) -> u16 {
        let index = self.index.0 as int;
        let base = if control_flags.spec_sprite_size() {
            0x1000 * (index % 2) + 0x10 * index
        } else {
            (if control_flags.spec_pattern_sprite_table_addr() { 0x1000int } else { 0int }) + 0x10 * index
        };
        let size: int = if control_flags.spec_sprite_size() { 16 } else { 8 };
        let row = (scan_line - self.y) % size;
        let y_offset = if self.attributes.spec_flip_y() { size - 1 - row } else { row };
        (base + y_offset + if y_offset < 8 { 0int } else { 8int }) as u16
    }

    /// The two-bit colour of the sprite at screen column `x`, 0 outside its eight columns.
    pub open spec fn spec_color_index(self, x: usize) -> u8 {
        let sx = x - self.x;
        if 0 <= sx < 8 {
            let col = if self.attributes.spec_flip_x() { 7 - sx } else { sx };
            (nth_bit(self.data_hi as u16, (7 - col) as u16) << 1u8) | nth_bit(self.data_lo as u16, (7 - col) as u16)
        } else {
            0
        }
    }

    pub fn new(oam_index: usize, bytes: &[u8]) -> (r: Sprite)
        requires
            bytes@.len() >= 4,
        ensures
            r == sprite_of(oam_index, bytes@),
    {
        Sprite {
            y: bytes[0],
            index: SpriteTileIndex(bytes[1]),
            attributes: SpriteAttributes(bytes[2]),
            x: bytes[3],
            data_lo: 0,
            data_hi: 0,
            oam_index,
        }
    }

    pub fn tile_address(&mut self, control_flags: PpuCtrlFlags, scan_line: usize) -> (r: u16)
        requires
            old(self).y <= scan_line <= old(self).y + 0xFFFF,
        ensures
            r == old(self).spec_tile_address(control_flags, scan_line),
            *final(self) == *old(self),
    {
        let index = self.index.0 as u16;
        let tile_address = if control_flags.sprite_size() {
            0x1000 * (index % 2) + 0x10 * index
        } else {
            control_flags.get_sprite_tile_base() + 0x10 * index
        };
        let sprite_size = control_flags.get_sprite_size() as u16;
        let mut y_offset = ((scan_line - self.y as usize) as u16) % sprite_size;
        if self.attributes.flip_y() {
            y_offset = sprite_size - 1 - y_offset;
        }
        tile_address + y_offset + if y_offset < 8 { 0 } else { 8 }
    }

    pub fn color_index(&self, x: usize) -> (r: u8)
        requires
            x <= 0xFFFF,
        ensures
            r == self.spec_color_index(x),
            r <= 3,
    {
        let mut sprite_x = (x as u16).wrapping_sub(self.x as u16);
        if sprite_x < 8 {
            if self.attributes.flip_x() {
                sprite_x = 7 - sprite_x;
            }
            let hi = get_nth_bit(self.data_hi as u16, 7 - sprite_x);
            let lo = get_nth_bit(self.data_lo as u16, 7 - sprite_x);
            proof { crate::bits::lemma_two_bits(hi, lo); }
            (hi << 1u8) | lo
        } else {
            proof {
                assert(x < self.x || x - self.x >= 8);
            }
            0
        }
    }
}

} // verus!
