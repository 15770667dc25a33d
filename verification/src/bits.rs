use vstd::prelude::*;
use crate::ppu::registers::{bit_of, with_bit};

verus! {

pub proof fn lemma_and_u16_le(x: u16, m: u16)
    by (bit_vector)
    ensures
        x & m <= m,
{
}

pub proof fn lemma_and_u8_le(x: u8, m: u8)
    by (bit_vector)
    ensures
        x & m <= m,
{
}

pub proof fn lemma_page_base(p: u8)
    by (bit_vector)
    ensures
        (p as u16) << 8u16 <= 0xFF00,
        ((p as u16) << 8u16) & 0x00FF == 0,
{
}

pub proof fn lemma_u8_as_u16_low_byte(v: u8)
    by (bit_vector)
    ensures
        (v as u16) & 0x00FF == v as u16,
{
}

pub proof fn lemma_complement_byte(f: u8)
    by (bit_vector)
    ensures
        (f as u16) ^ 0x00FF <= 0x00FF,
{
}

pub proof fn lemma_byte_shifts(x: u8)
    by (bit_vector)
    ensures
        x >> 3u8 < 32,
        x >> 4u8 < 16,
        x >> 6u8 < 4,
        x >> 7u8 < 2,
{
}

pub proof fn lemma_two_bits(a: u8, b: u8)
    by (bit_vector)
    requires
        a <= 1,
        b <= 1,
    ensures
        (a << 1u8) | b <= 3,
{
}

/// A tile row of the pattern table: sixteen bytes per tile, eight rows.
pub proof fn lemma_pattern_row(e: u8, f: u16)
    by (bit_vector)
    requires
        f <= 7,
    ensures
        ((0x10 * (e as u16)) as u16 | f) <= 0x0FF7,
{
}

/// A two-bit colour with a two-bit palette above it is a four-bit number.
pub proof fn lemma_palette_nibble(a: u8, b: u8)
    by (bit_vector)
    requires
        a <= 3,
        b <= 3,
    ensures
        a | (b << 2u8) <= 15,
        (a | (b << 2u8) == 0) == (a == 0 && b == 0),
{
}

/// A sprite colour: the sprite palettes are the upper half of the 32 entries.
pub proof fn lemma_sprite_color(palette: u8, idx: u8)
    by (bit_vector)
    requires
        palette <= 3,
        idx <= 3,
        idx > 0,
    ensures
        0x10u8 | (palette << 2u8) | idx <= 0x1F,
        0x10u8 | (palette << 2u8) | idx > 0,
{
}

/// Register fields read as numbers: two- and one-bit fields of a byte, the even/odd pair
/// of a bank number, the halves of the 1 KiB slots, a flag raised or tested in bit 7, and a
/// number assembled from the top nibbles of two bytes.
pub proof fn lemma_field_values(a: u8, b: u8, p: usize, slot: u16, address: u16)
    requires
        slot < 8,
    ensures
        p & !1usize == p - p % 2,
        p | 1 == p - p % 2 + 1,
        slot ^ 4 == (slot + 4) % 8,
        address & 0x03FF == address % 0x400,
        (a >> 2u8) & 0x03 == (a / 4) % 4,
        (a >> 4u8) & 0x01 == (a / 16) % 2,
        a & 0x07 == a % 8,
        a & 0x03 == a % 4,
        1u8 << 6u8 == 0x40,
        with_bit(a, 7, true) & 0x80 != 0,
        with_bit(a, 7, true) & 0x7F == a & 0x7F,
        bit_of(with_bit(a, 7, true), 7),
        bit_of(b, 7) == (b & 0x80 != 0),
        (((a & 0xF0) >> 4u8) | (((b & 0xF0) >> 4u8) << 4u8)) as int == a as int / 16 + (b as int / 16) * 16,
{
    lemma_byte_fields(a, b);
    lemma_slot_fields(slot);
    lemma_slot_offset(address);
    lemma_bank_fields(p);
}

proof fn lemma_byte_fields(a: u8, b: u8)
    by (bit_vector)
    ensures
        (a >> 2u8) & 0x03 == (a / 4) % 4,
        (a >> 4u8) & 0x01 == (a / 16) % 2,
        a & 0x07 == a % 8,
        a & 0x03 == a % 4,
        1u8 << 6u8 == 0x40,
        with_bit(a, 7, true) & 0x80 != 0,
        with_bit(a, 7, true) & 0x7F == a & 0x7F,
        bit_of(with_bit(a, 7, true), 7),
        bit_of(b, 7) == (b & 0x80 != 0),
        (((a & 0xF0) >> 4u8) | (((b & 0xF0) >> 4u8) << 4u8)) as int == a as int / 16 + (b as int / 16) * 16,
{
}

proof fn lemma_slot_fields(slot: u16)
    by (bit_vector)
    requires
        slot < 8,
    ensures
        slot ^ 4 == (slot + 4) % 8,
{
}

proof fn lemma_slot_offset(address: u16)
    by (bit_vector)
    ensures
        address & 0x03FF == address % 0x400,
{
}

proof fn lemma_bank_fields(p: usize)
    by (bit_vector)
    ensures
        p & !1usize == p - p % 2,
        p | 1 == p - p % 2 + 1,
{
}

} // verus!
