use vstd::prelude::*;
use crate::bits::lemma_and_u16_le;
use crate::cartridge::{Cartridge, CartridgeView};
use crate::cartridge::rom_reading::Mirroring;
use crate::cartridge::rom_reading::zeroed;
use crate::mapper::Mapper;

verus! {

/// Bit `n` of a byte.
pub open spec fn bit_of(v: u8, n: u8) -> bool {
    (v >> n) & 1 == 1
}

/// PPUCTRL (0x2000).
#[derive(Copy, Clone, PartialEq, Eq, Structural, Debug)]
pub struct PpuCtrlFlags(pub u8);

impl PpuCtrlFlags {
    pub open spec fn spec_nametable_x(&self) -> bool { bit_of(self.0, 0) }
    pub open spec fn spec_nametable_y(&self) -> bool { bit_of(self.0, 1) }
    pub open spec fn spec_vram_addr_increment_mode(&self) -> bool { bit_of(self.0, 2) }
    pub open spec fn spec_pattern_sprite_table_addr(&self) -> bool { bit_of(self.0, 3) }
    pub open spec fn spec_pattern_background(&self) -> bool { bit_of(self.0, 4) }
    pub open spec fn spec_sprite_size(&self) -> bool { bit_of(self.0, 5) }
    pub open spec fn spec_slave_mode(&self) -> bool { bit_of(self.0, 6) }
    pub open spec fn spec_enable_nmi(&self) -> bool { bit_of(self.0, 7) }

    #[verifier::when_used_as_spec(spec_nametable_x)]
    pub fn nametable_x(&self) -> (r: bool) ensures r == bit_of(self.0, 0) { (self.0 >> 0u8) & 1 == 1 }
    #[verifier::when_used_as_spec(spec_nametable_y)]
    pub fn nametable_y(&self) -> (r: bool) ensures r == bit_of(self.0, 1) { (self.0 >> 1u8) & 1 == 1 }
    #[verifier::when_used_as_spec(spec_vram_addr_increment_mode)]
    pub fn vram_addr_increment_mode(&self) -> (r: bool) ensures r == bit_of(self.0, 2) { (self.0 >> 2u8) & 1 == 1 }
    #[verifier::when_used_as_spec(spec_pattern_sprite_table_addr)]
    pub fn pattern_sprite_table_addr(&self) -> (r: bool) ensures r == bit_of(self.0, 3) { (self.0 >> 3u8) & 1 == 1 }
    #[verifier::when_used_as_spec(spec_pattern_background)]
    pub fn pattern_background(&self) -> (r: bool) ensures r == bit_of(self.0, 4) { (self.0 >> 4u8) & 1 == 1 }
    #[verifier::when_used_as_spec(spec_sprite_size)]
    pub fn sprite_size(&self) -> (r: bool) ensures r == bit_of(self.0, 5) { (self.0 >> 5u8) & 1 == 1 }
    #[verifier::when_used_as_spec(spec_slave_mode)]
    pub fn slave_mode(&self) -> (r: bool) ensures r == bit_of(self.0, 6) { (self.0 >> 6u8) & 1 == 1 }
    #[verifier::when_used_as_spec(spec_enable_nmi)]
    pub fn enable_nmi(&self) -> (r: bool) ensures r == bit_of(self.0, 7) { (self.0 >> 7u8) & 1 == 1 }

    /// Base address of the background pattern table: 0x0000 or 0x1000.
    pub fn get_pattern_background(self) -> (r: u16)
        ensures
            r == (if self.spec_pattern_background() { 0x1000u16 } else { 0u16 }),
    {
        if self.pattern_background() { 0x1000 } else { 0 }
    }

    /// Sprite height in pixels.
    pub fn get_sprite_size(self) -> (r: u8)
        ensures
            r == (if self.spec_sprite_size() { 16u8 } else { 8u8 }),
    {
        if self.sprite_size() { 16 } else { 8 }
    }

    /// Base address of the 8x8 sprite pattern table: 0x0000 or 0x1000.
    pub fn get_sprite_tile_base(self) -> (r: u16)
        ensures
            r == (if self.spec_pattern_sprite_table_addr() { 0x1000u16 } else { 0u16 }),
    {
        if self.pattern_sprite_table_addr() { 0x1000 } else { 0 }
    }
}

/// PPUMASK (0x2001).
#[derive(Copy, Clone, PartialEq, Eq, Structural, Debug)]
pub struct PpuMaskFlags(pub u8);

impl PpuMaskFlags {
    pub open spec fn spec_grayscale(&self) -> bool { bit_of(self.0, 0) }
    pub open spec fn spec_show_background_in_left_margin(&self) -> bool { bit_of(self.0, 1) }
    pub open spec fn spec_show_sprites_in_left_margin(&self) -> bool { bit_of(self.0, 2) }
    pub open spec fn spec_show_background(&self) -> bool { bit_of(self.0, 3) }
    pub open spec fn spec_show_sprites(&self) -> bool { bit_of(self.0, 4) }

    #[verifier::when_used_as_spec(spec_grayscale)]
    pub fn grayscale(&self) -> (r: bool) ensures r == bit_of(self.0, 0) { (self.0 >> 0u8) & 1 == 1 }
    #[verifier::when_used_as_spec(spec_show_background_in_left_margin)]
    pub fn show_background_in_left_margin(&self) -> (r: bool) ensures r == bit_of(self.0, 1) { (self.0 >> 1u8) & 1 == 1 }
    #[verifier::when_used_as_spec(spec_show_sprites_in_left_margin)]
    pub fn show_sprites_in_left_margin(&self) -> (r: bool) ensures r == bit_of(self.0, 2) { (self.0 >> 2u8) & 1 == 1 }
    #[verifier::when_used_as_spec(spec_show_background)]
    pub fn show_background(&self) -> (r: bool) ensures r == bit_of(self.0, 3) { (self.0 >> 3u8) & 1 == 1 }
    #[verifier::when_used_as_spec(spec_show_sprites)]
    pub fn show_sprites(&self) -> (r: bool) ensures r == bit_of(self.0, 4) { (self.0 >> 4u8) & 1 == 1 }

    pub open spec fn spec_is_rendering(self) -> bool {
        self.spec_show_sprites() || self.spec_show_background()
    }

    /// Whether background or sprites are shown.
    #[verifier::when_used_as_spec(spec_is_rendering)]
    pub fn is_rendering(self) -> (r: bool)
        ensures
            r == (self.spec_show_sprites() || self.spec_show_background()),
    {
        self.show_sprites() || self.show_background()
    }

    pub open spec fn spec_is_rendering_background(self, x: usize) -> bool {
        self.spec_show_background() && (self.spec_show_sprites_in_left_margin() || x > 7)
    }

    /// Whether the background is drawn at column `x`.
    #[verifier::when_used_as_spec(spec_is_rendering_background)]
    pub fn is_rendering_background(self, x: usize) -> (r: bool)
        ensures
            r == (self.spec_show_background() && (self.spec_show_sprites_in_left_margin() || x > 7)),
    {
        self.show_background() && (self.show_sprites_in_left_margin() || x > 7)
    }

    pub open spec fn spec_is_rendering_sprites(self, x: usize) -> bool {
        self.spec_show_sprites() && (self.spec_show_sprites_in_left_margin() || x > 7)
    }

    /// Whether sprites are drawn at column `x`.
    #[verifier::when_used_as_spec(spec_is_rendering_sprites)]
    pub fn is_rendering_sprites(self, x: usize) -> (r: bool)
        ensures
            r == (self.spec_show_sprites() && (self.spec_show_sprites_in_left_margin() || x > 7)),
    {
        self.show_sprites() && (self.show_sprites_in_left_margin() || x > 7)
    }
}

/// A byte with bit `n` set to `on`.
pub open spec fn with_bit(v: u8, n: u8, on: bool) -> u8 {
    if on { v | (1u8 << n) } else { v & !(1u8 << n) }
}

/// PPUSTATUS (0x2002).
#[derive(Copy, Clone, PartialEq, Eq, Structural, Debug)]
pub struct PpuStatusFlags(pub u8);

impl PpuStatusFlags {
    pub open spec fn spec_sprite_overflow(&self) -> bool { bit_of(self.0, 5) }
    pub open spec fn spec_sprite_zero_hit(&self) -> bool { bit_of(self.0, 6) }
    pub open spec fn spec_vertical_blank(&self) -> bool { bit_of(self.0, 7) }

    #[verifier::when_used_as_spec(spec_sprite_overflow)]
    pub fn sprite_overflow(&self) -> (r: bool) ensures r == bit_of(self.0, 5) { (self.0 >> 5u8) & 1 == 1 }
    #[verifier::when_used_as_spec(spec_sprite_zero_hit)]
    pub fn sprite_zero_hit(&self) -> (r: bool) ensures r == bit_of(self.0, 6) { (self.0 >> 6u8) & 1 == 1 }
    #[verifier::when_used_as_spec(spec_vertical_blank)]
    pub fn vertical_blank(&self) -> (r: bool) ensures r == bit_of(self.0, 7) { (self.0 >> 7u8) & 1 == 1 }

    pub fn set_sprite_overflow(&mut self, v: bool)
        ensures final(self).0 == with_bit(old(self).0, 5, v),
    {
        self.0 = if v { self.0 | (1u8 << 5u8) } else { self.0 & !(1u8 << 5u8) };
    }

    pub fn set_sprite_zero_hit(&mut self, v: bool)
        ensures final(self).0 == with_bit(old(self).0, 6, v),
    {
        self.0 = if v { self.0 | (1u8 << 6u8) } else { self.0 & !(1u8 << 6u8) };
    }

    pub fn set_vertical_blank(&mut self, v: bool)
        ensures final(self).0 == with_bit(old(self).0, 7, v),
    {
        self.0 = if v { self.0 | (1u8 << 7u8) } else { self.0 & !(1u8 << 7u8) };
    }
}

/// A 15-bit VRAM address in its scrolling layout: coarse X in bits 0-4, coarse Y in 5-9,
/// name table X and Y in 10 and 11, fine Y in 12-14.
#[derive(Copy, Clone, PartialEq, Eq, Structural, Debug)]
pub struct ScrollRegister(pub u16);

/// `v` with the bits that `mask` selects replaced by `field << shift`, cut to the mask.
pub open spec fn with_field(v: u16, mask: u16, shift: u16, field: u16) -> u16 {
    (v & !mask) | ((field << shift) & mask)
}

impl ScrollRegister {
    pub open spec fn spec_coarse_x(&self) -> u8 { (self.0 & 0x001F) as u8 }
    pub open spec fn spec_coarse_y(&self) -> u8 { ((self.0 >> 5u16) & 0x001F) as u8 }
    pub open spec fn spec_nametable_x(&self) -> bool { (self.0 >> 10u16) & 1 == 1 }
    pub open spec fn spec_nametable_y(&self) -> bool { (self.0 >> 11u16) & 1 == 1 }
    pub open spec fn spec_fine_y(&self) -> u8 { ((self.0 >> 12u16) & 0x0007) as u8 }
    pub open spec fn spec_hi_byte(&self) -> u8 { ((self.0 >> 8u16) & 0x003F) as u8 }
    pub open spec fn spec_lo_byte(&self) -> u8 { (self.0 & 0x00FF) as u8 }

    #[verifier::when_used_as_spec(spec_coarse_x)]
    pub fn coarse_x(&self) -> (r: u8) ensures r == (self.0 & 0x001F) as u8 { (self.0 & 0x001F) as u8 }
    #[verifier::when_used_as_spec(spec_coarse_y)]
    pub fn coarse_y(&self) -> (r: u8) ensures r == ((self.0 >> 5u16) & 0x001F) as u8 { ((self.0 >> 5u16) & 0x001F) as u8 }
    #[verifier::when_used_as_spec(spec_nametable_x)]
    pub fn nametable_x(&self) -> (r: bool) ensures r == ((self.0 >> 10u16) & 1 == 1) { (self.0 >> 10u16) & 1 == 1 }
    #[verifier::when_used_as_spec(spec_nametable_y)]
    pub fn nametable_y(&self) -> (r: bool) ensures r == ((self.0 >> 11u16) & 1 == 1) { (self.0 >> 11u16) & 1 == 1 }
    #[verifier::when_used_as_spec(spec_fine_y)]
    pub fn fine_y(&self) -> (r: u8) ensures r == ((self.0 >> 12u16) & 0x0007) as u8 { ((self.0 >> 12u16) & 0x0007) as u8 }
    #[verifier::when_used_as_spec(spec_hi_byte)]
    pub fn hi_byte(&self) -> (r: u8) ensures r == ((self.0 >> 8u16) & 0x003F) as u8 { ((self.0 >> 8u16) & 0x003F) as u8 }
    #[verifier::when_used_as_spec(spec_lo_byte)]
    pub fn lo_byte(&self) -> (r: u8) ensures r == (self.0 & 0x00FF) as u8 { (self.0 & 0x00FF) as u8 }

    pub fn set_coarse_x(&mut self, v: u8)
        ensures final(self).0 == with_field(old(self).0, 0x001F, 0, v as u16),
    {
        self.0 = (self.0 & !0x001Fu16) | (((v as u16) << 0u16) & 0x001F);
    }

    pub fn set_coarse_y(&mut self, v: u8)
        ensures final(self).0 == with_field(old(self).0, 0x03E0, 5, v as u16),
    {
        self.0 = (self.0 & !0x03E0u16) | (((v as u16) << 5u16) & 0x03E0);
    }

    pub fn set_nametable_x(&mut self, v: bool)
        ensures final(self).0 == with_field(old(self).0, 0x0400, 10, if v { 1u16 } else { 0u16 }),
    {
        let b: u16 = if v { 1 } else { 0 };
        self.0 = (self.0 & !0x0400u16) | ((b << 10u16) & 0x0400);
    }

    pub fn set_nametable_y(&mut self, v: bool)
        ensures final(self).0 == with_field(old(self).0, 0x0800, 11, if v { 1u16 } else { 0u16 }),
    {
        let b: u16 = if v { 1 } else { 0 };
        self.0 = (self.0 & !0x0800u16) | ((b << 11u16) & 0x0800);
    }

    pub fn set_fine_y(&mut self, v: u8)
        ensures final(self).0 == with_field(old(self).0, 0x7000, 12, v as u16),
    {
        self.0 = (self.0 & !0x7000u16) | (((v as u16) << 12u16) & 0x7000);
    }

    pub fn set_hi_byte(&mut self, v: u8)
        ensures final(self).0 == with_field(old(self).0, 0x3F00, 8, v as u16),
    {
        self.0 = (self.0 & !0x3F00u16) | (((v as u16) << 8u16) & 0x3F00);
    }

    pub fn set_lo_byte(&mut self, v: u8)
        ensures final(self).0 == with_field(old(self).0, 0x00FF, 0, v as u16),
    {
        self.0 = (self.0 & !0x00FFu16) | (((v as u16) << 0u16) & 0x00FF);
    }
}


/// Bit `nth` of `number`, as 0 or 1.
pub open spec fn nth_bit(number: u16, nth: u16) -> u8 {
    ((number >> nth) & 1) as u8
}

pub fn get_nth_bit(number: u16, nth: u16) -> (r: u8)
    requires
        nth < 16,
    ensures
        r == nth_bit(number, nth),
        r <= 1,
{
    proof { lemma_and_u16_le(number >> nth, 1); }
    ((number >> nth) & 1) as u8
}

/// Where a name-table address lands in the two physical 1 KiB tables, laid end to end.
pub open spec fn nametable_offset(mirroring: Mirroring, address: u16) -> int {
    let a = address & 0x0FFF;
    let table = match mirroring {
        Mirroring::Vertical => (a >> 10u16) & 1,
        Mirroring::Horizontal => (a >> 11u16) & 1,
    };
    table * 0x0400 + (a & 0x03FF)
}

/// Where a palette address lands in the 32-byte palette memory; the sprite backdrop
/// entries mirror the background ones.
pub open spec fn palette_offset(address: u16) -> int {
    let a = address & 0x001F;
    if a == 0x10 || a == 0x14 || a == 0x18 || a == 0x1C { a - 0x10 } else { a as int }
}

fn nametable_index(mirroring: Mirroring, address: u16) -> (r: usize)
    ensures
        r == nametable_offset(mirroring, address),
        r < 0x0800,
{
    let a = address & 0x0FFF;
    let table = match mirroring {
        Mirroring::Vertical => (a >> 10u16) & 1,
        Mirroring::Horizontal => (a >> 11u16) & 1,
    };
    proof {
        lemma_and_u16_le(a >> 10u16, 1);
        lemma_and_u16_le(a >> 11u16, 1);
        lemma_and_u16_le(a, 0x03FF);
    }
    table as usize * 0x0400 + (a & 0x03FF) as usize
}

fn palette_index(address: u16) -> (r: usize)
    ensures
        r == palette_offset(address),
        r < 0x20,
{
    let a = address & 0x001F;
    proof { lemma_and_u16_le(address, 0x001F); }
    if a == 0x10 || a == 0x14 || a == 0x18 || a == 0x1C {
        (a - 0x10) as usize
    } else {
        a as usize
    }
}

/// The PPU's registers and memories as the CPU and the renderer share them.
pub struct Registers {
    pub ctrl_flags: PpuCtrlFlags,
    pub mask_flags: PpuMaskFlags,
    pub status_flags: PpuStatusFlags,
    pub vram_addr: ScrollRegister,
    pub tram_addr: ScrollRegister,
    pub palette_table: Vec<u8>,
    pub name_table: Vec<u8>,
    pub address_latch: bool,
    pub ppu_data_buffer: u8,
    pub fine_x: u8,
    pub cartridge: Cartridge,
    pub oam_address: u8,
    pub oam_ram: Vec<u8>,
    pub sprite_count: u8,
    pub sprite_shifter_pattern_lo: u8,
    pub sprite_shifter_pattern_hi: u8,
    pub sprite_zero_hit_possible: bool,
    pub sprite_zero_being_rendered: bool,
    pub vblank_suppress: bool,
    pub force_nmi: bool,
}

pub struct RegistersView {
    pub ctrl_flags: PpuCtrlFlags,
    pub mask_flags: PpuMaskFlags,
    pub status_flags: PpuStatusFlags,
    pub vram_addr: ScrollRegister,
    pub tram_addr: ScrollRegister,
    pub palette_table: Seq<u8>,
    pub name_table: Seq<u8>,
    pub address_latch: bool,
    pub ppu_data_buffer: u8,
    pub fine_x: u8,
    pub cartridge: CartridgeView,
    pub oam_address: u8,
    pub oam_ram: Seq<u8>,
    pub sprite_count: u8,
    pub sprite_shifter_pattern_lo: u8,
    pub sprite_shifter_pattern_hi: u8,
    pub sprite_zero_hit_possible: bool,
    pub sprite_zero_being_rendered: bool,
    pub vblank_suppress: bool,
    pub force_nmi: bool,
}

impl View for Registers {
    type V = RegistersView;

    open spec fn view(&self) -> RegistersView {
        RegistersView {
            ctrl_flags: self.ctrl_flags,
            mask_flags: self.mask_flags,
            status_flags: self.status_flags,
            vram_addr: self.vram_addr,
            tram_addr: self.tram_addr,
            palette_table: self.palette_table@,
            name_table: self.name_table@,
            address_latch: self.address_latch,
            ppu_data_buffer: self.ppu_data_buffer,
            fine_x: self.fine_x,
            cartridge: self.cartridge@,
            oam_address: self.oam_address,
            oam_ram: self.oam_ram@,
            sprite_count: self.sprite_count,
            sprite_shifter_pattern_lo: self.sprite_shifter_pattern_lo,
            sprite_shifter_pattern_hi: self.sprite_shifter_pattern_hi,
            sprite_zero_hit_possible: self.sprite_zero_hit_possible,
            sprite_zero_being_rendered: self.sprite_zero_being_rendered,
            vblank_suppress: self.vblank_suppress,
            force_nmi: self.force_nmi,
        }
    }
}

/// The step that PPUDATA accesses move the VRAM address by.
pub open spec fn vram_step(ctrl: PpuCtrlFlags) -> u16 {
    if ctrl.spec_vram_addr_increment_mode() { 32 } else { 1 }
}

impl RegistersView {
    pub open spec fn wf(self) -> bool {
        &&& self.palette_table.len() == 0x20
        &&& self.name_table.len() == 0x0800
        &&& self.oam_ram.len() == 0x0100
        &&& self.fine_x <= 7
    }

    /// The registers after a reset: flags, addresses, palette, name tables and OAM cleared;
    /// the cartridge, the latches and the OAM address kept.
    pub open spec fn after_reset(self) -> RegistersView {
        RegistersView {
            status_flags: PpuStatusFlags(0),
            mask_flags: PpuMaskFlags(0),
            ctrl_flags: PpuCtrlFlags(0),
            vram_addr: ScrollRegister(0),
            tram_addr: ScrollRegister(0),
            ppu_data_buffer: 0,
            fine_x: 0,
            oam_ram: Seq::new(0x0100, |i: int| 0u8),
            palette_table: Seq::new(0x20, |i: int| 0u8),
            name_table: Seq::new(0x0800, |i: int| 0u8),
            ..self
        }
    }

    /// The registers as the console powers on with `cartridge` inserted: flags, addresses and
    /// memories cleared.
    pub open spec fn power_on(self, cartridge: CartridgeView) -> bool {
        &&& self.wf()
        &&& self.ctrl_flags == PpuCtrlFlags(0)
        &&& self.mask_flags == PpuMaskFlags(0)
        &&& self.status_flags == PpuStatusFlags(0)
        &&& self.vram_addr == ScrollRegister(0)
        &&& self.tram_addr == ScrollRegister(0)
        &&& self.palette_table == Seq::new(0x20, |i: int| 0u8)
        &&& self.name_table == Seq::new(0x0800, |i: int| 0u8)
        &&& self.oam_ram == Seq::new(0x0100, |i: int| 0u8)
        &&& !self.address_latch
        &&& self.ppu_data_buffer == 0
        &&& self.fine_x == 0
        &&& self.cartridge == cartridge
        &&& self.oam_address == 0
        &&& self.sprite_count == 0
        &&& self.sprite_shifter_pattern_lo == 0
        &&& self.sprite_shifter_pattern_hi == 0
        &&& !self.sprite_zero_hit_possible
        &&& !self.sprite_zero_being_rendered
        &&& !self.vblank_suppress
        &&& !self.force_nmi
    }

    pub closed spec fn ppu_read_ok(self, address: u16) -> bool {
        let a = address & 0x3FFF;
        if a <= 0x1FFF {
            self.cartridge.ppu_read_ok(a)
        } else if a <= 0x3EFF {
            self.cartridge.mapper.mirroring_ok()
        } else {
            true
        }
    }

    /// The byte that the PPU sees at `address` (pattern tables, name tables, palette).
    pub closed spec fn ppu_read(self, address: u16) -> u8 {
        let a = address & 0x3FFF;
        if a <= 0x1FFF {
            self.cartridge.ppu_read_value(a)
        } else if a <= 0x3EFF {
            self.name_table[nametable_offset(self.cartridge.mapper.mirroring_value(), a)]
        } else {
            self.palette_table[palette_offset(a)] & (if self.mask_flags.spec_grayscale() { 0x30u8 } else { 0x3Fu8 })
        }
    }

    pub closed spec fn ppu_write_ok(self, address: u16) -> bool {
        let a = address & 0x3FFF;
        if a <= 0x1FFF {
            self.cartridge.ppu_write_ok(a)
        } else if a <= 0x3EFF {
            self.cartridge.mapper.mirroring_ok()
        } else {
            true
        }
    }

    /// The registers after the PPU bus stores `data` at `address`.
    pub closed spec fn ppu_write(self, address: u16, data: u8) -> RegistersView {
        let a = address & 0x3FFF;
        if a <= 0x1FFF {
            RegistersView { cartridge: self.cartridge.after_ppu_write(a, data), ..self }
        } else if a <= 0x3EFF {
            RegistersView {
                name_table: self.name_table.update(
                    nametable_offset(self.cartridge.mapper.mirroring_value(), a),
                    data,
                ),
                ..self
            }
        } else {
            RegistersView { palette_table: self.palette_table.update(palette_offset(a), data), ..self }
        }
    }

    pub closed spec fn write_oam_data(self, data: u8) -> RegistersView {
        RegistersView {
            oam_ram: self.oam_ram.update(self.oam_address as int, data),
            oam_address: ((self.oam_address + 1) % 256) as u8,
            ..self
        }
    }

    pub closed spec fn write_control(self, data: u8) -> RegistersView {
        let ctrl = PpuCtrlFlags(data);
        let t0 = ScrollRegister(with_field(self.tram_addr.0, 0x0400, 10, if ctrl.spec_nametable_x() { 1 } else { 0 }));
        let t1 = ScrollRegister(with_field(t0.0, 0x0800, 11, if ctrl.spec_nametable_y() { 1 } else { 0 }));
        RegistersView {
            force_nmi: if !self.ctrl_flags.spec_enable_nmi() && ctrl.spec_enable_nmi() { true } else { self.force_nmi },
            ctrl_flags: ctrl,
            tram_addr: t1,
            ..self
        }
    }

    pub closed spec fn write_scroll(self, data: u8) -> RegistersView {
        if self.address_latch {
            let t0 = ScrollRegister(with_field(self.tram_addr.0, 0x7000, 12, data as u16));
            let t1 = ScrollRegister(with_field(t0.0, 0x03E0, 5, (data >> 3u8) as u16));
            RegistersView { tram_addr: t1, address_latch: false, ..self }
        } else {
            let t0 = ScrollRegister(with_field(self.tram_addr.0, 0x001F, 0, (data >> 3u8) as u16));
            RegistersView { fine_x: data & 0x07, tram_addr: t0, address_latch: true, ..self }
        }
    }

    pub closed spec fn write_address(self, data: u8) -> RegistersView {
        if self.address_latch {
            let t0 = ScrollRegister(with_field(self.tram_addr.0, 0x00FF, 0, data as u16));
            RegistersView { tram_addr: t0, vram_addr: t0, address_latch: false, ..self }
        } else {
            let t0 = ScrollRegister(with_field(self.tram_addr.0, 0x3F00, 8, data as u16));
            RegistersView { tram_addr: t0, address_latch: true, ..self }
        }
    }

    pub closed spec fn write_data(self, data: u8) -> RegistersView {
        let s = self.ppu_write(self.vram_addr.0, data);
        RegistersView {
            vram_addr: ScrollRegister(((self.vram_addr.0 + vram_step(self.ctrl_flags)) % 0x10000) as u16),
            ..s
        }
    }

    pub closed spec fn cpu_write_ok(self, address: u16) -> bool {
        address % 8 == 7 ==> self.ppu_write_ok(self.vram_addr.0)
    }

    /// The registers after the CPU writes `data` to register `address % 8`.
    pub closed spec fn cpu_write(self, address: u16, data: u8) -> RegistersView {
        let s = RegistersView { ppu_data_buffer: data, ..self };
        let r = address % 8;
        if r == 0 {
            s.write_control(data)
        } else if r == 1 {
            RegistersView { mask_flags: PpuMaskFlags(data), ..s }
        } else if r == 2 {
            s
        } else if r == 3 {
            RegistersView { oam_address: data, ..s }
        } else if r == 4 {
            s.write_oam_data(data)
        } else if r == 5 {
            s.write_scroll(data)
        } else if r == 6 {
            s.write_address(data)
        } else {
            s.write_data(data)
        }
    }

    pub closed spec fn read_reg_status(self) -> (u8, RegistersView) {
        (
            self.status_flags.0 | (self.ppu_data_buffer & 0x1F),
            RegistersView {
                status_flags: PpuStatusFlags(with_bit(self.status_flags.0, 7, false)),
                address_latch: false,
                vblank_suppress: true,
                ..self
            },
        )
    }

    pub closed spec fn read_oam_data(self) -> u8 {
        let idx = self.oam_address as int;
        if idx % 4 == 2 { self.oam_ram[idx] & 0xE3 } else { self.oam_ram[idx] }
    }

    pub closed spec fn read_ppu_data(self) -> (u8, RegistersView) {
        let addr = self.vram_addr.0;
        let s = RegistersView { vram_addr: ScrollRegister(((addr + vram_step(self.ctrl_flags)) % 0x10000) as u16), ..self };
        let v = self.ppu_read(addr);
        (if 0x3F00 <= addr <= 0x3FFF { v | (self.ppu_data_buffer & 0xC0) } else { v }, s)
    }

    pub closed spec fn cpu_read_ok(self, address: u16) -> bool {
        address % 8 == 7 ==> self.ppu_read_ok(self.vram_addr.0)
    }

    /// The byte the CPU reads from register `address % 8`, and the registers afterwards;
    /// the value read is latched in the data buffer.
    pub closed spec fn cpu_read(self, address: u16) -> (u8, RegistersView) {
        let r = address % 8;
        let (v, s) = if r == 2 {
            self.read_reg_status()
        } else if r == 4 {
            (self.read_oam_data(), self)
        } else if r == 7 {
            self.read_ppu_data()
        } else {
            (self.ppu_data_buffer, self)
        };
        (v, RegistersView { ppu_data_buffer: v, ..s })
    }
}

/// Palette memory can always be read.
pub proof fn lemma_palette_read_ok(r: RegistersView, address: u16)
    requires
        0x3F00 <= address <= 0x3FFF,
    ensures
        r.ppu_read_ok(address),
{
    assert(address & 0x3FFF == address) by (bit_vector)
        requires
            0x3F00 <= address <= 0x3FFF,
    ;
}

/// Whether a PPU read can be served depends on the cartridge alone.
pub proof fn lemma_read_ok_on_cartridge(a: RegistersView, b: RegistersView, address: u16)
    requires
        a.cartridge == b.cartridge,
    ensures
        a.ppu_read_ok(address) == b.ppu_read_ok(address),
{
}

/// A read of palette memory gives one of the 64 colour numbers.
pub proof fn lemma_palette_read_bound(r: RegistersView, address: u16)
    requires
        0x3F00 <= address <= 0x3FFF,
    ensures
        r.ppu_read(address) <= 0x3F,
{
    assert(address & 0x3FFF == address) by (bit_vector)
        requires
            0x3F00 <= address <= 0x3FFF,
    ;
    let v = r.palette_table[palette_offset(address)];
    crate::bits::lemma_and_u8_le(v, 0x30);
    crate::bits::lemma_and_u8_le(v, 0x3F);
}

impl Registers {
    pub fn new(cartridge: Cartridge) -> (r: Registers)
        ensures
            r@.power_on(cartridge@),
    {
        Registers {
            ctrl_flags: PpuCtrlFlags(0x00),
            mask_flags: PpuMaskFlags(0x00),
            status_flags: PpuStatusFlags(0x00),
            vram_addr: ScrollRegister(0x00),
            tram_addr: ScrollRegister(0x00),
            palette_table: zeroed(0x20),
            name_table: zeroed(0x0800),
            address_latch: false,
            ppu_data_buffer: 0x00,
            fine_x: 0x00,
            cartridge,
            oam_address: 0,
            oam_ram: zeroed(0x100),
            sprite_count: 0,
            sprite_shifter_pattern_lo: 0,
            sprite_shifter_pattern_hi: 0,
            sprite_zero_hit_possible: false,
            sprite_zero_being_rendered: false,
            vblank_suppress: false,
            force_nmi: false,
        }
    }

    /// Clears the flags, the addresses, the palette, the name tables and OAM. The pattern
    /// tables are not held here: all pattern memory, CHR ROM or CHR RAM, is the cartridge's,
    /// and a reset leaves it as it is.
    pub fn reset(&mut self)
        ensures
            final(self)@ == old(self)@.after_reset(),
    {
        self.status_flags = PpuStatusFlags(0);
        self.mask_flags = PpuMaskFlags(0);
        self.ctrl_flags = PpuCtrlFlags(0);
        self.vram_addr = ScrollRegister(0);
        self.tram_addr = ScrollRegister(0);
        self.ppu_data_buffer = 0;
        self.fine_x = 0;
        self.oam_ram = zeroed(0x0100);
        self.palette_table = zeroed(0x20);
        self.name_table = zeroed(0x0800);
    }

    fn write_oam_address(&mut self, address: u8)
        ensures
            final(self)@ == (RegistersView { oam_address: address, ..old(self)@ }),
    {
        self.oam_address = address;
    }

    pub fn write_oam_data(&mut self, data: u8)
        requires
            old(self)@.wf(),
        ensures
            final(self)@ == old(self)@.write_oam_data(data),
            old(self)@.wf() ==> final(self)@.wf(),
    {
        let idx = self.oam_address as usize;
        self.oam_ram.set(idx, data);
        self.oam_address = self.oam_address.wrapping_add(1);
    }

    fn read_oam_data(&self) -> (r: u8)
        requires
            self@.wf(),
        ensures
            r == self@.read_oam_data(),
    {
        let idx = self.oam_address as usize;
        if idx % 4 == 2 {
            self.oam_ram[idx] & 0xE3
        } else {
            self.oam_ram[idx]
        }
    }

    pub fn get_cartridge(&self) -> (r: &Cartridge)
        ensures
            r == &self.cartridge,
    {
        &self.cartridge
    }

    pub fn ppu_read_reg(&self, address: u16) -> (r: u8)
        requires
            self@.wf(),
            self@.ppu_read_ok(address),
        ensures
            r == self@.ppu_read(address),
    {
        let addr = address & 0x3FFF;
        if addr <= 0x1FFF {
            self.cartridge.read_ppu(addr)
        } else if addr <= 0x3EFF {
            let idx = nametable_index(self.cartridge.mirroring(), addr);
            self.name_table[idx]
        } else {
            let idx = palette_index(addr);
            self.palette_table[idx] & if self.mask_flags.grayscale() { 0x30 } else { 0x3F }
        }
    }

    pub fn ppu_write_reg(&mut self, address: u16, data: u8)
        requires
            old(self)@.wf(),
            old(self)@.ppu_write_ok(address),
        ensures
            final(self)@ == old(self)@.ppu_write(address, data),
            old(self)@.wf() ==> final(self)@.wf(),
    {
        let addr = address & 0x3FFF;
        if addr <= 0x1FFF {
            self.cartridge.write_ppu(addr, data);
        } else if addr <= 0x3EFF {
            let idx = nametable_index(self.cartridge.mirroring(), addr);
            self.name_table.set(idx, data);
        } else {
            let idx = palette_index(addr);
            self.palette_table.set(idx, data);
        }
    }

    pub fn cpu_write_reg(&mut self, address: u16, data: u8)
        requires
            old(self)@.wf(),
            old(self)@.cpu_write_ok(address),
        ensures
            final(self)@ == old(self)@.cpu_write(address, data),
            final(self)@.wf(),
    {
        self.ppu_data_buffer = data;
        let r = address % 8;
        if r == 0 {
            self.write_control(data);
        } else if r == 1 {
            self.mask_flags = PpuMaskFlags(data);
        } else if r == 2 {
        } else if r == 3 {
            self.write_oam_address(data);
        } else if r == 4 {
            self.write_oam_data(data);
        } else if r == 5 {
            self.write_scroll(data);
        } else if r == 6 {
            self.write_address(data);
        } else {
            self.write_data(data);
        }
    }

    fn write_control(&mut self, data: u8)
        ensures
            final(self)@ == old(self)@.write_control(data),
            old(self)@.wf() ==> final(self)@.wf(),
    {
        if !self.ctrl_flags.enable_nmi() && PpuCtrlFlags(data).enable_nmi() {
            self.force_nmi = true;
        }
        self.ctrl_flags = PpuCtrlFlags(data);
        let ctrl_flags = self.ctrl_flags;
        self.tram_addr.set_nametable_x(ctrl_flags.nametable_x());
        self.tram_addr.set_nametable_y(ctrl_flags.nametable_y());
    }

    fn write_scroll(&mut self, data: u8)
        ensures
            final(self)@ == old(self)@.write_scroll(data),
            old(self)@.wf() ==> final(self)@.wf(),
    {
        if self.address_latch {
            self.tram_addr.set_fine_y(data);
            self.tram_addr.set_coarse_y(data >> 3u8);
            self.address_latch = false;
        } else {
            proof { crate::bits::lemma_and_u8_le(data, 0x07); }
            self.fine_x = data & 0x07;
            self.tram_addr.set_coarse_x(data >> 3u8);
            self.address_latch = true;
        }
    }

    fn write_address(&mut self, data: u8)
        ensures
            final(self)@ == old(self)@.write_address(data),
            old(self)@.wf() ==> final(self)@.wf(),
    {
        if self.address_latch {
            self.tram_addr.set_lo_byte(data);
            let tram_addr = self.tram_addr;
            self.vram_addr = tram_addr;
            self.address_latch = false;
        } else {
            self.tram_addr.set_hi_byte(data);
            self.address_latch = true;
        }
    }

    fn write_data(&mut self, data: u8)
        requires
            old(self)@.wf(),
            old(self)@.ppu_write_ok(old(self).vram_addr.0),
        ensures
            final(self)@ == old(self)@.write_data(data),
            old(self)@.wf() ==> final(self)@.wf(),
    {
        let increment_val: u16 = if self.ctrl_flags.vram_addr_increment_mode() { 32 } else { 1 };
        self.ppu_write_reg(self.vram_addr.0, data);
        let addr = self.vram_addr.0;
        self.vram_addr = ScrollRegister(addr.wrapping_add(increment_val));
    }

    pub fn cpu_read_reg(&mut self, address: u16) -> (r: u8)
        requires
            old(self)@.wf(),
            old(self)@.cpu_read_ok(address),
        ensures
            (r, final(self)@) == old(self)@.cpu_read(address),
            final(self)@.wf(),
    {
        let reg = address % 8;
        let res = if reg == 2 {
            self.read_reg_status()
        } else if reg == 4 {
            self.read_oam_data()
        } else if reg == 7 {
            self.read_ppu_data()
        } else {
            self.ppu_data_buffer
        };
        self.ppu_data_buffer = res;
        res
    }

    fn read_reg_status(&mut self) -> (r: u8)
        ensures
            (r, final(self)@) == old(self)@.read_reg_status(),
            old(self)@.wf() ==> final(self)@.wf(),
    {
        let res = self.status_flags.0;
        self.status_flags.set_vertical_blank(false);
        self.address_latch = false;
        self.vblank_suppress = true;
        res | (self.ppu_data_buffer & 0x1F)
    }

    fn read_ppu_data(&mut self) -> (r: u8)
        requires
            old(self)@.wf(),
            old(self)@.ppu_read_ok(old(self).vram_addr.0),
        ensures
            (r, final(self)@) == old(self)@.read_ppu_data(),
            old(self)@.wf() ==> final(self)@.wf(),
    {
        let vram_addr = self.vram_addr.0;
        let increment_val: u16 = if self.ctrl_flags.vram_addr_increment_mode() { 32 } else { 1 };
        self.vram_addr.0 = self.vram_addr.0.wrapping_add(increment_val);
        if 0x3F00 <= vram_addr && vram_addr <= 0x3FFF {
            self.ppu_read_reg(vram_addr) | (self.ppu_data_buffer & 0xC0)
        } else {
            self.ppu_read_reg(vram_addr)
        }
    }
}


/// Law: a byte written to name-table memory through the PPU bus is read back at the same
/// address.
pub proof fn lemma_nametable_write_read(r: RegistersView, address: u16, data: u8)
    requires
        r.wf(),
        r.cartridge.mapper.mirroring_ok(),
        0x2000 <= address & 0x3FFF <= 0x3EFF,
    ensures
        r.ppu_write(address, data).ppu_read(address) == data,
{
    let a = address & 0x3FFF;
    let b = a & 0x0FFF;
    lemma_and_u16_le(b >> 10u16, 1);
    lemma_and_u16_le(b >> 11u16, 1);
    lemma_and_u16_le(b, 0x03FF);
}

/// Law: a byte written to palette memory is read back cut to its six colour bits, or to the
/// two grey-level bits in grayscale mode.
pub proof fn lemma_palette_write_read(r: RegistersView, address: u16, data: u8)
    requires
        r.wf(),
        address & 0x3FFF >= 0x3F00,
    ensures
        r.ppu_write(address, data).ppu_read(address) == data & (if r.mask_flags.spec_grayscale() {
            0x30u8
        } else {
            0x3Fu8
        }),
{
    let a = address & 0x3FFF;
    lemma_and_u16_le(a, 0x001F);
}

/// Law: setting a flag bit is seen by its getter and leaves the other bits as they were.
pub proof fn lemma_flag_bit(v: u8, n: u8, on: bool, m: u8)
    requires
        n < 8,
        m < 8,
        m != n,
    ensures
        bit_of(with_bit(v, n, on), n) == on,
        bit_of(with_bit(v, n, on), m) == bit_of(v, m),
{
    assert(bit_of(with_bit(v, n, on), n) == on && bit_of(with_bit(v, n, on), m) == bit_of(v, m)) by (bit_vector)
        requires
            n < 8,
            m < 8,
            m != n,
    ;
}


/// Law: after pointing OAMADDR at an entry and writing OAMDATA, pointing OAMADDR back and
/// reading OAMDATA gives the byte written; attribute bytes read back without their unused bits.
pub proof fn lemma_oam_write_read(r: RegistersView, a: u8, d: u8)
    requires
        r.wf(),
    ensures
        r.cpu_write(0x2003, a).cpu_write(0x2004, d).cpu_write(0x2003, a).cpu_read(0x2004).0 == (if a % 4 == 2 {
            d & 0xE3
        } else {
            d
        }),
{
}

proof fn lemma_address_bytes(t: u16, hi: u8, lo: u8)
    by (bit_vector)
    requires
        0x20 <= hi & 0x3F <= 0x3E,
    ensures
        with_field(
            with_field(with_field(with_field(t, 0x3F00, 8, hi as u16), 0x00FF, 0, lo as u16), 0x3F00, 8, hi as u16),
            0x00FF,
            0,
            lo as u16,
        ) == with_field(with_field(t, 0x3F00, 8, hi as u16), 0x00FF, 0, lo as u16),
        0x2000 <= with_field(with_field(t, 0x3F00, 8, hi as u16), 0x00FF, 0, lo as u16) & 0x3FFF <= 0x3EFF,
        !(0x3F00 <= with_field(with_field(t, 0x3F00, 8, hi as u16), 0x00FF, 0, lo as u16) <= 0x3FFF),
{
}

/// Law: a byte written through PPUDATA after PPUADDR was given a name-table address is read
/// back through PPUDATA once PPUADDR is given the same address again.
pub proof fn lemma_ppudata_write_read(r: RegistersView, hi: u8, lo: u8, d: u8)
    requires
        r.wf(),
        !r.address_latch,
        r.cartridge.mapper.mirroring_ok(),
        0x20 <= hi & 0x3F <= 0x3E,
    ensures
        ({
            let r1 = r.cpu_write(0x2006, hi).cpu_write(0x2006, lo);
            let r2 = r1.cpu_write(0x2007, d);
            let r3 = r2.cpu_write(0x2006, hi).cpu_write(0x2006, lo);
            r3.cpu_read(0x2007).0 == d
        }),
{
    let r1 = r.cpu_write(0x2006, hi).cpu_write(0x2006, lo);
    let a = with_field(with_field(r.tram_addr.0, 0x3F00, 8, hi as u16), 0x00FF, 0, lo as u16);
    lemma_address_bytes(r.tram_addr.0, hi, lo);
    assert(r1.vram_addr.0 == a && r1.tram_addr.0 == a && !r1.address_latch);
    let r2 = r1.cpu_write(0x2007, d);
    lemma_nametable_write_read(r1, a, d);
    assert(r2.tram_addr.0 == a && !r2.address_latch);
    let r3 = r2.cpu_write(0x2006, hi).cpu_write(0x2006, lo);
    lemma_address_bytes(a, hi, lo);
    assert(r3.vram_addr.0 == a);
    assert(r3.ppu_read(a) == r1.ppu_write(a, d).ppu_read(a));
}


/// A write to OAMDATA stores the byte at the OAM address and moves the address on by one,
/// wrapping; nothing else changes.
pub proof fn lemma_oam_data_write(r: RegistersView, v: u8)
    requires
        r.wf(),
    ensures
        r.write_oam_data(v) == (RegistersView {
            oam_ram: r.oam_ram.update(r.oam_address as int, v),
            oam_address: ((r.oam_address + 1) % 256) as u8,
            ..r
        }),
        r.write_oam_data(v).wf(),
{
}

/// Law: a second reset changes nothing more.
pub proof fn lemma_reset_idempotent(r: RegistersView)
    ensures
        r.after_reset().after_reset() == r.after_reset(),
{
}

/// Which PPU bus accesses can be served: the pattern space as the board allows, the name
/// tables once the board knows its mirroring, and palette memory always.
pub proof fn lemma_ppu_access_ok(r: RegistersView, address: u16)
    ensures
        (address & 0x3FFF) <= 0x1FFF ==> r.ppu_read_ok(address) == r.cartridge.ppu_read_ok(address & 0x3FFF)
            && r.ppu_write_ok(address) == r.cartridge.ppu_write_ok(address & 0x3FFF),
        0x2000 <= (address & 0x3FFF) <= 0x3EFF ==> r.ppu_read_ok(address) == r.cartridge.mapper.mirroring_ok()
            && r.ppu_write_ok(address) == r.cartridge.mapper.mirroring_ok(),
        (address & 0x3FFF) >= 0x3F00 ==> r.ppu_read_ok(address) && r.ppu_write_ok(address),
{
}

/// Which CPU accesses to the PPU ports can be served: all but PPUDATA always, PPUDATA as the
/// PPU bus at the VRAM address allows.
pub proof fn lemma_cpu_port_ok(r: RegistersView, address: u16)
    ensures
        r.cpu_write_ok(address) == (address % 8 == 7 ==> r.ppu_write_ok(r.vram_addr.0)),
        r.cpu_read_ok(address) == (address % 8 == 7 ==> r.ppu_read_ok(r.vram_addr.0)),
{
}

/// Law: a write to name-table memory stores the byte at the mirrored name-table slot and
/// changes nothing else.
pub proof fn lemma_nametable_write(r: RegistersView, address: u16, data: u8)
    requires
        0x2000 <= (address & 0x3FFF) <= 0x3EFF,
    ensures
        r.ppu_write(address, data) == (RegistersView {
            name_table: r.name_table.update(
                nametable_offset(r.cartridge.mapper.mirroring_value(), address & 0x3FFF),
                data,
            ),
            ..r
        }),
        r.ppu_read(address) == r.name_table[nametable_offset(r.cartridge.mapper.mirroring_value(), address & 0x3FFF)],
{
}

/// Law: a write to palette memory stores the byte at the palette entry, the sprite backdrop
/// entries 0x10, 0x14, 0x18 and 0x1C landing on 0x00, 0x04, 0x08 and 0x0C, and changes nothing
/// else.
pub proof fn lemma_palette_write(r: RegistersView, address: u16, data: u8)
    requires
        (address & 0x3FFF) >= 0x3F00,
    ensures
        r.ppu_write(address, data) == (RegistersView {
            palette_table: r.palette_table.update(palette_offset(address & 0x3FFF), data),
            ..r
        }),
        palette_offset(address & 0x3FFF) == (if (address & 0x1F) == 0x10 || (address & 0x1F) == 0x14 || (address
            & 0x1F) == 0x18 || (address & 0x1F) == 0x1C {
            (address & 0x1F) - 0x10
        } else {
            (address & 0x1F) as int
        }),
{
    assert((address & 0x3FFF) & 0x001F == address & 0x001F) by (bit_vector);
}

proof fn lemma_nametable_slot(a: u16, b: u16)
    by (bit_vector)
    requires
        a & 0x03FF == b & 0x03FF,
    ensures
        ((a & 0x3FFF) & 0x0FFF) & 0x03FF == ((b & 0x3FFF) & 0x0FFF) & 0x03FF,
        (a & 0x0400) == (b & 0x0400) ==> (((a & 0x3FFF) & 0x0FFF) >> 10u16) & 1 == (((b & 0x3FFF) & 0x0FFF)
            >> 10u16) & 1,
        (a & 0x0800) == (b & 0x0800) ==> (((a & 0x3FFF) & 0x0FFF) >> 11u16) & 1 == (((b & 0x3FFF) & 0x0FFF)
            >> 11u16) & 1,
{
}

/// Law: name-table addresses that agree in their low ten bits, and in the bit that selects
/// the table under the board's mirroring (bit 10 for vertical, bit 11 for horizontal), read
/// the same byte.
pub proof fn lemma_nametable_mirroring(r: RegistersView, a: u16, b: u16)
    requires
        0x2000 <= a <= 0x3EFF,
        0x2000 <= b <= 0x3EFF,
        a & 0x03FF == b & 0x03FF,
        r.cartridge.mapper.mirroring_value() == Mirroring::Vertical ==> a & 0x0400 == b & 0x0400,
        r.cartridge.mapper.mirroring_value() == Mirroring::Horizontal ==> a & 0x0800 == b & 0x0800,
    ensures
        r.ppu_read(a) == r.ppu_read(b),
{
    lemma_nametable_slot(a, b);
    assert(a & 0x3FFF == a && b & 0x3FFF == b) by (bit_vector)
        requires
            0x2000 <= a <= 0x3EFF,
            0x2000 <= b <= 0x3EFF,
    ;
}

/// Law: palette addresses that agree modulo 32 read the same entry, and each sprite backdrop
/// entry (0x3F10, 0x3F14, 0x3F18, 0x3F1C and their mirrors) reads as the background entry 16
/// below it; every palette read is a colour number below 64.
pub proof fn lemma_palette_mirroring(r: RegistersView, a: u16, b: u16)
    requires
        0x3F00 <= a <= 0x3FFF,
        0x3F00 <= b <= 0x3FFF,
    ensures
        a % 0x20 == b % 0x20 ==> r.ppu_read(a) == r.ppu_read(b),
        ((a & 0x1F) == 0x10 || (a & 0x1F) == 0x14 || (a & 0x1F) == 0x18 || (a & 0x1F) == 0x1C) ==> r.ppu_read(a)
            == r.ppu_read((a - 0x10) as u16),
        r.ppu_read(a) < 0x40,
{
    assert(a & 0x3FFF == a && b & 0x3FFF == b && (a & 0x1F == a % 0x20) && (b & 0x1F == b % 0x20)) by (bit_vector)
        requires
            0x3F00 <= a <= 0x3FFF,
            0x3F00 <= b <= 0x3FFF,
    ;
    let c = (a - 0x10) as u16;
    assert(((a & 0x1F) == 0x10 || (a & 0x1F) == 0x14 || (a & 0x1F) == 0x18 || (a & 0x1F) == 0x1C) ==> (0x3F00 <= c
        && c & 0x3FFF == c && c & 0x1F == (a & 0x1F) - 0x10)) by (bit_vector)
        requires
            0x3F00 <= a <= 0x3FFF,
            c == a - 0x10,
    ;
    lemma_palette_read_bound(r, a);
}

proof fn lemma_port_bits(c: u8, st: u8, t: u16, hi: u8, lo: u8, x: u8, y: u8)
    by (bit_vector)
    ensures
        ((c >> 2u8) & 1 == 1) == (c & 0x04 != 0),
        with_bit(st, 7, false) == st & 0x7F,
        with_field(with_field(t, 0x3F00, 8, hi as u16), 0x00FF, 0, lo as u16) == (t & 0xC000) | ((((hi as u16) & 0x3F)
            << 8u16) | (lo as u16)),
        ((t & 0xC000) | ((((hi as u16) & 0x3F) << 8u16) | (lo as u16))) as int == (t & 0xC000) as int + (hi as int % 64)
            * 256 + lo as int,
        with_field(with_field(with_field(t, 0x001F, 0, (x >> 3u8) as u16), 0x7000, 12, y as u16), 0x03E0, 5, (y
            >> 3u8) as u16) == (t & 0x8C00) | ((x as u16) >> 3u16) | (((y as u16) >> 3u16) << 5u16) | (((y as u16) & 7)
            << 12u16),
        ((t & 0x8C00) | ((x as u16) >> 3u16) | (((y as u16) >> 3u16) << 5u16) | (((y as u16) & 7) << 12u16)) as int
            == (t & 0x8C00) as int + x as int / 8 + (y as int / 8) * 32 + (y as int % 8) * 0x1000,
        x & 0x07 == x % 8,
{
}

/// Law: every CPU access to PPUDATA (any address with `address % 8 == 7`), read or write,
/// moves the VRAM address by 32 when bit 2 of PPUCTRL is set and by 1 otherwise, wrapping at
/// 64 KiB.
pub proof fn lemma_ppudata_moves_vram_address(r: RegistersView, address: u16, data: u8)
    requires
        address % 8 == 7,
    ensures
        ({
            let step: int = if r.ctrl_flags.0 & 0x04 != 0 { 32 } else { 1 };
            &&& r.cpu_write(address, data).vram_addr.0 as int == (r.vram_addr.0 as int + step) % 0x10000
            &&& r.cpu_read(address).1.vram_addr.0 as int == (r.vram_addr.0 as int + step) % 0x10000
        }),
{
    lemma_port_bits(r.ctrl_flags.0, 0, 0, 0, 0, 0, 0);
}

/// Law: a CPU write to PPUCTRL (`address % 8 == 0`) stores the byte as the control flags and
/// leaves the VRAM address alone.
pub proof fn lemma_ppuctrl_write(r: RegistersView, address: u16, data: u8)
    requires
        address % 8 == 0,
    ensures
        r.cpu_write(address, data).ctrl_flags == PpuCtrlFlags(data),
        r.cpu_write(address, data).vram_addr == r.vram_addr,
{
}

/// Law: two CPU writes to PPUADDR (`address % 8 == 6`), starting with the address latch clear,
/// set the VRAM address to the low six bits of the first byte, then the second byte; the top
/// two bits of the temporary address stay; the latch is clear again.
pub proof fn lemma_ppuaddr_two_writes(r: RegistersView, a1: u16, a2: u16, hi: u8, lo: u8)
    requires
        a1 % 8 == 6,
        a2 % 8 == 6,
        !r.address_latch,
    ensures
        ({
            let r2 = r.cpu_write(a1, hi).cpu_write(a2, lo);
            &&& r2.vram_addr.0 as int == (r.tram_addr.0 & 0xC000) as int + (hi as int % 64) * 256 + lo as int
            &&& r2.tram_addr == r2.vram_addr
            &&& !r2.address_latch
        }),
{
    lemma_port_bits(0, 0, r.tram_addr.0, hi, lo, 0, 0);
}

/// Law: reading PPUSTATUS (`address % 8 == 2`) gives the status flags with the low five bits
/// of the data buffer, clears the vertical-blank flag (bit 7) and the address latch, holds off
/// the next vertical-blank NMI, and latches the value read; nothing else changes. Reading a
/// write-only register (PPUCTRL, PPUMASK, OAMADDR, PPUSCROLL, PPUADDR) gives the data buffer
/// and changes nothing.
pub proof fn lemma_status_read(r: RegistersView, address: u16)
    ensures
        address % 8 == 2 ==> ({
            let (v, r2) = r.cpu_read(address);
            &&& v == r.status_flags.0 | (r.ppu_data_buffer & 0x1F)
            &&& r2.status_flags.0 == r.status_flags.0 & 0x7F
            &&& !r2.address_latch
            &&& r2.vblank_suppress
            &&& r2.ppu_data_buffer == v
            &&& (RegistersView {
                status_flags: r.status_flags,
                address_latch: r.address_latch,
                vblank_suppress: r.vblank_suppress,
                ppu_data_buffer: r.ppu_data_buffer,
                ..r2
            }) == r
        }),
        (address % 8 == 0 || address % 8 == 1 || address % 8 == 3 || address % 8 == 5 || address % 8 == 6)
            ==> r.cpu_read(address) == (r.ppu_data_buffer, r),
{
    lemma_port_bits(0, r.status_flags.0, 0, 0, 0, 0, 0);
}

/// Law: a PPUDATA read (`address % 8 == 7`) gives the byte at the VRAM address; from palette
/// memory (0x3F00-0x3FFF) the top two bits come from the data buffer. The value read is
/// latched in the buffer.
pub proof fn lemma_ppudata_read(r: RegistersView, address: u16)
    requires
        address % 8 == 7,
    ensures
        ({
            let a = r.vram_addr.0;
            let (v, r2) = r.cpu_read(address);
            &&& v == (if 0x3F00 <= a <= 0x3FFF { r.ppu_read(a) | (r.ppu_data_buffer & 0xC0) } else { r.ppu_read(a) })
            &&& r2.ppu_data_buffer == v
        }),
{
}

/// Law: PPUMASK and OAMADDR writes store the byte; every register write latches the byte in
/// the data buffer.
pub proof fn lemma_plain_register_writes(r: RegistersView, address: u16, data: u8)
    ensures
        address % 8 == 1 ==> r.cpu_write(address, data) == (RegistersView {
            mask_flags: PpuMaskFlags(data),
            ppu_data_buffer: data,
            ..r
        }),
        address % 8 == 3 ==> r.cpu_write(address, data) == (RegistersView {
            oam_address: data,
            ppu_data_buffer: data,
            ..r
        }),
        r.cpu_write(address, data).ppu_data_buffer == data,
{
}

/// Law: two PPUSCROLL writes (`address % 8 == 5`), starting with the address latch clear, set
/// fine X to the low three bits of the first byte and coarse X to its top five; coarse Y to the
/// top five bits of the second byte and fine Y to its low three. The name-table bits and bit
/// 15 of the temporary address stay, and the latch is clear again.
pub proof fn lemma_scroll_two_writes(r: RegistersView, a1: u16, a2: u16, x: u8, y: u8)
    requires
        a1 % 8 == 5,
        a2 % 8 == 5,
        !r.address_latch,
    ensures
        ({
            let r2 = r.cpu_write(a1, x).cpu_write(a2, y);
            &&& r2.fine_x == x % 8
            &&& r2.tram_addr.0 as int == (r.tram_addr.0 & 0x8C00) as int + x as int / 8 + (y as int / 8) * 32 + (y as int
                % 8) * 0x1000
            &&& !r2.address_latch
            &&& r2.vram_addr == r.vram_addr
        }),
{
    lemma_port_bits(0, 0, r.tram_addr.0, 0, 0, x, y);
}

} // verus!
