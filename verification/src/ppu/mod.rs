pub mod oam_sprite;
pub mod registers;

use vstd::prelude::*;
use crate::cartridge::CartridgeView;
use crate::mapper::Mapper;
use crate::nes::constants::{Color, COLORS};
use crate::ppu::oam_sprite::{Sprite, sprite_of};
use crate::ppu::registers::{
    PpuStatusFlags, Registers, RegistersView, ScrollRegister, get_nth_bit, lemma_palette_read_bound,
    lemma_palette_read_ok, lemma_read_ok_on_cartridge, nth_bit, with_bit, with_field,
};

verus! {

/// Pixels on the screen: 256 columns by 240 rows.
pub const SCREEN_PIXELS: usize = 61440;

/// What a PPU cycle asks of the rest of the console.
#[derive(Copy, Clone, PartialEq, Eq, Structural, Debug)]
pub enum PpuState {
    Render,
    NonMaskableInterrupt,
    NoOp,
    Scanline,
}

/// The picture processing unit: its position in the frame, the background and sprite
/// pipelines, and the picture drawn so far. Its registers and memories are shared with the
/// CPU and are handed to each call.
pub struct Ppu {
    pub cycles: usize,
    pub scan_line: usize,
    pub nmi: bool,
    pub nametable_entry: u8,
    pub bg_next_tile_attribute: u8,
    pub bg_next_tile_lo: u8,
    pub bg_next_tile_hi: u8,
    pub bg_shifter_lo: u16,
    pub bg_shifter_hi: u16,
    pub bg_attribute_latch_lo: u8,
    pub bg_attribute_latch_hi: u8,
    pub curr_address: u16,
    pub attribute_shift_lo: u8,
    pub attribute_shift_hi: u8,
    pub is_frame_ready: bool,
    pub primary_oam: Vec<Sprite>,
    pub secondary_oam: Vec<Sprite>,
    pub is_even_frame: bool,
    pub off_screen_pixels: Vec<[u8; 3]>,
}

#[verifier::ext_equal]
pub struct PpuView {
    pub cycles: usize,
    pub scan_line: usize,
    pub nmi: bool,
    pub nametable_entry: u8,
    pub bg_next_tile_attribute: u8,
    pub bg_next_tile_lo: u8,
    pub bg_next_tile_hi: u8,
    pub bg_shifter_lo: u16,
    pub bg_shifter_hi: u16,
    pub bg_attribute_latch_lo: u8,
    pub bg_attribute_latch_hi: u8,
    pub curr_address: u16,
    pub attribute_shift_lo: u8,
    pub attribute_shift_hi: u8,
    pub is_frame_ready: bool,
    pub primary_oam: Seq<Sprite>,
    pub secondary_oam: Seq<Sprite>,
    pub is_even_frame: bool,
    pub off_screen_pixels: Seq<[u8; 3]>,
}

impl View for Ppu {
    type V = PpuView;

    open spec fn view(&self) -> PpuView {
        PpuView {
            cycles: self.cycles,
            scan_line: self.scan_line,
            nmi: self.nmi,
            nametable_entry: self.nametable_entry,
            bg_next_tile_attribute: self.bg_next_tile_attribute,
            bg_next_tile_lo: self.bg_next_tile_lo,
            bg_next_tile_hi: self.bg_next_tile_hi,
            bg_shifter_lo: self.bg_shifter_lo,
            bg_shifter_hi: self.bg_shifter_hi,
            bg_attribute_latch_lo: self.bg_attribute_latch_lo,
            bg_attribute_latch_hi: self.bg_attribute_latch_hi,
            curr_address: self.curr_address,
            attribute_shift_lo: self.attribute_shift_lo,
            attribute_shift_hi: self.attribute_shift_hi,
            is_frame_ready: self.is_frame_ready,
            primary_oam: self.primary_oam@,
            secondary_oam: self.secondary_oam@,
            is_even_frame: self.is_even_frame,
            off_screen_pixels: self.off_screen_pixels@,
        }
    }
}

/// An unlit pixel.
pub open spec fn black_pixel() -> [u8; 3] {
    [0u8, 0u8, 0u8]
}

/// Cycles of a visible line on which the background pipeline fetches.
pub open spec fn fetch_cycle(c: usize) -> bool {
    (2 <= c <= 255) || (322 <= c <= 337)
}

/// Cycles on which a pixel is produced and the shifters move.
pub open spec fn draw_cycle(c: usize) -> bool {
    (2 <= c <= 257) || (322 <= c <= 337)
}

/// Lines on which the PPU fetches and draws: the visible lines and the pre-render line.
pub open spec fn render_line(s: usize) -> bool {
    s <= 239 || s == 261
}

/// The registers after a step that touches only the status flags and the VRAM address.
pub open spec fn touches_only_scroll_and_status(a: RegistersView, b: RegistersView) -> bool {
    b == (RegistersView { status_flags: b.status_flags, vram_addr: b.vram_addr, ..a })
}

impl PpuView {
    /// The PPU as the console powers on: at the top of an even frame, with empty pipelines
    /// and a black picture.
    pub open spec fn power_on(self) -> bool {
        &&& self.inv()
        &&& self.cycles == 0
        &&& self.scan_line == 0
        &&& !self.nmi
        &&& self.nametable_entry == 0
        &&& self.bg_next_tile_attribute == 0
        &&& self.bg_next_tile_lo == 0
        &&& self.bg_next_tile_hi == 0
        &&& self.bg_shifter_lo == 0
        &&& self.bg_shifter_hi == 0
        &&& self.bg_attribute_latch_lo == 0
        &&& self.bg_attribute_latch_hi == 0
        &&& self.curr_address == 0
        &&& self.attribute_shift_lo == 0
        &&& self.attribute_shift_hi == 0
        &&& !self.is_frame_ready
        &&& self.primary_oam.len() == 0
        &&& self.secondary_oam.len() == 0
        &&& self.is_even_frame
        &&& self.off_screen_pixels == Seq::new(SCREEN_PIXELS as nat, |i: int| black_pixel())
    }

    /// The PPU after a reset: at the top of an even frame with empty pipelines; the current
    /// address, the interrupt flag and the picture are kept.
    pub open spec fn after_reset(self) -> PpuView {
        PpuView {
            scan_line: 0,
            cycles: 0,
            nametable_entry: 0,
            bg_next_tile_attribute: 0,
            bg_next_tile_lo: 0,
            bg_next_tile_hi: 0,
            bg_shifter_lo: 0,
            bg_shifter_hi: 0,
            bg_attribute_latch_lo: 0,
            bg_attribute_latch_hi: 0,
            attribute_shift_lo: 0,
            attribute_shift_hi: 0,
            primary_oam: Seq::empty(),
            secondary_oam: Seq::empty(),
            is_frame_ready: false,
            is_even_frame: true,
            ..self
        }
    }

    /// What holds of the PPU between cycles.
    pub open spec fn inv(self) -> bool {
        &&& self.cycles <= 340
        &&& self.scan_line <= 261
        &&& self.off_screen_pixels.len() == SCREEN_PIXELS
        &&& self.primary_oam.len() <= 8
        &&& self.secondary_oam.len() <= 8
        &&& (render_line(self.scan_line) && fetch_cycle(self.cycles) && (self.cycles % 8 == 6
            || self.cycles % 8 == 7)) ==> self.curr_address <= 0x1FF7
        &&& (self.scan_line == 0 && self.cycles <= 1) || (forall|i: int|
            0 <= i < self.secondary_oam.len() ==> #[trigger] self.secondary_oam[i].y <= self.scan_line)
    }
}

/// Cycles on which the background pipeline reads the PPU bus at the current address.
pub open spec fn reads_at_curr(c: usize) -> bool {
    (fetch_cycle(c) && (c % 8 == 2 || c % 8 == 4 || c % 8 == 6 || c % 8 == 0)) || c == 256 || c == 338 || c
        == 340
}

/// The two pattern bytes of a sprite's row on line `s` can be read.
pub open spec fn sprite_rows_ok(sp: Sprite, r: RegistersView, s: usize) -> bool {
    let t = sp.spec_tile_address(r.ctrl_flags, s);
    r.ppu_read_ok(t) && r.ppu_read_ok((t + 8) as u16)
}

/// The PPU bus reads of the cycle can all be served: the background fetch at the current
/// address, and on cycle 321 the pattern rows of the line's sprites.
pub open spec fn tick_reads_ok(p: PpuView, r: RegistersView) -> bool {
    &&& r.wf()
    &&& render_line(p.scan_line) ==> {
        &&& reads_at_curr(p.cycles) ==> r.ppu_read_ok(p.curr_address)
        &&& p.cycles == 321 ==> forall|i: int|
            0 <= i < p.secondary_oam.len() ==> #[trigger] sprite_rows_ok(p.secondary_oam[i], r, p.scan_line)
    }
}

/// The background shift registers after one pixel.
pub open spec fn spec_update_shifters(p: PpuView) -> PpuView {
    PpuView {
        bg_shifter_lo: p.bg_shifter_lo << 1u16,
        bg_shifter_hi: p.bg_shifter_hi << 1u16,
        attribute_shift_lo: (p.attribute_shift_lo << 1u8) | p.bg_attribute_latch_lo,
        attribute_shift_hi: (p.attribute_shift_hi << 1u8) | p.bg_attribute_latch_hi,
        ..p
    }
}

/// The background shift registers with the fetched tile loaded into their low byte.
pub open spec fn spec_load_background_shifters(p: PpuView) -> PpuView {
    PpuView {
        bg_shifter_lo: (p.bg_shifter_lo & 0xFF00) | (p.bg_next_tile_lo as u16),
        bg_shifter_hi: (p.bg_shifter_hi & 0xFF00) | (p.bg_next_tile_hi as u16),
        bg_attribute_latch_lo: p.bg_next_tile_attribute & 1,
        bg_attribute_latch_hi: (p.bg_next_tile_attribute & 2) >> 1u8,
        ..p
    }
}

pub open spec fn flag16(b: bool) -> u16 {
    if b { 1 } else { 0 }
}

/// The registers with VRAM moved one tile right, wrapping into the next name table.
pub open spec fn spec_increment_scroll_x(r: RegistersView) -> RegistersView {
    if r.mask_flags.spec_is_rendering() {
        let v = r.vram_addr;
        let cx = v.spec_coarse_x();
        let nv = if cx == 31 {
            with_field(v.0, 0x001F, 0, 0) ^ 0x0400
        } else {
            with_field(v.0, 0x001F, 0, (cx + 1) as u16)
        };
        RegistersView { vram_addr: ScrollRegister(nv), ..r }
    } else {
        r
    }
}

/// The registers with VRAM moved one pixel row down, wrapping into the next tile row and
/// the next name table.
pub open spec fn spec_increment_scroll_y(r: RegistersView) -> RegistersView {
    if r.mask_flags.spec_is_rendering() {
        let v = r.vram_addr;
        let fy = v.spec_fine_y();
        let nv = if fy < 7 {
            with_field(v.0, 0x7000, 12, (fy + 1) as u16)
        } else {
            let v1 = with_field(v.0, 0x7000, 12, 0);
            let cy = ScrollRegister(v1).spec_coarse_y();
            if cy == 29 {
                let v2 = with_field(v1, 0x03E0, 5, 0);
                with_field(v2, 0x0800, 11, flag16(!ScrollRegister(v2).spec_nametable_y()))
            } else if cy == 31 {
                with_field(v1, 0x03E0, 5, 0)
            } else {
                with_field(v1, 0x03E0, 5, (cy + 1) as u16)
            }
        };
        RegistersView { vram_addr: ScrollRegister(nv), ..r }
    } else {
        r
    }
}

/// The registers with the horizontal part of the temporary address copied into VRAM.
pub open spec fn spec_transfer_address_x(r: RegistersView) -> RegistersView {
    if r.mask_flags.spec_is_rendering() {
        let t = r.tram_addr;
        let v1 = with_field(r.vram_addr.0, 0x0400, 10, flag16(t.spec_nametable_x()));
        let v2 = with_field(v1, 0x001F, 0, t.spec_coarse_x() as u16);
        RegistersView { vram_addr: ScrollRegister(v2), ..r }
    } else {
        r
    }
}

/// The registers with the vertical part of the temporary address copied into VRAM.
pub open spec fn spec_transfer_address_y(r: RegistersView) -> RegistersView {
    if r.mask_flags.spec_is_rendering() {
        let t = r.tram_addr;
        let v1 = with_field(r.vram_addr.0, 0x7000, 12, t.spec_fine_y() as u16);
        let v2 = with_field(v1, 0x0800, 11, flag16(t.spec_nametable_y()));
        let v3 = with_field(v2, 0x03E0, 5, t.spec_coarse_y() as u16);
        RegistersView { vram_addr: ScrollRegister(v3), ..r }
    } else {
        r
    }
}

/// The address of the attribute byte for the tile that VRAM points at.
pub open spec fn spec_attribute_address(v: ScrollRegister) -> u16 {
    0x23C0 | (flag16(v.spec_nametable_y()) << 11u16) | (flag16(v.spec_nametable_x()) << 10u16)
        | (((v.spec_coarse_y() as u16) >> 2u16) << 3u16) | ((v.spec_coarse_x() as u16) >> 2u16)
}

/// The name-table address that VRAM points at.
pub open spec fn spec_tile_address(v: ScrollRegister) -> u16 {
    0x2000 | (v.0 & 0x0FFF)
}

/// The pattern address of the fetched tile's row.
pub open spec fn spec_pattern_address(p: PpuView, r: RegistersView) -> u16 {
    ((if r.ctrl_flags.spec_pattern_background() { 0x1000u16 } else { 0u16 }) + ((0x10 * (
    p.nametable_entry as u16)) as u16 | (r.vram_addr.spec_fine_y() as u16))) as u16
}

/// The two palette bits of the fetched tile, picked out of its attribute byte.
pub open spec fn spec_tile_attribute(a: u8, v: ScrollRegister) -> u8 {
    let a1 = if (v.spec_coarse_y() & 0x02) > 0 { a >> 4u8 } else { a };
    if (v.spec_coarse_x() & 0x02) > 0 { a1 >> 2u8 } else { a1 }
}

/// One step of the background fetch pipeline, by the cycle's position in its group of eight.
pub open spec fn spec_bg_fetch(p: PpuView, r: RegistersView) -> (PpuView, RegistersView) {
    if fetch_cycle(p.cycles) {
        let k = p.cycles % 8;
        if k == 1 {
            (PpuView { curr_address: spec_tile_address(r.vram_addr), ..spec_load_background_shifters(p) }, r)
        } else if k == 2 {
            (PpuView { nametable_entry: r.ppu_read(p.curr_address), ..p }, r)
        } else if k == 3 {
            (PpuView { curr_address: spec_attribute_address(r.vram_addr), ..p }, r)
        } else if k == 4 {
            (PpuView { bg_next_tile_attribute: spec_tile_attribute(r.ppu_read(p.curr_address), r.vram_addr), ..p }, r)
        } else if k == 5 {
            (PpuView { curr_address: spec_pattern_address(p, r), ..p }, r)
        } else if k == 6 {
            (PpuView { bg_next_tile_lo: r.ppu_read(p.curr_address), ..p }, r)
        } else if k == 7 {
            (PpuView { curr_address: (p.curr_address + 8) as u16, ..p }, r)
        } else {
            (PpuView { bg_next_tile_hi: r.ppu_read(p.curr_address), ..p }, spec_increment_scroll_x(r))
        }
    } else {
        (p, r)
    }
}

/// The background work of the cycles outside the fetch groups.
pub open spec fn spec_bg_edges(p: PpuView, r: RegistersView, is_pre_render: bool) -> (PpuView, RegistersView) {
    let c = p.cycles;
    let (p1, r1) = if c == 256 {
        (PpuView { bg_next_tile_hi: r.ppu_read(p.curr_address), ..p }, spec_increment_scroll_y(r))
    } else if c == 257 {
        (spec_load_background_shifters(p), spec_transfer_address_x(r))
    } else if 280 <= c <= 304 && is_pre_render {
        (p, spec_transfer_address_y(r))
    } else if c == 1 {
        (
            PpuView { curr_address: spec_tile_address(r.vram_addr), ..p },
            if is_pre_render {
                RegistersView { status_flags: PpuStatusFlags(with_bit(r.status_flags.0, 7, false)), ..r }
            } else {
                r
            },
        )
    } else if c == 321 || c == 339 {
        (PpuView { curr_address: spec_tile_address(r.vram_addr), ..p }, r)
    } else if c == 338 {
        (PpuView { nametable_entry: r.ppu_read(p.curr_address), ..p }, r)
    } else if c == 340 {
        let skip = is_pre_render && r.mask_flags.spec_is_rendering() && !p.is_even_frame;
        (PpuView { nametable_entry: r.ppu_read(p.curr_address), cycles: if skip { 341 } else { 340 }, ..p }, r)
    } else {
        (p, r)
    };
    (p1, r1)
}

/// The whole background work of one cycle.
#[verifier::opaque]
pub open spec fn spec_process_background(p: PpuView, r: RegistersView, is_pre_render: bool) -> (PpuView, RegistersView) {
    let (p1, r1) = spec_bg_fetch(p, r);
    spec_bg_edges(p1, r1, is_pre_render)
}

/// The sprites that scan line `s` crosses, taken in OAM order from entry `i` on and added to
/// `acc`, and whether a ninth one was found (the search stops there).
pub open spec fn eval_from(oam: Seq<u8>, s: int, size: int, i: int, acc: Seq<Sprite>) -> (Seq<Sprite>, bool)
    decreases 64 - i,
{
    if i < 0 || i >= 64 {
        (acc, false)
    } else {
        let sp = sprite_of(i as usize, oam.subrange(i * 4, i * 4 + 4));
        if sp.y <= s < sp.y + size {
            if acc.len() == 8 {
                (acc, true)
            } else {
                eval_from(oam, s, size, i + 1, acc.push(sp))
            }
        } else {
            eval_from(oam, s, size, i + 1, acc)
        }
    }
}

/// Sprite height in lines.
pub open spec fn sprite_height(r: RegistersView) -> int {
    if r.ctrl_flags.spec_sprite_size() { 16 } else { 8 }
}

/// The secondary OAM filled for the current line, with the overflow flag raised when more
/// than eight sprites cross it.
pub open spec fn spec_evaluate_sprites(p: PpuView, r: RegistersView) -> (PpuView, RegistersView) {
    let (sec, overflow) = eval_from(r.oam_ram, p.scan_line as int, sprite_height(r), 0, Seq::empty());
    (
        PpuView { secondary_oam: sec, ..p },
        if overflow {
            RegistersView { status_flags: PpuStatusFlags(with_bit(r.status_flags.0, 5, true)), ..r }
        } else {
            r
        },
    )
}

/// A sprite with the two pattern bytes of the row that line `s` shows.
pub open spec fn load_row(sp: Sprite, r: RegistersView, s: usize) -> Sprite {
    let t = sp.spec_tile_address(r.ctrl_flags, s);
    Sprite { data_lo: r.ppu_read(t), data_hi: r.ppu_read((t + 8) as u16), ..sp }
}

/// The sprites of the secondary OAM, with their pattern rows, become the ones drawn.
pub open spec fn spec_load_sprites(p: PpuView, r: RegistersView) -> PpuView {
    PpuView {
        primary_oam: Seq::new(p.secondary_oam.len(), |i: int| load_row(p.secondary_oam[i], r, p.scan_line)),
        ..p
    }
}

/// The sprite work of one cycle.
#[verifier::opaque]
pub open spec fn spec_process_sprites(p: PpuView, r: RegistersView, is_pre_render: bool) -> (PpuView, RegistersView) {
    if p.cycles == 1 {
        (
            PpuView { secondary_oam: Seq::empty(), ..p },
            if is_pre_render {
                RegistersView {
                    status_flags: PpuStatusFlags(with_bit(with_bit(r.status_flags.0, 5, false), 6, false)),
                    ..r
                }
            } else {
                r
            },
        )
    } else if p.cycles == 257 {
        spec_evaluate_sprites(p, r)
    } else if p.cycles == 321 {
        (spec_load_sprites(p, r), r)
    } else {
        (p, r)
    }
}

/// The two-bit background colour at column `x`, with its palette above it when not
/// transparent.
pub open spec fn spec_bg_pixel(p: PpuView, r: RegistersView, x: usize) -> u8 {
    if r.mask_flags.spec_is_rendering_background(x) {
        let n = (15 - r.fine_x) as u16;
        let res = (nth_bit(p.bg_shifter_hi, n) << 1u8) | nth_bit(p.bg_shifter_lo, n);
        if res != 0 {
            let m = (7 - r.fine_x) as u16;
            res | (((nth_bit(p.attribute_shift_hi as u16, m) << 1u8) | nth_bit(p.attribute_shift_lo as u16, m))
                << 2u8)
        } else {
            res
        }
    } else {
        0
    }
}

/// Colour, priority and sprite-zero flag of the first sprite from `i` on that is opaque at
/// column `x`: a sprite earlier in OAM covers the later ones.
pub open spec fn first_opaque(sprites: Seq<Sprite>, x: usize, i: int) -> (u8, bool, bool)
    decreases sprites.len() - i,
{
    if i < 0 || i >= sprites.len() {
        (0, false, false)
    } else {
        let sp = sprites[i];
        let ci = sp.spec_color_index(x);
        if ci > 0 {
            (
                0x10u8 | (sp.attributes.spec_palette() << 2u8) | ci,
                sp.attributes.spec_is_behind_background(),
                sp.oam_index == 0 && x != 0xFF,
            )
        } else {
            first_opaque(sprites, x, i + 1)
        }
    }
}

/// The sprite colour at column `x`, whether it sits behind the background, and whether it
/// may be a sprite-zero hit.
pub open spec fn spec_sprite_pixel(p: PpuView, r: RegistersView, x: usize) -> (u8, bool, bool) {
    if r.mask_flags.spec_is_rendering_sprites(x) {
        first_opaque(p.primary_oam, x, 0)
    } else {
        (0, false, false)
    }
}

/// The palette entry shown at (`x`, `y`) and the registers afterwards, which record a
/// sprite-zero hit; nothing outside the visible picture.
pub open spec fn spec_screen_pixel(p: PpuView, r: RegistersView, x: usize, y: usize) -> (Option<u8>, RegistersView) {
    if x < 256 && y < 240 {
        let bg = spec_bg_pixel(p, r, x);
        let (sp, behind, zero_hit) = spec_sprite_pixel(p, r, x);
        let r1 = if zero_hit && bg != 0 {
            RegistersView { status_flags: PpuStatusFlags(with_bit(r.status_flags.0, 6, true)), ..r }
        } else {
            r
        };
        let color = if !behind {
            if sp > 0 { sp } else { bg }
        } else {
            if bg > 0 { bg } else { sp }
        };
        (Some(color), r1)
    } else {
        (None, r)
    }
}

/// The RGB colour of palette entry `pixel`; with rendering off, the backdrop colour.
pub open spec fn spec_pixel_color(r: RegistersView, pixel: u8) -> [u8; 3] {
    let palette: u16 = if r.mask_flags.spec_is_rendering() { pixel as u16 } else { 0 };
    COLORS@[r.ppu_read((0x3F00 + palette) as u16) as int]
}

/// Where pixel (`x`, `y`) is kept: the buffer holds the rows bottom up.
pub open spec fn pixel_index(x: int, y: int) -> int {
    (239 - y) * 256 + x
}

/// The picture and shifters after the pixel of this cycle.
#[verifier::opaque]
pub open spec fn spec_update_image_buffer(p: PpuView, r: RegistersView) -> (PpuView, RegistersView) {
    if draw_cycle(p.cycles) {
        let x = (p.cycles - 2) as usize;
        let y = p.scan_line;
        let (pix, r1) = spec_screen_pixel(p, r, x, y);
        let p1 = match pix {
            Some(color) => PpuView {
                off_screen_pixels: p.off_screen_pixels.update(pixel_index(x as int, y as int), spec_pixel_color(r1, color)),
                ..p
            },
            None => p,
        };
        (spec_update_shifters(p1), r1)
    } else {
        (p, r)
    }
}

/// The row address in a sprite's pattern stays within the first 8 KiB and a little more.
proof fn lemma_sprite_row_bound(sp: Sprite, r: RegistersView, s: usize)
    requires
        sp.y <= s,
    ensures
        sp.spec_tile_address(r.ctrl_flags, s) <= 0x2007,
{
    let index = sp.index.0 as int;
    let d = s - sp.y;
    if r.ctrl_flags.spec_sprite_size() {
        assert(0 <= d % 16 < 16);
    } else {
        assert(0 <= d % 8 < 8);
    }
}

/// The work of one cycle that depends on the line: drawing on the visible and pre-render
/// lines, the end of the picture on line 240, and the vertical blank on line 241.
pub open spec fn spec_line_work(p: PpuView, r: RegistersView) -> (PpuView, RegistersView, PpuState) {
    if render_line(p.scan_line) {
        let pre = p.scan_line == 261;
        let (p1, r1) = spec_process_sprites(p, r, pre);
        let (p2, r2) = spec_update_image_buffer(p1, r1);
        let (p3, r3) = spec_process_background(p2, r2, pre);
        (p3, r3, PpuState::NoOp)
    } else if p.scan_line == 240 {
        if p.cycles == 0 {
            (PpuView { is_frame_ready: true, ..p }, r, PpuState::Render)
        } else {
            (p, r, PpuState::NoOp)
        }
    } else if p.scan_line == 241 && p.cycles == 1 && !r.vblank_suppress {
        let r1 = RegistersView { status_flags: PpuStatusFlags(with_bit(r.status_flags.0, 7, true)), ..r };
        if r.ctrl_flags.spec_enable_nmi() {
            (PpuView { nmi: true, ..p }, r1, PpuState::NonMaskableInterrupt)
        } else {
            (PpuView { nmi: false, ..p }, r1, PpuState::NoOp)
        }
    } else {
        (p, r, PpuState::NoOp)
    }
}

/// Whether an interrupt forced by a PPUCTRL write during the vertical blank would fall on a
/// cycle that already reports something: the PPU has no answer for that.
pub open spec fn forced_nmi(r: RegistersView) -> bool {
    r.status_flags.spec_vertical_blank() && r.force_nmi && !r.vblank_suppress
}

/// The cycles on which a cycle can be run.
pub open spec fn tick_ok(p: PpuView, r: RegistersView) -> bool {
    let (p1, r1, st) = spec_line_work(p, r);
    !(forced_nmi(r1) && st != PpuState::NoOp)
}

/// The end of a cycle: a forced interrupt, the scan-line signal to the board on cycle 260
/// of a visible line, and the move to the next cycle, line and frame.
pub open spec fn spec_advance(p1: PpuView, r1: RegistersView, st1: PpuState) -> (PpuView, RegistersView, PpuState) {
    let st2 = if forced_nmi(r1) { PpuState::NonMaskableInterrupt } else { st1 };
    let r2 = RegistersView { force_nmi: false, vblank_suppress: false, ..r1 };
    let c = p1.cycles + 1;
    let r3 = if r2.mask_flags.spec_is_rendering() && c == 260 && p1.scan_line < 240 {
        RegistersView {
            cartridge: CartridgeView { mapper: r2.cartridge.mapper.after_scanline(), ..r2.cartridge },
            ..r2
        }
    } else {
        r2
    };
    let p2 = if c > 340 {
        if p1.scan_line + 1 > 261 {
            PpuView { cycles: 0, scan_line: 0, is_even_frame: !p1.is_even_frame, ..p1 }
        } else {
            PpuView { cycles: 0, scan_line: (p1.scan_line + 1) as usize, ..p1 }
        }
    } else {
        PpuView { cycles: c as usize, ..p1 }
    };
    (p2, r3, st2)
}

/// One PPU cycle.
#[verifier::opaque]
pub open spec fn spec_tick(p: PpuView, r: RegistersView) -> (PpuView, RegistersView, PpuState) {
    let (p1, r1, st1) = spec_line_work(p, r);
    spec_advance(p1, r1, st1)
}

/// What the line's work leaves for the end of the cycle.
pub open spec fn pending(p: PpuView) -> bool {
    &&& p.cycles <= 341
    &&& p.scan_line <= 261
    &&& p.off_screen_pixels.len() == SCREEN_PIXELS
    &&& p.primary_oam.len() <= 8
    &&& p.secondary_oam.len() <= 8
    &&& (render_line(p.scan_line) && fetch_cycle(p.cycles) && (p.cycles % 8 == 5 || p.cycles % 8 == 6))
        ==> p.curr_address <= 0x1FF7
    &&& (p.scan_line == 0 && p.cycles == 0) || (forall|i: int|
        0 <= i < p.secondary_oam.len() ==> #[trigger] p.secondary_oam[i].y <= p.scan_line)
}

impl Ppu {
    fn update_shifters(&mut self)
        ensures
            final(self)@ == spec_update_shifters(old(self)@),
    {
        self.bg_shifter_lo = self.bg_shifter_lo << 1u16;
        self.bg_shifter_hi = self.bg_shifter_hi << 1u16;
        self.attribute_shift_lo = (self.attribute_shift_lo << 1u8) | self.bg_attribute_latch_lo;
        self.attribute_shift_hi = (self.attribute_shift_hi << 1u8) | self.bg_attribute_latch_hi;
    }

    fn load_background_shifters(&mut self)
        ensures
            final(self)@ == spec_load_background_shifters(old(self)@),
    {
        self.bg_shifter_lo = (self.bg_shifter_lo & 0xFF00) | (self.bg_next_tile_lo as u16);
        self.bg_shifter_hi = (self.bg_shifter_hi & 0xFF00) | (self.bg_next_tile_hi as u16);
        self.bg_attribute_latch_lo = self.bg_next_tile_attribute & 1;
        self.bg_attribute_latch_hi = (self.bg_next_tile_attribute & 2) >> 1u8;
    }

    fn increment_scroll_x(&self, registers: &mut Registers)
        ensures
            final(registers)@ == spec_increment_scroll_x(old(registers)@),
    {
        if registers.mask_flags.is_rendering() {
            if registers.vram_addr.coarse_x() == 31 {
                registers.vram_addr.set_coarse_x(0);
                registers.vram_addr.0 = registers.vram_addr.0 ^ 0x0400;
            } else {
                let coarse_x = registers.vram_addr.coarse_x();
                proof { crate::bits::lemma_and_u16_le(registers.vram_addr.0, 0x001F); }
                registers.vram_addr.set_coarse_x(coarse_x + 1);
            }
        }
    }

    fn increment_scroll_y(&self, registers: &mut Registers)
        ensures
            final(registers)@ == spec_increment_scroll_y(old(registers)@),
    {
        if registers.mask_flags.is_rendering() {
            let fine_y = registers.vram_addr.fine_y();
            if fine_y < 7 {
                registers.vram_addr.set_fine_y(fine_y + 1);
            } else {
                registers.vram_addr.set_fine_y(0);
                let coarse_y = registers.vram_addr.coarse_y();
                proof { crate::bits::lemma_and_u16_le(registers.vram_addr.0 >> 5u16, 0x001F); }
                if coarse_y == 29 {
                    registers.vram_addr.set_coarse_y(0);
                    let nametable_y = registers.vram_addr.nametable_y();
                    registers.vram_addr.set_nametable_y(!nametable_y);
                } else if coarse_y == 31 {
                    registers.vram_addr.set_coarse_y(0);
                } else {
                    registers.vram_addr.set_coarse_y(coarse_y + 1);
                }
            }
        }
    }

    fn transfer_address_x(&self, registers: &mut Registers)
        ensures
            final(registers)@ == spec_transfer_address_x(old(registers)@),
    {
        if registers.mask_flags.is_rendering() {
            let tram_addr = registers.tram_addr;
            registers.vram_addr.set_nametable_x(tram_addr.nametable_x());
            registers.vram_addr.set_coarse_x(tram_addr.coarse_x());
        }
    }

    fn transfer_address_y(&self, registers: &mut Registers)
        ensures
            final(registers)@ == spec_transfer_address_y(old(registers)@),
    {
        if registers.mask_flags.is_rendering() {
            let tram_addr = registers.tram_addr;
            registers.vram_addr.set_fine_y(tram_addr.fine_y());
            registers.vram_addr.set_nametable_y(tram_addr.nametable_y());
            registers.vram_addr.set_coarse_y(tram_addr.coarse_y());
        }
    }

    fn fetch_next_bg_tile_attribute(&self, registers: &Registers) -> (r: u16)
        ensures
            r == spec_attribute_address(registers.vram_addr),
    {
        let vram_addr = registers.vram_addr;
        let nametable_x: u16 = if vram_addr.nametable_x() { 1 } else { 0 };
        let nametable_y: u16 = if vram_addr.nametable_y() { 1 } else { 0 };
        let coarse_x = vram_addr.coarse_x() as u16;
        let coarse_y = vram_addr.coarse_y() as u16;
        0x23C0 | (nametable_y << 11u16) | (nametable_x << 10u16) | ((coarse_y >> 2u16) << 3u16) | (coarse_x >> 2u16)
    }

    /// The byte the PPU sees at `address`.
    pub fn read_ppu_u8(&self, registers: &Registers, address: u16) -> (r: u8)
        requires
            registers@.wf(),
            registers@.ppu_read_ok(address),
        ensures
            r == registers@.ppu_read(address),
    {
        registers.ppu_read_reg(address)
    }

    /// A write to the PPU registers at `address`, as the CPU bus makes it.
    pub fn write_ppu_u8(&self, registers: &mut Registers, address: u16, data: u8)
        requires
            old(registers)@.wf(),
            old(registers)@.cpu_write_ok(address),
        ensures
            final(registers)@ == old(registers)@.cpu_write(address, data),
    {
        registers.cpu_write_reg(address, data);
    }

    #[verifier::spinoff_prover]
    fn bg_fetch(&mut self, registers: &mut Registers)
        requires
            old(registers)@.wf(),
            (fetch_cycle(old(self).cycles) && reads_at_curr(old(self).cycles)) ==> old(registers)@.ppu_read_ok(
                old(self).curr_address,
            ),
            (fetch_cycle(old(self).cycles) && old(self).cycles % 8 == 7) ==> old(self).curr_address <= 0x1FF7,
        ensures
            (final(self)@, final(registers)@) == spec_bg_fetch(old(self)@, old(registers)@),
            touches_only_scroll_and_status(old(registers)@, final(registers)@),
            final(self).scan_line == old(self).scan_line,
            final(self).is_even_frame == old(self).is_even_frame,
            final(self).is_frame_ready == old(self).is_frame_ready,
            final(self).nmi == old(self).nmi,
            final(self)@.primary_oam == old(self)@.primary_oam,
            final(self)@.secondary_oam == old(self)@.secondary_oam,
            final(self)@.off_screen_pixels == old(self)@.off_screen_pixels,
            final(self).cycles == old(self).cycles,
            (fetch_cycle(old(self).cycles) && old(self).cycles % 8 == 5) ==> final(self).curr_address <= 0x1FF7,
            (fetch_cycle(old(self).cycles) && old(self).cycles % 8 == 6) ==> final(self).curr_address
                == old(self).curr_address,
    {
        if (2 <= self.cycles && self.cycles <= 255) || (322 <= self.cycles && self.cycles <= 337) {
            let k = self.cycles % 8;
            if k == 1 {
                self.curr_address = 0x2000 | (registers.vram_addr.0 & 0x0FFF);
                self.load_background_shifters();
            } else if k == 2 {
                self.nametable_entry = self.read_ppu_u8(registers, self.curr_address);
            } else if k == 3 {
                self.curr_address = self.fetch_next_bg_tile_attribute(registers);
            } else if k == 4 {
                let mut attribute = self.read_ppu_u8(registers, self.curr_address);
                if (registers.vram_addr.coarse_y() & 0x02) > 0 {
                    attribute = attribute >> 4u8;
                }
                if (registers.vram_addr.coarse_x() & 0x02) > 0 {
                    attribute = attribute >> 2u8;
                }
                self.bg_next_tile_attribute = attribute;
            } else if k == 5 {
                let fine_y = registers.vram_addr.fine_y() as u16;
                proof {
                    crate::bits::lemma_and_u16_le(registers.vram_addr.0 >> 12u16, 0x0007);
                    crate::bits::lemma_pattern_row(self.nametable_entry, fine_y);
                }
                self.curr_address = registers.ctrl_flags.get_pattern_background() + ((0x10 * (
                self.nametable_entry as u16)) | fine_y);
            } else if k == 6 {
                self.bg_next_tile_lo = self.read_ppu_u8(registers, self.curr_address);
            } else if k == 7 {
                self.curr_address = self.curr_address + 8;
            } else {
                self.bg_next_tile_hi = self.read_ppu_u8(registers, self.curr_address);
                if registers.mask_flags.is_rendering() {
                    self.increment_scroll_x(registers);
                }
            }
        }
    }

    #[verifier::spinoff_prover]
    fn bg_edges(&mut self, registers: &mut Registers, is_pre_render: bool)
        requires
            old(registers)@.wf(),
            (old(self).cycles == 256 || old(self).cycles == 338 || old(self).cycles == 340) ==> old(
                registers,
            )@.ppu_read_ok(old(self).curr_address),
        ensures
            (final(self)@, final(registers)@) == spec_bg_edges(old(self)@, old(registers)@, is_pre_render),
            touches_only_scroll_and_status(old(registers)@, final(registers)@),
            final(self).scan_line == old(self).scan_line,
            final(self).is_even_frame == old(self).is_even_frame,
            final(self).is_frame_ready == old(self).is_frame_ready,
            final(self).nmi == old(self).nmi,
            final(self)@.primary_oam == old(self)@.primary_oam,
            final(self)@.secondary_oam == old(self)@.secondary_oam,
            final(self)@.off_screen_pixels == old(self)@.off_screen_pixels,
            final(self).cycles == old(self).cycles || (old(self).cycles == 340 && final(self).cycles == 341),
            fetch_cycle(old(self).cycles) ==> final(self).curr_address == old(self).curr_address,
    {
        let c = self.cycles;
        if c == 256 {
            self.bg_next_tile_hi = self.read_ppu_u8(registers, self.curr_address);
            self.increment_scroll_y(registers);
        } else if c == 257 {
            self.load_background_shifters();
            self.transfer_address_x(registers);
        } else if 280 <= c && c <= 304 && is_pre_render {
            self.transfer_address_y(registers);
        } else if c == 1 {
            self.curr_address = 0x2000 | (registers.vram_addr.0 & 0x0FFF);
            if is_pre_render {
                registers.status_flags.set_vertical_blank(false);
            }
        } else if c == 321 || c == 339 {
            self.curr_address = 0x2000 | (registers.vram_addr.0 & 0x0FFF);
        } else if c == 338 {
            self.nametable_entry = self.read_ppu_u8(registers, self.curr_address);
        } else if c == 340 {
            self.nametable_entry = self.read_ppu_u8(registers, self.curr_address);
            if is_pre_render && registers.mask_flags.is_rendering() && !self.is_even_frame {
                self.cycles = self.cycles + 1;
            }
        }
    }

    /// The background work of one cycle: tile fetches, scrolling and address reloads.
    #[verifier::spinoff_prover]
    fn process_background(&mut self, registers: &mut Registers, is_pre_render: bool)
        requires
            old(registers)@.wf(),
            reads_at_curr(old(self).cycles) ==> old(registers)@.ppu_read_ok(old(self).curr_address),
            (fetch_cycle(old(self).cycles) && old(self).cycles % 8 == 7) ==> old(self).curr_address <= 0x1FF7,
        ensures
            (final(self)@, final(registers)@) == spec_process_background(old(self)@, old(registers)@, is_pre_render),
            touches_only_scroll_and_status(old(registers)@, final(registers)@),
            final(self).scan_line == old(self).scan_line,
            final(self).is_even_frame == old(self).is_even_frame,
            final(self).is_frame_ready == old(self).is_frame_ready,
            final(self).nmi == old(self).nmi,
            final(self)@.primary_oam == old(self)@.primary_oam,
            final(self)@.secondary_oam == old(self)@.secondary_oam,
            final(self)@.off_screen_pixels == old(self)@.off_screen_pixels,
            final(self).cycles == old(self).cycles || (old(self).cycles == 340 && final(self).cycles == 341),
            (fetch_cycle(old(self).cycles) && old(self).cycles % 8 == 5) ==> final(self).curr_address <= 0x1FF7,
            (fetch_cycle(old(self).cycles) && old(self).cycles % 8 == 6) ==> final(self).curr_address
                == old(self).curr_address,
    {
        proof { reveal(spec_process_background); }
        self.bg_fetch(registers);
        self.bg_edges(registers, is_pre_render);
    }

    #[verifier::spinoff_prover]
    fn evaluate_sprites(&mut self, registers: &mut Registers)
        requires
            old(registers)@.wf(),
        ensures
            (final(self)@, final(registers)@) == spec_evaluate_sprites(old(self)@, old(registers)@),
            final(self)@ == (PpuView { secondary_oam: final(self)@.secondary_oam, ..old(self)@ }),
            touches_only_scroll_and_status(old(registers)@, final(registers)@),
            final(self)@.secondary_oam.len() <= 8,
            forall|i: int|
                0 <= i < final(self)@.secondary_oam.len() ==> #[trigger] final(self)@.secondary_oam[i].y
                    <= final(self).scan_line,
    {
        self.secondary_oam.clear();
        let sprite_size = registers.ctrl_flags.get_sprite_size() as usize;
        let scan_line = self.scan_line;
        let ghost oam = registers@.oam_ram;
        let ghost size = sprite_height(registers@);
        let mut overflow = false;
        let mut idx: usize = 0;
        while idx < 64 && !overflow
            invariant
                idx <= 64,
                registers@ == old(registers)@,
                oam == registers@.oam_ram,
                oam.len() == 0x0100,
                size == sprite_height(registers@),
                sprite_size == size,
                scan_line == old(self).scan_line,
                self@ == (PpuView { secondary_oam: self@.secondary_oam, ..old(self)@ }),
                self@.secondary_oam.len() <= 8,
                forall|i: int|
                    0 <= i < self@.secondary_oam.len() ==> #[trigger] self@.secondary_oam[i].y <= scan_line,
                !overflow ==> eval_from(oam, scan_line as int, size, 0, Seq::empty()) == eval_from(
                    oam,
                    scan_line as int,
                    size,
                    idx as int,
                    self@.secondary_oam,
                ),
                overflow ==> eval_from(oam, scan_line as int, size, 0, Seq::empty()) == (self@.secondary_oam, true),
            decreases 64 - idx + (if overflow { 0int } else { 1int }),
        {
            let address = idx * 4;
            let bytes = vstd::slice::slice_subrange(registers.oam_ram.as_slice(), address, address + 4);
            let sprite = Sprite::new(idx, bytes);
            let sprite_y = sprite.y as usize;
            if scan_line >= sprite_y && scan_line < sprite_y + sprite_size {
                if self.secondary_oam.len() == 8 {
                    overflow = true;
                } else {
                    self.secondary_oam.push(sprite);
                    idx += 1;
                }
            } else {
                idx += 1;
            }
        }
        if overflow {
            registers.status_flags.set_sprite_overflow(true);
        }
    }

    fn load_sprites(&mut self, registers: &Registers)
        requires
            registers@.wf(),
            old(self).scan_line <= 261,
            forall|i: int|
                0 <= i < old(self)@.secondary_oam.len() ==> #[trigger] old(self)@.secondary_oam[i].y
                    <= old(self).scan_line,
            forall|i: int|
                0 <= i < old(self)@.secondary_oam.len() ==> #[trigger] sprite_rows_ok(
                    old(self)@.secondary_oam[i],
                    registers@,
                    old(self).scan_line,
                ),
        ensures
            final(self)@ == spec_load_sprites(old(self)@, registers@),
    {
        let mut sprites: Vec<Sprite> = Vec::new();
        let mut i: usize = 0;
        while i < self.secondary_oam.len()
            invariant
                i <= self.secondary_oam.len(),
                self@ == old(self)@,
                self.scan_line <= 261,
                registers@.wf(),
                forall|j: int|
                    0 <= j < self@.secondary_oam.len() ==> #[trigger] sprite_rows_ok(
                        self@.secondary_oam[j],
                        registers@,
                        self.scan_line,
                    ),
                forall|j: int|
                    0 <= j < self@.secondary_oam.len() ==> #[trigger] self@.secondary_oam[j].y <= self.scan_line,
                sprites@.len() == i,
                forall|j: int|
                    0 <= j < i ==> #[trigger] sprites@[j] == load_row(self@.secondary_oam[j], registers@, self.scan_line),
            decreases self.secondary_oam.len() - i,
        {
            let mut sprite = self.secondary_oam[i];
            let scan_line = self.scan_line;
            proof {
                assert(self@.secondary_oam[i as int].y <= scan_line);
                assert(sprite_rows_ok(self@.secondary_oam[i as int], registers@, scan_line));
                lemma_sprite_row_bound(sprite, registers@, scan_line);
            }
            let tile_address = sprite.tile_address(registers.ctrl_flags, scan_line);
            sprite.data_lo = self.read_ppu_u8(registers, tile_address);
            sprite.data_hi = self.read_ppu_u8(registers, tile_address + 8);
            sprites.push(sprite);
            i += 1;
        }
        self.primary_oam = sprites;
        proof {
            assert(self@.primary_oam =~= spec_load_sprites(old(self)@, registers@).primary_oam);
        }
    }

    /// The sprite work of one cycle: clearing, evaluating and loading the line's sprites.
    fn process_sprites(&mut self, registers: &mut Registers, is_pre_render: bool)
        requires
            old(registers)@.wf(),
            old(self)@.primary_oam.len() <= 8,
            old(self)@.secondary_oam.len() <= 8,
            old(self).scan_line <= 261,
            old(self).cycles == 321 ==> forall|i: int|
                0 <= i < old(self)@.secondary_oam.len() ==> #[trigger] old(self)@.secondary_oam[i].y
                    <= old(self).scan_line,
            old(self).cycles == 321 ==> forall|i: int|
                0 <= i < old(self)@.secondary_oam.len() ==> #[trigger] sprite_rows_ok(
                    old(self)@.secondary_oam[i],
                    old(registers)@,
                    old(self).scan_line,
                ),
        ensures
            (final(self)@, final(registers)@) == spec_process_sprites(old(self)@, old(registers)@, is_pre_render),
            final(self)@ == (PpuView {
                primary_oam: final(self)@.primary_oam,
                secondary_oam: final(self)@.secondary_oam,
                ..old(self)@
            }),
            touches_only_scroll_and_status(old(registers)@, final(registers)@),
            final(self)@.primary_oam.len() <= 8,
            final(self)@.secondary_oam.len() <= 8,
            old(self).cycles == 1 ==> final(self)@.secondary_oam.len() == 0,
            old(self).cycles == 257 ==> forall|i: int|
                0 <= i < final(self)@.secondary_oam.len() ==> #[trigger] final(self)@.secondary_oam[i].y
                    <= final(self).scan_line,
            old(self).cycles != 1 && old(self).cycles != 257 ==> final(self)@.secondary_oam
                == old(self)@.secondary_oam,
    {
        proof { reveal(spec_process_sprites); }
        if self.cycles == 1 {
            self.secondary_oam.clear();
            if is_pre_render {
                registers.status_flags.set_sprite_overflow(false);
                registers.status_flags.set_sprite_zero_hit(false);
            }
        } else if self.cycles == 257 {
            self.evaluate_sprites(registers);
        } else if self.cycles == 321 {
            self.load_sprites(registers);
        }
    }

    fn render_sprite_pixel(&self, registers: &Registers, x: usize) -> (r: (u8, bool, bool))
        requires
            x < 256,
        ensures
            r == spec_sprite_pixel(self@, registers@, x),
            r.0 <= 0x1F,
    {
        let mut color: u8 = 0;
        let mut is_behind = false;
        let mut possible_zero_hit = false;
        if registers.mask_flags.is_rendering_sprites(x) {
            let mut i = self.primary_oam.len();
            while i > 0
                invariant
                    i <= self.primary_oam.len(),
                    x < 256,
                    (color, is_behind, possible_zero_hit) == first_opaque(self@.primary_oam, x, i as int),
                    color <= 0x1F,
                decreases i,
            {
                i -= 1;
                let sprite = self.primary_oam[i];
                let sprite_color_idx = sprite.color_index(x);
                if sprite_color_idx > 0 {
                    let palette = sprite.attributes.palette();
                    proof {
                        crate::bits::lemma_and_u8_le(sprite.attributes.0, 0x03);
                        crate::bits::lemma_sprite_color(palette, sprite_color_idx);
                    }
                    possible_zero_hit = sprite.oam_index == 0 && x != 0xFF;
                    color = 0x10 | (palette << 2u8) | sprite_color_idx;
                    is_behind = sprite.attributes.is_behind_background();
                }
            }
        }
        (color, is_behind, possible_zero_hit)
    }

    fn render_background_pixel(&self, registers: &Registers, x: usize) -> (r: u8)
        requires
            registers@.wf(),
        ensures
            r == spec_bg_pixel(self@, registers@, x),
            r <= 15,
    {
        let mut res: u8 = 0;
        if registers.mask_flags.is_rendering_background(x) {
            let nth = 15 - registers.fine_x as u16;
            let hi = get_nth_bit(self.bg_shifter_hi, nth);
            let lo = get_nth_bit(self.bg_shifter_lo, nth);
            proof { crate::bits::lemma_two_bits(hi, lo); }
            res = (hi << 1u8) | lo;
            if res != 0 {
                let nth = 7 - registers.fine_x as u16;
                let attr_hi = get_nth_bit(self.attribute_shift_hi as u16, nth);
                let attr_lo = get_nth_bit(self.attribute_shift_lo as u16, nth);
                proof {
                    crate::bits::lemma_two_bits(attr_hi, attr_lo);
                    crate::bits::lemma_palette_nibble(res, (attr_hi << 1u8) | attr_lo);
                }
                res = res | (((attr_hi << 1u8) | attr_lo) << 2u8);
            }
        }
        res
    }

    fn get_screen_pixel(&self, registers: &mut Registers, x: usize, y: usize) -> (r: Option<u8>)
        requires
            old(registers)@.wf(),
        ensures
            (r, final(registers)@) == spec_screen_pixel(self@, old(registers)@, x, y),
            touches_only_scroll_and_status(old(registers)@, final(registers)@),
            r matches Some(c) ==> c <= 0x1F,
    {
        if x < 256 && y < 240 {
            let bg_pixel = self.render_background_pixel(registers, x);
            let (sprite_pixel, sprite_behind, possible_zero_hit) = self.render_sprite_pixel(registers, x);
            if possible_zero_hit && bg_pixel != 0 {
                registers.status_flags.set_sprite_zero_hit(true);
            }
            let color = if !sprite_behind {
                if sprite_pixel > 0 { sprite_pixel } else { bg_pixel }
            } else {
                if bg_pixel > 0 { bg_pixel } else { sprite_pixel }
            };
            return Some(color);
        }
        None
    }

    fn get_pixel_color(&self, registers: &Registers, pixel: u8) -> (r: Color)
        requires
            registers@.wf(),
            pixel <= 0x1F,
        ensures
            r.val == spec_pixel_color(registers@, pixel),
    {
        let palette: u16 = if registers.mask_flags.is_rendering() { pixel as u16 } else { 0 };
        proof { lemma_palette_read_ok(registers@, (0x3F00 + palette) as u16); }
        let idx = self.read_ppu_u8(registers, 0x3F00 + palette);
        proof { lemma_palette_read_bound(registers@, (0x3F00 + palette) as u16); }
        Color { val: COLORS[idx as usize] }
    }

    /// Draws the pixel of this cycle, if it is on screen, and moves the shifters.
    fn update_image_buffer(&mut self, registers: &mut Registers)
        requires
            old(registers)@.wf(),
            old(self)@.off_screen_pixels.len() == SCREEN_PIXELS,
        ensures
            (final(self)@, final(registers)@) == spec_update_image_buffer(old(self)@, old(registers)@),
            touches_only_scroll_and_status(old(registers)@, final(registers)@),
            final(self)@ == (PpuView {
                off_screen_pixels: final(self)@.off_screen_pixels,
                bg_shifter_lo: final(self).bg_shifter_lo,
                bg_shifter_hi: final(self).bg_shifter_hi,
                attribute_shift_lo: final(self).attribute_shift_lo,
                attribute_shift_hi: final(self).attribute_shift_hi,
                ..old(self)@
            }),
            final(self)@.off_screen_pixels.len() == SCREEN_PIXELS,
    {
        proof { reveal(spec_update_image_buffer); }
        if (2 <= self.cycles && self.cycles <= 257) || (322 <= self.cycles && self.cycles <= 337) {
            let x = self.cycles - 2;
            let y = self.scan_line;
            if let Some(color) = self.get_screen_pixel(registers, x, y) {
                let pixel = self.get_pixel_color(registers, color).to_value();
                self.off_screen_pixels.set((239 - y) * 256 + x, pixel);
            }
            self.update_shifters();
        }
    }

    /// A PPU at the top of the first frame, with a black picture.
    pub fn new() -> (r: Ppu)
        ensures
            r@.power_on(),
    {
        let mut off_screen_pixels: Vec<[u8; 3]> = Vec::new();
        let mut i: usize = 0;
        while i < SCREEN_PIXELS
            invariant
                i <= SCREEN_PIXELS,
                off_screen_pixels@ == Seq::new(i as nat, |j: int| black_pixel()),
            decreases SCREEN_PIXELS - i,
        {
            off_screen_pixels.push([0u8, 0u8, 0u8]);
            i += 1;
            proof {
                assert(off_screen_pixels@ =~= Seq::new(i as nat, |j: int| black_pixel()));
            }
        }
        Ppu {
            cycles: 0,
            scan_line: 0,
            nmi: false,
            nametable_entry: 0,
            bg_next_tile_attribute: 0,
            bg_next_tile_lo: 0,
            bg_next_tile_hi: 0,
            bg_shifter_lo: 0,
            bg_shifter_hi: 0,
            bg_attribute_latch_lo: 0,
            bg_attribute_latch_hi: 0,
            curr_address: 0,
            attribute_shift_lo: 0,
            attribute_shift_hi: 0,
            is_frame_ready: false,
            primary_oam: Vec::new(),
            secondary_oam: Vec::new(),
            is_even_frame: true,
            off_screen_pixels,
        }
    }

    /// Back to the top of an even frame with empty pipelines; the registers are reset too.
    pub fn reset(&mut self, registers: &mut Registers)
        ensures
            final(self)@ == old(self)@.after_reset(),
            old(self)@.inv() ==> final(self)@.inv(),
            final(registers)@ == old(registers)@.after_reset(),
    {
        self.scan_line = 0;
        self.cycles = 0;
        self.nametable_entry = 0;
        self.bg_next_tile_attribute = 0;
        self.bg_next_tile_lo = 0;
        self.bg_next_tile_hi = 0;
        self.bg_shifter_lo = 0;
        self.bg_shifter_hi = 0;
        self.bg_attribute_latch_lo = 0;
        self.bg_attribute_latch_hi = 0;
        self.attribute_shift_lo = 0;
        self.attribute_shift_hi = 0;
        self.primary_oam.clear();
        self.secondary_oam.clear();
        self.is_frame_ready = false;
        self.is_even_frame = true;
        registers.reset();
    }

    #[verifier::spinoff_prover]
    fn line_work(&mut self, registers: &mut Registers) -> (r: PpuState)
        requires
            old(self)@.inv(),
            tick_reads_ok(old(self)@, old(registers)@),
        ensures
            (final(self)@, final(registers)@, r) == spec_line_work(old(self)@, old(registers)@),
            touches_only_scroll_and_status(old(registers)@, final(registers)@),
            final(self).scan_line == old(self).scan_line,
            final(self).cycles == old(self).cycles || (old(self).cycles == 340 && final(self).cycles == 341),
            pending(final(self)@),
            (r == PpuState::Render) == (old(self).scan_line == 240 && old(self).cycles == 0),
            r == PpuState::Render ==> final(self).is_frame_ready,
    {
        let mut state = PpuState::NoOp;
        let line = self.scan_line;
        if line <= 239 || line == 261 {
            let is_pre_render = line == 261;
            let ghost r0 = registers@;
            self.process_sprites(registers, is_pre_render);
            self.update_image_buffer(registers);
            proof { lemma_read_ok_on_cartridge(r0, registers@, self.curr_address); }
            self.process_background(registers, is_pre_render);
        } else if line == 240 {
            if self.cycles == 0 {
                self.is_frame_ready = true;
                state = PpuState::Render;
            }
        } else if line == 241 {
            if self.cycles == 1 && !registers.vblank_suppress {
                registers.status_flags.set_vertical_blank(true);
                if registers.ctrl_flags.enable_nmi() {
                    self.nmi = true;
                    state = PpuState::NonMaskableInterrupt;
                } else {
                    self.nmi = false;
                    state = PpuState::NoOp;
                }
            }
        }
        state
    }

    #[verifier::spinoff_prover]
    fn advance(&mut self, registers: &mut Registers, state: PpuState) -> (r: PpuState)
        requires
            pending(old(self)@),
            old(registers)@.wf(),
            forced_nmi(old(registers)@) ==> state == PpuState::NoOp,
        ensures
            (final(self)@, final(registers)@, r) == spec_advance(old(self)@, old(registers)@, state),
            final(self)@.inv(),
            final(registers)@.wf(),
            forced_nmi(old(registers)@) ==> r == PpuState::NonMaskableInterrupt,
            !forced_nmi(old(registers)@) ==> r == state,
            !final(registers).force_nmi && !final(registers).vblank_suppress,
            final(self).is_frame_ready == old(self).is_frame_ready,
    {
        let mut state = state;
        if registers.status_flags.vertical_blank() && registers.force_nmi && !registers.vblank_suppress {
            state = PpuState::NonMaskableInterrupt;
        }
        registers.force_nmi = false;
        registers.vblank_suppress = false;
        self.cycles = self.cycles + 1;
        let mask_flags = registers.mask_flags;
        if mask_flags.is_rendering() && self.cycles == 260 && self.scan_line < 240 {
            registers.cartridge.signal_scanline();
        }
        if self.cycles > 340 {
            self.cycles = 0;
            self.scan_line = self.scan_line + 1;
            if self.scan_line > 261 {
                self.scan_line = 0;
                self.is_even_frame = !self.is_even_frame;
            }
        }
        proof {
            let c = old(self).cycles;
            if self.cycles == c + 1 {
                if fetch_cycle(self.cycles) && self.cycles % 8 == 6 {
                    assert(fetch_cycle(c) && c % 8 == 5);
                }
                if fetch_cycle(self.cycles) && self.cycles % 8 == 7 {
                    assert(fetch_cycle(c) && c % 8 == 6);
                }
            }
        }
        state
    }

    /// Runs one PPU cycle and says what the console has to do about it.
    pub fn tick(&mut self, registers: &mut Registers) -> (r: PpuState)
        requires
            old(self)@.inv(),
            tick_reads_ok(old(self)@, old(registers)@),
            tick_ok(old(self)@, old(registers)@),
        ensures
            (final(self)@, final(registers)@, r) == spec_tick(old(self)@, old(registers)@),
            final(self)@.inv(),
            final(registers)@.wf(),
            old(self).cycles < 340 ==> final(self).cycles == old(self).cycles + 1
                && final(self).scan_line == old(self).scan_line
                && final(self).is_even_frame == old(self).is_even_frame,
            (old(self).cycles == 340 && old(self).scan_line < 261) ==> final(self).cycles == 0 && final(self).scan_line
                == old(self).scan_line + 1 && final(self).is_even_frame == old(self).is_even_frame,
            (old(self).cycles == 340 && old(self).scan_line == 261) ==> final(self).cycles == 0
                && final(self).scan_line == 0
                && final(self).is_even_frame != old(self).is_even_frame,
            (r == PpuState::Render) == (old(self).scan_line == 240 && old(self).cycles == 0),
            r == PpuState::Render ==> final(self).is_frame_ready,
            !final(registers).force_nmi && !final(registers).vblank_suppress,
    {
        proof {
            reveal(spec_tick);
            lemma_tick_position(old(self)@, old(registers)@);
        }
        let state = self.line_work(registers);
        let r = self.advance(registers, state);
        r
    }
}

/// Where a cycle puts the PPU: the dot along the 341-dot lines of a 262-line frame.
pub open spec fn dot_index(p: PpuView) -> int {
    p.scan_line * 341 + p.cycles
}

/// The PPU and its registers after `n` cycles.
pub open spec fn run_ticks(p: PpuView, r: RegistersView, n: nat) -> (PpuView, RegistersView)
    decreases n,
{
    if n == 0 {
        (p, r)
    } else {
        let (p1, r1, st) = spec_tick(p, r);
        run_ticks(p1, r1, (n - 1) as nat)
    }
}

/// Law: each cycle moves the PPU one dot on, whatever it draws: to the next dot of the line,
/// to the start of the next line after dot 340, and to the top of a new frame, with the frame
/// parity flipped, after the last dot of line 261.
#[verifier::spinoff_prover]
pub proof fn lemma_tick_position(p: PpuView, r: RegistersView)
    requires
        p.cycles <= 340,
        p.scan_line <= 261,
    ensures
        ({
            let q = spec_tick(p, r).0;
            &&& q.cycles <= 340 && q.scan_line <= 261
            &&& p.cycles < 340 ==> q.cycles == p.cycles + 1 && q.scan_line == p.scan_line && q.is_even_frame
                == p.is_even_frame
            &&& (p.cycles == 340 && p.scan_line < 261) ==> q.cycles == 0 && q.scan_line == p.scan_line + 1
                && q.is_even_frame == p.is_even_frame
            &&& (p.cycles == 340 && p.scan_line == 261) ==> q.cycles == 0 && q.scan_line == 0 && q.is_even_frame
                != p.is_even_frame
        }),
{
    reveal(spec_tick);
    reveal(spec_process_sprites);
    reveal(spec_update_image_buffer);
    reveal(spec_process_background);
}

#[verifier::spinoff_prover]
proof fn lemma_run_position(p: PpuView, r: RegistersView, n: nat)
    requires
        p.cycles <= 340,
        p.scan_line <= 261,
        dot_index(p) + n <= 341 * 262,
    ensures
        dot_index(p) + n < 341 * 262 ==> dot_index(run_ticks(p, r, n).0) == dot_index(p) + n
            && run_ticks(p, r, n).0.is_even_frame == p.is_even_frame,
        dot_index(p) + n == 341 * 262 ==> dot_index(run_ticks(p, r, n).0) == 0 && run_ticks(p, r, n).0.is_even_frame
            != p.is_even_frame,
        run_ticks(p, r, n).0.cycles <= 340,
        run_ticks(p, r, n).0.scan_line <= 261,
    decreases n,
{
    if n == 0 {
        assert(run_ticks(p, r, n) == (p, r));
    } else {
        let (q, r1, st) = spec_tick(p, r);
        lemma_tick_position(p, r);
        assert(run_ticks(p, r, n) == run_ticks(q, r1, (n - 1) as nat));
        if dot_index(p) == 341 * 262 - 1 {
            assert(p.cycles == 340 && p.scan_line == 261);
            assert(n == 1);
            assert(run_ticks(q, r1, 0) == (q, r1));
        } else {
            assert(dot_index(q) == dot_index(p) + 1);
            lemma_run_position(q, r1, (n - 1) as nat);
        }
    }
}

/// Law: a frame lasts 341 × 262 PPU cycles: that many cycles after the top of a frame the
/// PPU is at the top of the next one, with the frame parity flipped.
pub proof fn lemma_frame_length(p: PpuView, r: RegistersView)
    requires
        p.cycles == 0,
        p.scan_line == 0,
    ensures
        run_ticks(p, r, 341 * 262).0.cycles == 0,
        run_ticks(p, r, 341 * 262).0.scan_line == 0,
        run_ticks(p, r, 341 * 262).0.is_even_frame != p.is_even_frame,
{
    lemma_run_position(p, r, 341 * 262);
}

/// Law: the sprite pixel at a column comes from the first sprite, in OAM order, that is
/// opaque there; the sprites after it do not show.
pub proof fn lemma_first_opaque_wins(sprites: Seq<Sprite>, x: usize, i: int, j: int)
    requires
        0 <= j <= i < sprites.len(),
        sprites[i].spec_color_index(x) > 0,
        forall|k: int| j <= k < i ==> #[trigger] sprites[k].spec_color_index(x) == 0,
    ensures
        first_opaque(sprites, x, j) == (
            0x10u8 | (sprites[i].attributes.spec_palette() << 2u8) | sprites[i].spec_color_index(x),
            sprites[i].attributes.spec_is_behind_background(),
            sprites[i].oam_index == 0 && x != 0xFF,
        ),
    decreases i - j,
{
    if j < i {
        assert(sprites[j].spec_color_index(x) == 0);
        lemma_first_opaque_wins(sprites, x, i, j + 1);
    }
}


/// Law: sprite priority on screen. Inside the visible picture, an opaque sprite pixel whose
/// priority bit is clear is shown in front of the background; one whose priority bit is set
/// is shown only where the background is transparent; with no opaque sprite the background
/// shows. The sprite-zero hit flag (bit 6 of PPUSTATUS) is raised exactly where sprite zero
/// meets an opaque background, and nothing else in the registers changes. Outside the picture
/// nothing is drawn and the registers stay as they were.
pub proof fn lemma_sprite_priority(p: PpuView, r: RegistersView, x: usize, y: usize)
    ensures
        ({
            let bg = spec_bg_pixel(p, r, x);
            let (sp, behind, zero_hit) = spec_sprite_pixel(p, r, x);
            let (pix, r1) = spec_screen_pixel(p, r, x, y);
            if x < 256 && y < 240 {
                &&& sp > 0 && !behind ==> pix == Some(sp)
                &&& sp > 0 && behind && bg > 0 ==> pix == Some(bg)
                &&& sp > 0 && behind && bg == 0 ==> pix == Some(sp)
                &&& sp == 0 ==> pix == Some(bg)
                &&& r1.status_flags.0 == (if zero_hit && bg != 0 {
                    r.status_flags.0 | 0x40
                } else {
                    r.status_flags.0
                })
                &&& (RegistersView { status_flags: r.status_flags, ..r1 }) == r
            } else {
                pix is None && r1 == r
            }
        }),
{
    crate::bits::lemma_field_values(0, 0, 0, 0, 0);
}

/// Law: the vertical blank starts on line 241, cycle 1, unless a status read has just held it
/// off: the vertical-blank flag (bit 7 of PPUSTATUS) is raised and the other status bits stay;
/// the PPU's NMI line follows bit 7 of PPUCTRL, and the cycle reports an NMI when that bit is
/// set or a PPUCTRL write forced one.
pub proof fn lemma_vblank_start(p: PpuView, r: RegistersView)
    requires
        p.scan_line == 241,
        p.cycles == 1,
        !r.vblank_suppress,
    ensures
        ({
            let (p2, r2, st) = spec_tick(p, r);
            &&& r2.status_flags.0 & 0x80 != 0
            &&& r2.status_flags.0 & 0x7F == r.status_flags.0 & 0x7F
            &&& p2.nmi == (r.ctrl_flags.0 & 0x80 != 0)
            &&& (st == PpuState::NonMaskableInterrupt) == (r.ctrl_flags.0 & 0x80 != 0 || r.force_nmi)
            &&& p2.scan_line == 241 && p2.cycles == 2
        }),
{
    reveal(spec_tick);
    crate::bits::lemma_field_values(r.status_flags.0, r.ctrl_flags.0, 0, 0, 0);
}

/// How many OAM entries from `i` on cross scan line `s`: the entry's top row (its first byte)
/// is at or above the line and the line lies within the sprite's height.
pub open spec fn crossing_from(oam: Seq<u8>, s: int, size: int, i: int) -> nat
    decreases 64 - i,
{
    if i < 0 || i >= 64 {
        0
    } else {
        (if oam[i * 4] as int <= s < oam[i * 4] as int + size { 1nat } else { 0nat }) + crossing_from(
            oam,
            s,
            size,
            i + 1,
        )
    }
}

proof fn lemma_eval_from(oam: Seq<u8>, s: int, size: int, i: int, acc: Seq<Sprite>)
    requires
        oam.len() == 256,
        0 <= i <= 64,
        acc.len() <= 8,
        forall|k: int| 0 <= k < acc.len() ==> (#[trigger] acc[k]).y <= s < acc[k].y + size,
    ensures
        ({
            let (r, over) = eval_from(oam, s, size, i, acc);
            &&& r.len() <= 8
            &&& forall|k: int| 0 <= k < r.len() ==> (#[trigger] r[k]).y <= s < r[k].y + size
            &&& forall|k: int| 0 <= k < acc.len() ==> r[k] == #[trigger] acc[k]
            &&& over ==> r.len() == 8 && acc.len() + crossing_from(oam, s, size, i) > 8
            &&& !over ==> r.len() == acc.len() + crossing_from(oam, s, size, i)
        }),
    decreases 64 - i,
{
    if i < 64 {
        let sp = sprite_of(i as usize, oam.subrange(i * 4, i * 4 + 4));
        assert(sp.y == oam[i * 4]);
        if sp.y <= s < sp.y + size {
            if acc.len() < 8 {
                let acc2 = acc.push(sp);
                lemma_eval_from(oam, s, size, i + 1, acc2);
                let (r, over) = eval_from(oam, s, size, i + 1, acc2);
                assert forall|k: int| 0 <= k < acc.len() implies r[k] == #[trigger] acc[k] by {
                    assert(acc2[k] == acc[k]);
                }
            }
        } else {
            lemma_eval_from(oam, s, size, i + 1, acc);
        }
    }
}

/// Law: sprite evaluation for scan line `s` keeps at most eight sprites, each crossing the
/// line. It reports an overflow only with eight kept and more than eight crossing; without an
/// overflow it keeps every sprite that crosses the line.
pub proof fn lemma_sprite_evaluation(oam: Seq<u8>, s: int, size: int)
    requires
        oam.len() == 256,
    ensures
        ({
            let (r, over) = eval_from(oam, s, size, 0, Seq::empty());
            &&& r.len() <= 8
            &&& forall|k: int| 0 <= k < r.len() ==> (#[trigger] r[k]).y <= s < r[k].y + size
            &&& over ==> r.len() == 8 && crossing_from(oam, s, size, 0) > 8
            &&& !over ==> r.len() == crossing_from(oam, s, size, 0)
        }),
{
    lemma_eval_from(oam, s, size, 0, Seq::empty());
}

proof fn lemma_coarse_x_bits(v: u16)
    by (bit_vector)
    ensures
        (v & 0x001F) < 31 ==> (with_field(v, 0x001F, 0, ((v & 0x001F) as u8 + 1) as u16) & 0x001F) == (v & 0x001F) + 1,
        (v & 0x001F) < 31 ==> (with_field(v, 0x001F, 0, ((v & 0x001F) as u8 + 1) as u16) & !0x001Fu16) == (v & !0x001Fu16),
        ((with_field(v, 0x001F, 0, 0) ^ 0x0400) & 0x001F) == 0,
        ((with_field(v, 0x001F, 0, 0) ^ 0x0400) & 0x0400) != (v & 0x0400),
        ((with_field(v, 0x001F, 0, 0) ^ 0x0400) & 0x7BE0) == (v & 0x7BE0),
{
}

/// Law: a step to the next tile advances coarse X; from the last column it wraps to column 0
/// of the horizontally adjacent name table. Coarse Y, fine Y and the vertical name-table bit
/// stay.
pub proof fn lemma_increment_scroll_x(r: RegistersView)
    requires
        r.mask_flags.spec_is_rendering(),
    ensures
        ({
            let v = r.vram_addr.0;
            let w = spec_increment_scroll_x(r).vram_addr.0;
            &&& (v & 0x001F) < 31 ==> (w & 0x001F) == (v & 0x001F) + 1 && (w & !0x001Fu16) == (v & !0x001Fu16)
            &&& (v & 0x001F) == 31 ==> (w & 0x001F) == 0 && (w & 0x0400) != (v & 0x0400) && (w & 0x7BE0) == (v & 0x7BE0)
        }),
{
    lemma_coarse_x_bits(r.vram_addr.0);
    crate::bits::lemma_and_u16_le(r.vram_addr.0, 0x001F);
}


proof fn lemma_fine_y_bits(v: u16)
    by (bit_vector)
    ensures
        ((v >> 12u16) & 0x0007) < 7 ==> ((with_field(v, 0x7000, 12, (((v >> 12u16) & 0x0007) as u8 + 1) as u16)
            >> 12u16) & 0x0007) == ((v >> 12u16) & 0x0007) + 1,
        ((v >> 12u16) & 0x0007) < 7 ==> (with_field(v, 0x7000, 12, (((v >> 12u16) & 0x0007) as u8 + 1) as u16)
            & 0x0FFF) == (v & 0x0FFF),
        ((with_field(v, 0x7000, 12, 0) >> 5u16) & 0x001F) == ((v >> 5u16) & 0x001F),
        ((with_field(v, 0x7000, 12, 0) >> 11u16) & 1) == ((v >> 11u16) & 1),
        (with_field(v, 0x7000, 12, 0) & 0x0FFF) == (v & 0x0FFF),
        ((with_field(v, 0x7000, 12, 0) >> 12u16) & 0x0007) == 0,
{
}

proof fn lemma_coarse_y_bits(v1: u16)
    by (bit_vector)
    requires
        (v1 >> 12u16) & 0x0007 == 0,
    ensures
        ({
            let v2 = with_field(v1, 0x03E0, 5, 0);
            let w = with_field(v2, 0x0800, 11, if !((v2 >> 11u16) & 1 == 1) { 1u16 } else { 0u16 });
            &&& (w >> 5u16) & 0x001F == 0
            &&& (w >> 12u16) & 0x0007 == 0
            &&& (w & 0x0800) != (v1 & 0x0800)
            &&& (w & 0x041F) == (v1 & 0x041F)
        }),
        ({
            let w = with_field(v1, 0x03E0, 5, 0);
            &&& (w >> 5u16) & 0x001F == 0
            &&& (w >> 12u16) & 0x0007 == 0
            &&& (w & 0x0C1F) == (v1 & 0x0C1F)
        }),
        ((v1 >> 5u16) & 0x001F) < 31 ==> ({
            let w = with_field(v1, 0x03E0, 5, (((v1 >> 5u16) & 0x001F) as u8 + 1) as u16);
            &&& (w >> 5u16) & 0x001F == ((v1 >> 5u16) & 0x001F) + 1
            &&& (w >> 12u16) & 0x0007 == 0
            &&& (w & 0x0C1F) == (v1 & 0x0C1F)
        }),
{
}

/// Law: a step to the next pixel row advances fine Y; after the eighth row of a tile it goes
/// to the next tile row, and after tile row 29 to row 0 of the vertically adjacent name table,
/// while rows 30 and 31 (attribute memory) wrap to row 0 of the same table. Coarse X and the
/// horizontal name-table bit stay.
pub proof fn lemma_increment_scroll_y(r: RegistersView)
    requires
        r.mask_flags.spec_is_rendering(),
    ensures
        ({
            let v = r.vram_addr.0;
            let w = spec_increment_scroll_y(r).vram_addr.0;
            let fy = (v >> 12u16) & 0x0007;
            let cy = (v >> 5u16) & 0x001F;
            &&& fy < 7 ==> (w >> 12u16) & 0x0007 == fy + 1 && (w & 0x0FFF) == (v & 0x0FFF)
            &&& fy == 7 ==> (w >> 12u16) & 0x0007 == 0
            &&& (fy == 7 && cy == 29) ==> (w >> 5u16) & 0x001F == 0 && (w & 0x0800) != (v & 0x0800) && (w & 0x041F)
                == (v & 0x041F)
            &&& (fy == 7 && cy == 31) ==> (w >> 5u16) & 0x001F == 0 && (w & 0x0C1F) == (v & 0x0C1F)
            &&& (fy == 7 && cy != 29 && cy != 31) ==> (w >> 5u16) & 0x001F == cy + 1 && (w & 0x0C1F) == (v
                & 0x0C1F)
        }),
{
    let v = r.vram_addr.0;
    lemma_fine_y_bits(v);
    crate::bits::lemma_and_u16_le(v >> 12u16, 0x0007);
    crate::bits::lemma_and_u16_le(v >> 5u16, 0x001F);
    let v1 = with_field(v, 0x7000, 12, 0);
    lemma_coarse_y_bits(v1);
    assert((v1 & 0x0C1F) == (v & 0x0C1F) && (v1 & 0x041F) == (v & 0x041F) && (v1 & 0x0800) == (v & 0x0800))
        by (bit_vector)
        requires
            v1 == with_field(v, 0x7000, 12, 0),
    ;
}

} // verus!
