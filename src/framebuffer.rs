//! The display surface: packed colors and block copies below the header.

use vstd::prelude::*;

verus! {

/// Rows at the top of the screen reserved for the system header; every
/// vertical coordinate of a copy is shifted down by this much.
pub const HEADER_HEIGHT: i16 = 32;

/// Width of the drawable area, in pixels.
pub const HORIZONTAL_RESOLUTION: i16 = 480;

/// Height of the drawable area, in pixels.
pub const VERTICAL_RESOLUTION: i16 = 240;

/// An 8-bit-per-channel color.
#[derive(Debug, Clone, Copy, PartialEq, Eq, Structural)]
pub struct Rgb {
    pub r: u8,
    pub g: u8,
    pub b: u8,
}

/// The packed form of a color: `0x00RRGGBB`.
pub open spec fn packed(c: Rgb) -> u32 {
    ((c.r as int) * 65536 + (c.g as int) * 256 + (c.b as int)) as u32
}

/// The color whose packed form is the low 24 bits of `raw`.
pub open spec fn unpacked(raw: u32) -> Rgb {
    Rgb { r: ((raw / 65536) % 256) as u8, g: ((raw / 256) % 256) as u8, b: (raw % 256) as u8 }
}

impl Rgb {
    /// Reads a color from its packed form; bits above the low 24 are ignored.
    pub fn from_raw(raw: u32) -> (c: Rgb)
        ensures
            c == unpacked(raw),
    {
        let r = (raw >> 16) & 0xff;
        let g = (raw >> 8) & 0xff;
        let b = raw & 0xff;
        assert(r == (raw / 65536) % 256) by (bit_vector)
            requires r == (raw >> 16) & 0xff;
        assert(g == (raw / 256) % 256) by (bit_vector)
            requires g == (raw >> 8) & 0xff;
        assert(b == raw % 256) by (bit_vector)
            requires b == raw & 0xff;
        Rgb { r: r as u8, g: g as u8, b: b as u8 }
    }

    /// The packed form of this color.
    pub fn into_raw(self) -> (raw: u32)
        ensures
            raw == packed(self),
    {
        let r = self.r as u32;
        let g = self.g as u32;
        let b = self.b as u32;
        assert((r << 16) + (g << 8) + b == r * 65536 + g * 256 + b) by (bit_vector)
            requires r < 256, g < 256, b < 256;
        (r << 16) + (g << 8) + b
    }
}

/// Packing a color and reading it back gives the same color, and reading a
/// packed word and packing it again keeps its low 24 bits.
pub proof fn lemma_pack_round_trip(c: Rgb, raw: u32)
    ensures
        unpacked(packed(c)) == c,
        packed(unpacked(raw)) == raw % 16777216,
{
    let r = c.r as u32;
    let g = c.g as u32;
    let b = c.b as u32;
    assert((r * 65536 + g * 256 + b) / 65536 % 256 == r
        && (r * 65536 + g * 256 + b) / 256 % 256 == g
        && (r * 65536 + g * 256 + b) % 256 == b) by (nonlinear_arith)
        requires r < 256, g < 256, b < 256;
    assert(((raw / 65536) % 256) * 65536 + ((raw / 256) % 256) * 256 + raw % 256 == raw % 16777216)
        by (nonlinear_arith);
}

/// A screen rectangle, start inclusive and end exclusive.
#[derive(Debug, Clone, Copy, PartialEq, Eq, Structural)]
pub struct Rect {
    pub start_x: i16,
    pub start_y: i16,
    pub end_x: i16,
    pub end_y: i16,
}

/// The number of pixels of a rectangle whose ends do not precede its starts.
pub open spec fn area(region: Rect) -> int {
    (region.end_x - region.start_x) * (region.end_y - region.start_y)
}

/// A block copy in display coordinates: corners shifted below the header,
/// the row stride, and the packed pixels.
pub struct BlitPlan {
    pub x0: i32,
    pub y0: i32,
    pub x1: i32,
    pub y1: i32,
    pub stride: i32,
    pub pixels: Vec<u32>,
}

/// The number of pixels of `region`, or `None` if an end precedes its start.
pub fn region_area(region: Rect) -> (n: Option<usize>)
    ensures
        n == if region.end_x >= region.start_x && region.end_y >= region.start_y {
            Some(area(region) as usize)
        } else {
            None::<usize>
        },
        n matches Some(k) ==> k == area(region),
{
    if region.end_x < region.start_x || region.end_y < region.start_y {
        return None;
    }
    let width = (region.end_x as i32 - region.start_x as i32) as usize;
    let height = (region.end_y as i32 - region.start_y as i32) as usize;
    assert(width * height <= 65535 * 65535) by (nonlinear_arith)
        requires width <= 65535, height <= 65535;
    assert(usize::MAX >= 0xffff_ffff);
    Some(width * height)
}

/// Plans the copy of `buf` into `region`: the colors packed in order, the
/// corners moved below the header, and the stride one row of the region.
/// The buffer holds exactly one color per pixel of the region.
pub fn draw_plan(region: Rect, buf: &Vec<Rgb>) -> (p: BlitPlan)
    requires
        region.end_x >= region.start_x,
        region.end_y >= region.start_y,
        buf@.len() == area(region),
    ensures
        p.x0 == region.start_x,
        p.y0 == region.start_y + HEADER_HEIGHT,
        p.x1 == region.end_x,
        p.y1 == region.end_y + HEADER_HEIGHT,
        p.stride == region.end_x - region.start_x,
        p.pixels@.len() == buf@.len(),
        forall|i: int| 0 <= i < buf@.len() ==> p.pixels@[i] == packed(#[trigger] buf@[i]),
{
    let mut pixels: Vec<u32> = Vec::new();
    let mut i: usize = 0;
    while i < buf.len()
        invariant
            i <= buf@.len(),
            pixels@.len() == i,
            forall|j: int| 0 <= j < i ==> pixels@[j] == packed(#[trigger] buf@[j]),
        decreases buf@.len() - i,
    {
        pixels.push(buf[i].into_raw());
        i = i + 1;
    }
    BlitPlan {
        x0: region.start_x as i32,
        y0: region.start_y as i32 + HEADER_HEIGHT as i32,
        x1: region.end_x as i32,
        y1: region.end_y as i32 + HEADER_HEIGHT as i32,
        stride: region.end_x as i32 - region.start_x as i32,
        pixels,
    }
}

/// The whole drawable area.
pub fn full_screen() -> (r: Rect)
    ensures
        r == (Rect { start_x: 0, start_y: 0, end_x: HORIZONTAL_RESOLUTION, end_y: VERTICAL_RESOLUTION }),
{
    Rect { start_x: 0, start_y: 0, end_x: HORIZONTAL_RESOLUTION, end_y: VERTICAL_RESOLUTION }
}

} // verus!
