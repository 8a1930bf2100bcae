//! RGB565 frame buffer for the 240x135 landscape screen.
//!
//! [`Fb`] wraps a caller-owned slice of 16-bit pixels, row after row, 240
//! pixels per row. Drawing a pixel stores its raw RGB565 value at index
//! `x + 240 * y`. Pixels outside the 240x135 drawing area (a negative
//! coordinate, `x >= 240` or `y >= 135`), or whose index falls past the end
//! of the slice, are discarded.

use vstd::prelude::*;
use embedded_graphics::pixelcolor::IntoStorage;
use crate::{HEIGHT, WIDTH};

verus! {

/// A pixel to draw: position and raw RGB565 value.
#[derive(Debug, Clone, Copy, PartialEq, Eq, Structural)]
pub struct RawPixel {
    pub x: i32,
    pub y: i32,
    pub color: u16,
}

/// The RGB565 word of a colour: 5 bits of red (bits 15..11), 6 bits of
/// green (bits 10..5), 5 bits of blue (bits 4..0); the unused high bits of
/// each channel value are dropped.
pub open spec fn rgb565_word(r: u8, g: u8, b: u8) -> int {
    (r % 32) as int * 2048 + (g % 64) as int * 32 + (b % 32) as int
}

/// Builds the colour with `Rgb565::new(r, g, b)` and calls `into_storage`
/// on it (embedded-graphics). Claimed: the result is the RGB565 word of the channels, each channel
/// limited by clearing its unused most significant bits (as `Rgb565::new`
/// documents), red in the top five bits, green in the middle six, blue in
/// the low five.
#[verifier::external_body]
fn rgb565_storage(r: u8, g: u8, b: u8) -> (v: u16)
    ensures
        v as int == rgb565_word(r, g, b),
{
    embedded_graphics::pixelcolor::Rgb565::new(r, g, b).into_storage()
}

impl RawPixel {
    /// The pixel at (x, y) with the RGB565 colour of the given channels.
    pub fn from_rgb(x: i32, y: i32, r: u8, g: u8, b: u8) -> (p: RawPixel)
        ensures
            p.x == x,
            p.y == y,
            p.color as int == rgb565_word(r, g, b),
    {
        RawPixel { x, y, color: rgb565_storage(r, g, b) }
    }
}

/// Index of pixel (x, y) in the buffer.
pub open spec fn pixel_index(x: int, y: int) -> int {
    x + WIDTH * y
}

/// Whether a pixel lies in the drawing area and lands inside a buffer of
/// `len` entries.
pub open spec fn lands(p: RawPixel, len: int) -> bool {
    &&& 0 <= p.x < WIDTH
    &&& 0 <= p.y < HEIGHT
    &&& pixel_index(p.x as int, p.y as int) < len
}

/// The buffer after drawing one pixel.
pub open spec fn draw_one(buf: Seq<u16>, p: RawPixel) -> Seq<u16> {
    if lands(p, buf.len() as int) {
        buf.update(pixel_index(p.x as int, p.y as int), p.color)
    } else {
        buf
    }
}

/// The buffer after drawing the pixels in order (a later pixel at the same
/// place wins).
pub open spec fn draw_all(buf: Seq<u16>, pixels: Seq<RawPixel>) -> Seq<u16>
    decreases pixels.len(),
{
    if pixels.len() == 0 {
        buf
    } else {
        draw_one(draw_all(buf, pixels.drop_last()), pixels.last())
    }
}

/// Frame buffer over a caller-owned pixel slice.
pub struct Fb<'a> {
    pub buf: &'a mut [u16],
}

impl<'a> Fb<'a> {
    /// Drawing area: the landscape screen size.
    pub fn size(&self) -> (wh: (u32, u32))
        ensures
            wh == (WIDTH, HEIGHT),
    {
        (WIDTH, HEIGHT)
    }

    /// Draws the pixels in order.
    pub fn draw_iter(&mut self, pixels: &[RawPixel])
        ensures
            final(self).buf@ == draw_all(old(self).buf@, pixels@),
    {
        let len = self.buf.len();
        let mut i: usize = 0;
        while i < pixels.len()
            invariant
                i <= pixels.len(),
                len == self.buf@.len(),
                self.buf@ == draw_all(old(self).buf@, pixels@.subrange(0, i as int)),
            decreases pixels.len() - i,
        {
            let p = pixels[i];
            if p.x >= 0 && p.y >= 0 && p.x < WIDTH as i32 && p.y < HEIGHT as i32 {
                let idx: usize = p.x as usize + p.y as usize * (WIDTH as usize);
                if idx < len {
                    self.buf[idx] = p.color;
                }
            }
            proof {
                assert(pixels@.subrange(0, i + 1).drop_last() =~= pixels@.subrange(0, i as int));
                assert(pixels@.subrange(0, i + 1).last() == p);
            }
            i = i + 1;
        }
        assert(pixels@.subrange(0, pixels@.len() as int) =~= pixels@);
    }
}

/// Drawing never changes the buffer length, and a pixel that does not land
/// (outside the 240x135 area, or index past the end) changes nothing.
pub proof fn lemma_draw_in_bounds(buf: Seq<u16>, pixels: Seq<RawPixel>)
    ensures
        draw_all(buf, pixels).len() == buf.len(),
        forall|p: RawPixel| !lands(p, buf.len() as int) ==> draw_one(buf, p) == buf,
    decreases pixels.len(),
{
    if pixels.len() > 0 {
        lemma_draw_in_bounds(buf, pixels.drop_last());
    }
}

/// Entries that no landing pixel addresses keep their value.
pub proof fn lemma_draw_untouched(buf: Seq<u16>, pixels: Seq<RawPixel>, k: int)
    requires
        0 <= k < buf.len(),
        forall|j: int|
            0 <= j < pixels.len() && lands(pixels[j], buf.len() as int) ==> pixel_index(
                pixels[j].x as int,
                pixels[j].y as int,
            ) != k,
    ensures
        draw_all(buf, pixels)[k] == buf[k],
    decreases pixels.len(),
{
    if pixels.len() > 0 {
        let init = pixels.drop_last();
        assert forall|j: int|
            0 <= j < init.len() && lands(init[j], buf.len() as int) implies pixel_index(
            init[j].x as int,
            init[j].y as int,
        ) != k by {
            assert(init[j] == pixels[j]);
        }
        lemma_draw_untouched(buf, init, k);
        lemma_draw_in_bounds(buf, init);
        assert(pixels.last() == pixels[pixels.len() - 1]);
    }
}

/// A pixel outside the drawing area never changes the frame: in particular
/// (240, 0) does not wrap onto the start of the next row, nor (0, 135) past
/// the last row.
pub proof fn lemma_off_screen_discarded(buf: Seq<u16>, p: RawPixel)
    requires
        p.x < 0 || p.x >= WIDTH || p.y < 0 || p.y >= HEIGHT,
    ensures
        draw_one(buf, p) == buf,
{
}

} // verus!
