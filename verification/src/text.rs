//! Text as pixels: a run of characters in the fixed 6 by 10 monochrome font,
//! rasterised by the `embedded-graphics` crate.
//!
//! The raster is a bitmap as wide and as high as the panel, row by row from
//! the top, sixteen bytes to a row, the leftmost pixel of a byte in its top
//! bit.

use vstd::prelude::*;
use embedded_graphics::framebuffer::Framebuffer as Canvas;
use embedded_graphics::geometry::Point;
use embedded_graphics::mono_font::ascii::FONT_6X10;
use embedded_graphics::mono_font::MonoTextStyle;
use embedded_graphics::pixelcolor::raw::{LittleEndian, RawU1};
use embedded_graphics::pixelcolor::BinaryColor;
use embedded_graphics::text::Text;
use embedded_graphics::Drawable;
use crate::framebuffer::{FRAME_BYTES, HEIGHT, WIDTH};

verus! {

/// Bytes in a raster.
pub const RASTER_BYTES: usize = 1024;

/// Longest run of characters that is rasterised.
pub const MAX_TEXT_CHARS: usize = 65536;

/// The text the firmware shows after bring-up.
pub const GREETING: &'static str = "Hello from Embassy!";

/// Column of the greeting's first character.
pub const GREETING_X: i16 = 0;

/// Row of the greeting's baseline.
pub const GREETING_Y: i16 = 10;

/// The raster of the run `text` whose first character stands at column `x`
/// with its baseline on row `y`: what `embedded-graphics` draws for it, in
/// lit pixels only, on an empty canvas of the panel's size.
pub uninterp spec fn text_raster(text: Seq<char>, x: int, y: int) -> Seq<u8>;

/// Whether the pixel at column `x` and row `y` is lit in `raster`. Outside
/// the panel, and in a raster of the wrong size, nothing is lit.
pub open spec fn raster_lit(raster: Seq<u8>, x: int, y: int) -> bool {
    &&& 0 <= x < WIDTH
    &&& 0 <= y < HEIGHT
    &&& raster.len() == RASTER_BYTES
    &&& raster[y * 16 + x / 8] & (0x80u8 >> ((x % 8) as u8)) != 0
}

/// Whether the pixel at column `x` and row `y` is lit in `raster`.
pub fn raster_pixel(raster: &[u8], x: u32, y: u32) -> (lit: bool)
    ensures
        lit == raster_lit(raster@, x as int, y as int),
{
    if x >= 128 || y >= 64 || raster.len() != RASTER_BYTES {
        return false;
    }
    let index: usize = y as usize * 16 + (x / 8) as usize;
    let bit: u8 = (x % 8) as u8;
    raster[index] & (0x80u8 >> bit) != 0
}

/// Rasterises `text` with `embedded_graphics::text::Text::draw`, in the
/// style `MonoTextStyle::new(&FONT_6X10, BinaryColor::On)`, on a fresh
/// `embedded_graphics::framebuffer::Framebuffer` of one bit per pixel, and
/// reads the result with the canvas's `data`.
///
/// Taken on trust: the bytes that come back are the canvas's data after the
/// draw, which for given text and position are always the same, and there
/// are as many of them as the canvas has.
#[verifier::external_body]
pub(crate) fn render_text(text: &str, x: i16, y: i16) -> (raster: Vec<u8>)
    requires
        text@.len() <= MAX_TEXT_CHARS,
    ensures
        raster@ == text_raster(text@, x as int, y as int),
        raster@.len() == RASTER_BYTES,
{
    let mut canvas = Canvas::<BinaryColor, RawU1, LittleEndian, WIDTH, HEIGHT, FRAME_BYTES>::new();
    let style = MonoTextStyle::new(&FONT_6X10, BinaryColor::On);
    let run = Text::new(text, Point::new(i32::from(x), i32::from(y)), style);
    let _ = run.draw(&mut canvas);
    canvas.data().to_vec()
}

} // verus!
