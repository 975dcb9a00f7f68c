//! The frame: a 128 by 64 bitmap in the panel's page order.
//!
//! A page is a band of eight rows. The frame stores the pages from top to
//! bottom, each as 128 bytes from left to right; a byte holds one column of
//! its page, the topmost row in bit 0. Nothing reaches the panel before the
//! frame is flushed.

use vstd::prelude::*;
use crate::text::{raster_lit, raster_pixel, render_text, text_raster};
use crate::text::{GREETING, GREETING_X, GREETING_Y, MAX_TEXT_CHARS};

verus! {

/// Width of the panel in pixels.
pub const WIDTH: usize = 128;

/// Height of the panel in pixels.
pub const HEIGHT: usize = 64;

/// Pages in a frame.
pub const PAGES: usize = 8;

/// Bytes in a page: one for each column.
pub const PAGE_BYTES: usize = 128;

/// Bytes in a frame.
pub const FRAME_BYTES: usize = 1024;

/// Whether bit `bit` of `byte` is set.
pub open spec fn bit_lit(byte: u8, bit: u8) -> bool {
    byte & (1u8 << bit) != 0
}

/// Whether the pixel at column `x` and row `y` is lit in a frame with the
/// bytes `pages`. Outside the panel nothing is lit.
pub open spec fn pixel_of(pages: Seq<u8>, x: int, y: int) -> bool {
    &&& 0 <= x < WIDTH
    &&& 0 <= y < HEIGHT
    &&& pages.len() == FRAME_BYTES
    &&& bit_lit(pages[(y / 8) * 128 + x], (y % 8) as u8)
}

/// Setting a bit lights it and leaves the other seven alone.
proof fn lemma_bit_set(byte: u8, bit: u8, other: u8)
    requires
        bit < 8,
        other < 8,
    ensures
        bit_lit(byte | (1u8 << bit), other) == (other == bit || bit_lit(byte, other)),
{
    assert(((byte | (1u8 << bit)) & (1u8 << other) != 0) == (other == bit || (byte & (1u8
        << other) != 0))) by (bit_vector)
        requires
            bit < 8,
            other < 8,
    ;
}

/// Clearing a bit puts it out and leaves the other seven alone.
proof fn lemma_bit_cleared(byte: u8, bit: u8, other: u8)
    requires
        bit < 8,
        other < 8,
    ensures
        bit_lit(byte & !(1u8 << bit), other) == (other != bit && bit_lit(byte, other)),
{
    assert(((byte & !(1u8 << bit)) & (1u8 << other) != 0) == (other != bit && (byte & (1u8
        << other) != 0))) by (bit_vector)
        requires
            bit < 8,
            other < 8,
    ;
}

/// No bit of a zero byte is lit.
proof fn lemma_bit_of_zero(bit: u8)
    requires
        bit < 8,
    ensures
        !bit_lit(0u8, bit),
{
    assert((0u8 & (1u8 << bit)) == 0) by (bit_vector);
}

/// The bitmap that is drawn into and then sent to the panel.
#[derive(Debug)]
pub struct Framebuffer {
    pages: [u8; FRAME_BYTES],
}

impl View for Framebuffer {
    type V = Seq<u8>;

    /// The bytes of the frame, in page order.
    closed spec fn view(&self) -> Seq<u8> {
        self.pages@
    }
}

impl Framebuffer {
    /// Whether the pixel at column `x` and row `y` is lit.
    pub open spec fn pixel(&self, x: int, y: int) -> bool {
        pixel_of(self@, x, y)
    }

    /// Whether no pixel is lit.
    pub open spec fn blank(&self) -> bool {
        forall|x: int, y: int| !self.pixel(x, y)
    }

    /// A frame with no pixel lit.
    pub fn new() -> (frame: Framebuffer)
        ensures
            frame@ == Seq::new(FRAME_BYTES as nat, |i: int| 0u8),
            frame.blank(),
    {
        let pages: [u8; FRAME_BYTES] = [0u8; FRAME_BYTES];
        let frame = Framebuffer { pages };
        proof {
            assert(frame@ =~= Seq::new(FRAME_BYTES as nat, |i: int| 0u8));
            assert forall|x: int, y: int| !frame.pixel(x, y) by {
                if 0 <= x < WIDTH && 0 <= y < HEIGHT {
                    lemma_bit_of_zero((y % 8) as u8);
                }
            }
        }
        frame
    }

    /// Puts every pixel out.
    pub fn clear(&mut self)
        ensures
            final(self)@ == Seq::new(FRAME_BYTES as nat, |i: int| 0u8),
            final(self).blank(),
    {
        *self = Framebuffer::new();
    }

    /// Whether the pixel at column `x` and row `y` is lit. Outside the panel
    /// nothing is.
    pub fn get_pixel(&self, x: u32, y: u32) -> (lit: bool)
        ensures
            lit == self.pixel(x as int, y as int),
    {
        if x >= 128 || y >= 64 {
            return false;
        }
        let index: usize = (y / 8) as usize * 128 + x as usize;
        let bit: u8 = (y % 8) as u8;
        self.pages[index] & (1u8 << bit) != 0
    }

    /// Lights the pixel at column `x` and row `y`, or puts it out. No other
    /// pixel changes, and a position outside the panel changes nothing.
    pub fn set_pixel(&mut self, x: u32, y: u32, on: bool)
        ensures
            forall|a: int, b: int|
                #[trigger] final(self).pixel(a, b) == (if a == x && b == y && x < WIDTH && y
                    < HEIGHT {
                    on
                } else {
                    old(self).pixel(a, b)
                }),
            !(x < WIDTH && y < HEIGHT) ==> final(self)@ == old(self)@,
            final(self)@.len() == FRAME_BYTES,
    {
        if x >= 128 || y >= 64 {
            return;
        }
        let index: usize = (y / 8) as usize * 128 + x as usize;
        let bit: u8 = (y % 8) as u8;
        let before: u8 = self.pages[index];
        let after: u8 = if on {
            before | (1u8 << bit)
        } else {
            before & !(1u8 << bit)
        };
        self.pages[index] = after;
        proof {
            assert forall|a: int, b: int|
                self.pixel(a, b) == (if a == x && b == y {
                    on
                } else {
                    old(self).pixel(a, b)
                }) by {
                if 0 <= a < WIDTH && 0 <= b < HEIGHT {
                    let other = (b / 8) * 128 + a;
                    if other == index {
                        assert(a == x && b / 8 == y / 8);
                        if on {
                            lemma_bit_set(before, bit, (b % 8) as u8);
                        } else {
                            lemma_bit_cleared(before, bit, (b % 8) as u8);
                        }
                    }
                }
            }
        }
    }

    /// The bytes of the frame, in page order.
    pub fn as_bytes(&self) -> (bytes: &[u8])
        ensures
            bytes@ == self@,
            bytes@.len() == FRAME_BYTES,
    {
        self.pages.as_slice()
    }

    /// Lights every pixel that is lit in `raster` and leaves the others as
    /// they are.
    pub fn compose(&mut self, raster: &[u8])
        ensures
            forall|a: int, b: int|
                #[trigger] final(self).pixel(a, b) == (old(self).pixel(a, b) || raster_lit(
                    raster@,
                    a,
                    b,
                )),
            final(self)@.len() == FRAME_BYTES,
    {
        let ghost start = self@;
        let mut y: u32 = 0;
        while y < 64
            invariant
                y <= 64,
                self@.len() == FRAME_BYTES,
                forall|a: int, b: int|
                    #[trigger] self.pixel(a, b) == (pixel_of(start, a, b) || (b < y && raster_lit(
                        raster@,
                        a,
                        b,
                    ))),
            decreases 64 - y,
        {
            let mut x: u32 = 0;
            while x < 128
                invariant
                    x <= 128,
                    y < 64,
                    self@.len() == FRAME_BYTES,
                    forall|a: int, b: int|
                        #[trigger] self.pixel(a, b) == (pixel_of(start, a, b) || ((b < y || (b
                            == y && a < x)) && raster_lit(raster@, a, b))),
                decreases 128 - x,
            {
                let ghost before = self@;
                let lit = raster_pixel(raster, x, y);
                if lit {
                    self.set_pixel(x, y, true);
                }
                proof {
                    assert forall|a: int, b: int|
                        #[trigger] self.pixel(a, b) == (pixel_of(start, a, b) || ((b < y || (b
                            == y && a < x + 1)) && raster_lit(raster@, a, b))) by {
                        if a == x && b == y {
                            assert(self.pixel(a, b) == (pixel_of(before, a, b) || lit));
                        } else {
                            assert(self.pixel(a, b) == pixel_of(before, a, b));
                        }
                    }
                }
                x += 1;
            }
            y += 1;
        }
    }

    /// Draws the run `text` in the fixed font, its first character at column
    /// `x` and its baseline on row `y`. Only the pixels of the glyphs are
    /// lit; the rest of the frame stays as it is, and what falls outside the
    /// panel is dropped.
    pub fn draw_text(&mut self, text: &str, x: i16, y: i16)
        requires
            text@.len() <= MAX_TEXT_CHARS,
        ensures
            forall|a: int, b: int|
                #[trigger] final(self).pixel(a, b) == (old(self).pixel(a, b) || raster_lit(
                    text_raster(text@, x as int, y as int),
                    a,
                    b,
                )),
            final(self)@.len() == FRAME_BYTES,
    {
        let raster = render_text(text, x, y);
        self.compose(raster.as_slice());
    }

    /// Draws the greeting at its fixed place.
    pub fn draw_greeting(&mut self)
        ensures
            forall|a: int, b: int|
                #[trigger] final(self).pixel(a, b) == (old(self).pixel(a, b) || raster_lit(
                    text_raster(GREETING@, GREETING_X as int, GREETING_Y as int),
                    a,
                    b,
                )),
            final(self)@.len() == FRAME_BYTES,
    {
        proof {
            reveal_strlit("Hello from Embassy!");
        }
        self.draw_text(GREETING, GREETING_X, GREETING_Y);
    }

    /// One page of the frame: the band of eight rows with index `page`,
    /// counted from the top, as 128 column bytes. There are eight pages.
    pub fn page(&self, page: usize) -> (bytes: Option<&[u8]>)
        ensures
            bytes.is_some() == (page < PAGES),
            bytes matches Some(band) ==> band@ == self@.subrange(
                page * PAGE_BYTES,
                page * PAGE_BYTES + PAGE_BYTES,
            ),
    {
        if page >= PAGES {
            return None;
        }
        let start: usize = page * PAGE_BYTES;
        Some(vstd::slice::slice_subrange(self.pages.as_slice(), start, start + PAGE_BYTES))
    }

    /// Hands out the bytes that go to the panel: the whole frame, in page
    /// order. The frame itself stays as it is.
    pub fn flush(&mut self) -> (wire: Vec<u8>)
        ensures
            (final(self)@, wire@) == flushed(old(self)@),
    {
        vstd::slice::slice_to_vec(self.pages.as_slice())
    }
}

/// What a flush does to a frame with the bytes `frame`: the frame afterwards,
/// and the bytes sent.
pub open spec fn flushed(frame: Seq<u8>) -> (Seq<u8>, Seq<u8>) {
    (frame, frame)
}

/// Flushing twice with no draw in between leaves the frame as it was and
/// sends the same bytes both times.
pub proof fn lemma_flush_idempotent(frame: Seq<u8>)
    ensures
        flushed(flushed(frame).0) == flushed(frame),
        flushed(frame).0 == frame,
{
}

} // verus!
