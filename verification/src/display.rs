//! Display bring-up: initialise the panel, clear the frame, draw the
//! greeting, flush. It runs once, before the standing tasks start.
//!
//! The two steps that go over the bus are carried out by the panel's driver.
//! Each stage of the sequence is a type of its own, which is consumed by the
//! outcome of its bus step: a stage cannot be skipped or entered twice, and
//! after a failure nothing is left to go on with.

use vstd::prelude::*;
use crate::bus::BusError;
use crate::framebuffer::{flushed, Framebuffer, FRAME_BYTES};
use crate::record::Record;
use crate::text::{raster_lit, text_raster, GREETING, GREETING_X, GREETING_Y};

verus! {

/// The bus steps of the bring-up.
#[derive(Clone, Copy, Debug, PartialEq, Eq, Structural)]
pub enum BusStep {
    /// The panel's own start-up command sequence.
    Init,
    /// The transfer of the frame.
    Flush,
}

/// A failure during bring-up. There is no recovery from it: the start-up
/// routine stops for good.
#[derive(Clone, Copy, Debug, PartialEq, Eq, Structural)]
pub struct FatalFault {
    /// The step that failed.
    pub step: BusStep,
    /// What the bus reported.
    pub cause: BusError,
}

/// Whether the pixel at column `x` and row `y` belongs to the greeting.
pub open spec fn greeting_pixel(x: int, y: int) -> bool {
    raster_lit(text_raster(GREETING@, GREETING_X as int, GREETING_Y as int), x, y)
}

/// The display before its start-up sequence has ended.
#[derive(Debug)]
pub struct PendingInit {
    frame: Framebuffer,
}

/// The display with the greeting drawn and not yet on the panel.
#[derive(Debug)]
pub struct Composed {
    frame: Framebuffer,
}

/// The display with the greeting on the panel.
#[derive(Debug)]
pub struct Shown {
    frame: Framebuffer,
}

impl PendingInit {
    /// The bytes of the frame, in page order.
    pub closed spec fn frame_bytes(&self) -> Seq<u8> {
        self.frame@
    }

    /// The display as the start-up routine finds it: its frame has no pixel
    /// lit. The next thing to do is the panel's start-up sequence.
    pub fn new() -> (display: PendingInit)
        ensures
            display.frame_bytes() == Seq::new(FRAME_BYTES as nat, |i: int| 0u8),
    {
        PendingInit { frame: Framebuffer::new() }
    }

    /// Takes the outcome of the panel's start-up sequence.
    ///
    /// After a success the frame is cleared and the greeting is drawn into
    /// it: the frame then shows the greeting and nothing else. A failure is
    /// fatal and carries the bus error as it came.
    pub fn finish(self, outcome: Result<(), BusError>) -> (next: Result<Composed, FatalFault>)
        ensures
            match outcome {
                Ok(_) => next matches Ok(display) && display.shows_greeting(),
                Err(cause) => next matches Err(fault) && fault == (FatalFault {
                    step: BusStep::Init,
                    cause,
                }),
            },
    {
        match outcome {
            Ok(_) => {
                let mut frame = self.frame;
                frame.clear();
                frame.draw_greeting();
                Ok(Composed { frame })
            },
            Err(cause) => Err(FatalFault { step: BusStep::Init, cause }),
        }
    }
}

impl Composed {
    /// The bytes of the frame, in page order.
    pub closed spec fn frame_bytes(&self) -> Seq<u8> {
        self.frame@
    }

    /// Whether the pixel at column `x` and row `y` of the frame is lit.
    pub closed spec fn pixel(&self, x: int, y: int) -> bool {
        self.frame.pixel(x, y)
    }

    /// Whether the frame shows the greeting and nothing else.
    pub open spec fn shows_greeting(&self) -> bool {
        forall|x: int, y: int| #[trigger] self.pixel(x, y) == greeting_pixel(x, y)
    }

    /// The frame.
    pub fn frame(&self) -> (frame: &Framebuffer)
        ensures
            frame@ == self.frame_bytes(),
            forall|x: int, y: int| #[trigger] frame.pixel(x, y) == self.pixel(x, y),
    {
        &self.frame
    }

    /// Hands out the bytes to send to the panel. The frame stays as it is.
    pub fn flush(&mut self) -> (wire: Vec<u8>)
        ensures
            (final(self).frame_bytes(), wire@) == flushed(old(self).frame_bytes()),
            forall|x: int, y: int| #[trigger] final(self).pixel(x, y) == old(self).pixel(x, y),
    {
        self.frame.flush()
    }

    /// Takes the outcome of the transfer of the frame.
    ///
    /// After a success the frame is on the panel, unchanged. A failure is
    /// fatal and carries the bus error as it came.
    pub fn finish(self, outcome: Result<(), BusError>) -> (next: Result<Shown, FatalFault>)
        ensures
            match outcome {
                Ok(_) => next matches Ok(display) && display.frame_bytes() == self.frame_bytes(),
                Err(cause) => next matches Err(fault) && fault == (FatalFault {
                    step: BusStep::Flush,
                    cause,
                }),
            },
    {
        match outcome {
            Ok(_) => Ok(Shown { frame: self.frame }),
            Err(cause) => Err(FatalFault { step: BusStep::Flush, cause }),
        }
    }
}

impl Shown {
    /// The bytes of the frame on the panel, in page order.
    pub closed spec fn frame_bytes(&self) -> Seq<u8> {
        self.frame@
    }

    /// The frame that is on the panel.
    pub fn frame(&self) -> (frame: &Framebuffer)
        ensures
            frame@ == self.frame_bytes(),
    {
        &self.frame
    }

    /// The record that closes the bring-up.
    pub fn record(&self) -> (record: Record)
        ensures
            record == Record::DisplayUpdated,
    {
        Record::DisplayUpdated
    }
}

} // verus!
