//! Electrical level of a digital pin.

use vstd::prelude::*;

verus! {

/// Static level of a digital line.
#[derive(Clone, Copy, Debug, PartialEq, Eq, Structural)]
pub enum Level {
    Low,
    High,
}

impl Level {
    /// Whether the line is high, as a mathematical fact about the value.
    pub open spec fn high(self) -> bool {
        self == Level::High
    }

    /// The other level.
    pub open spec fn flipped(self) -> Level {
        if self == Level::High {
            Level::Low
        } else {
            Level::High
        }
    }

    /// Level that a sample of the line stands for: `true` is high.
    pub fn from_high(high: bool) -> (level: Level)
        ensures
            level.high() == high,
    {
        if high {
            Level::High
        } else {
            Level::Low
        }
    }

    /// Whether the line is high.
    pub fn is_high(self) -> (high: bool)
        ensures
            high == self.high(),
    {
        match self {
            Level::High => true,
            Level::Low => false,
        }
    }

    /// Whether the line is low.
    pub fn is_low(self) -> (low: bool)
        ensures
            low == !self.high(),
    {
        match self {
            Level::High => false,
            Level::Low => true,
        }
    }

    /// The opposite level.
    pub fn toggled(self) -> (other: Level)
        ensures
            other == self.flipped(),
    {
        match self {
            Level::High => Level::Low,
            Level::Low => Level::High,
        }
    }

    /// Lower-case name of the level, as the button report prints it.
    pub fn name(self) -> (text: &'static str)
        ensures
            text@ == self.name_text(),
    {
        match self {
            Level::High => "high",
            Level::Low => "low",
        }
    }

    /// The characters of [`Level::name`].
    pub open spec fn name_text(self) -> Seq<char> {
        if self.high() {
            "high"@
        } else {
            "low"@
        }
    }
}

} // verus!
