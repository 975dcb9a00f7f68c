//! Diagnostic records: what the firmware reports on its log channel.

use vstd::prelude::*;
use vstd::string::StringExecFns;
use crate::level::Level;

verus! {

/// One informational record for the diagnostic sink.
#[derive(Clone, Debug, PartialEq, Eq)]
pub enum Record {
    /// The start-up routine has the peripherals and is about to register tasks.
    Starting,
    /// The blink task drove the LED high.
    LedOn,
    /// The blink task drove the LED low.
    LedOff,
    /// The named input settled at `level` after an edge.
    ButtonChanged { name: String, level: Level },
    /// The frame has reached the panel.
    DisplayUpdated,
}

impl Record {
    /// The free text of the record.
    pub open spec fn text(&self) -> Seq<char> {
        match self {
            Record::Starting => "Starting stm32-gpios"@,
            Record::LedOn => "On"@,
            Record::LedOff => "Off"@,
            Record::ButtonChanged { name, level } => name@ + " changed: "@ + level.name_text(),
            Record::DisplayUpdated => "Display updated."@,
        }
    }

    /// Whether the blink task wrote the record.
    pub open spec fn from_blink(&self) -> bool {
        self is LedOn || self is LedOff
    }

    /// Whether a button-watch task wrote the record.
    pub open spec fn from_button(&self) -> bool {
        self is ButtonChanged
    }

    /// The record the blink task writes when it has driven the LED to `level`.
    pub open spec fn led(level: Level) -> Record {
        if level.high() {
            Record::LedOn
        } else {
            Record::LedOff
        }
    }

    /// Record for an LED that has just been driven to `level`.
    pub fn for_led(level: Level) -> (record: Record)
        ensures
            record == Record::led(level),
    {
        match level {
            Level::High => Record::LedOn,
            Level::Low => Record::LedOff,
        }
    }

    /// Whether the blink task wrote the record.
    pub fn is_from_blink(&self) -> (yes: bool)
        ensures
            yes == self.from_blink(),
    {
        match self {
            Record::LedOn => true,
            Record::LedOff => true,
            _ => false,
        }
    }

    /// Whether a button-watch task wrote the record.
    pub fn is_from_button(&self) -> (yes: bool)
        ensures
            yes == self.from_button(),
    {
        match self {
            Record::ButtonChanged { .. } => true,
            _ => false,
        }
    }

    /// Renders the record as the line of text the sink receives.
    pub fn message(&self) -> (line: String)
        ensures
            line@ == self.text(),
    {
        match self {
            Record::Starting => String::from_str("Starting stm32-gpios"),
            Record::LedOn => String::from_str("On"),
            Record::LedOff => String::from_str("Off"),
            Record::ButtonChanged { name, level } => {
                let mut line = String::from_str(name.as_str());
                line.append(" changed: ");
                line.append(level.name());
                line
            },
            Record::DisplayUpdated => String::from_str("Display updated."),
        }
    }
}

} // verus!
