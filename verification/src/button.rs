//! The button-watch task: reports the level of an input after every edge.
//!
//! The task does not tell rising edges from falling ones and does not
//! debounce. Each time it is resumed it reports the level that was sampled
//! right after the wait returned, once.

use vstd::prelude::*;
use vstd::string::StringExecFns;
use crate::level::Level;
use crate::peripherals::InputHandle;
use crate::record::Record;

verus! {

/// The button-watch task.
#[derive(Debug)]
pub struct ButtonTask {
    pin: InputHandle,
    name: String,
}

impl ButtonTask {
    /// The name the task tags its records with.
    pub closed spec fn name_text(&self) -> Seq<char> {
        self.name@
    }

    /// The record the task writes when the input is sampled at `level`.
    pub open spec fn report(&self, level: Level) -> Seq<char> {
        self.name_text() + " changed: "@ + level.name_text()
    }

    /// The input pin the task owns.
    pub closed spec fn pin(&self) -> InputHandle {
        self.pin
    }

    /// A task that watches the input pin and tags its records with `name`.
    /// The pin is the task's from here on.
    pub fn new(pin: InputHandle, name: &str) -> (task: ButtonTask)
        ensures
            task.name_text() == name@,
            task.pin() == pin,
    {
        ButtonTask { pin, name: String::from_str(name) }
    }

    /// The name the task tags its records with.
    pub fn name(&self) -> (name: &str)
        ensures
            name@ == self.name_text(),
    {
        self.name.as_str()
    }

    /// Resumes the task after an edge. `sampled` is the level read from the
    /// pin once the wait has returned.
    ///
    /// The answer is the one record of this resumption. It carries the task's
    /// name and the sampled level, whatever the level was before.
    pub fn on_edge(&self, sampled: Level) -> (record: Record)
        ensures
            record matches Record::ButtonChanged { name, level } && name@ == self.name_text()
                && level == sampled,
            record.text() == self.report(sampled),
    {
        Record::ButtonChanged { name: self.name.clone(), level: sampled }
    }

    /// Ends the task and gives back the input pin it was made over.
    pub fn release(self) -> (pin: InputHandle)
        ensures
            pin == self.pin(),
    {
        self.pin
    }
}

} // verus!
