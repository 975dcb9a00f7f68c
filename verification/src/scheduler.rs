//! The scheduler: one thread, cooperative, with a slot for each standing
//! task.
//!
//! A task is moved into its slot and stays there; no task ends and none is
//! taken out. In a turn the scheduler resumes every task whose wait is over
//! and runs it to its next wait. Tasks never run at the same time: within a
//! turn the blink task comes first, the button-watch task second.

use vstd::prelude::*;
use crate::blink::{BlinkState, BlinkTask};
use crate::button::ButtonTask;
use crate::level::Level;
use crate::record::Record;

verus! {

/// What one turn asks of the hardware and the log.
#[derive(Debug)]
pub struct Turn {
    /// Level to drive on the LED pin, if the blink task ran.
    pub led: Option<Level>,
    /// Time the blink task sleeps from now, in milliseconds, if it ran.
    pub sleep_ms: Option<u64>,
    /// The records of the turn, in the order they were written.
    pub records: Vec<Record>,
}

/// The scheduler.
#[derive(Debug)]
pub struct Scheduler {
    blink: Option<BlinkTask>,
    button: Option<ButtonTask>,
}

/// Whether `record` is the report of a button-watch task called `name` that
/// sampled `level`.
pub open spec fn is_report(record: Record, name: Seq<char>, level: Level) -> bool {
    record matches Record::ButtonChanged { name: tag, level: seen } && tag@ == name && seen
        == level
}

impl Scheduler {
    /// The blink task, if one is registered.
    pub closed spec fn blink(&self) -> Option<BlinkState> {
        match self.blink {
            Some(task) => Some(task@),
            None => None,
        }
    }

    /// The name of the button-watch task, if one is registered.
    pub closed spec fn button(&self) -> Option<Seq<char>> {
        match self.button {
            Some(task) => Some(task.name_text()),
            None => None,
        }
    }

    /// Whether the scheduler is past idle: a task is registered.
    pub open spec fn running(&self) -> bool {
        self.blink().is_some() || self.button().is_some()
    }

    /// Whether a turn at `now` resumes the blink task.
    pub open spec fn blink_due(&self, now: int) -> bool {
        self.blink() matches Some(task) && task.due(now)
    }

    /// Whether a turn with the edge event `edge` resumes the button-watch
    /// task.
    pub open spec fn button_due(&self, edge: Option<Level>) -> bool {
        self.button().is_some() && edge.is_some()
    }

    /// An idle scheduler: no task is registered.
    pub fn new() -> (scheduler: Scheduler)
        ensures
            scheduler.blink().is_none(),
            scheduler.button().is_none(),
            !scheduler.running(),
    {
        Scheduler { blink: None, button: None }
    }

    /// Whether a task is registered.
    pub fn is_running(&self) -> (running: bool)
        ensures
            running == self.running(),
    {
        self.blink.is_some() || self.button.is_some()
    }

    /// Registers the blink task. The slot takes one task: a second one is
    /// handed back and changes nothing.
    pub fn spawn_blink(&mut self, task: BlinkTask) -> (refused: Option<BlinkTask>)
        ensures
            final(self).button() == old(self).button(),
            match old(self).blink() {
                None => refused.is_none() && final(self).blink() == Some(task@),
                Some(_) => refused == Some(task) && final(self).blink() == old(self).blink(),
            },
    {
        if self.blink.is_some() {
            return Some(task);
        }
        self.blink = Some(task);
        None
    }

    /// Registers the button-watch task. The slot takes one task: a second
    /// one is handed back and changes nothing.
    pub fn spawn_button(&mut self, task: ButtonTask) -> (refused: Option<ButtonTask>)
        ensures
            final(self).blink() == old(self).blink(),
            match old(self).button() {
                None => refused.is_none() && final(self).button() == Some(task.name_text()),
                Some(_) => refused == Some(task) && final(self).button() == old(self).button(),
            },
    {
        if self.button.is_some() {
            return Some(task);
        }
        self.button = Some(task);
        None
    }

    /// Runs one turn at time `now`. `edge` is the level sampled on the button
    /// pin if an edge has come since the last turn.
    ///
    /// The blink task runs if it is registered and its timer has expired; it
    /// then writes one record and asks for the LED level and its next sleep.
    /// The button-watch task runs if it is registered and an edge has come;
    /// it then writes one record, with the sampled level. A task that does
    /// not run writes nothing and stays as it is.
    pub fn turn(&mut self, now: u64, edge: Option<Level>) -> (turn: Turn)
        ensures
            final(self).button() == old(self).button(),
            final(self).blink() == match old(self).blink() {
                Some(task) => Some(task.after_poll(now as int)),
                None => None,
            },
            turn.records@.len() == (if old(self).blink_due(now as int) {
                1int
            } else {
                0int
            }) + (if old(self).button_due(edge) {
                1int
            } else {
                0int
            }),
            old(self).blink_due(now as int) ==> turn.records@[0] == Record::led(
                old(self).blink().unwrap().next,
            ) && turn.led == Some(old(self).blink().unwrap().next) && turn.sleep_ms == Some(
                old(self).blink().unwrap().interval as u64,
            ),
            !old(self).blink_due(now as int) ==> turn.led.is_none() && turn.sleep_ms.is_none(),
            old(self).button_due(edge) ==> is_report(
                turn.records@[turn.records@.len() - 1],
                old(self).button().unwrap(),
                edge.unwrap(),
            ),
    {
        let mut records: Vec<Record> = Vec::new();
        let mut led: Option<Level> = None;
        let mut sleep_ms: Option<u64> = None;
        match self.blink.take() {
            Some(task) => {
                let mut task = task;
                match task.poll(now) {
                    Some(step) => {
                        led = Some(step.level);
                        sleep_ms = Some(step.sleep_ms);
                        records.push(step.record);
                    },
                    None => {},
                }
                self.blink = Some(task);
            },
            None => {},
        }
        match (&self.button, edge) {
            (Some(task), Some(sampled)) => {
                records.push(task.on_edge(sampled));
            },
            _ => {},
        }
        Turn { led, sleep_ms, records }
    }
}

} // verus!
