//! The start-up routine: take the peripherals, register the standing tasks,
//! bring the display up, and only then let the scheduler run.
//!
//! The tasks are registered before the display is touched, but none of them
//! runs before the bring-up has ended well. A fault during bring-up ends the
//! program: the scheduler is given up with the tasks in it.

use vstd::prelude::*;
use crate::blink::{BlinkState, BlinkTask, BLINK_INTERVAL_MS};
use crate::bus::Adapter;
use crate::button::ButtonTask;
use crate::display::{FatalFault, PendingInit, Shown};
use crate::peripherals::Peripherals;
use crate::record::Record;
use crate::scheduler::Scheduler;

verus! {

/// The name the button-watch task reports under.
pub const BUTTON_NAME: &'static str = "B1";

/// The scheduler with its tasks registered, held back until the display is
/// up.
#[derive(Debug)]
pub struct Parked {
    scheduler: Scheduler,
}

/// The firmware after the first half of start-up.
#[derive(Debug)]
pub struct Booted {
    /// The scheduler, held back.
    pub parked: Parked,
    /// The blocking bridge over the bus master, for the panel's driver.
    pub adapter: Adapter,
    /// The display, waiting for its start-up sequence.
    pub display: PendingInit,
    /// The records written so far.
    pub records: Vec<Record>,
}

impl Parked {
    /// The blink task in the scheduler that is held back.
    pub closed spec fn blink(&self) -> Option<BlinkState> {
        self.scheduler.blink()
    }

    /// The name of the button-watch task in the scheduler that is held back.
    pub closed spec fn button(&self) -> Option<Seq<char>> {
        self.scheduler.button()
    }

    /// Ends the start-up with the result of the display bring-up.
    ///
    /// After a good bring-up the scheduler is released, with the tasks as
    /// they were registered, together with the record that closes the
    /// bring-up. After a fault the scheduler is gone and the fault comes
    /// back as it was: no task will ever run.
    pub fn complete(self, bring_up: Result<Shown, FatalFault>) -> (end: Result<
        (Scheduler, Record),
        FatalFault,
    >)
        ensures
            match bring_up {
                Ok(_) => end matches Ok(run) && run.0.blink() == self.blink() && run.0.button()
                    == self.button() && run.1 == Record::DisplayUpdated,
                Err(fault) => end == Err::<(Scheduler, Record), FatalFault>(fault),
            },
    {
        match bring_up {
            Ok(shown) => Ok((self.scheduler, shown.record())),
            Err(fault) => Err(fault),
        }
    }
}

/// The first half of start-up.
///
/// With all three peripherals still in the set, the routine writes its
/// opening record, registers a fresh blink task with the standard interval
/// and a button-watch task under the standard name, and builds the bridge
/// and the display for the bring-up. If a peripheral has been handed out
/// before, there is nothing to start.
pub fn boot(peripherals: Peripherals) -> (booted: Option<Booted>)
    ensures
        booted.is_some() == (peripherals.has_led() && peripherals.has_button()
            && peripherals.has_bus()),
        booted matches Some(up) ==> {
            &&& up.parked.blink() == Some(BlinkState::fresh(BLINK_INTERVAL_MS as int))
            &&& up.parked.button() == Some(BUTTON_NAME@)
            &&& up.records@ == seq![Record::Starting]
        },
{
    let mut peripherals = peripherals;
    let led = peripherals.take_led();
    let button = peripherals.take_button();
    let bus = peripherals.take_bus();
    match (led, button, bus) {
        (Some(led), Some(button), Some(bus)) => {
            let mut records: Vec<Record> = Vec::new();
            records.push(Record::Starting);
            let mut scheduler = Scheduler::new();
            let _ = scheduler.spawn_blink(BlinkTask::new(led, BLINK_INTERVAL_MS));
            let _ = scheduler.spawn_button(ButtonTask::new(button, BUTTON_NAME));
            assert(records@ =~= seq![Record::Starting]);
            Some(
                Booted {
                    parked: Parked { scheduler },
                    adapter: Adapter::new(bus),
                    display: PendingInit::new(),
                    records,
                },
            )
        },
        _ => None,
    }
}

} // verus!
