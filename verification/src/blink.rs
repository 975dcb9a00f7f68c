//! The blink task: drives the LED high and low in turn, holding each level
//! for a fixed interval.
//!
//! The task owns the output pin. Whoever runs it polls it with the current
//! time; the task answers with the level to drive, the record to write and the
//! time to sleep, or with nothing while its timer has not expired.

use vstd::prelude::*;
use crate::level::Level;
use crate::peripherals::OutputHandle;
use crate::record::Record;

verus! {

/// Time each level is held, in milliseconds.
pub const BLINK_INTERVAL_MS: u64 = 500;

/// What a blink task is, mathematically.
pub struct BlinkState {
    /// Time each level is held.
    pub interval: int,
    /// Level that the next resumption drives.
    pub next: Level,
    /// Time of the last resumption, if there was one.
    pub armed: Option<int>,
}

impl BlinkState {
    /// A task that has not run yet.
    pub open spec fn fresh(interval: int) -> BlinkState {
        BlinkState { interval, next: Level::High, armed: None }
    }

    /// Whether a poll at `now` resumes the task: always the first time, and
    /// afterwards once the interval since the last resumption has passed.
    pub open spec fn due(self, now: int) -> bool {
        match self.armed {
            None => true,
            Some(at) => now >= at + self.interval,
        }
    }

    /// The task after a poll at `now`.
    pub open spec fn after_poll(self, now: int) -> BlinkState {
        if self.due(now) {
            BlinkState { interval: self.interval, next: self.next.flipped(), armed: Some(now) }
        } else {
            self
        }
    }
}

/// One change of the LED: the level driven and the time of the poll that
/// drove it.
pub struct Emission {
    pub level: Level,
    pub at: int,
}

/// The changes of the LED that polls at `times`, in this order, produce.
pub open spec fn emissions(state: BlinkState, times: Seq<int>) -> Seq<Emission>
    decreases times.len(),
{
    if times.len() == 0 {
        Seq::empty()
    } else {
        let rest = emissions(state.after_poll(times[0]), times.drop_first());
        if state.due(times[0]) {
            seq![Emission { level: state.next, at: times[0] }] + rest
        } else {
            rest
        }
    }
}

/// The level that the `k`-th change drives when the first one drives `first`.
pub open spec fn level_in_turn(first: Level, k: int) -> Level {
    if k % 2 == 0 {
        first
    } else {
        first.flipped()
    }
}

/// What the caller has to do after a poll that resumed the task.
#[derive(Clone, Debug, PartialEq, Eq)]
pub struct BlinkStep {
    /// Level to drive on the output pin.
    pub level: Level,
    /// Record to write.
    pub record: Record,
    /// Time to sleep before the next poll, in milliseconds.
    pub sleep_ms: u64,
}

/// The blink task.
#[derive(Debug)]
pub struct BlinkTask {
    led: OutputHandle,
    interval: u64,
    next: Level,
    armed: Option<u64>,
}

impl View for BlinkTask {
    type V = BlinkState;

    closed spec fn view(&self) -> BlinkState {
        BlinkState {
            interval: self.interval as int,
            next: self.next,
            armed: match self.armed {
                None => None,
                Some(at) => Some(at as int),
            },
        }
    }
}

impl BlinkTask {
    /// The output pin the task owns.
    pub closed spec fn pin(&self) -> OutputHandle {
        self.led
    }

    /// A task over the LED pin that holds each level for `interval`
    /// milliseconds. It starts by driving the pin high. The pin is the
    /// task's from here on.
    pub fn new(led: OutputHandle, interval: u64) -> (task: BlinkTask)
        ensures
            task@ == BlinkState::fresh(interval as int),
            task.pin() == led,
    {
        BlinkTask { led, interval, next: Level::High, armed: None }
    }

    /// Time each level is held, in milliseconds.
    pub fn interval(&self) -> (interval: u64)
        ensures
            interval == self@.interval,
    {
        self.interval
    }

    /// Level that the next resumption drives.
    pub fn next_level(&self) -> (level: Level)
        ensures
            level == self@.next,
    {
        self.next
    }

    /// Whether a poll at `now` would resume the task.
    pub fn is_due(&self, now: u64) -> (due: bool)
        ensures
            due == self@.due(now as int),
    {
        match self.armed {
            None => true,
            Some(at) => now >= at && now - at >= self.interval,
        }
    }

    /// Polls the task at time `now`.
    ///
    /// While the timer of the last resumption is running the task stays
    /// suspended and nothing is returned. Otherwise the task resumes: it
    /// answers with the level to drive, the matching record and the time to
    /// sleep, and arms its timer at `now`.
    pub fn poll(&mut self, now: u64) -> (step: Option<BlinkStep>)
        ensures
            final(self)@ == old(self)@.after_poll(now as int),
            final(self).pin() == old(self).pin(),
            step.is_some() == old(self)@.due(now as int),
            step matches Some(s) ==> s.level == old(self)@.next && s.record == Record::led(
                s.level,
            ) && s.sleep_ms == old(self)@.interval,
    {
        if !self.is_due(now) {
            return None;
        }
        let level = self.next;
        self.next = level.toggled();
        self.armed = Some(now);
        Some(BlinkStep { level, record: Record::for_led(level), sleep_ms: self.interval })
    }

    /// Ends the task and gives back the LED pin it was made over.
    pub fn release(self) -> (led: OutputHandle)
        ensures
            led == self.pin(),
    {
        self.led
    }
}

/// The changes drive the two levels in turn, beginning with `first`.
pub open spec fn alternating(changes: Seq<Emission>, first: Level) -> bool {
    forall|k: int| 0 <= k < changes.len() ==> (#[trigger] changes[k]).level == level_in_turn(first, k)
}

/// Any later change comes at least `interval` after any earlier one, so every
/// level is held at least that long.
pub open spec fn dwelling(changes: Seq<Emission>, interval: int) -> bool {
    forall|j: int, k: int|
        0 <= j < k < changes.len() ==> (#[trigger] changes[k]).at - (#[trigger] changes[j]).at
            >= interval
}

/// No change comes before `earliest`.
pub open spec fn not_before(changes: Seq<Emission>, earliest: int) -> bool {
    forall|k: int| 0 <= k < changes.len() ==> (#[trigger] changes[k]).at >= earliest
}

/// From any state on, the LED's changes take the two levels in turn, beginning
/// with the level that is next, no change comes before the running timer has
/// expired, and every level is held for at least one interval.
pub proof fn lemma_emissions_from(state: BlinkState, times: Seq<int>)
    requires
        state.interval >= 0,
    ensures
        alternating(emissions(state, times), state.next),
        dwelling(emissions(state, times), state.interval),
        state.armed matches Some(at) ==> not_before(emissions(state, times), at + state.interval),
        emissions(state, times).len() <= times.len(),
    decreases times.len(),
{
    if times.len() > 0 {
        let now = times[0];
        let after = state.after_poll(now);
        let rest = emissions(after, times.drop_first());
        let all = emissions(state, times);
        lemma_emissions_from(after, times.drop_first());
        if state.due(now) {
            let head = Emission { level: state.next, at: now };
            assert(all == seq![head] + rest);
            assert(after.armed == Some(now));
            assert(not_before(rest, now + state.interval));
            assert forall|k: int| 0 <= k < all.len() implies (#[trigger] all[k]).level
                == level_in_turn(state.next, k) by {
                if k > 0 {
                    assert(all[k] == rest[k - 1]);
                    assert(state.next.flipped().flipped() == state.next);
                }
            }
            assert forall|j: int, k: int| 0 <= j < k < all.len() implies (#[trigger] all[k]).at - (
            #[trigger] all[j]).at >= state.interval by {
                assert(all[k] == rest[k - 1]);
                if j > 0 {
                    assert(all[j] == rest[j - 1]);
                }
            }
            if let Some(at) = state.armed {
                assert forall|k: int| 0 <= k < all.len() implies (#[trigger] all[k]).at >= at
                    + state.interval by {
                    if k > 0 {
                        assert(all[k] == rest[k - 1]);
                    }
                }
            }
        } else {
            assert(all == rest);
        }
    }
}

/// A task that starts fresh drives the LED high first and then alternates,
/// whatever the times of the polls, and holds every level for at least the
/// configured interval before it drives the other one.
pub proof fn lemma_blink_alternates(interval: int, times: Seq<int>)
    requires
        interval >= 0,
    ensures
        alternating(emissions(BlinkState::fresh(interval), times), Level::High),
        dwelling(emissions(BlinkState::fresh(interval), times), interval),
{
    lemma_emissions_from(BlinkState::fresh(interval), times);
}

} // verus!
