//! Exclusive tokens for the three peripherals the firmware drives.
//!
//! A token cannot be copied or built by hand. It is taken once out of the
//! [`Peripherals`] set and then moved into the one task, or the one bring-up
//! sequence, that uses the peripheral for the rest of the program.

use vstd::prelude::*;

verus! {

/// Ownership of the push-pull output pin that drives the LED.
#[derive(Debug)]
pub struct OutputHandle {
    taken: (),
}

/// Ownership of the pulled-up input pin, with its edge interrupt line, that
/// reads the button.
#[derive(Debug)]
pub struct InputHandle {
    taken: (),
}

/// Ownership of the two-wire bus master the display hangs on.
#[derive(Debug)]
pub struct BusHandle {
    taken: (),
}

/// The peripherals that have not been handed out yet.
#[derive(Debug)]
pub struct Peripherals {
    led: Option<OutputHandle>,
    button: Option<InputHandle>,
    bus: Option<BusHandle>,
}

impl Peripherals {
    /// Whether the LED pin is still in the set.
    pub closed spec fn has_led(&self) -> bool {
        self.led.is_some()
    }

    /// Whether the button pin is still in the set.
    pub closed spec fn has_button(&self) -> bool {
        self.button.is_some()
    }

    /// Whether the bus master is still in the set.
    pub closed spec fn has_bus(&self) -> bool {
        self.bus.is_some()
    }

    /// The full set, as the platform hands it over once at start-up.
    pub fn acquire() -> (set: Peripherals)
        ensures
            set.has_led(),
            set.has_button(),
            set.has_bus(),
    {
        Peripherals {
            led: Some(OutputHandle { taken: () }),
            button: Some(InputHandle { taken: () }),
            bus: Some(BusHandle { taken: () }),
        }
    }

    /// Hands out the LED pin. A second request finds nothing.
    pub fn take_led(&mut self) -> (handle: Option<OutputHandle>)
        ensures
            handle.is_some() == old(self).has_led(),
            !final(self).has_led(),
            final(self).has_button() == old(self).has_button(),
            final(self).has_bus() == old(self).has_bus(),
    {
        self.led.take()
    }

    /// Hands out the button pin. A second request finds nothing.
    pub fn take_button(&mut self) -> (handle: Option<InputHandle>)
        ensures
            handle.is_some() == old(self).has_button(),
            !final(self).has_button(),
            final(self).has_led() == old(self).has_led(),
            final(self).has_bus() == old(self).has_bus(),
    {
        self.button.take()
    }

    /// Hands out the bus master. A second request finds nothing.
    pub fn take_bus(&mut self) -> (handle: Option<BusHandle>)
        ensures
            handle.is_some() == old(self).has_bus(),
            !final(self).has_bus(),
            final(self).has_led() == old(self).has_led(),
            final(self).has_button() == old(self).has_button(),
    {
        self.bus.take()
    }
}

} // verus!
