//! The audible alert capability.

use vstd::prelude::*;

verus! {

/// A timer-driven buzzer. The core only needs confirmation and alert
/// tones, so no behavior is promised about the sound itself.
pub trait TimerBasedBuzzerInterface {
    fn turn_on(&mut self);

    fn turn_off(&mut self);

    /// Select the tone. Prescaler and compare value address the timer that
    /// feeds the buzzer; their meaning depends on the timer's clock.
    fn change_frequency(&mut self, prescaler: u16, compare: u16);
}

} // verus!
