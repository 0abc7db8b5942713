//! The battery sensor capability behind the safety condition.

use vstd::prelude::*;

verus! {

/// The battery voltage sensor. Readings follow the physical battery, so
/// nothing is promised about them; the control logic reacts to every
/// possible answer.
pub trait BatterySensorController {
    /// The battery voltage in millivolts, for diagnostics.
    fn get_battery_millivolts(&mut self) -> u16;

    /// True while the battery is below the safe threshold.
    fn is_battery_low(&mut self) -> bool;
}

} // verus!
