//! The light sensor array capability that samples the line.

use vstd::prelude::*;

verus! {

/// The 8-sensor reflectance array under the robot, index 0 on the robot's
/// left through index 7 on its right. Readings follow the floor beneath
/// the robot, so nothing is promised about them; the estimator states what
/// it computes from every possible map. The illumination latch is modeled,
/// so the tracking loop's contract can pin it off when the line is lost.
pub trait LightSensorArrayController {
    /// Whether the array's illumination LED is lit.
    spec fn led_on(&self) -> bool;

    /// One fresh intensity sample per sensor; sampling leaves the
    /// illumination latch alone.
    fn get_light_map(&mut self) -> (light_map: [u16; 8])
        ensures
            final(self).led_on() == old(self).led_on(),
        ;

    /// Switch the array's illumination LED.
    fn set_led(&mut self, value: bool)
        ensures
            final(self).led_on() == value,
        ;
}

} // verus!
