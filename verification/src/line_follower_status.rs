//! The capability bundle a state handler works against: buttons, battery
//! sensor, light sensor array, drive, buzzer and the board's own services.

use vstd::prelude::*;

use crate::battery_sensor_controller::BatterySensorController;
use crate::engine::EngineController;
use crate::hal_button::ButtonController;
use crate::light_sensor_array_controller::LightSensorArrayController;
use crate::timer_based_buzzer_interface::TimerBasedBuzzerInterface;

verus! {

/// The board services outside the named sensors and actuators: the two
/// indicator LEDs, the delay primitive, the non-blocking serial command
/// channel, and the best-effort text log. None of them feeds a decision
/// except the serial byte, which the control logic interprets explicitly.
///
/// The two LED latches are modeled, so a handler's contract can pin the
/// indicator pattern its state shows: each LED call sets or flips exactly
/// its own latch, and the other services leave both latches alone.
pub trait BoardSupport {
    /// Whether indicator LED D1 is lit.
    spec fn led_d1_on(&self) -> bool;

    /// Whether indicator LED D2 is lit.
    spec fn led_d2_on(&self) -> bool;

    /// Switch indicator LED D1.
    fn set_led_d1(&mut self, on: bool)
        ensures
            final(self).led_d1_on() == on,
            final(self).led_d2_on() == old(self).led_d2_on(),
        ;

    fn toggle_led_d1(&mut self)
        ensures
            final(self).led_d1_on() == !old(self).led_d1_on(),
            final(self).led_d2_on() == old(self).led_d2_on(),
        ;

    /// Switch indicator LED D2.
    fn set_led_d2(&mut self, on: bool)
        ensures
            final(self).led_d2_on() == on,
            final(self).led_d1_on() == old(self).led_d1_on(),
        ;

    fn toggle_led_d2(&mut self)
        ensures
            final(self).led_d2_on() == !old(self).led_d2_on(),
            final(self).led_d1_on() == old(self).led_d1_on(),
        ;

    /// Busy-wait for the given number of milliseconds.
    fn delay_ms(&mut self, ms: u32)
        ensures
            final(self).led_d1_on() == old(self).led_d1_on(),
            final(self).led_d2_on() == old(self).led_d2_on(),
        ;

    /// One byte from the serial command channel, if one is pending.
    fn try_read_byte(&mut self) -> (byte: Option<u8>)
        ensures
            final(self).led_d1_on() == old(self).led_d1_on(),
            final(self).led_d2_on() == old(self).led_d2_on(),
        ;

    /// Append a line to the event log; delivery is best effort and no
    /// decision depends on it.
    fn log(&mut self, message: &str)
        ensures
            final(self).led_d1_on() == old(self).led_d1_on(),
            final(self).led_d2_on() == old(self).led_d2_on(),
        ;
}

/// Everything the active state handler may touch. Exactly one handler runs
/// at a time, so exclusive ownership of the actuators is structural.
pub struct LineFollowerStatus<
    B1: ButtonController,
    B2: ButtonController,
    BAT: BatterySensorController,
    LSA: LightSensorArrayController,
    ENG: EngineController,
    BUZ: TimerBasedBuzzerInterface,
    SUP: BoardSupport,
> {
    pub btn_1: B1,
    pub btn_2: B2,
    pub battery_sensor: BAT,
    pub light_sensor_array: LSA,
    pub engine: ENG,
    pub buzzer: BUZ,
    pub board: SUP,
}

} // verus!
