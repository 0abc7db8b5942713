//! Simulated devices: verified implementations of the hardware capability
//! traits, used by the test suite and by host-side demonstrations in place
//! of the real board.

use vstd::arithmetic::power2::lemma2_to64;
use vstd::arithmetic::power2::lemma_pow2_strictly_increases;
use vstd::arithmetic::power2::pow2;
use vstd::bits::lemma_usize_shl_is_mul;
use vstd::prelude::*;

use crate::battery_sensor_controller::BatterySensorController;
use crate::hal_button::ButtonController;
use crate::hal_encoder::EncoderController;
use crate::light_sensor_array_controller::LightSensorArrayController;
use crate::line_follower_status::BoardSupport;
use crate::motor::MotorController;
use crate::motor::MotorState;
use crate::timer_based_buzzer_interface::TimerBasedBuzzerInterface;

verus! {

/// A simulated wheel motor: remembers the last commanded direction and
/// duty, and keeps the full sequence of commanded duties so a test can
/// check what the drive controller issued over time.
pub struct SimMotor {
    pub state: MotorState,
    pub duty: u16,
    pub duty_history: Vec<u16>,
}

impl SimMotor {
    /// A fresh motor: not yet driven, duty zero.
    pub fn new() -> (motor: SimMotor)
        ensures
            motor.state() == MotorState::Forward,
            motor.duty() == 0,
            motor.duty_history@ == Seq::<u16>::empty(),
    {
        SimMotor { state: MotorState::Forward, duty: 0, duty_history: Vec::new() }
    }
}

impl MotorController for SimMotor {
    open spec fn state(&self) -> MotorState {
        self.state
    }

    open spec fn duty(&self) -> u16 {
        self.duty
    }

    fn set_state(&mut self, state: MotorState) {
        self.state = state;
    }

    fn set_duty(&mut self, duty: u16) {
        self.duty = duty;
        self.duty_history.push(duty);
    }
}

/// A simulated encoder counter of width `BITS`: the two readings are plain
/// fields, so a test can place the counter anywhere in its range.
pub struct SimEncoder<const BITS: u8> {
    pub steps: usize,
    pub last_steps: usize,
}

impl<const BITS: u8> SimEncoder<BITS> {
    /// The largest value the counter reaches before wrapping.
    pub fn get_max_val(&self) -> (max_val: usize)
        requires
            1 <= BITS <= 30,
        ensures
            max_val as nat == pow2(BITS as nat) - 1,
    {
        proof {
            lemma2_to64();
            if (BITS as nat) < 30 {
                lemma_pow2_strictly_increases(BITS as nat, 30);
            }
            lemma_usize_shl_is_mul(1, BITS as usize);
        }
        (1usize << (BITS as usize)) - 1
    }

    /// The smallest counter value.
    pub fn get_min_val(&self) -> (min_val: usize)
        ensures
            min_val == 0usize,
    {
        0
    }

    /// Place the counter as if it had last been read at `from` and now
    /// stands at `to`.
    pub fn simulate_move(&mut self, from: usize, to: usize)
        ensures
            final(self).last_steps() == from,
            final(self).steps() == to,
    {
        self.last_steps = from;
        self.steps = to;
    }
}

impl<const BITS: u8> Default for SimEncoder<BITS> {
    /// A counter at rest at zero.
    fn default() -> (encoder: Self)
        ensures
            encoder.steps() == 0,
            encoder.last_steps() == 0,
            encoder.wf(),
    {
        proof {
            vstd::arithmetic::power2::lemma_pow2_pos(BITS as nat);
        }
        SimEncoder { steps: 0, last_steps: 0 }
    }
}

impl<const BITS: u8> EncoderController<BITS> for SimEncoder<BITS> {
    open spec fn steps(&self) -> usize {
        self.steps
    }

    open spec fn last_steps(&self) -> usize {
        self.last_steps
    }

    open spec fn wf(&self) -> bool {
        (self.steps as nat) < pow2(BITS as nat) && (self.last_steps as nat) < pow2(BITS as nat)
    }

    fn read_steps(&self) -> usize {
        self.steps
    }

    fn read_last_steps(&self) -> usize {
        self.last_steps
    }

    fn store_last_steps(&mut self, value: usize) {
        self.last_steps = value;
    }

    fn reset(&mut self) {
        self.steps = 0;
        self.last_steps = 0;
        proof {
            vstd::arithmetic::power2::lemma_pow2_pos(BITS as nat);
        }
    }
}

/// A simulated wheel motor of the board-support drive train: remembers the
/// last commanded running state and signed speed.
pub struct SimSpeedMotor {
    pub state: crate::mightybuga_bsc::motor::MotorState,
    pub speed: i16,
}

impl SimSpeedMotor {
    /// A fresh motor: stopped, speed zero.
    pub fn new() -> (motor: SimSpeedMotor)
        ensures
            motor.state == crate::mightybuga_bsc::motor::MotorState::Stop,
            motor.speed == 0,
    {
        SimSpeedMotor { state: crate::mightybuga_bsc::motor::MotorState::Stop, speed: 0 }
    }
}

impl crate::mightybuga_bsc::motor::MotorController for SimSpeedMotor {
    open spec fn state(&self) -> crate::mightybuga_bsc::motor::MotorState {
        self.state
    }

    open spec fn speed(&self) -> i16 {
        self.speed
    }

    fn set_state(&mut self, state: crate::mightybuga_bsc::motor::MotorState) {
        self.state = state;
    }

    fn set_speed(&mut self, speed: i16) {
        self.speed = speed;
    }
}

/// A simulated push button held in a fixed position by the test.
pub struct SimButton {
    pub pressed: bool,
    pub last_state: bool,
}

impl SimButton {
    /// A button that reads as pressed or released, as asked.
    pub fn new(pressed: bool) -> (button: SimButton)
        ensures
            button.pressed == pressed,
            button.last_state == false,
    {
        SimButton { pressed, last_state: false }
    }
}

impl ButtonController for SimButton {
    fn is_pressed(&self) -> bool {
        self.pressed
    }

    fn is_changed(&mut self) -> bool {
        let current_state = self.pressed;
        let changed = current_state != self.last_state;
        self.last_state = current_state;
        changed
    }
}

/// A simulated battery sensor: reads as low for a chosen number of polls,
/// then as recovered, so a test can drive the safety state through its
/// whole life cycle.
pub struct SimBatterySensor {
    pub low_reads: usize,
    pub millivolts: u16,
}

impl SimBatterySensor {
    /// A battery that reads as low for the next `low_reads` polls.
    pub fn new(low_reads: usize, millivolts: u16) -> (sensor: SimBatterySensor)
        ensures
            sensor.low_reads == low_reads,
            sensor.millivolts == millivolts,
    {
        SimBatterySensor { low_reads, millivolts }
    }
}

impl BatterySensorController for SimBatterySensor {
    fn get_battery_millivolts(&mut self) -> u16 {
        self.millivolts
    }

    fn is_battery_low(&mut self) -> bool {
        if self.low_reads > 0 {
            self.low_reads -= 1;
            true
        } else {
            false
        }
    }
}

/// A simulated light sensor array that keeps answering the same map.
pub struct SimLightSensorArray {
    pub light_map: [u16; 8],
    pub led_on: bool,
}

impl SimLightSensorArray {
    /// An array fixed on the given map, illumination off.
    pub fn new(light_map: [u16; 8]) -> (array: SimLightSensorArray)
        ensures
            array.light_map@ == light_map@,
            array.led_on == false,
    {
        SimLightSensorArray { light_map, led_on: false }
    }
}

impl LightSensorArrayController for SimLightSensorArray {
    open spec fn led_on(&self) -> bool {
        self.led_on
    }

    fn get_light_map(&mut self) -> [u16; 8] {
        self.light_map
    }

    fn set_led(&mut self, value: bool) {
        self.led_on = value;
    }
}

/// A simulated buzzer that remembers the last command.
pub struct SimBuzzer {
    pub on: bool,
    pub prescaler: u16,
    pub compare: u16,
}

impl SimBuzzer {
    /// A silent buzzer.
    pub fn new() -> (buzzer: SimBuzzer)
        ensures
            buzzer.on == false,
    {
        SimBuzzer { on: false, prescaler: 0, compare: 0 }
    }
}

impl TimerBasedBuzzerInterface for SimBuzzer {
    fn turn_on(&mut self) {
        self.on = true;
    }

    fn turn_off(&mut self) {
        self.on = false;
    }

    fn change_frequency(&mut self, prescaler: u16, compare: u16) {
        self.prescaler = prescaler;
        self.compare = compare;
    }
}

/// The simulated board services: two indicator LEDs, a no-op delay, a
/// scripted serial channel that hands out its bytes one per read, and a
/// log that only counts what was written.
pub struct SimBoard {
    pub led_d1: bool,
    pub led_d2: bool,
    pub serial_script: Vec<u8>,
    pub serial_pos: usize,
    pub log_lines: usize,
    pub delays: usize,
}

impl SimBoard {
    /// A board whose serial channel will hand out the given bytes.
    pub fn new(serial_script: Vec<u8>) -> (board: SimBoard)
        ensures
            board.serial_script@ == serial_script@,
            board.serial_pos == 0,
    {
        SimBoard {
            led_d1: false,
            led_d2: false,
            serial_script,
            serial_pos: 0,
            log_lines: 0,
            delays: 0,
        }
    }
}

impl BoardSupport for SimBoard {
    open spec fn led_d1_on(&self) -> bool {
        self.led_d1
    }

    open spec fn led_d2_on(&self) -> bool {
        self.led_d2
    }

    fn set_led_d1(&mut self, on: bool) {
        self.led_d1 = on;
    }

    fn toggle_led_d1(&mut self) {
        self.led_d1 = !self.led_d1;
    }

    fn set_led_d2(&mut self, on: bool) {
        self.led_d2 = on;
    }

    fn toggle_led_d2(&mut self) {
        self.led_d2 = !self.led_d2;
    }

    fn delay_ms(&mut self, ms: u32) {
        if self.delays < usize::MAX {
            self.delays += 1;
        }
    }

    fn try_read_byte(&mut self) -> Option<u8> {
        if self.serial_pos < self.serial_script.len() {
            let byte = self.serial_script[self.serial_pos];
            self.serial_pos += 1;
            Some(byte)
        } else {
            None
        }
    }

    fn log(&mut self, message: &str) {
        if self.log_lines < usize::MAX {
            self.log_lines += 1;
        }
    }
}

} // verus!
