//! The robot control state machine: states, events and the pure, total
//! transition function that drives the control loop.

use vstd::prelude::*;

use crate::battery_sensor_controller::BatterySensorController;
use crate::engine::EngineController;
use crate::fsm_states;
use crate::hal_button::ButtonController;
use crate::light_sensor_array_controller::LightSensorArrayController;
use crate::line_follower_status::BoardSupport;
use crate::line_follower_status::LineFollowerStatus;
use crate::timer_based_buzzer_interface::TimerBasedBuzzerInterface;

verus! {

/// The five control states. Exactly one is active at any time; the control
/// loop starts in `Idle` and runs forever.
#[derive(Clone, Copy, Debug, PartialEq, Eq, Structural)]
pub enum FSMState {
    Idle,
    HardwareCheck,
    Calibration,
    LineFollowing,
    BatteryLow,
}

/// The event vocabulary. Each state handler emits exactly one event per
/// activation; the transition function consumes it.
#[derive(Clone, Copy, Debug, PartialEq, Eq, Structural)]
pub enum FSMEvent {
    NothingHappened,
    Button1Pressed,
    Button2Pressed,
    BatteryIsLow,
}

/// True exactly for the (state, event) pairs of the transition table; every
/// other pair falls back to `Idle` and is reported as an anomaly.
pub open spec fn listed_transition(state: FSMState, event: FSMEvent) -> bool {
    ||| state == FSMState::Idle && event == FSMEvent::Button1Pressed
    ||| state == FSMState::Idle && event == FSMEvent::Button2Pressed
    ||| state == FSMState::Idle && event == FSMEvent::BatteryIsLow
    ||| state == FSMState::HardwareCheck && event == FSMEvent::NothingHappened
    ||| state == FSMState::HardwareCheck && event == FSMEvent::BatteryIsLow
    ||| state == FSMState::Calibration && event == FSMEvent::Button1Pressed
    ||| state == FSMState::Calibration && event == FSMEvent::Button2Pressed
    ||| state == FSMState::Calibration && event == FSMEvent::BatteryIsLow
    ||| state == FSMState::LineFollowing && event == FSMEvent::Button2Pressed
    ||| state == FSMState::LineFollowing && event == FSMEvent::BatteryIsLow
    ||| state == FSMState::LineFollowing && event == FSMEvent::NothingHappened
    ||| state == FSMState::BatteryLow && event == FSMEvent::NothingHappened
}

/// The transition table as a total function: the twelve listed pairs map as
/// the table says, every unlisted pair defaults to `Idle`.
pub open spec fn spec_next(state: FSMState, event: FSMEvent) -> FSMState {
    match (state, event) {
        (FSMState::Idle, FSMEvent::Button1Pressed) => FSMState::HardwareCheck,
        (FSMState::Idle, FSMEvent::Button2Pressed) => FSMState::Calibration,
        (FSMState::Idle, FSMEvent::BatteryIsLow) => FSMState::BatteryLow,
        (FSMState::HardwareCheck, FSMEvent::NothingHappened) => FSMState::Idle,
        (FSMState::HardwareCheck, FSMEvent::BatteryIsLow) => FSMState::BatteryLow,
        (FSMState::Calibration, FSMEvent::Button1Pressed) => FSMState::LineFollowing,
        (FSMState::Calibration, FSMEvent::Button2Pressed) => FSMState::Idle,
        (FSMState::Calibration, FSMEvent::BatteryIsLow) => FSMState::BatteryLow,
        (FSMState::LineFollowing, FSMEvent::Button2Pressed) => FSMState::Idle,
        (FSMState::LineFollowing, FSMEvent::BatteryIsLow) => FSMState::BatteryLow,
        (FSMState::LineFollowing, FSMEvent::NothingHappened) => FSMState::Idle,
        (FSMState::BatteryLow, FSMEvent::NothingHappened) => FSMState::Idle,
        (_, _) => FSMState::Idle,
    }
}

/// Which events a state's handler may emit. Each handler's postcondition
/// keeps to this vocabulary.
pub open spec fn emits(state: FSMState, event: FSMEvent) -> bool {
    match state {
        FSMState::Idle => event != FSMEvent::NothingHappened,
        FSMState::HardwareCheck => event == FSMEvent::NothingHappened
            || event == FSMEvent::BatteryIsLow,
        FSMState::Calibration => event != FSMEvent::NothingHappened,
        FSMState::LineFollowing => event != FSMEvent::Button1Pressed,
        FSMState::BatteryLow => event == FSMEvent::NothingHappened,
    }
}

impl FSMState {
    /// The pure, total transition function of the controller.
    pub fn next(self, event: FSMEvent) -> (next_state: FSMState)
        ensures
            next_state == spec_next(self, event),
    {
        match (self, event) {
            (FSMState::Idle, FSMEvent::Button1Pressed) => FSMState::HardwareCheck,
            (FSMState::Idle, FSMEvent::Button2Pressed) => FSMState::Calibration,
            (FSMState::Idle, FSMEvent::BatteryIsLow) => FSMState::BatteryLow,
            (FSMState::HardwareCheck, FSMEvent::NothingHappened) => FSMState::Idle,
            (FSMState::HardwareCheck, FSMEvent::BatteryIsLow) => FSMState::BatteryLow,
            (FSMState::Calibration, FSMEvent::Button1Pressed) => FSMState::LineFollowing,
            (FSMState::Calibration, FSMEvent::Button2Pressed) => FSMState::Idle,
            (FSMState::Calibration, FSMEvent::BatteryIsLow) => FSMState::BatteryLow,
            (FSMState::LineFollowing, FSMEvent::Button2Pressed) => FSMState::Idle,
            (FSMState::LineFollowing, FSMEvent::BatteryIsLow) => FSMState::BatteryLow,
            (FSMState::LineFollowing, FSMEvent::NothingHappened) => FSMState::Idle,
            (FSMState::BatteryLow, FSMEvent::NothingHappened) => FSMState::Idle,
            (_, _) => FSMState::Idle,
        }
    }

    /// Run the active state's handler. Whatever the environment answers,
    /// an emitted event stays within the state's vocabulary; only a
    /// blocking state can spend its polling budget and report no event,
    /// in which case the control loop re-enters the same state. The idle
    /// handler leaves the indicator pattern of its state — LED D1 on, D2
    /// off — and the line-following handler never reports the end of the
    /// line with the drive still running.
    pub fn run<
        B1: ButtonController,
        B2: ButtonController,
        BAT: BatterySensorController,
        LSA: LightSensorArrayController,
        ENG: EngineController,
        BUZ: TimerBasedBuzzerInterface,
        SUP: BoardSupport,
    >(&self, status: &mut LineFollowerStatus<B1, B2, BAT, LSA, ENG, BUZ, SUP>) -> (event: Option<
        FSMEvent,
    >)
        ensures
            event matches Some(fired) ==> emits(*self, fired),
            *self == FSMState::HardwareCheck ==> event is Some,
            *self == FSMState::Idle ==> final(status).board.led_d1_on()
                && !final(status).board.led_d2_on(),
            *self == FSMState::LineFollowing && event == Some(FSMEvent::NothingHappened)
                ==> final(status).engine.left_duty() == 0
                && final(status).engine.right_duty() == 0
                && !final(status).light_sensor_array.led_on(),
    {
        match *self {
            FSMState::Idle => fsm_states::idle::run(status),
            FSMState::HardwareCheck => Some(fsm_states::hardware_check::run(status)),
            FSMState::Calibration => fsm_states::calibration::run(status),
            FSMState::LineFollowing => fsm_states::line_following::run(status),
            FSMState::BatteryLow => fsm_states::battery_low::run(status),
        }
    }
}

/// Whether a (state, event) pair is in the transition table; the control
/// loop logs an anomaly when it is not.
pub fn transition_is_listed(state: FSMState, event: FSMEvent) -> (listed: bool)
    ensures
        listed == listed_transition(state, event),
{
    match (state, event) {
        (FSMState::Idle, FSMEvent::Button1Pressed) => true,
        (FSMState::Idle, FSMEvent::Button2Pressed) => true,
        (FSMState::Idle, FSMEvent::BatteryIsLow) => true,
        (FSMState::HardwareCheck, FSMEvent::NothingHappened) => true,
        (FSMState::HardwareCheck, FSMEvent::BatteryIsLow) => true,
        (FSMState::Calibration, FSMEvent::Button1Pressed) => true,
        (FSMState::Calibration, FSMEvent::Button2Pressed) => true,
        (FSMState::Calibration, FSMEvent::BatteryIsLow) => true,
        (FSMState::LineFollowing, FSMEvent::Button2Pressed) => true,
        (FSMState::LineFollowing, FSMEvent::BatteryIsLow) => true,
        (FSMState::LineFollowing, FSMEvent::NothingHappened) => true,
        (FSMState::BatteryLow, FSMEvent::NothingHappened) => true,
        (_, _) => false,
    }
}

/// Totality of the transition function: every pair outside the table lands
/// in `Idle`, so the controller can never reach an undefined state.
pub proof fn lemma_unlisted_defaults_to_idle(state: FSMState, event: FSMEvent)
    requires
        !listed_transition(state, event),
    ensures
        spec_next(state, event) == FSMState::Idle,
{
}

/// The low-battery event preempts every other activity: from any state but
/// `BatteryLow` itself, `BatteryIsLow` leads to `BatteryLow`.
pub proof fn lemma_battery_preempts(state: FSMState)
    requires
        state != FSMState::BatteryLow,
    ensures
        spec_next(state, FSMEvent::BatteryIsLow) == FSMState::BatteryLow,
{
}

/// A handler keeping to its state's event vocabulary can only produce
/// listed pairs: driven by `run` and `next`, the controller never takes
/// the anomaly fallback.
pub proof fn lemma_emitted_events_are_listed(state: FSMState, event: FSMEvent)
    requires
        emits(state, event),
    ensures
        listed_transition(state, event),
{
}

/// `BatteryLow` is left only through `NothingHappened` (the only event its
/// handler can emit), and that exit leads back to `Idle`.
pub proof fn lemma_battery_low_exit(event: FSMEvent)
    requires
        emits(FSMState::BatteryLow, event),
    ensures
        event == FSMEvent::NothingHappened,
        spec_next(FSMState::BatteryLow, event) == FSMState::Idle,
{
}

} // verus!
