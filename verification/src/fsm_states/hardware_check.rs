//! Hardware check: a bounded, unconditional self-test sequence — LED
//! toggles per indicator and two confirmation beeps — followed by one
//! battery check that decides the emitted event.

use vstd::prelude::*;

use crate::battery_sensor_controller::BatterySensorController;
use crate::engine::EngineController;
use crate::fsm::emits;
use crate::fsm::FSMEvent;
use crate::fsm::FSMState;
use crate::hal_button::ButtonController;
use crate::light_sensor_array_controller::LightSensorArrayController;
use crate::line_follower_status::BoardSupport;
use crate::line_follower_status::LineFollowerStatus;
use crate::timer_based_buzzer_interface::TimerBasedBuzzerInterface;

verus! {

/// The event the self-test ends with: the low-battery event exactly when
/// the battery reads low, nothing otherwise.
pub open spec fn hardware_check_outcome(battery_is_low: bool) -> FSMEvent {
    if battery_is_low {
        FSMEvent::BatteryIsLow
    } else {
        FSMEvent::NothingHappened
    }
}

/// Decide the self-test's event from the battery reading.
pub fn hardware_check_event(battery_is_low: bool) -> (event: FSMEvent)
    ensures
        event == hardware_check_outcome(battery_is_low),
{
    if battery_is_low {
        FSMEvent::BatteryIsLow
    } else {
        FSMEvent::NothingHappened
    }
}

/// The round trip of a healthy self-test: button 1 takes the controller
/// from `Idle` to `HardwareCheck`, and with the battery normal the check
/// ends in `NothingHappened`, which leads straight back to `Idle`.
pub proof fn lemma_hardware_check_round_trip()
    ensures
        crate::fsm::spec_next(FSMState::Idle, FSMEvent::Button1Pressed) == FSMState::HardwareCheck,
        hardware_check_outcome(false) == FSMEvent::NothingHappened,
        crate::fsm::spec_next(FSMState::HardwareCheck, hardware_check_outcome(false))
            == FSMState::Idle,
{
}

fn beep<BUZ: TimerBasedBuzzerInterface, SUP: BoardSupport>(buzzer: &mut BUZ, board: &mut SUP) {
    buzzer.turn_on();
    buzzer.change_frequency(70, 1828);
    board.delay_ms(100);
    buzzer.turn_off();
}

/// Run the self-test sequence, then emit `BatteryIsLow` exactly when the
/// battery reads low and `NothingHappened` otherwise. This handler never
/// blocks, so it always produces an event.
pub fn run<
    B1: ButtonController,
    B2: ButtonController,
    BAT: BatterySensorController,
    LSA: LightSensorArrayController,
    ENG: EngineController,
    BUZ: TimerBasedBuzzerInterface,
    SUP: BoardSupport,
>(status: &mut LineFollowerStatus<B1, B2, BAT, LSA, ENG, BUZ, SUP>) -> (event: FSMEvent)
    ensures
        emits(FSMState::HardwareCheck, event),
{
    status.board.log("Hardware check state\r\n");

    status.board.log("Checking hardware 1\r\n");
    let mut i: u8 = 0;
    while i < 5
        decreases 5 - i,
    {
        status.board.toggle_led_d1();
        status.board.delay_ms(100);
        i += 1;
    }

    status.board.log("Checking hardware 2\r\n");
    let mut j: u8 = 0;
    while j < 5
        decreases 5 - j,
    {
        status.board.toggle_led_d2();
        status.board.delay_ms(100);
        j += 1;
    }

    status.board.log("Hardware check done\r\n");

    beep(&mut status.buzzer, &mut status.board);
    status.board.delay_ms(50);
    beep(&mut status.buzzer, &mut status.board);

    let battery_is_low = status.battery_sensor.is_battery_low();
    if battery_is_low {
        status.board.log("Battery is low\r\n");
    }
    hardware_check_event(battery_is_low)
}

} // verus!
