//! Calibration: wait for the operator to start (button 1) or abort
//! (button 2), run the fixed-duration calibration window, confirm with two
//! beeps, then wait for the decision to proceed or return to idle. Every
//! blocking point is preempted by the low-battery condition.

use vstd::prelude::*;

use crate::battery_sensor_controller::BatterySensorController;
use crate::engine::EngineController;
use crate::fsm::emits;
use crate::fsm::FSMEvent;
use crate::fsm::FSMState;
use crate::hal_button::ButtonController;
use crate::light_sensor_array_controller::LightSensorArrayController;
use crate::line_follower_status::BoardSupport;
use crate::line_follower_status::LineFollowerStatus;
use crate::timer_based_buzzer_interface::TimerBasedBuzzerInterface;

verus! {

/// What each serial byte means during calibration: `'1'` and `'2'` mirror
/// the two buttons, anything else is ignored.
pub open spec fn calibration_serial_command(byte: u8) -> Option<FSMEvent> {
    if byte == 49u8 {
        Some(FSMEvent::Button1Pressed)
    } else if byte == 50u8 {
        Some(FSMEvent::Button2Pressed)
    } else {
        None
    }
}

/// Decode one serial byte of the calibration dialogue.
pub fn calibration_serial_event(byte: u8) -> (event: Option<FSMEvent>)
    ensures
        event == calibration_serial_command(byte),
{
    if byte == 49 {
        // '1'
        Some(FSMEvent::Button1Pressed)
    } else if byte == 50 {
        // '2'
        Some(FSMEvent::Button2Pressed)
    } else {
        None
    }
}

fn beep<BUZ: TimerBasedBuzzerInterface, SUP: BoardSupport>(buzzer: &mut BUZ, board: &mut SUP) {
    buzzer.turn_on();
    buzzer.change_frequency(70, 1828);
    board.delay_ms(100);
    buzzer.turn_off();
}

/// Drive the calibration dialogue. `Button1Pressed` proceeds to line
/// following, `Button2Pressed` returns to idle, `BatteryIsLow` preempts
/// either wait; no event when the polling budget runs out first.
pub fn run<
    B1: ButtonController,
    B2: ButtonController,
    BAT: BatterySensorController,
    LSA: LightSensorArrayController,
    ENG: EngineController,
    BUZ: TimerBasedBuzzerInterface,
    SUP: BoardSupport,
>(status: &mut LineFollowerStatus<B1, B2, BAT, LSA, ENG, BUZ, SUP>) -> (event: Option<FSMEvent>)
    ensures
        event matches Some(fired) ==> emits(FSMState::Calibration, fired),
{
    status.board.log("Calibration state\r\n");
    status.board.log("Press button 1 to start calibration\r\n");

    // Let the operator release the button that entered this state.
    status.board.delay_ms(2000);

    let mut started = false;
    let mut remaining_polls: u64 = crate::fsm_states::POLL_BUDGET;
    while !started && remaining_polls > 0
        decreases remaining_polls,
    {
        remaining_polls -= 1;

        if status.btn_1.is_pressed() {
            started = true;
        } else if status.btn_2.is_pressed() {
            status.board.log("Exit calibration\r\n");
            return Some(FSMEvent::Button2Pressed);
        } else if status.battery_sensor.is_battery_low() {
            return Some(FSMEvent::BatteryIsLow);
        } else if let Some(byte) = status.board.try_read_byte() {
            match calibration_serial_event(byte) {
                Some(FSMEvent::Button1Pressed) => {
                    started = true;
                },
                Some(fired) => {
                    status.board.log("Exit calibration\r\n");
                    return Some(fired);
                },
                None => {},
            }
        }
    }
    if !started {
        return None;
    }

    status.board.log("Calibration started\r\n");
    // The calibration window itself: a fixed settle period.
    status.board.delay_ms(3000);

    status.board.log("Calibration done\r\n");

    beep(&mut status.buzzer, &mut status.board);
    status.board.delay_ms(50);
    beep(&mut status.buzzer, &mut status.board);

    status.board.log("Press button 1 to start line following\r\n");
    status.board.log("Press button 2 to go back to idle\r\n");
    let mut remaining_decision_polls: u64 = crate::fsm_states::POLL_BUDGET;
    while remaining_decision_polls > 0
        decreases remaining_decision_polls,
    {
        remaining_decision_polls -= 1;

        if status.btn_1.is_pressed() {
            return Some(FSMEvent::Button1Pressed);
        }
        if status.btn_2.is_pressed() {
            status.board.log("Exit calibration\r\n");
            return Some(FSMEvent::Button2Pressed);
        }
        if status.battery_sensor.is_battery_low() {
            return Some(FSMEvent::BatteryIsLow);
        }
        if let Some(byte) = status.board.try_read_byte() {
            match calibration_serial_event(byte) {
                Some(fired) => {
                    return Some(fired);
                },
                None => {},
            }
        }
    }
    None
}

} // verus!
