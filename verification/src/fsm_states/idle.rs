//! Idle: the initial state. Shows the menu, then polls the two buttons,
//! the battery condition and the serial command channel until one of them
//! fires.
//!
//! During this state LED D1 is on and LED D2 is off. The handler emits
//! `Button1Pressed` (go to hardware check), `Button2Pressed` (go to
//! calibration) or `BatteryIsLow`; never `NothingHappened`.

use vstd::prelude::*;

use crate::battery_sensor_controller::BatterySensorController;
use crate::engine::EngineController;
use crate::fsm::emits;
use crate::fsm::FSMEvent;
use crate::fsm::FSMState;
use crate::hal_button::ButtonController;
use crate::light_sensor_array_controller::LightSensorArrayController;
use crate::line_follower_status::BoardSupport;
use crate::line_follower_status::LineFollowerStatus;
use crate::timer_based_buzzer_interface::TimerBasedBuzzerInterface;

verus! {

/// What each serial byte means while idle: `'1'` and `'2'` mirror the two
/// buttons, `'l'` injects the low-battery event, anything else is invalid.
pub open spec fn idle_serial_command(byte: u8) -> Option<FSMEvent> {
    if byte == 49u8 {
        Some(FSMEvent::Button1Pressed)
    } else if byte == 50u8 {
        Some(FSMEvent::Button2Pressed)
    } else if byte == 108u8 {
        Some(FSMEvent::BatteryIsLow)
    } else {
        None
    }
}

/// Decode one serial byte of the idle menu.
pub fn idle_serial_event(byte: u8) -> (event: Option<FSMEvent>)
    ensures
        event == idle_serial_command(byte),
{
    if byte == 49 {
        // '1'
        Some(FSMEvent::Button1Pressed)
    } else if byte == 50 {
        // '2'
        Some(FSMEvent::Button2Pressed)
    } else if byte == 108 {
        // 'l'
        Some(FSMEvent::BatteryIsLow)
    } else {
        None
    }
}

fn print_menu<SUP: BoardSupport>(board: &mut SUP)
    ensures
        final(board).led_d1_on() == old(board).led_d1_on(),
        final(board).led_d2_on() == old(board).led_d2_on(),
{
    board.log("Menu:\r\n");
    board.log(" press button 1 to go to hardware check state\r\n");
    board.log(" press button 2 to go to calibration state\r\n");
    board.log(" you can also use the following keys:\r\n");
    board.log(" press '1' to go to hardware check state\r\n");
    board.log(" press '2' to go to calibration state\r\n");
    board.log(" press 'l' to go to battery low state\r\n");
}

/// Wait in the menu until a button, the battery condition or a serial
/// command fires, and emit the corresponding event; no event when the
/// polling budget runs out first. For the whole stay, LED D1 is on and
/// LED D2 is off — the idle indicator pattern.
pub fn run<
    B1: ButtonController,
    B2: ButtonController,
    BAT: BatterySensorController,
    LSA: LightSensorArrayController,
    ENG: EngineController,
    BUZ: TimerBasedBuzzerInterface,
    SUP: BoardSupport,
>(status: &mut LineFollowerStatus<B1, B2, BAT, LSA, ENG, BUZ, SUP>) -> (event: Option<FSMEvent>)
    ensures
        event matches Some(fired) ==> emits(FSMState::Idle, fired),
        final(status).board.led_d1_on(),
        !final(status).board.led_d2_on(),
{
    status.board.log("Idle state\r\n");
    status.board.set_led_d1(true);
    status.board.set_led_d2(false);

    print_menu(&mut status.board);

    let mut remaining_polls: u64 = crate::fsm_states::POLL_BUDGET;
    while remaining_polls > 0
        invariant
            status.board.led_d1_on(),
            !status.board.led_d2_on(),
        decreases remaining_polls,
    {
        remaining_polls -= 1;

        if status.btn_1.is_pressed() {
            return Some(FSMEvent::Button1Pressed);
        }

        if status.btn_2.is_pressed() {
            return Some(FSMEvent::Button2Pressed);
        }

        if status.battery_sensor.is_battery_low() {
            return Some(FSMEvent::BatteryIsLow);
        }

        if let Some(byte) = status.board.try_read_byte() {
            match idle_serial_event(byte) {
                Some(fired) => {
                    return Some(fired);
                },
                None => {
                    status.board.log("Invalid input\r\n");
                },
            }
        }
    }
    None
}

} // verus!
