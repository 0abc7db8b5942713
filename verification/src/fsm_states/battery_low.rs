//! Battery low: the absorbing safety state. Both indicators blink, a
//! two-tone alert sounds, and the battery is re-polled each round; the
//! handler reports `NothingHappened` once — and only once — the battery is
//! no longer low.

use vstd::prelude::*;

use crate::battery_sensor_controller::BatterySensorController;
use crate::engine::EngineController;
use crate::fsm::FSMEvent;
use crate::hal_button::ButtonController;
use crate::light_sensor_array_controller::LightSensorArrayController;
use crate::line_follower_status::BoardSupport;
use crate::line_follower_status::LineFollowerStatus;
use crate::timer_based_buzzer_interface::TimerBasedBuzzerInterface;

verus! {

/// Timer settings for the two alert tones.
pub const NOTE_D_PRESCALER: u16 = 70;

pub const NOTE_D_COUNTER: u16 = 1828;

pub const NOTE_F_PRESCALER: u16 = 70;

pub const NOTE_F_COUNTER: u16 = 1532;

fn play_notes<BUZ: TimerBasedBuzzerInterface, SUP: BoardSupport>(
    buzzer: &mut BUZ,
    board: &mut SUP,
) {
    buzzer.turn_on();
    buzzer.change_frequency(NOTE_D_PRESCALER, NOTE_D_COUNTER);
    board.delay_ms(2000);
    buzzer.change_frequency(NOTE_F_PRESCALER, NOTE_F_COUNTER);
    board.delay_ms(2000);
    buzzer.turn_off();
}

/// Sound the alert until the battery recovers. The only event this state
/// can emit is `NothingHappened`, and only once the battery is no longer
/// low; while it stays low the handler reports no event and the control
/// loop re-enters it.
pub fn run<
    B1: ButtonController,
    B2: ButtonController,
    BAT: BatterySensorController,
    LSA: LightSensorArrayController,
    ENG: EngineController,
    BUZ: TimerBasedBuzzerInterface,
    SUP: BoardSupport,
>(status: &mut LineFollowerStatus<B1, B2, BAT, LSA, ENG, BUZ, SUP>) -> (event: Option<FSMEvent>)
    ensures
        event == Option::<FSMEvent>::None || event == Some(FSMEvent::NothingHappened),
{
    status.board.log("Battery low state\r\n");

    let mut remaining_polls: u64 = crate::fsm_states::POLL_BUDGET;
    while remaining_polls > 0
        decreases remaining_polls,
    {
        remaining_polls -= 1;

        status.board.toggle_led_d1();
        status.board.toggle_led_d2();
        status.board.log("Battery is low, please change the battery\r\n");
        play_notes(&mut status.buzzer, &mut status.board);
        status.board.delay_ms(1500);

        if !status.battery_sensor.is_battery_low() {
            status.board.log("Battery is no longer low\r\n");
            return Some(FSMEvent::NothingHappened);
        }
    }
    None
}

} // verus!
