//! Line following: a bounded pre-roll phase, then the closed tracking loop
//! that turns each light map into one drive command per tick.
//!
//! The estimator reads the 8-sensor light map with index 0 on the robot's
//! left and index 7 on its right; a higher reading means less reflected
//! light, that is, the dark line. The position is a signed scalar in
//! hundredths, `100` down to `-100`, quantized to the eight sensor slots.

use vstd::prelude::*;

use crate::battery_sensor_controller::BatterySensorController;
use crate::engine::EngineController;
use crate::fsm::emits;
use crate::fsm::FSMEvent;
use crate::fsm::FSMState;
use crate::hal_button::ButtonController;
use crate::light_sensor_array_controller::LightSensorArrayController;
use crate::line_follower_status::BoardSupport;
use crate::line_follower_status::LineFollowerStatus;
use crate::timer_based_buzzer_interface::TimerBasedBuzzerInterface;

verus! {

/// A sensor must reach this intensity before a line is considered present.
pub const LINE_DETECTION_THRESHOLD: u16 = 1000;

/// Duty cycle used while tracking the line.
pub const LINE_FOLLOW_DUTY: u16 = 15000;

/// How much the inner wheel is slowed in a turn.
pub const LINE_FOLLOW_DELTA: u16 = 2000;

/// The index of the first maximum of the map: ties are won by the lowest
/// index, matching a left-to-right scan.
pub open spec fn first_max_index(map: Seq<u16>) -> int
    decreases map.len(),
{
    if map.len() <= 1 {
        0
    } else {
        let rest = first_max_index(map.drop_last());
        if map.last() > map[rest] {
            map.len() - 1
        } else {
            rest
        }
    }
}

/// The steering position assigned to each sensor index: full left `100`
/// down to full right `-100`, with the two center sensors both mapping to
/// straight ahead.
pub open spec fn index_position(index: int) -> i16 {
    if index == 0 {
        100
    } else if index == 1 {
        75
    } else if index == 2 {
        50
    } else if index == 3 || index == 4 {
        0
    } else if index == 5 {
        -50i16
    } else if index == 6 {
        -75i16
    } else {
        -100i16
    }
}

/// The line position derived from a light map: the position of the first
/// strongest sensor, or nothing when even the strongest reading stays
/// below the detection threshold.
pub open spec fn line_position(map: Seq<u16>) -> Option<i16> {
    if map[first_max_index(map)] < LINE_DETECTION_THRESHOLD {
        None
    } else {
        Some(index_position(first_max_index(map)))
    }
}

/// `first_max_index` names an index of the map that holds its maximum, and
/// every earlier index holds strictly less.
pub proof fn lemma_first_max_index(map: Seq<u16>)
    requires
        map.len() > 0,
    ensures
        0 <= first_max_index(map) < map.len(),
        forall|j: int| 0 <= j < map.len() ==> #[trigger] map[j] <= map[first_max_index(map)],
        forall|j: int| 0 <= j < first_max_index(map) ==> #[trigger] map[j] < map[first_max_index(map)],
    decreases map.len(),
{
    if map.len() > 1 {
        lemma_first_max_index(map.drop_last());
        assert(forall|j: int|
            0 <= j < map.len() - 1 ==> #[trigger] map[j] == map.drop_last()[j]);
    }
}

/// No line: when all eight sensors stay below the detection threshold, the
/// estimator reports the line as absent.
pub proof fn lemma_no_line(map: Seq<u16>)
    requires
        map.len() == 8,
        forall|j: int| 0 <= j < 8 ==> map[j] < LINE_DETECTION_THRESHOLD,
    ensures
        line_position(map) == Option::<i16>::None,
{
    lemma_first_max_index(map);
}

/// A single detected sensor decides the position: when only index `k`
/// reaches the threshold, the estimator reports that sensor's position.
pub proof fn lemma_single_sensor(map: Seq<u16>, k: int)
    requires
        map.len() == 8,
        0 <= k < 8,
        map[k] >= LINE_DETECTION_THRESHOLD,
        forall|j: int| 0 <= j < 8 && j != k ==> map[j] < LINE_DETECTION_THRESHOLD,
    ensures
        line_position(map) == Some(index_position(k)),
{
    lemma_first_max_index(map);
    let m = first_max_index(map);
    assert(map[m] >= map[k]);
    assert(m == k);
}

/// Find the position of the line under the array, the first strongest
/// sensor deciding; absent when every reading stays below the threshold.
pub fn get_line_position(line_sensor: &[u16; 8]) -> (position: Option<i16>)
    ensures
        position == line_position(line_sensor@),
{
    let mut max_value: u16 = line_sensor[0];
    let mut max_index: usize = 0;
    let mut i: usize = 1;
    while i < 8
        invariant
            1 <= i <= 8,
            max_index < i,
            max_index == first_max_index(line_sensor@.take(i as int)),
            max_value == line_sensor@[max_index as int],
        decreases 8 - i,
    {
        proof {
            assert(line_sensor@.take(i + 1).drop_last() =~= line_sensor@.take(i as int));
        }
        if line_sensor[i] > max_value {
            max_value = line_sensor[i];
            max_index = i;
        }
        i += 1;
    }
    proof {
        assert(line_sensor@.take(8) =~= line_sensor@);
    }

    if max_value < LINE_DETECTION_THRESHOLD {
        return None;
    }

    match max_index {
        0 => Some(100),
        1 => Some(75),
        2 => Some(50),
        3 => Some(0),
        4 => Some(0),
        5 => Some(-50),
        6 => Some(-75),
        7 => Some(-100),
        _ => None,
    }
}

/// One drive command per tracking tick.
#[derive(Clone, Copy, Debug, PartialEq, Eq, Structural)]
pub enum DriveCommand {
    Forward { duty: u16 },
    Left { duty: u16, delta: u16 },
    Right { duty: u16, delta: u16 },
    Stop,
}

/// The command the tracking loop issues for a light map: straight ahead on
/// a centered line, a turn toward the stronger side otherwise, and a full
/// stop when no line is detected.
pub open spec fn drive_command(map: Seq<u16>) -> DriveCommand {
    match line_position(map) {
        Option::None => DriveCommand::Stop,
        Option::Some(position) => if position == 0 {
            DriveCommand::Forward { duty: LINE_FOLLOW_DUTY }
        } else if position < 0 {
            DriveCommand::Left { duty: LINE_FOLLOW_DUTY, delta: LINE_FOLLOW_DELTA }
        } else {
            DriveCommand::Right { duty: LINE_FOLLOW_DUTY, delta: LINE_FOLLOW_DELTA }
        },
    }
}

/// Decide the drive command for one tracking tick from a fresh light map.
pub fn drive_command_for(line_sensor: &[u16; 8]) -> (command: DriveCommand)
    ensures
        command == drive_command(line_sensor@),
{
    match get_line_position(line_sensor) {
        None => DriveCommand::Stop,
        Some(position) => {
            if position == 0 {
                DriveCommand::Forward { duty: LINE_FOLLOW_DUTY }
            } else if position < 0 {
                DriveCommand::Left { duty: LINE_FOLLOW_DUTY, delta: LINE_FOLLOW_DELTA }
            } else {
                DriveCommand::Right { duty: LINE_FOLLOW_DUTY, delta: LINE_FOLLOW_DELTA }
            }
        },
    }
}

/// A line seen only by the rightmost sensor is reported hard right and
/// answered with a left turn, the left wheel slowed under the right one.
pub proof fn lemma_rightmost_sensor_turns_left(map: Seq<u16>)
    requires
        map.len() == 8,
        map[7] >= LINE_DETECTION_THRESHOLD,
        forall|j: int| 0 <= j < 7 ==> map[j] < LINE_DETECTION_THRESHOLD,
    ensures
        line_position(map) == Some(-100i16),
        drive_command(map) == (DriveCommand::Left {
            duty: LINE_FOLLOW_DUTY,
            delta: LINE_FOLLOW_DELTA,
        }),
{
    lemma_single_sensor(map, 7);
}

/// Stop the drive, darken both indicators and switch the array's
/// illumination off.
pub fn turn_off_robot<
    B1: ButtonController,
    B2: ButtonController,
    BAT: BatterySensorController,
    LSA: LightSensorArrayController,
    ENG: EngineController,
    BUZ: TimerBasedBuzzerInterface,
    SUP: BoardSupport,
>(status: &mut LineFollowerStatus<B1, B2, BAT, LSA, ENG, BUZ, SUP>)
    ensures
        final(status).engine.left_duty() == 0,
        final(status).engine.right_duty() == 0,
        !final(status).board.led_d1_on(),
        !final(status).board.led_d2_on(),
        !final(status).light_sensor_array.led_on(),
{
    status.engine.stop();
    status.board.set_led_d1(false);
    status.board.set_led_d2(false);
    status.light_sensor_array.set_led(false);
}

/// Follow the line. A bounded pre-roll phase blinks the indicators and can
/// be skipped with button 1; then each tracking tick samples the light
/// map, issues the drive command decided by `drive_command_for`, and polls
/// the interrupt sources. Losing the line stops the drive and emits
/// `NothingHappened` with the drive provably at rest; button 2 and the
/// low-battery condition interrupt the run; no event when the polling
/// budget runs out first.
pub fn run<
    B1: ButtonController,
    B2: ButtonController,
    BAT: BatterySensorController,
    LSA: LightSensorArrayController,
    ENG: EngineController,
    BUZ: TimerBasedBuzzerInterface,
    SUP: BoardSupport,
>(status: &mut LineFollowerStatus<B1, B2, BAT, LSA, ENG, BUZ, SUP>) -> (event: Option<FSMEvent>)
    ensures
        event matches Some(fired) ==> emits(FSMState::LineFollowing, fired),
        event == Some(FSMEvent::NothingHappened) ==> final(status).engine.left_duty() == 0
            && final(status).engine.right_duty() == 0
            && !final(status).light_sensor_array.led_on(),
{
    status.board.log("Line following state\r\n");

    // Pre-roll: blink for a bounded number of ticks before moving; button 1
    // or serial '1' skips the wait, the other sources abort the state.
    status.board.log("Waiting for 5 seconds before starting to move\r\n");
    let mut tick: u8 = 0;
    let mut skip_preroll = false;
    while !skip_preroll && tick < 90
        decreases 90 - tick,
    {
        tick += 1;

        status.board.toggle_led_d1();
        status.board.toggle_led_d2();
        status.board.delay_ms(50);

        if status.btn_1.is_pressed() {
            skip_preroll = true;
        } else if status.btn_2.is_pressed() {
            return Some(FSMEvent::Button2Pressed);
        } else if status.battery_sensor.is_battery_low() {
            return Some(FSMEvent::BatteryIsLow);
        } else if let Some(byte) = status.board.try_read_byte() {
            if byte == 49 {
                // '1'
                skip_preroll = true;
            } else if byte == 50 {
                // '2'
                return Some(FSMEvent::Button2Pressed);
            }
        }
    }

    status.board.log("turn on line sensor led\r\n");
    status.light_sensor_array.set_led(true);

    // Tracking: steer toward the line each tick, stop when it disappears.
    let mut remaining_polls: u64 = crate::fsm_states::POLL_BUDGET;
    while remaining_polls > 0
        decreases remaining_polls,
    {
        remaining_polls -= 1;

        let line_sensor = status.light_sensor_array.get_light_map();
        match drive_command_for(&line_sensor) {
            DriveCommand::Forward { duty } => {
                status.board.set_led_d1(true);
                status.board.set_led_d2(true);
                status.engine.forward(duty);
            },
            DriveCommand::Left { duty, delta } => {
                status.board.set_led_d1(false);
                status.board.set_led_d2(true);
                status.engine.left(duty, delta);
            },
            DriveCommand::Right { duty, delta } => {
                status.board.set_led_d1(true);
                status.board.set_led_d2(false);
                status.engine.right(duty, delta);
            },
            DriveCommand::Stop => {
                status.board.log("No line detected\r\n");
                turn_off_robot(status);
                return Some(FSMEvent::NothingHappened);
            },
        }

        status.board.delay_ms(50);

        if status.btn_2.is_pressed() {
            turn_off_robot(status);
            return Some(FSMEvent::Button2Pressed);
        }
        if status.battery_sensor.is_battery_low() {
            turn_off_robot(status);
            return Some(FSMEvent::BatteryIsLow);
        }
        if let Some(byte) = status.board.try_read_byte() {
            if byte == 50 {
                // '2'
                turn_off_robot(status);
                return Some(FSMEvent::Button2Pressed);
            }
        }
    }
    None
}

} // verus!
