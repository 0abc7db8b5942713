use line_follower::engine::Engine;
use line_follower::fsm::FSMEvent;
use line_follower::fsm::FSMState;
use line_follower::fsm_states::battery_low;
use line_follower::fsm_states::calibration;
use line_follower::fsm_states::line_following;
use line_follower::line_follower_status::LineFollowerStatus;
use line_follower::sim::SimBatterySensor;
use line_follower::sim::SimBoard;
use line_follower::sim::SimButton;
use line_follower::sim::SimBuzzer;
use line_follower::sim::SimLightSensorArray;
use line_follower::sim::SimMotor;

type SimStatus = LineFollowerStatus<
    SimButton,
    SimButton,
    SimBatterySensor,
    SimLightSensorArray,
    Engine<SimMotor, SimMotor>,
    SimBuzzer,
    SimBoard,
>;

fn make_status(
    btn_1: bool,
    btn_2: bool,
    battery_low_reads: usize,
    light_map: [u16; 8],
    serial: Vec<u8>,
) -> SimStatus {
    LineFollowerStatus {
        btn_1: SimButton::new(btn_1),
        btn_2: SimButton::new(btn_2),
        battery_sensor: SimBatterySensor::new(battery_low_reads, 7400),
        light_sensor_array: SimLightSensorArray::new(light_map),
        engine: Engine::new(SimMotor::new(), SimMotor::new()),
        buzzer: SimBuzzer::new(),
        board: SimBoard::new(serial),
    }
}

#[test]
fn end_to_end_hardware_check_round_trip() {
    // Idle + button 1 leads to the hardware check; with the battery normal
    // the check reports nothing and the controller returns to Idle.
    let mut status = make_status(true, false, 0, [0; 8], vec![]);

    let state = FSMState::Idle;
    let event = state.run(&mut status).unwrap();
    assert_eq!(event, FSMEvent::Button1Pressed);

    let state = state.next(event);
    assert_eq!(state, FSMState::HardwareCheck);

    let event = state.run(&mut status).unwrap();
    assert_eq!(event, FSMEvent::NothingHappened);

    let state = state.next(event);
    assert_eq!(state, FSMState::Idle);
}

#[test]
fn end_to_end_hardware_check_low_battery() {
    // a low battery turns the self-test into the safety event, and the
    // controller falls into the absorbing state
    let mut status = make_status(true, false, usize::MAX, [0; 8], vec![]);

    let state = FSMState::HardwareCheck;
    let event = state.run(&mut status).unwrap();
    assert_eq!(event, FSMEvent::BatteryIsLow);
    assert_eq!(state.next(event), FSMState::BatteryLow);
}

#[test]
fn idle_menu_reacts_to_serial_commands() {
    // an invalid byte is ignored, the next one fires like the button
    let mut status = make_status(false, false, 0, [0; 8], vec![b'x', b'1']);
    let event = FSMState::Idle.run(&mut status).unwrap();
    assert_eq!(event, FSMEvent::Button1Pressed);

    let mut status = make_status(false, false, 0, [0; 8], vec![b'2']);
    let event = FSMState::Idle.run(&mut status).unwrap();
    assert_eq!(event, FSMEvent::Button2Pressed);

    let mut status = make_status(false, false, 0, [0; 8], vec![b'l']);
    let event = FSMState::Idle.run(&mut status).unwrap();
    assert_eq!(event, FSMEvent::BatteryIsLow);
}

#[test]
fn idle_reports_low_battery() {
    let mut status = make_status(false, false, usize::MAX, [0; 8], vec![]);
    let event = FSMState::Idle.run(&mut status).unwrap();
    assert_eq!(event, FSMEvent::BatteryIsLow);
}

#[test]
fn idle_sets_indicator_pattern() {
    // during idle, LED D1 is on and LED D2 is off
    let mut status = make_status(true, false, 0, [0; 8], vec![]);
    let _ = FSMState::Idle.run(&mut status).unwrap();
    assert!(status.board.led_d1);
    assert!(!status.board.led_d2);
}

#[test]
fn calibration_proceeds_to_line_following() {
    // button 1 starts the calibration and confirms afterwards
    let mut status = make_status(true, false, 0, [0; 8], vec![]);
    let event = calibration::run(&mut status).unwrap();
    assert_eq!(event, FSMEvent::Button1Pressed);
    assert_eq!(FSMState::Calibration.next(event), FSMState::LineFollowing);
    // the confirmation beeps ended with the buzzer off
    assert!(!status.buzzer.on);
}

#[test]
fn calibration_aborts_via_serial() {
    let mut status = make_status(false, false, 0, [0; 8], vec![b'2']);
    let event = calibration::run(&mut status).unwrap();
    assert_eq!(event, FSMEvent::Button2Pressed);
    assert_eq!(FSMState::Calibration.next(event), FSMState::Idle);
}

#[test]
fn calibration_serial_start_then_proceed() {
    // '1' starts the calibration window, the next '1' proceeds
    let mut status = make_status(false, false, 0, [0; 8], vec![b'1', b'1']);
    let event = calibration::run(&mut status).unwrap();
    assert_eq!(event, FSMEvent::Button1Pressed);
}

#[test]
fn calibration_preempted_by_low_battery() {
    let mut status = make_status(false, false, usize::MAX, [0; 8], vec![]);
    let event = calibration::run(&mut status).unwrap();
    assert_eq!(event, FSMEvent::BatteryIsLow);
}

#[test]
fn battery_low_waits_for_recovery() {
    // the handler keeps alerting while the battery reads low and reports
    // NothingHappened once it recovers; that exit leads back to Idle
    let mut status = make_status(false, false, 3, [0; 8], vec![]);
    let event = battery_low::run(&mut status).unwrap();
    assert_eq!(event, FSMEvent::NothingHappened);
    assert_eq!(FSMState::BatteryLow.next(event), FSMState::Idle);
    // the two-tone alert sounded at least once and ended silent
    assert!(!status.buzzer.on);
    assert_eq!(status.buzzer.prescaler, 70);
}

#[test]
fn end_to_end_line_following_left_turn() {
    // only the rightmost sensor sees the line: the tracking tick issues a
    // left turn, the left wheel slowed under the right one; button 2 then
    // stops the run
    let mut status = make_status(true, true, 0, [0, 0, 0, 0, 0, 0, 0, 2000], vec![]);
    let event = line_following::run(&mut status).unwrap();
    assert_eq!(event, FSMEvent::Button2Pressed);

    // one left turn, then the stop: duty - delta on the left wheel, the
    // full duty on the right one, zero on both after the stop
    assert_eq!(status.engine.left.duty_history, vec![13000, 0]);
    assert_eq!(status.engine.right.duty_history, vec![15000, 0]);
    assert_eq!(FSMState::LineFollowing.next(event), FSMState::Idle);
}

#[test]
fn line_following_stops_without_line() {
    // with every sensor below the threshold the drive stops and the state
    // ends with NothingHappened
    let mut status = make_status(true, false, 0, [0; 8], vec![]);
    let event = line_following::run(&mut status).unwrap();
    assert_eq!(event, FSMEvent::NothingHappened);
    // the only duty ever commanded is the stop
    assert_eq!(status.engine.left.duty_history, vec![0]);
    assert_eq!(status.engine.right.duty_history, vec![0]);
    // the robot was switched off
    assert!(!status.board.led_d1);
    assert!(!status.board.led_d2);
    assert!(!status.light_sensor_array.led_on);
}

#[test]
fn line_following_follows_centered_line() {
    // a centered line keeps the robot going straight until button 2 ends
    // the run
    let mut status = make_status(true, true, 0, [0, 0, 0, 1500, 0, 0, 0, 0], vec![]);
    let event = line_following::run(&mut status).unwrap();
    assert_eq!(event, FSMEvent::Button2Pressed);
    assert_eq!(status.engine.left.duty_history, vec![15000, 0]);
    assert_eq!(status.engine.right.duty_history, vec![15000, 0]);
}

#[test]
fn line_following_aborts_during_preroll() {
    // button 2 during the pre-roll phase aborts before the drive ever runs
    let mut status = make_status(false, true, 0, [0, 0, 0, 1500, 0, 0, 0, 0], vec![]);
    let event = line_following::run(&mut status).unwrap();
    assert_eq!(event, FSMEvent::Button2Pressed);
    assert!(status.engine.left.duty_history.is_empty());
    assert!(status.engine.right.duty_history.is_empty());
}

#[test]
fn full_session_visits_every_state() {
    // one scripted serial session walks the controller through all five
    // states: hardware check, calibration, line following (pre-roll
    // skipped, line absent), and the battery-low alert injected by 'l'
    let script = vec![b'1', b'2', b'1', b'1', b'1', b'l'];
    let mut status = make_status(false, false, 0, [0; 8], script);

    let mut state = FSMState::Idle;
    let mut visited = vec![state];
    for _ in 0..7 {
        if let Some(event) = state.run(&mut status) {
            state = state.next(event);
            visited.push(state);
        }
    }

    assert_eq!(
        visited,
        vec![
            FSMState::Idle,
            FSMState::HardwareCheck,
            FSMState::Idle,
            FSMState::Calibration,
            FSMState::LineFollowing,
            FSMState::Idle,
            FSMState::BatteryLow,
            FSMState::Idle,
        ]
    );
    // the line was never seen, so the only drive command was the stop
    assert_eq!(status.engine.left.duty_history, vec![0]);
    assert_eq!(status.engine.right.duty_history, vec![0]);
}

#[test]
fn line_following_preempted_by_low_battery() {
    // the battery condition interrupts the tracking loop and stops the
    // drive
    let mut status = make_status(true, false, usize::MAX, [0, 0, 0, 1500, 0, 0, 0, 0], vec![]);
    let event = line_following::run(&mut status).unwrap();
    assert_eq!(event, FSMEvent::BatteryIsLow);
    assert_eq!(status.engine.left.duty_history, vec![15000, 0]);
    assert_eq!(FSMState::LineFollowing.next(event), FSMState::BatteryLow);
}
