use line_follower::fsm_states::line_following::drive_command_for;
use line_follower::fsm_states::line_following::get_line_position;
use line_follower::fsm_states::line_following::DriveCommand;
use line_follower::fsm_states::line_following::LINE_FOLLOW_DELTA;
use line_follower::fsm_states::line_following::LINE_FOLLOW_DUTY;

#[test]
fn estimator_all_zero_map_reports_no_line() {
    assert_eq!(get_line_position(&[0, 0, 0, 0, 0, 0, 0, 0]), None);
}

#[test]
fn estimator_all_below_threshold_reports_no_line() {
    assert_eq!(get_line_position(&[999, 500, 700, 999, 42, 1, 0, 998]), None);
}

#[test]
fn estimator_leftmost_sensor_reads_full_left() {
    assert_eq!(get_line_position(&[2000, 0, 0, 0, 0, 0, 0, 0]), Some(100));
}

#[test]
fn estimator_center_sensors_read_straight_ahead() {
    assert_eq!(get_line_position(&[0, 0, 0, 1500, 0, 0, 0, 0]), Some(0));
    assert_eq!(get_line_position(&[0, 0, 0, 0, 1500, 0, 0, 0]), Some(0));
}

#[test]
fn estimator_rightmost_sensor_reads_full_right() {
    assert_eq!(get_line_position(&[0, 0, 0, 0, 0, 0, 0, 2000]), Some(-100));
}

#[test]
fn estimator_quantizes_every_slot() {
    assert_eq!(get_line_position(&[3000, 0, 0, 0, 0, 0, 0, 0]), Some(100));
    assert_eq!(get_line_position(&[0, 3000, 0, 0, 0, 0, 0, 0]), Some(75));
    assert_eq!(get_line_position(&[0, 0, 3000, 0, 0, 0, 0, 0]), Some(50));
    assert_eq!(get_line_position(&[0, 0, 0, 3000, 0, 0, 0, 0]), Some(0));
    assert_eq!(get_line_position(&[0, 0, 0, 0, 3000, 0, 0, 0]), Some(0));
    assert_eq!(get_line_position(&[0, 0, 0, 0, 0, 3000, 0, 0]), Some(-50));
    assert_eq!(get_line_position(&[0, 0, 0, 0, 0, 0, 3000, 0]), Some(-75));
    assert_eq!(get_line_position(&[0, 0, 0, 0, 0, 0, 0, 3000]), Some(-100));
}

#[test]
fn estimator_threshold_is_inclusive() {
    // exactly at the threshold the line counts as present
    assert_eq!(get_line_position(&[0, 0, 1000, 0, 0, 0, 0, 0]), Some(50));
    assert_eq!(get_line_position(&[0, 0, 999, 0, 0, 0, 0, 0]), None);
}

#[test]
fn estimator_tie_breaks_to_lowest_index() {
    // equal maxima: the leftmost of them wins
    assert_eq!(get_line_position(&[1200, 1200, 0, 0, 0, 0, 0, 0]), Some(100));
    assert_eq!(get_line_position(&[0, 0, 0, 1200, 1200, 0, 0, 1200]), Some(0));
}

#[test]
fn drive_command_straight_on_centered_line() {
    let command = drive_command_for(&[0, 0, 0, 1500, 0, 0, 0, 0]);
    assert_eq!(command, DriveCommand::Forward { duty: LINE_FOLLOW_DUTY });
}

#[test]
fn drive_command_left_turn_on_rightmost_line() {
    // a line seen hard right is answered by slowing the left wheel
    let command = drive_command_for(&[0, 0, 0, 0, 0, 0, 0, 2000]);
    assert_eq!(
        command,
        DriveCommand::Left { duty: LINE_FOLLOW_DUTY, delta: LINE_FOLLOW_DELTA }
    );
}

#[test]
fn drive_command_right_turn_on_leftmost_line() {
    let command = drive_command_for(&[2000, 0, 0, 0, 0, 0, 0, 0]);
    assert_eq!(
        command,
        DriveCommand::Right { duty: LINE_FOLLOW_DUTY, delta: LINE_FOLLOW_DELTA }
    );
}

#[test]
fn drive_command_stop_without_line() {
    let command = drive_command_for(&[10, 20, 30, 40, 50, 60, 70, 80]);
    assert_eq!(command, DriveCommand::Stop);
}
