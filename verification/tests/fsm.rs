use line_follower::fsm::transition_is_listed;
use line_follower::fsm::FSMEvent;
use line_follower::fsm::FSMEvent::BatteryIsLow;
use line_follower::fsm::FSMEvent::Button1Pressed;
use line_follower::fsm::FSMEvent::Button2Pressed;
use line_follower::fsm::FSMEvent::NothingHappened;
use line_follower::fsm::FSMState;
use line_follower::fsm::FSMState::BatteryLow;
use line_follower::fsm::FSMState::Calibration;
use line_follower::fsm::FSMState::HardwareCheck;
use line_follower::fsm::FSMState::Idle;
use line_follower::fsm::FSMState::LineFollowing;

#[test]
fn test_simple() {
    // Just a simple test to make sure the test framework is working
    assert_eq!(true, true);
}

#[test]
fn transition_table_listed_pairs() {
    assert_eq!(Idle.next(Button1Pressed), HardwareCheck);
    assert_eq!(Idle.next(Button2Pressed), Calibration);
    assert_eq!(Idle.next(BatteryIsLow), BatteryLow);

    assert_eq!(HardwareCheck.next(NothingHappened), Idle);
    assert_eq!(HardwareCheck.next(BatteryIsLow), BatteryLow);

    assert_eq!(Calibration.next(Button1Pressed), LineFollowing);
    assert_eq!(Calibration.next(Button2Pressed), Idle);
    assert_eq!(Calibration.next(BatteryIsLow), BatteryLow);

    assert_eq!(LineFollowing.next(Button2Pressed), Idle);
    assert_eq!(LineFollowing.next(BatteryIsLow), BatteryLow);
    assert_eq!(LineFollowing.next(NothingHappened), Idle);

    assert_eq!(BatteryLow.next(NothingHappened), Idle);
}

#[test]
fn transition_table_unlisted_pairs_default_to_idle() {
    // every pair outside the table lands in Idle
    assert_eq!(Idle.next(NothingHappened), Idle);
    assert_eq!(HardwareCheck.next(Button1Pressed), Idle);
    assert_eq!(HardwareCheck.next(Button2Pressed), Idle);
    assert_eq!(Calibration.next(NothingHappened), Idle);
    assert_eq!(LineFollowing.next(Button1Pressed), Idle);
    assert_eq!(BatteryLow.next(Button1Pressed), Idle);
    assert_eq!(BatteryLow.next(Button2Pressed), Idle);
    assert_eq!(BatteryLow.next(BatteryIsLow), Idle);
}

#[test]
fn transition_totality_all_pairs() {
    // all 20 pairs produce a defined state without panicking
    let states = [Idle, HardwareCheck, Calibration, LineFollowing, BatteryLow];
    let events = [NothingHappened, Button1Pressed, Button2Pressed, BatteryIsLow];
    let mut transitions = 0;
    for state in states {
        for event in events {
            let next_state = state.next(event);
            assert!(states.contains(&next_state));
            transitions += 1;
        }
    }
    assert_eq!(transitions, 20);
}

#[test]
fn battery_low_event_preempts_every_state() {
    // from every state but BatteryLow itself, the low-battery event leads
    // to BatteryLow
    for state in [Idle, HardwareCheck, Calibration, LineFollowing] {
        assert_eq!(state.next(BatteryIsLow), BatteryLow);
    }
}

#[test]
fn listed_transitions_are_recognized() {
    assert!(transition_is_listed(Idle, Button1Pressed));
    assert!(transition_is_listed(BatteryLow, NothingHappened));
    assert!(!transition_is_listed(Idle, NothingHappened));
    assert!(!transition_is_listed(BatteryLow, BatteryIsLow));
}
