use line_follower::engine::Engine;
use line_follower::engine::EngineController;
use line_follower::mightybuga_bsc::engine::Engine as SpeedEngine;
use line_follower::mightybuga_bsc::motor::MotorController as SpeedMotorController;
use line_follower::mightybuga_bsc::motor::MotorState as SpeedMotorState;
use line_follower::motor::MotorController;
use line_follower::motor::MotorState;
use line_follower::sim::SimMotor;
use line_follower::sim::SimSpeedMotor;

fn get_motors() -> (SimMotor, SimMotor) {
    (SimMotor::new(), SimMotor::new())
}

#[test]
fn test_engine_forward() {
    // given
    let (left, right) = get_motors();

    // when
    let mut engine = Engine::new(left, right);
    engine.forward(10);

    // then
    assert_eq!(engine.left.state, MotorState::Forward);
    assert_eq!(engine.left.duty_history, vec![10]);
    assert_eq!(engine.right.state, MotorState::Forward);
    assert_eq!(engine.right.duty_history, vec![10]);
}

#[test]
fn test_engine_backward() {
    // given
    let (left, right) = get_motors();

    // when
    let mut engine = Engine::new(left, right);
    engine.backward(10);

    // then
    assert_eq!(engine.left.state, MotorState::Backward);
    assert_eq!(engine.left.duty, 10);
    assert_eq!(engine.right.state, MotorState::Backward);
    assert_eq!(engine.right.duty, 10);
}

#[test]
fn test_engine_left() {
    // given
    let (left, right) = get_motors();

    // when
    let mut engine = Engine::new(left, right);
    engine.left(10, 5);

    // then
    assert_eq!(engine.left.state, MotorState::Forward);
    assert_eq!(engine.left.duty, 5);
    assert_eq!(engine.right.state, MotorState::Forward);
    assert_eq!(engine.right.duty, 10);
}

#[test]
fn test_engine_rigth() {
    // given
    let (left, right) = get_motors();

    // when
    let mut engine = Engine::new(left, right);
    engine.right(10, 5);

    // then
    assert_eq!(engine.left.state, MotorState::Forward);
    assert_eq!(engine.left.duty, 10);
    assert_eq!(engine.right.state, MotorState::Forward);
    assert_eq!(engine.right.duty, 5);
}

#[test]
fn engine_turn_duties() {
    // a turn slows the inner wheel by delta and keeps the outer at duty
    let mut engine = Engine::new(SimMotor::new(), SimMotor::new());
    engine.left(10000, 3000);
    assert_eq!(engine.left.state, MotorState::Forward);
    assert_eq!(engine.left.duty, 7000);
    assert_eq!(engine.right.state, MotorState::Forward);
    assert_eq!(engine.right.duty, 10000);

    let mut engine = Engine::new(SimMotor::new(), SimMotor::new());
    engine.right(10000, 3000);
    assert_eq!(engine.left.duty, 10000);
    assert_eq!(engine.right.duty, 7000);
}

#[test]
fn engine_stop_zeroes_both_duties() {
    // stop zeroes the duty of both wheels whatever direction was set
    let mut engine = Engine::new(SimMotor::new(), SimMotor::new());
    engine.backward(10000);
    engine.stop();
    assert_eq!(engine.left.duty, 0);
    assert_eq!(engine.right.duty, 0);
    assert_eq!(engine.left.state, MotorState::Backward);
    assert_eq!(engine.right.state, MotorState::Backward);
}

#[test]
fn test_motor_forward() {
    // given
    let mut motor = SimMotor::new();
    motor.set_duty(42);

    // when
    motor.forward();

    // then
    assert_eq!(motor.state, MotorState::Forward);
    assert_eq!(motor.duty, 42);
}

#[test]
fn test_motor_backward() {
    // given
    let mut motor = SimMotor::new();
    motor.set_duty(42);

    // when
    motor.backward();

    // then
    assert_eq!(motor.state, MotorState::Backward);
    assert_eq!(motor.duty, 42);
}

fn get_speed_motors() -> (SimSpeedMotor, SimSpeedMotor) {
    (SimSpeedMotor::new(), SimSpeedMotor::new())
}

#[test]
fn engine_test_engine_forward() {
    // given
    let (left, right) = get_speed_motors();

    // when
    let mut engine = SpeedEngine::new(left, right);
    engine.forward(10);

    // then
    assert_eq!(engine.left.state, SpeedMotorState::Start);
    assert_eq!(engine.left.speed, 10);
    assert_eq!(engine.right.state, SpeedMotorState::Start);
    assert_eq!(engine.right.speed, 10);
}

#[test]
fn engine_test_engine_backward() {
    // given
    let (left, right) = get_speed_motors();

    // when
    let mut engine = SpeedEngine::new(left, right);
    engine.backward(10);

    // then
    assert_eq!(engine.left.state, SpeedMotorState::Start);
    assert_eq!(engine.left.speed, -10);
    assert_eq!(engine.right.state, SpeedMotorState::Start);
    assert_eq!(engine.right.speed, -10);
}

#[test]
fn engine_test_engine_left() {
    // given
    let (left, right) = get_speed_motors();

    // when
    let mut engine = SpeedEngine::new(left, right);
    engine.left(10, 5);

    // then
    assert_eq!(engine.left.state, SpeedMotorState::Start);
    assert_eq!(engine.left.speed, 5);
    assert_eq!(engine.right.state, SpeedMotorState::Start);
    assert_eq!(engine.right.speed, 10);
}

#[test]
fn engine_test_engine_rigth() {
    // given
    let (left, right) = get_speed_motors();

    // when
    let mut engine = SpeedEngine::new(left, right);
    engine.right(10, 5);

    // then
    assert_eq!(engine.left.state, SpeedMotorState::Start);
    assert_eq!(engine.left.speed, 10);
    assert_eq!(engine.right.state, SpeedMotorState::Start);
    assert_eq!(engine.right.speed, 5);
}

#[test]
fn test_motor_start() {
    // given
    let mut motor = SimSpeedMotor::new();

    // when
    motor.start();

    // then
    assert_eq!(motor.state, SpeedMotorState::Start);
}

#[test]
fn test_motor_stop() {
    // given
    let mut motor = SimSpeedMotor::new();
    motor.start();

    // when
    motor.stop();

    // then
    assert_eq!(motor.state, SpeedMotorState::Stop);
}
