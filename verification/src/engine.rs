//! The differential drive controller: maps a forward/turn command onto the
//! two wheel motors.

use vstd::prelude::*;

use crate::motor::MotorController;
use crate::motor::MotorState;

verus! {

/// The drive actuator the robot control loop commands. A turn slows the
/// inner wheel by `delta` while the outer wheel keeps the full `duty`; the
/// caller keeps `delta <= duty`. Every call sets direction and duty
/// unconditionally, so issuing the same command each tick is harmless.
pub trait EngineController {
    /// Direction of the left wheel's motor.
    spec fn left_state(&self) -> MotorState;

    /// Duty cycle of the left wheel's motor.
    spec fn left_duty(&self) -> u16;

    /// Direction of the right wheel's motor.
    spec fn right_state(&self) -> MotorState;

    /// Duty cycle of the right wheel's motor.
    spec fn right_duty(&self) -> u16;

    fn forward(&mut self, duty: u16)
        ensures
            final(self).left_state() == MotorState::Forward,
            final(self).left_duty() == duty,
            final(self).right_state() == MotorState::Forward,
            final(self).right_duty() == duty,
        ;

    fn backward(&mut self, duty: u16)
        ensures
            final(self).left_state() == MotorState::Backward,
            final(self).left_duty() == duty,
            final(self).right_state() == MotorState::Backward,
            final(self).right_duty() == duty,
        ;

    fn left(&mut self, duty: u16, delta: u16)
        requires
            delta <= duty,
        ensures
            final(self).left_state() == MotorState::Forward,
            final(self).left_duty() == duty - delta,
            final(self).right_state() == MotorState::Forward,
            final(self).right_duty() == duty,
        ;

    fn right(&mut self, duty: u16, delta: u16)
        requires
            delta <= duty,
        ensures
            final(self).left_state() == MotorState::Forward,
            final(self).left_duty() == duty,
            final(self).right_state() == MotorState::Forward,
            final(self).right_duty() == duty - delta,
        ;

    fn stop(&mut self)
        ensures
            final(self).left_duty() == 0,
            final(self).right_duty() == 0,
            final(self).left_state() == old(self).left_state(),
            final(self).right_state() == old(self).right_state(),
        ;
}

/// A differential drive built from two independent wheel motors.
pub struct Engine<A: MotorController, B: MotorController> {
    pub left: A,
    pub right: B,
}

impl<A: MotorController, B: MotorController> Engine<A, B> {
    pub fn new(left: A, right: B) -> (engine: Engine<A, B>)
        ensures
            engine.left_state() == left.state(),
            engine.left_duty() == left.duty(),
            engine.right_state() == right.state(),
            engine.right_duty() == right.duty(),
    {
        Engine { left, right }
    }
}

impl<A: MotorController, B: MotorController> EngineController for Engine<A, B> {
    closed spec fn left_state(&self) -> MotorState {
        self.left.state()
    }

    closed spec fn left_duty(&self) -> u16 {
        self.left.duty()
    }

    closed spec fn right_state(&self) -> MotorState {
        self.right.state()
    }

    closed spec fn right_duty(&self) -> u16 {
        self.right.duty()
    }

    fn forward(&mut self, duty: u16) {
        self.left.forward();
        self.left.set_duty(duty);
        self.right.forward();
        self.right.set_duty(duty);
    }

    fn backward(&mut self, duty: u16) {
        self.left.backward();
        self.left.set_duty(duty);
        self.right.backward();
        self.right.set_duty(duty);
    }

    fn left(&mut self, duty: u16, delta: u16) {
        self.left.forward();
        self.left.set_duty(duty - delta);
        self.right.forward();
        self.right.set_duty(duty);
    }

    fn right(&mut self, duty: u16, delta: u16) {
        self.left.forward();
        self.left.set_duty(duty);
        self.right.forward();
        self.right.set_duty(duty - delta);
    }

    fn stop(&mut self) {
        self.left.stop();
        self.right.stop();
    }
}

} // verus!
