//! The board-support drive train: two speed-commanded motors steered by
//! slowing the inner wheel.

use vstd::prelude::*;

use crate::mightybuga_bsc::motor::MotorController;
use crate::mightybuga_bsc::motor::MotorState;

verus! {

/// A differential drive over two speed-commanded motors.
pub struct Engine<A: MotorController, B: MotorController> {
    pub left: A,
    pub right: B,
}

impl<A: MotorController, B: MotorController> Engine<A, B> {
    /// Running state of the left motor.
    pub closed spec fn left_state(&self) -> MotorState {
        self.left.state()
    }

    /// Signed speed of the left motor.
    pub closed spec fn left_speed(&self) -> i16 {
        self.left.speed()
    }

    /// Running state of the right motor.
    pub closed spec fn right_state(&self) -> MotorState {
        self.right.state()
    }

    /// Signed speed of the right motor.
    pub closed spec fn right_speed(&self) -> i16 {
        self.right.speed()
    }

    pub fn new(left: A, right: B) -> (engine: Engine<A, B>)
        ensures
            engine.left_state() == left.state(),
            engine.left_speed() == left.speed(),
            engine.right_state() == right.state(),
            engine.right_speed() == right.speed(),
    {
        Engine { left, right }
    }

    pub fn forward(&mut self, speed: i16)
        ensures
            final(self).left_state() == MotorState::Start,
            final(self).left_speed() == speed,
            final(self).right_state() == MotorState::Start,
            final(self).right_speed() == speed,
    {
        self.left.start();
        self.left.set_speed(speed);
        self.right.start();
        self.right.set_speed(speed);
    }

    pub fn backward(&mut self, speed: i16)
        requires
            speed > i16::MIN,
        ensures
            final(self).left_state() == MotorState::Start,
            final(self).left_speed() == 0 - speed,
            final(self).right_state() == MotorState::Start,
            final(self).right_speed() == 0 - speed,
    {
        self.left.start();
        self.left.set_speed(0 - speed);
        self.right.start();
        self.right.set_speed(0 - speed);
    }

    pub fn left(&mut self, speed: i16, delta: i16)
        requires
            i16::MIN <= speed - delta <= i16::MAX,
        ensures
            final(self).left_state() == MotorState::Start,
            final(self).left_speed() == speed - delta,
            final(self).right_state() == MotorState::Start,
            final(self).right_speed() == speed,
    {
        self.left.start();
        self.left.set_speed(speed - delta);
        self.right.start();
        self.right.set_speed(speed);
    }

    pub fn right(&mut self, speed: i16, delta: i16)
        requires
            i16::MIN <= speed - delta <= i16::MAX,
        ensures
            final(self).left_state() == MotorState::Start,
            final(self).left_speed() == speed,
            final(self).right_state() == MotorState::Start,
            final(self).right_speed() == speed - delta,
    {
        self.left.start();
        self.left.set_speed(speed);
        self.right.start();
        self.right.set_speed(speed - delta);
    }

    pub fn stop(&mut self)
        ensures
            final(self).left_state() == MotorState::Stop,
            final(self).left_speed() == old(self).left_speed(),
            final(self).right_state() == MotorState::Stop,
            final(self).right_speed() == old(self).right_speed(),
    {
        self.left.stop();
        self.right.stop();
    }
}

} // verus!
