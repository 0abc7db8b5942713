//! The motor abstraction of the differential drive: a direction plus a duty
//! cycle in `[0, 65535]`.

use vstd::prelude::*;

verus! {

/// Direction of a single motor. `Brake` shorts the windings and is meant
/// for brief use only.
#[derive(Clone, Copy, Debug, PartialEq, Eq, Structural)]
pub enum MotorState {
    Forward,
    Backward,
    Brake,
}

/// A motor that the drive controller can command. Implementors model the
/// most recently commanded direction and duty; `set_state` and `set_duty`
/// each change one of the two and leave the other alone.
pub trait MotorController {
    /// The most recently commanded direction.
    spec fn state(&self) -> MotorState;

    /// The most recently commanded duty cycle, in `[0, 65535]`.
    spec fn duty(&self) -> u16;

    fn set_state(&mut self, state: MotorState)
        ensures
            final(self).state() == state,
            final(self).duty() == old(self).duty(),
        ;

    fn set_duty(&mut self, duty: u16)
        ensures
            final(self).duty() == duty,
            final(self).state() == old(self).state(),
        ;

    fn forward(&mut self)
        ensures
            final(self).state() == MotorState::Forward,
            final(self).duty() == old(self).duty(),
    {
        self.set_state(MotorState::Forward);
    }

    fn backward(&mut self)
        ensures
            final(self).state() == MotorState::Backward,
            final(self).duty() == old(self).duty(),
    {
        self.set_state(MotorState::Backward);
    }

    fn stop(&mut self)
        ensures
            final(self).duty() == 0,
            final(self).state() == old(self).state(),
    {
        self.set_duty(0);
    }
}

} // verus!
