//! The board-support motor abstraction: a running state plus a signed
//! speed, negative for reverse.

use vstd::prelude::*;

verus! {

/// Whether a motor is energized.
#[derive(Clone, Copy, Debug, PartialEq, Eq, Structural)]
pub enum MotorState {
    Start,
    Stop,
}

/// A motor commanded by state and signed speed. Implementors model the
/// most recently commanded values; `set_state` and `set_speed` each change
/// one of the two and leave the other alone.
pub trait MotorController {
    /// The most recently commanded running state.
    spec fn state(&self) -> MotorState;

    /// The most recently commanded signed speed.
    spec fn speed(&self) -> i16;

    fn set_state(&mut self, state: MotorState)
        ensures
            final(self).state() == state,
            final(self).speed() == old(self).speed(),
        ;

    fn set_speed(&mut self, speed: i16)
        ensures
            final(self).speed() == speed,
            final(self).state() == old(self).state(),
        ;

    fn start(&mut self)
        ensures
            final(self).state() == MotorState::Start,
            final(self).speed() == old(self).speed(),
    {
        self.set_state(MotorState::Start);
    }

    fn stop(&mut self)
        ensures
            final(self).state() == MotorState::Stop,
            final(self).speed() == old(self).speed(),
    {
        self.set_state(MotorState::Stop);
    }
}

} // verus!
