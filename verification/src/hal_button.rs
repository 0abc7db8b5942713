//! The button capability the control loop polls.

use vstd::prelude::*;

verus! {

/// A push button. What a read returns depends on the operator's hand, so
/// nothing is promised about it; the control logic states what it does for
/// every answer.
pub trait ButtonController {
    /// True while the button is held down.
    fn is_pressed(&self) -> bool;

    /// True when the pressed state differs from the previous call; the
    /// implementor owns the remembered state.
    fn is_changed(&mut self) -> bool;
}

} // verus!
