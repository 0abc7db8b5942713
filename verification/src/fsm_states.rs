//! One handler per control state. Each handler drives its state's behavior
//! to a terminating condition and emits at most one event, staying within
//! the event vocabulary of its state.
//!
//! A robot's busy waits are unbounded by nature; here every wait
//! spends one unit of an exhaustible polling budget per round, so each
//! handler provably terminates. A handler whose budget runs out before
//! anything fires reports no event, and the control loop simply re-enters
//! it; with the budget below no real execution ever reaches that point.

pub mod battery_low;
pub mod calibration;
pub mod hardware_check;
pub mod idle;
pub mod line_following;

use vstd::prelude::*;

verus! {

/// How many polling rounds a blocking wait may spend before it reports no
/// event. The budget is practically inexhaustible.
pub const POLL_BUDGET: u64 = u64::MAX;

} // verus!
