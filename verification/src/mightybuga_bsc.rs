//! Board-support flavour of the drive train: motors commanded by a signed
//! speed and a simple start/stop state, as the board crate exposes them.

pub mod engine;
pub mod motor;
