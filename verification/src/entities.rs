//! The characters of the level, each a small state machine.

pub mod knight;
pub mod wolf;
