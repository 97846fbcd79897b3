//! Trick resolution and the round engine.

pub mod trick;
pub mod state;
pub mod wizard;
pub mod round;
