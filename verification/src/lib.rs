//! Rules engine for the trick-taking card game Wizard: the card model and
//! deck, trick resolution, per-player scoring, the round engine and the
//! action-tagged message codec.

pub mod cards;
pub mod random;
pub mod players;
pub mod game;
pub mod network;
pub mod client;
