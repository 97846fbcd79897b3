//! Server-side state of one player.

pub mod player;
