//! A player's side of the protocol.

pub mod client;
pub mod random_client;
