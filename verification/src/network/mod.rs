//! The action-tagged JSON messages between the server and its players.

pub mod action;
pub mod json;
pub mod network;
pub mod reply;
