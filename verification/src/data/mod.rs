//! The plain data of the game: roles, actions, channels and per-entry tags.

pub mod action;
pub mod channel;
pub mod extra_data;
pub mod roles;
