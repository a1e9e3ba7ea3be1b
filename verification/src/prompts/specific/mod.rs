//! Texts for the roles that act at night.

pub mod doctor;
pub mod mafia;
pub mod sheriff;
