//! The texts that the engine writes into the log and shows to the seats.

pub mod general;
pub mod specific;
