//! Engine of a turn-based social-deduction game: seats controlled by humans or
//! by language-model agents, one growing event log with per-viewer redaction,
//! a budgeted discussion protocol, plurality voting and the day/night cycle.

pub mod data;
pub mod text;
pub mod actor;
pub mod context_entry;
pub mod llm;
pub mod game;
pub mod prompts;
