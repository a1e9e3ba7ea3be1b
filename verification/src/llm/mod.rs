//! What the engine needs of the language-model side: the seat's model, the
//! tools it may call, and the decoding of what it answered.

pub mod ai_interface;
pub mod json;
pub mod tools;
