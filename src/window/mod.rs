//! Window-level input state.
pub mod cursor;
