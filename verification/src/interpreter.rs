//! The interpreter's language, state and utilities.
pub mod event;
pub mod interpreter;
pub mod language;
pub mod performance;
pub mod run;
pub mod state;
pub mod util;
