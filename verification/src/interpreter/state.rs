//! The interpreter's state: stored data, keyboard input and object kinds.
pub mod datastore;
pub mod input;
pub mod object;
