//! Objects of the canvas in the first generation of the state model.
pub mod object;
