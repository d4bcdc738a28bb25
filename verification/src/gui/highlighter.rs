//! Colouring of Logo code.
pub mod highlighter;
