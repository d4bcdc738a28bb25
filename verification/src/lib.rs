//! A Logo interpreter library: lexer, language dictionary, data store and
//! the supporting state of a turtle-graphics environment.
use vstd::prelude::*;

pub mod gui;
pub mod interpreter;
pub mod state;
pub mod table;
pub mod text;

verus! {
} // verus!
