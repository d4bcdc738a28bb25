//! Tokens, commands, the language dictionary and the lexer.
pub mod command;
pub mod language;
pub mod lexer;
pub mod lexer_spec;
pub mod number;
pub mod procedure;
pub mod token;
pub mod util;
