//! Commands of the language and the number of inputs they take.
use vstd::prelude::*;

pub mod actions;
pub mod basic;
pub mod files;
pub mod flow;
pub mod graphics;
pub mod operator;

verus! {

/// How many inputs a command reads: exactly `n`, `n` by default or all
/// that follow inside parentheses, or none.
#[derive(Debug, Clone, Copy, PartialEq, Eq, Structural)]
pub enum Params {
    Fixed(usize),
    Variadic(usize),
    Empty,
}

/// A command of the language: its name, whether users may redefine it, and
/// the inputs it reads.
#[derive(Debug, Clone)]
pub struct Command {
    pub name: String,
    pub is_reserved: bool,
    pub params: Params,
}

/// The mathematical value of a command.
pub struct SCommand {
    pub name: Seq<char>,
    pub is_reserved: bool,
    pub params: Params,
}

impl View for Command {
    type V = SCommand;

    open spec fn view(&self) -> SCommand {
        SCommand { name: self.name@, is_reserved: self.is_reserved, params: self.params }
    }
}

impl Command {
    /// A built-in command, which users may not redefine.
    pub fn reserved(name: &str, params: Params) -> (c: Self)
        ensures
            c@ == (SCommand { name: name@, is_reserved: true, params }),
    {
        Command { name: String::from_str(name), is_reserved: true, params }
    }

    /// A command defined by the program being run.
    pub fn user_defined(name: &str, params: Params) -> (c: Self)
        ensures
            c@ == (SCommand { name: name@, is_reserved: false, params }),
    {
        Command { name: String::from_str(name), is_reserved: false, params }
    }

    /// Whether the command is called `name`.
    pub fn is(&self, name: &str) -> (b: bool)
        ensures
            b == (self.name@ == name@),
    {
        self.name == String::from_str(name)
    }

    /// A copy of the command.
    pub fn duplicate(&self) -> (c: Self)
        ensures
            c@ == self@,
    {
        Command { name: self.name.clone(), is_reserved: self.is_reserved, params: self.params }
    }
}

} // verus!
