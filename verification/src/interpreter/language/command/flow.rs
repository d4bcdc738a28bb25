//! Commands for conditions, loops, errors and grouping.
use vstd::prelude::*;

use crate::interpreter::language::command::{Command, Params, SCommand};

verus! {

impl Command {
    /// The built-in command `if`.
    pub fn ifthen() -> (c: Command)
        ensures
            c@ == (SCommand { name: "if"@, is_reserved: true, params: Params::Fixed(2) }),
    {
        Command::reserved("if", Params::Fixed(2))
    }

    /// The built-in command `ifelse`.
    pub fn ifelse() -> (c: Command)
        ensures
            c@ == (SCommand { name: "ifelse"@, is_reserved: true, params: Params::Fixed(3) }),
    {
        Command::reserved("ifelse", Params::Fixed(3))
    }

    /// The built-in command `repeat`.
    pub fn repeat() -> (c: Command)
        ensures
            c@ == (SCommand { name: "repeat"@, is_reserved: true, params: Params::Fixed(2) }),
    {
        Command::reserved("repeat", Params::Fixed(2))
    }

    /// The built-in command `forever`.
    pub fn forever() -> (c: Command)
        ensures
            c@ == (SCommand { name: "forever"@, is_reserved: true, params: Params::Fixed(1) }),
    {
        Command::reserved("forever", Params::Fixed(1))
    }

    /// The built-in command `again`.
    pub fn again() -> (c: Command)
        ensures
            c@ == (SCommand { name: "again"@, is_reserved: true, params: Params::Empty }),
    {
        Command::reserved("again", Params::Empty)
    }

    /// The built-in command `dotimes`.
    pub fn dotimes() -> (c: Command)
        ensures
            c@ == (SCommand { name: "dotimes"@, is_reserved: true, params: Params::Fixed(2) }),
    {
        Command::reserved("dotimes", Params::Fixed(2))
    }

    /// The built-in command `dolist`.
    pub fn dolist() -> (c: Command)
        ensures
            c@ == (SCommand { name: "dolist"@, is_reserved: true, params: Params::Fixed(2) }),
    {
        Command::reserved("dolist", Params::Fixed(2))
    }

    /// The built-in command `carefully`.
    pub fn carefully() -> (c: Command)
        ensures
            c@ == (SCommand { name: "carefully"@, is_reserved: true, params: Params::Fixed(2) }),
    {
        Command::reserved("carefully", Params::Fixed(2))
    }

    /// The built-in command `errormessage`.
    pub fn errormessage() -> (c: Command)
        ensures
            c@ == (SCommand { name: "errormessage"@, is_reserved: true, params: Params::Empty }),
    {
        Command::reserved("errormessage", Params::Empty)
    }

    /// The built-in command `run`.
    pub fn run() -> (c: Command)
        ensures
            c@ == (SCommand { name: "run"@, is_reserved: true, params: Params::Fixed(1) }),
    {
        Command::reserved("run", Params::Fixed(1))
    }

    /// The built-in command `__paren`.
    pub fn paren() -> (c: Command)
        ensures
            c@ == (SCommand { name: "__paren"@, is_reserved: true, params: Params::Fixed(1) }),
    {
        Command::reserved("__paren", Params::Fixed(1))
    }

}

} // verus!
