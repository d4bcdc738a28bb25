//! Commands for variables, procedures, objects, input and randomness.
use vstd::prelude::*;

use crate::interpreter::language::command::{Command, Params, SCommand};

verus! {

impl Command {
    /// The built-in command `make`.
    pub fn make() -> (c: Command)
        ensures
            c@ == (SCommand { name: "make"@, is_reserved: true, params: Params::Fixed(2) }),
    {
        Command::reserved("make", Params::Fixed(2))
    }

    /// The built-in command `to`.
    pub fn to() -> (c: Command)
        ensures
            c@ == (SCommand { name: "to"@, is_reserved: true, params: Params::Fixed(1) }),
    {
        Command::reserved("to", Params::Fixed(1))
    }

    /// The built-in command `local`.
    pub fn local() -> (c: Command)
        ensures
            c@ == (SCommand { name: "local"@, is_reserved: true, params: Params::Fixed(1) }),
    {
        Command::reserved("local", Params::Fixed(1))
    }

    /// The built-in command `let`.
    pub fn letvar() -> (c: Command)
        ensures
            c@ == (SCommand { name: "let"@, is_reserved: true, params: Params::Fixed(1) }),
    {
        Command::reserved("let", Params::Fixed(1))
    }

    /// The built-in command `output`.
    pub fn output() -> (c: Command)
        ensures
            c@ == (SCommand { name: "output"@, is_reserved: true, params: Params::Fixed(1) }),
    {
        Command::reserved("output", Params::Fixed(1))
    }

    /// The built-in command `who`.
    pub fn who() -> (c: Command)
        ensures
            c@ == (SCommand { name: "who"@, is_reserved: true, params: Params::Empty }),
    {
        Command::reserved("who", Params::Empty)
    }

    /// The built-in command `talkto`.
    pub fn talkto() -> (c: Command)
        ensures
            c@ == (SCommand { name: "talkto"@, is_reserved: true, params: Params::Fixed(1) }),
    {
        Command::reserved("talkto", Params::Fixed(1))
    }

    /// The built-in command `ask`.
    pub fn ask() -> (c: Command)
        ensures
            c@ == (SCommand { name: "ask"@, is_reserved: true, params: Params::Fixed(2) }),
    {
        Command::reserved("ask", Params::Fixed(2))
    }

    /// The built-in command `turtlesown`.
    pub fn turtlesown() -> (c: Command)
        ensures
            c@ == (SCommand { name: "turtlesown"@, is_reserved: true, params: Params::Fixed(1) }),
    {
        Command::reserved("turtlesown", Params::Fixed(1))
    }

    /// The built-in command `timer`.
    pub fn timer() -> (c: Command)
        ensures
            c@ == (SCommand { name: "timer"@, is_reserved: true, params: Params::Empty }),
    {
        Command::reserved("timer", Params::Empty)
    }

    /// The built-in command `resett`.
    pub fn resett() -> (c: Command)
        ensures
            c@ == (SCommand { name: "resett"@, is_reserved: true, params: Params::Empty }),
    {
        Command::reserved("resett", Params::Empty)
    }

    /// The built-in command `key?`.
    pub fn key() -> (c: Command)
        ensures
            c@ == (SCommand { name: "key?"@, is_reserved: true, params: Params::Empty }),
    {
        Command::reserved("key?", Params::Empty)
    }

    /// The built-in command `readchar`.
    pub fn readchar() -> (c: Command)
        ensures
            c@ == (SCommand { name: "readchar"@, is_reserved: true, params: Params::Empty }),
    {
        Command::reserved("readchar", Params::Empty)
    }

    /// The built-in command `keydown?`.
    pub fn keydown() -> (c: Command)
        ensures
            c@ == (SCommand { name: "keydown?"@, is_reserved: true, params: Params::Fixed(1) }),
    {
        Command::reserved("keydown?", Params::Fixed(1))
    }

    /// The built-in command `random`.
    pub fn random() -> (c: Command)
        ensures
            c@ == (SCommand { name: "random"@, is_reserved: true, params: Params::Fixed(1) }),
    {
        Command::reserved("random", Params::Fixed(1))
    }

    /// The built-in command `pick`.
    pub fn pick() -> (c: Command)
        ensures
            c@ == (SCommand { name: "pick"@, is_reserved: true, params: Params::Fixed(1) }),
    {
        Command::reserved("pick", Params::Fixed(1))
    }

    /// The built-in command `pi`.
    pub fn pi() -> (c: Command)
        ensures
            c@ == (SCommand { name: "pi"@, is_reserved: true, params: Params::Empty }),
    {
        Command::reserved("pi", Params::Empty)
    }

    /// The built-in command `clearname`.
    pub fn clearname() -> (c: Command)
        ensures
            c@ == (SCommand { name: "clearname"@, is_reserved: true, params: Params::Fixed(1) }),
    {
        Command::reserved("clearname", Params::Fixed(1))
    }

    /// The built-in command `clearnames`.
    pub fn clearnames() -> (c: Command)
        ensures
            c@ == (SCommand { name: "clearnames"@, is_reserved: true, params: Params::Empty }),
    {
        Command::reserved("clearnames", Params::Empty)
    }

    /// The built-in command `procedures`.
    pub fn procedures() -> (c: Command)
        ensures
            c@ == (SCommand { name: "procedures"@, is_reserved: true, params: Params::Empty }),
    {
        Command::reserved("procedures", Params::Empty)
    }

    /// The built-in command `clicked?`.
    pub fn clicked() -> (c: Command)
        ensures
            c@ == (SCommand { name: "clicked?"@, is_reserved: true, params: Params::Empty }),
    {
        Command::reserved("clicked?", Params::Empty)
    }

    /// The built-in command `readclick`.
    pub fn readclick() -> (c: Command)
        ensures
            c@ == (SCommand { name: "readclick"@, is_reserved: true, params: Params::Empty }),
    {
        Command::reserved("readclick", Params::Empty)
    }

}

} // verus!
