//! Commands for files, folders and pictures.
use vstd::prelude::*;

use crate::interpreter::language::command::{Command, Params, SCommand};

verus! {

impl Command {
    /// The built-in command `currentdir`.
    pub fn currentdir() -> (c: Command)
        ensures
            c@ == (SCommand { name: "currentdir"@, is_reserved: true, params: Params::Empty }),
    {
        Command::reserved("currentdir", Params::Empty)
    }

    /// The built-in command `chdir`.
    pub fn chdir() -> (c: Command)
        ensures
            c@ == (SCommand { name: "chdir"@, is_reserved: true, params: Params::Fixed(1) }),
    {
        Command::reserved("chdir", Params::Fixed(1))
    }

    /// The built-in command `files`.
    pub fn files() -> (c: Command)
        ensures
            c@ == (SCommand { name: "files"@, is_reserved: true, params: Params::Empty }),
    {
        Command::reserved("files", Params::Empty)
    }

    /// The built-in command `directories`.
    pub fn directories() -> (c: Command)
        ensures
            c@ == (SCommand { name: "directories"@, is_reserved: true, params: Params::Empty }),
    {
        Command::reserved("directories", Params::Empty)
    }

    /// The built-in command `pictlist`.
    pub fn pictlist() -> (c: Command)
        ensures
            c@ == (SCommand { name: "pictlist"@, is_reserved: true, params: Params::Empty }),
    {
        Command::reserved("pictlist", Params::Empty)
    }

    /// The built-in command `textlist`.
    pub fn textlist() -> (c: Command)
        ensures
            c@ == (SCommand { name: "textlist"@, is_reserved: true, params: Params::Empty }),
    {
        Command::reserved("textlist", Params::Empty)
    }

    /// The built-in command `loadshape`.
    pub fn loadshape() -> (c: Command)
        ensures
            c@ == (SCommand { name: "loadshape"@, is_reserved: true, params: Params::Fixed(2) }),
    {
        Command::reserved("loadshape", Params::Fixed(2))
    }

    /// The built-in command `loadpict`.
    pub fn loadpict() -> (c: Command)
        ensures
            c@ == (SCommand { name: "loadpict"@, is_reserved: true, params: Params::Fixed(1) }),
    {
        Command::reserved("loadpict", Params::Fixed(1))
    }

    /// The built-in command `loadtext`.
    pub fn loadtext() -> (c: Command)
        ensures
            c@ == (SCommand { name: "loadtext"@, is_reserved: true, params: Params::Fixed(1) }),
    {
        Command::reserved("loadtext", Params::Fixed(1))
    }

}

} // verus!
