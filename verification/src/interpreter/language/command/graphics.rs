//! Commands for turtles, texts, the canvas and the console.
use vstd::prelude::*;

use crate::interpreter::language::command::{Command, Params, SCommand};

verus! {

impl Command {
    /// The built-in command `forward`.
    pub fn forward() -> (c: Command)
        ensures
            c@ == (SCommand { name: "forward"@, is_reserved: true, params: Params::Fixed(1) }),
    {
        Command::reserved("forward", Params::Fixed(1))
    }

    /// The built-in command `back`.
    pub fn back() -> (c: Command)
        ensures
            c@ == (SCommand { name: "back"@, is_reserved: true, params: Params::Fixed(1) }),
    {
        Command::reserved("back", Params::Fixed(1))
    }

    /// The built-in command `left`.
    pub fn left() -> (c: Command)
        ensures
            c@ == (SCommand { name: "left"@, is_reserved: true, params: Params::Fixed(1) }),
    {
        Command::reserved("left", Params::Fixed(1))
    }

    /// The built-in command `right`.
    pub fn right() -> (c: Command)
        ensures
            c@ == (SCommand { name: "right"@, is_reserved: true, params: Params::Fixed(1) }),
    {
        Command::reserved("right", Params::Fixed(1))
    }

    /// The built-in command `xcor`.
    pub fn xcor() -> (c: Command)
        ensures
            c@ == (SCommand { name: "xcor"@, is_reserved: true, params: Params::Empty }),
    {
        Command::reserved("xcor", Params::Empty)
    }

    /// The built-in command `setx`.
    pub fn setx() -> (c: Command)
        ensures
            c@ == (SCommand { name: "setx"@, is_reserved: true, params: Params::Fixed(1) }),
    {
        Command::reserved("setx", Params::Fixed(1))
    }

    /// The built-in command `ycor`.
    pub fn ycor() -> (c: Command)
        ensures
            c@ == (SCommand { name: "ycor"@, is_reserved: true, params: Params::Empty }),
    {
        Command::reserved("ycor", Params::Empty)
    }

    /// The built-in command `sety`.
    pub fn sety() -> (c: Command)
        ensures
            c@ == (SCommand { name: "sety"@, is_reserved: true, params: Params::Fixed(1) }),
    {
        Command::reserved("sety", Params::Fixed(1))
    }

    /// The built-in command `pos`.
    pub fn pos() -> (c: Command)
        ensures
            c@ == (SCommand { name: "pos"@, is_reserved: true, params: Params::Empty }),
    {
        Command::reserved("pos", Params::Empty)
    }

    /// The built-in command `setpos`.
    pub fn setpos() -> (c: Command)
        ensures
            c@ == (SCommand { name: "setpos"@, is_reserved: true, params: Params::Fixed(1) }),
    {
        Command::reserved("setpos", Params::Fixed(1))
    }

    /// The built-in command `heading`.
    pub fn heading() -> (c: Command)
        ensures
            c@ == (SCommand { name: "heading"@, is_reserved: true, params: Params::Empty }),
    {
        Command::reserved("heading", Params::Empty)
    }

    /// The built-in command `setheading`.
    pub fn setheading() -> (c: Command)
        ensures
            c@ == (SCommand { name: "setheading"@, is_reserved: true, params: Params::Fixed(1) }),
    {
        Command::reserved("setheading", Params::Fixed(1))
    }

    /// The built-in command `color`.
    pub fn color() -> (c: Command)
        ensures
            c@ == (SCommand { name: "color"@, is_reserved: true, params: Params::Empty }),
    {
        Command::reserved("color", Params::Empty)
    }

    /// The built-in command `setcolor`.
    pub fn setcolor() -> (c: Command)
        ensures
            c@ == (SCommand { name: "setcolor"@, is_reserved: true, params: Params::Fixed(1) }),
    {
        Command::reserved("setcolor", Params::Fixed(1))
    }

    /// The built-in command `size`.
    pub fn size() -> (c: Command)
        ensures
            c@ == (SCommand { name: "size"@, is_reserved: true, params: Params::Empty }),
    {
        Command::reserved("size", Params::Empty)
    }

    /// The built-in command `setsize`.
    pub fn setsize() -> (c: Command)
        ensures
            c@ == (SCommand { name: "setsize"@, is_reserved: true, params: Params::Fixed(1) }),
    {
        Command::reserved("setsize", Params::Fixed(1))
    }

    /// The built-in command `pensize`.
    pub fn pensize() -> (c: Command)
        ensures
            c@ == (SCommand { name: "pensize"@, is_reserved: true, params: Params::Empty }),
    {
        Command::reserved("pensize", Params::Empty)
    }

    /// The built-in command `setpensize`.
    pub fn setpensize() -> (c: Command)
        ensures
            c@ == (SCommand { name: "setpensize"@, is_reserved: true, params: Params::Fixed(1) }),
    {
        Command::reserved("setpensize", Params::Fixed(1))
    }

    /// The built-in command `shape`.
    pub fn shape() -> (c: Command)
        ensures
            c@ == (SCommand { name: "shape"@, is_reserved: true, params: Params::Empty }),
    {
        Command::reserved("shape", Params::Empty)
    }

    /// The built-in command `setshape`.
    pub fn setshape() -> (c: Command)
        ensures
            c@ == (SCommand { name: "setshape"@, is_reserved: true, params: Params::Fixed(1) }),
    {
        Command::reserved("setshape", Params::Fixed(1))
    }

    /// The built-in command `pd`.
    pub fn pd() -> (c: Command)
        ensures
            c@ == (SCommand { name: "pd"@, is_reserved: true, params: Params::Empty }),
    {
        Command::reserved("pd", Params::Empty)
    }

    /// The built-in command `pu`.
    pub fn pu() -> (c: Command)
        ensures
            c@ == (SCommand { name: "pu"@, is_reserved: true, params: Params::Empty }),
    {
        Command::reserved("pu", Params::Empty)
    }

    /// The built-in command `visible?`.
    pub fn visible() -> (c: Command)
        ensures
            c@ == (SCommand { name: "visible?"@, is_reserved: true, params: Params::Empty }),
    {
        Command::reserved("visible?", Params::Empty)
    }

    /// The built-in command `st`.
    pub fn st() -> (c: Command)
        ensures
            c@ == (SCommand { name: "st"@, is_reserved: true, params: Params::Empty }),
    {
        Command::reserved("st", Params::Empty)
    }

    /// The built-in command `ht`.
    pub fn ht() -> (c: Command)
        ensures
            c@ == (SCommand { name: "ht"@, is_reserved: true, params: Params::Empty }),
    {
        Command::reserved("ht", Params::Empty)
    }

    /// The built-in command `freeze`.
    pub fn freeze() -> (c: Command)
        ensures
            c@ == (SCommand { name: "freeze"@, is_reserved: true, params: Params::Empty }),
    {
        Command::reserved("freeze", Params::Empty)
    }

    /// The built-in command `unfreeze`.
    pub fn unfreeze() -> (c: Command)
        ensures
            c@ == (SCommand { name: "unfreeze"@, is_reserved: true, params: Params::Empty }),
    {
        Command::reserved("unfreeze", Params::Empty)
    }

    /// The built-in command `distance`.
    pub fn distance() -> (c: Command)
        ensures
            c@ == (SCommand { name: "distance"@, is_reserved: true, params: Params::Fixed(1) }),
    {
        Command::reserved("distance", Params::Fixed(1))
    }

    /// The built-in command `towards`.
    pub fn towards() -> (c: Command)
        ensures
            c@ == (SCommand { name: "towards"@, is_reserved: true, params: Params::Fixed(1) }),
    {
        Command::reserved("towards", Params::Fixed(1))
    }

    /// The built-in command `touching?`.
    pub fn touching() -> (c: Command)
        ensures
            c@ == (SCommand { name: "touching?"@, is_reserved: true, params: Params::Fixed(2) }),
    {
        Command::reserved("touching?", Params::Fixed(2))
    }

    /// The built-in command `colorunder`.
    pub fn colorunder() -> (c: Command)
        ensures
            c@ == (SCommand { name: "colorunder"@, is_reserved: true, params: Params::Empty }),
    {
        Command::reserved("colorunder", Params::Empty)
    }

    /// The built-in command `fontsize`.
    pub fn fontsize() -> (c: Command)
        ensures
            c@ == (SCommand { name: "fontsize"@, is_reserved: true, params: Params::Empty }),
    {
        Command::reserved("fontsize", Params::Empty)
    }

    /// The built-in command `setfontsize`.
    pub fn setfontsize() -> (c: Command)
        ensures
            c@ == (SCommand { name: "setfontsize"@, is_reserved: true, params: Params::Fixed(1) }),
    {
        Command::reserved("setfontsize", Params::Fixed(1))
    }

    /// The built-in command `setstyle`.
    pub fn setstyle() -> (c: Command)
        ensures
            c@ == (SCommand { name: "setstyle"@, is_reserved: true, params: Params::Fixed(1) }),
    {
        Command::reserved("setstyle", Params::Fixed(1))
    }

    /// The built-in command `text`.
    pub fn text() -> (c: Command)
        ensures
            c@ == (SCommand { name: "text"@, is_reserved: true, params: Params::Empty }),
    {
        Command::reserved("text", Params::Empty)
    }

    /// The built-in command `print`.
    pub fn print() -> (c: Command)
        ensures
            c@ == (SCommand { name: "print"@, is_reserved: true, params: Params::Fixed(1) }),
    {
        Command::reserved("print", Params::Fixed(1))
    }

    /// The built-in command `cleartext`.
    pub fn cleartext() -> (c: Command)
        ensures
            c@ == (SCommand { name: "cleartext"@, is_reserved: true, params: Params::Empty }),
    {
        Command::reserved("cleartext", Params::Empty)
    }

    /// The built-in command `projectsize`.
    pub fn projectsize() -> (c: Command)
        ensures
            c@ == (SCommand { name: "projectsize"@, is_reserved: true, params: Params::Empty }),
    {
        Command::reserved("projectsize", Params::Empty)
    }

    /// The built-in command `setprojectsize`.
    pub fn setprojectsize() -> (c: Command)
        ensures
            c@ == (SCommand { name: "setprojectsize"@, is_reserved: true, params: Params::Fixed(1) }),
    {
        Command::reserved("setprojectsize", Params::Fixed(1))
    }

    /// The built-in command `bg`.
    pub fn bg() -> (c: Command)
        ensures
            c@ == (SCommand { name: "bg"@, is_reserved: true, params: Params::Empty }),
    {
        Command::reserved("bg", Params::Empty)
    }

    /// The built-in command `setbg`.
    pub fn setbg() -> (c: Command)
        ensures
            c@ == (SCommand { name: "setbg"@, is_reserved: true, params: Params::Fixed(1) }),
    {
        Command::reserved("setbg", Params::Fixed(1))
    }

    /// The built-in command `setpict`.
    pub fn setpict() -> (c: Command)
        ensures
            c@ == (SCommand { name: "setpict"@, is_reserved: true, params: Params::Fixed(1) }),
    {
        Command::reserved("setpict", Params::Fixed(1))
    }

    /// The built-in command `placepict`.
    pub fn placepict() -> (c: Command)
        ensures
            c@ == (SCommand { name: "placepict"@, is_reserved: true, params: Params::Fixed(3) }),
    {
        Command::reserved("placepict", Params::Fixed(3))
    }

    /// The built-in command `home`.
    pub fn home() -> (c: Command)
        ensures
            c@ == (SCommand { name: "home"@, is_reserved: true, params: Params::Empty }),
    {
        Command::reserved("home", Params::Empty)
    }

    /// The built-in command `clean`.
    pub fn clean() -> (c: Command)
        ensures
            c@ == (SCommand { name: "clean"@, is_reserved: true, params: Params::Empty }),
    {
        Command::reserved("clean", Params::Empty)
    }

    /// The built-in command `cg`.
    pub fn cg() -> (c: Command)
        ensures
            c@ == (SCommand { name: "cg"@, is_reserved: true, params: Params::Empty }),
    {
        Command::reserved("cg", Params::Empty)
    }

    /// The built-in command `newturtle`.
    pub fn newturtle() -> (c: Command)
        ensures
            c@ == (SCommand { name: "newturtle"@, is_reserved: true, params: Params::Fixed(1) }),
    {
        Command::reserved("newturtle", Params::Fixed(1))
    }

    /// The built-in command `newtext`.
    pub fn newtext() -> (c: Command)
        ensures
            c@ == (SCommand { name: "newtext"@, is_reserved: true, params: Params::Fixed(1) }),
    {
        Command::reserved("newtext", Params::Fixed(1))
    }

    /// The built-in command `remove`.
    pub fn remove() -> (c: Command)
        ensures
            c@ == (SCommand { name: "remove"@, is_reserved: true, params: Params::Fixed(1) }),
    {
        Command::reserved("remove", Params::Fixed(1))
    }

    /// The built-in command `wait`.
    pub fn wait() -> (c: Command)
        ensures
            c@ == (SCommand { name: "wait"@, is_reserved: true, params: Params::Fixed(1) }),
    {
        Command::reserved("wait", Params::Fixed(1))
    }

    /// The built-in command `show`.
    pub fn show() -> (c: Command)
        ensures
            c@ == (SCommand { name: "show"@, is_reserved: true, params: Params::Fixed(1) }),
    {
        Command::reserved("show", Params::Fixed(1))
    }

    /// The built-in command `announce`.
    pub fn announce() -> (c: Command)
        ensures
            c@ == (SCommand { name: "announce"@, is_reserved: true, params: Params::Fixed(1) }),
    {
        Command::reserved("announce", Params::Fixed(1))
    }

    /// The built-in command `cc`.
    pub fn cc() -> (c: Command)
        ensures
            c@ == (SCommand { name: "cc"@, is_reserved: true, params: Params::Empty }),
    {
        Command::reserved("cc", Params::Empty)
    }

}

} // verus!
