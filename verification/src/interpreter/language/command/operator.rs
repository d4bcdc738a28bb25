//! Arithmetic, logic, word and list commands.
use vstd::prelude::*;

use crate::interpreter::language::command::{Command, Params, SCommand};

verus! {

impl Command {
    /// The built-in command `sum`.
    pub fn sum() -> (c: Command)
        ensures
            c@ == (SCommand { name: "sum"@, is_reserved: true, params: Params::Variadic(2) }),
    {
        Command::reserved("sum", Params::Variadic(2))
    }

    /// The built-in command `difference`.
    pub fn difference() -> (c: Command)
        ensures
            c@ == (SCommand { name: "difference"@, is_reserved: true, params: Params::Fixed(2) }),
    {
        Command::reserved("difference", Params::Fixed(2))
    }

    /// The built-in command `product`.
    pub fn product() -> (c: Command)
        ensures
            c@ == (SCommand { name: "product"@, is_reserved: true, params: Params::Variadic(2) }),
    {
        Command::reserved("product", Params::Variadic(2))
    }

    /// The built-in command `quotient`.
    pub fn quotient() -> (c: Command)
        ensures
            c@ == (SCommand { name: "quotient"@, is_reserved: true, params: Params::Fixed(2) }),
    {
        Command::reserved("quotient", Params::Fixed(2))
    }

    /// The built-in command `remainder`.
    pub fn remainder() -> (c: Command)
        ensures
            c@ == (SCommand { name: "remainder"@, is_reserved: true, params: Params::Fixed(2) }),
    {
        Command::reserved("remainder", Params::Fixed(2))
    }

    /// The built-in command `power`.
    pub fn power() -> (c: Command)
        ensures
            c@ == (SCommand { name: "power"@, is_reserved: true, params: Params::Fixed(2) }),
    {
        Command::reserved("power", Params::Fixed(2))
    }

    /// The built-in command `sqrt`.
    pub fn sqrt() -> (c: Command)
        ensures
            c@ == (SCommand { name: "sqrt"@, is_reserved: true, params: Params::Fixed(1) }),
    {
        Command::reserved("sqrt", Params::Fixed(1))
    }

    /// The built-in command `minus`.
    pub fn minus() -> (c: Command)
        ensures
            c@ == (SCommand { name: "minus"@, is_reserved: true, params: Params::Fixed(1) }),
    {
        Command::reserved("minus", Params::Fixed(1))
    }

    /// The built-in command `abs`.
    pub fn abs() -> (c: Command)
        ensures
            c@ == (SCommand { name: "abs"@, is_reserved: true, params: Params::Fixed(1) }),
    {
        Command::reserved("abs", Params::Fixed(1))
    }

    /// The built-in command `int`.
    pub fn integer() -> (c: Command)
        ensures
            c@ == (SCommand { name: "int"@, is_reserved: true, params: Params::Fixed(1) }),
    {
        Command::reserved("int", Params::Fixed(1))
    }

    /// The built-in command `round`.
    pub fn round() -> (c: Command)
        ensures
            c@ == (SCommand { name: "round"@, is_reserved: true, params: Params::Fixed(1) }),
    {
        Command::reserved("round", Params::Fixed(1))
    }

    /// The built-in command `sin`.
    pub fn sin() -> (c: Command)
        ensures
            c@ == (SCommand { name: "sin"@, is_reserved: true, params: Params::Fixed(1) }),
    {
        Command::reserved("sin", Params::Fixed(1))
    }

    /// The built-in command `cos`.
    pub fn cos() -> (c: Command)
        ensures
            c@ == (SCommand { name: "cos"@, is_reserved: true, params: Params::Fixed(1) }),
    {
        Command::reserved("cos", Params::Fixed(1))
    }

    /// The built-in command `tan`.
    pub fn tan() -> (c: Command)
        ensures
            c@ == (SCommand { name: "tan"@, is_reserved: true, params: Params::Fixed(1) }),
    {
        Command::reserved("tan", Params::Fixed(1))
    }

    /// The built-in command `arctan`.
    pub fn arctan() -> (c: Command)
        ensures
            c@ == (SCommand { name: "arctan"@, is_reserved: true, params: Params::Fixed(1) }),
    {
        Command::reserved("arctan", Params::Fixed(1))
    }

    /// The built-in command `exp`.
    pub fn exp() -> (c: Command)
        ensures
            c@ == (SCommand { name: "exp"@, is_reserved: true, params: Params::Fixed(1) }),
    {
        Command::reserved("exp", Params::Fixed(1))
    }

    /// The built-in command `ln`.
    pub fn ln() -> (c: Command)
        ensures
            c@ == (SCommand { name: "ln"@, is_reserved: true, params: Params::Fixed(1) }),
    {
        Command::reserved("ln", Params::Fixed(1))
    }

    /// The built-in command `log`.
    pub fn log() -> (c: Command)
        ensures
            c@ == (SCommand { name: "log"@, is_reserved: true, params: Params::Fixed(2) }),
    {
        Command::reserved("log", Params::Fixed(2))
    }

    /// The built-in command `equal?`.
    pub fn equal() -> (c: Command)
        ensures
            c@ == (SCommand { name: "equal?"@, is_reserved: true, params: Params::Fixed(2) }),
    {
        Command::reserved("equal?", Params::Fixed(2))
    }

    /// The built-in command `greater?`.
    pub fn greater() -> (c: Command)
        ensures
            c@ == (SCommand { name: "greater?"@, is_reserved: true, params: Params::Fixed(2) }),
    {
        Command::reserved("greater?", Params::Fixed(2))
    }

    /// The built-in command `less?`.
    pub fn less() -> (c: Command)
        ensures
            c@ == (SCommand { name: "less?"@, is_reserved: true, params: Params::Fixed(2) }),
    {
        Command::reserved("less?", Params::Fixed(2))
    }

    /// The built-in command `or`.
    pub fn or() -> (c: Command)
        ensures
            c@ == (SCommand { name: "or"@, is_reserved: true, params: Params::Variadic(2) }),
    {
        Command::reserved("or", Params::Variadic(2))
    }

    /// The built-in command `and`.
    pub fn and() -> (c: Command)
        ensures
            c@ == (SCommand { name: "and"@, is_reserved: true, params: Params::Variadic(2) }),
    {
        Command::reserved("and", Params::Variadic(2))
    }

    /// The built-in command `not`.
    pub fn not() -> (c: Command)
        ensures
            c@ == (SCommand { name: "not"@, is_reserved: true, params: Params::Fixed(1) }),
    {
        Command::reserved("not", Params::Fixed(1))
    }

    /// The built-in command `number?`.
    pub fn isnumber() -> (c: Command)
        ensures
            c@ == (SCommand { name: "number?"@, is_reserved: true, params: Params::Fixed(1) }),
    {
        Command::reserved("number?", Params::Fixed(1))
    }

    /// The built-in command `word?`.
    pub fn isword() -> (c: Command)
        ensures
            c@ == (SCommand { name: "word?"@, is_reserved: true, params: Params::Fixed(1) }),
    {
        Command::reserved("word?", Params::Fixed(1))
    }

    /// The built-in command `list?`.
    pub fn islist() -> (c: Command)
        ensures
            c@ == (SCommand { name: "list?"@, is_reserved: true, params: Params::Fixed(1) }),
    {
        Command::reserved("list?", Params::Fixed(1))
    }

    /// The built-in command `word`.
    pub fn word() -> (c: Command)
        ensures
            c@ == (SCommand { name: "word"@, is_reserved: true, params: Params::Variadic(2) }),
    {
        Command::reserved("word", Params::Variadic(2))
    }

    /// The built-in command `ascii`.
    pub fn ascii() -> (c: Command)
        ensures
            c@ == (SCommand { name: "ascii"@, is_reserved: true, params: Params::Fixed(1) }),
    {
        Command::reserved("ascii", Params::Fixed(1))
    }

    /// The built-in command `char`.
    pub fn char() -> (c: Command)
        ensures
            c@ == (SCommand { name: "char"@, is_reserved: true, params: Params::Fixed(1) }),
    {
        Command::reserved("char", Params::Fixed(1))
    }

    /// The built-in command `list`.
    pub fn list() -> (c: Command)
        ensures
            c@ == (SCommand { name: "list"@, is_reserved: true, params: Params::Variadic(2) }),
    {
        Command::reserved("list", Params::Variadic(2))
    }

    /// The built-in command `count`.
    pub fn count() -> (c: Command)
        ensures
            c@ == (SCommand { name: "count"@, is_reserved: true, params: Params::Fixed(1) }),
    {
        Command::reserved("count", Params::Fixed(1))
    }

    /// The built-in command `item`.
    pub fn item() -> (c: Command)
        ensures
            c@ == (SCommand { name: "item"@, is_reserved: true, params: Params::Fixed(2) }),
    {
        Command::reserved("item", Params::Fixed(2))
    }

    /// The built-in command `first`.
    pub fn first() -> (c: Command)
        ensures
            c@ == (SCommand { name: "first"@, is_reserved: true, params: Params::Fixed(1) }),
    {
        Command::reserved("first", Params::Fixed(1))
    }

    /// The built-in command `last`.
    pub fn last() -> (c: Command)
        ensures
            c@ == (SCommand { name: "last"@, is_reserved: true, params: Params::Fixed(1) }),
    {
        Command::reserved("last", Params::Fixed(1))
    }

    /// The built-in command `butfirst`.
    pub fn butfirst() -> (c: Command)
        ensures
            c@ == (SCommand { name: "butfirst"@, is_reserved: true, params: Params::Fixed(1) }),
    {
        Command::reserved("butfirst", Params::Fixed(1))
    }

    /// The built-in command `butlast`.
    pub fn butlast() -> (c: Command)
        ensures
            c@ == (SCommand { name: "butlast"@, is_reserved: true, params: Params::Fixed(1) }),
    {
        Command::reserved("butlast", Params::Fixed(1))
    }

    /// The built-in command `fput`.
    pub fn fput() -> (c: Command)
        ensures
            c@ == (SCommand { name: "fput"@, is_reserved: true, params: Params::Fixed(2) }),
    {
        Command::reserved("fput", Params::Fixed(2))
    }

    /// The built-in command `lput`.
    pub fn lput() -> (c: Command)
        ensures
            c@ == (SCommand { name: "lput"@, is_reserved: true, params: Params::Fixed(2) }),
    {
        Command::reserved("lput", Params::Fixed(2))
    }

    /// The built-in command `member?`.
    pub fn member() -> (c: Command)
        ensures
            c@ == (SCommand { name: "member?"@, is_reserved: true, params: Params::Fixed(2) }),
    {
        Command::reserved("member?", Params::Fixed(2))
    }

    /// The built-in command `empty?`.
    pub fn empty() -> (c: Command)
        ensures
            c@ == (SCommand { name: "empty?"@, is_reserved: true, params: Params::Fixed(1) }),
    {
        Command::reserved("empty?", Params::Fixed(1))
    }

}

} // verus!
