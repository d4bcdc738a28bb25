//! The dictionary of commands and infix operators.
use vstd::prelude::*;

use crate::interpreter::language::command::{Command, SCommand};
use crate::interpreter::language::command::Params;
use crate::table::NameMap;

verus! {

/// The commands known by name, and the infix operators known by symbol.
pub struct Language {
    commands: NameMap<Command>,
    infix_operators: NameMap<Command>,
}

/// The mathematical value of a language: its commands and its infix
/// operators, each keyed by name.
pub struct SLanguage {
    pub commands: Map<Seq<char>, SCommand>,
    pub infix: Map<Seq<char>, SCommand>,
}

/// The commands stored in a name map, as values.
pub open spec fn command_values(m: Map<Seq<char>, Command>) -> Map<Seq<char>, SCommand> {
    m.map_values(|c: Command| c@)
}

/// The built-in commands and aliases, part 1 of 8.
pub open spec fn default_commands_0() -> Map<Seq<char>, SCommand> {
    Map::<Seq<char>, SCommand>::empty()
        .insert("abs"@, SCommand { name: "abs"@, is_reserved: true, params: Params::Fixed(1) })
        .insert("again"@, SCommand { name: "again"@, is_reserved: true, params: Params::Empty })
        .insert("and"@, SCommand { name: "and"@, is_reserved: true, params: Params::Variadic(2) })
        .insert("announce"@, SCommand { name: "announce"@, is_reserved: true, params: Params::Fixed(1) })
        .insert("arctan"@, SCommand { name: "arctan"@, is_reserved: true, params: Params::Fixed(1) })
        .insert("ascii"@, SCommand { name: "ascii"@, is_reserved: true, params: Params::Fixed(1) })
        .insert("ask"@, SCommand { name: "ask"@, is_reserved: true, params: Params::Fixed(2) })
        .insert("back"@, SCommand { name: "back"@, is_reserved: true, params: Params::Fixed(1) })
        .insert("bg"@, SCommand { name: "bg"@, is_reserved: true, params: Params::Empty })
        .insert("butfirst"@, SCommand { name: "butfirst"@, is_reserved: true, params: Params::Fixed(1) })
        .insert("butlast"@, SCommand { name: "butlast"@, is_reserved: true, params: Params::Fixed(1) })
        .insert("carefully"@, SCommand { name: "carefully"@, is_reserved: true, params: Params::Fixed(2) })
        .insert("cc"@, SCommand { name: "cc"@, is_reserved: true, params: Params::Empty })
        .insert("cg"@, SCommand { name: "cg"@, is_reserved: true, params: Params::Empty })
        .insert("char"@, SCommand { name: "char"@, is_reserved: true, params: Params::Fixed(1) })
        .insert("chdir"@, SCommand { name: "chdir"@, is_reserved: true, params: Params::Fixed(1) })
        .insert("clean"@, SCommand { name: "clean"@, is_reserved: true, params: Params::Empty })
        .insert("clearname"@, SCommand { name: "clearname"@, is_reserved: true, params: Params::Fixed(1) })
        .insert("clearnames"@, SCommand { name: "clearnames"@, is_reserved: true, params: Params::Empty })
        .insert("cleartext"@, SCommand { name: "cleartext"@, is_reserved: true, params: Params::Empty })
}

/// The built-in commands and aliases, part 2 of 8.
pub open spec fn default_commands_1() -> Map<Seq<char>, SCommand> {
    default_commands_0()
        .insert("clicked?"@, SCommand { name: "clicked?"@, is_reserved: true, params: Params::Empty })
        .insert("color"@, SCommand { name: "color"@, is_reserved: true, params: Params::Empty })
        .insert("colorunder"@, SCommand { name: "colorunder"@, is_reserved: true, params: Params::Empty })
        .insert("cos"@, SCommand { name: "cos"@, is_reserved: true, params: Params::Fixed(1) })
        .insert("count"@, SCommand { name: "count"@, is_reserved: true, params: Params::Fixed(1) })
        .insert("currentdir"@, SCommand { name: "currentdir"@, is_reserved: true, params: Params::Empty })
        .insert("difference"@, SCommand { name: "difference"@, is_reserved: true, params: Params::Fixed(2) })
        .insert("directories"@, SCommand { name: "directories"@, is_reserved: true, params: Params::Empty })
        .insert("distance"@, SCommand { name: "distance"@, is_reserved: true, params: Params::Fixed(1) })
        .insert("dolist"@, SCommand { name: "dolist"@, is_reserved: true, params: Params::Fixed(2) })
        .insert("dotimes"@, SCommand { name: "dotimes"@, is_reserved: true, params: Params::Fixed(2) })
        .insert("empty?"@, SCommand { name: "empty?"@, is_reserved: true, params: Params::Fixed(1) })
        .insert("equal?"@, SCommand { name: "equal?"@, is_reserved: true, params: Params::Fixed(2) })
        .insert("errormessage"@, SCommand { name: "errormessage"@, is_reserved: true, params: Params::Empty })
        .insert("exp"@, SCommand { name: "exp"@, is_reserved: true, params: Params::Fixed(1) })
        .insert("files"@, SCommand { name: "files"@, is_reserved: true, params: Params::Empty })
        .insert("first"@, SCommand { name: "first"@, is_reserved: true, params: Params::Fixed(1) })
        .insert("fontsize"@, SCommand { name: "fontsize"@, is_reserved: true, params: Params::Empty })
        .insert("forever"@, SCommand { name: "forever"@, is_reserved: true, params: Params::Fixed(1) })
        .insert("forward"@, SCommand { name: "forward"@, is_reserved: true, params: Params::Fixed(1) })
}

/// The built-in commands and aliases, part 3 of 8.
pub open spec fn default_commands_2() -> Map<Seq<char>, SCommand> {
    default_commands_1()
        .insert("fput"@, SCommand { name: "fput"@, is_reserved: true, params: Params::Fixed(2) })
        .insert("freeze"@, SCommand { name: "freeze"@, is_reserved: true, params: Params::Empty })
        .insert("greater?"@, SCommand { name: "greater?"@, is_reserved: true, params: Params::Fixed(2) })
        .insert("heading"@, SCommand { name: "heading"@, is_reserved: true, params: Params::Empty })
        .insert("home"@, SCommand { name: "home"@, is_reserved: true, params: Params::Empty })
        .insert("ht"@, SCommand { name: "ht"@, is_reserved: true, params: Params::Empty })
        .insert("ifelse"@, SCommand { name: "ifelse"@, is_reserved: true, params: Params::Fixed(3) })
        .insert("if"@, SCommand { name: "if"@, is_reserved: true, params: Params::Fixed(2) })
        .insert("int"@, SCommand { name: "int"@, is_reserved: true, params: Params::Fixed(1) })
        .insert("list?"@, SCommand { name: "list?"@, is_reserved: true, params: Params::Fixed(1) })
        .insert("number?"@, SCommand { name: "number?"@, is_reserved: true, params: Params::Fixed(1) })
        .insert("word?"@, SCommand { name: "word?"@, is_reserved: true, params: Params::Fixed(1) })
        .insert("item"@, SCommand { name: "item"@, is_reserved: true, params: Params::Fixed(2) })
        .insert("key?"@, SCommand { name: "key?"@, is_reserved: true, params: Params::Empty })
        .insert("keydown?"@, SCommand { name: "keydown?"@, is_reserved: true, params: Params::Fixed(1) })
        .insert("last"@, SCommand { name: "last"@, is_reserved: true, params: Params::Fixed(1) })
        .insert("left"@, SCommand { name: "left"@, is_reserved: true, params: Params::Fixed(1) })
        .insert("less?"@, SCommand { name: "less?"@, is_reserved: true, params: Params::Fixed(2) })
        .insert("let"@, SCommand { name: "let"@, is_reserved: true, params: Params::Fixed(1) })
        .insert("list"@, SCommand { name: "list"@, is_reserved: true, params: Params::Variadic(2) })
}

/// The built-in commands and aliases, part 4 of 8.
pub open spec fn default_commands_3() -> Map<Seq<char>, SCommand> {
    default_commands_2()
        .insert("ln"@, SCommand { name: "ln"@, is_reserved: true, params: Params::Fixed(1) })
        .insert("loadpict"@, SCommand { name: "loadpict"@, is_reserved: true, params: Params::Fixed(1) })
        .insert("loadshape"@, SCommand { name: "loadshape"@, is_reserved: true, params: Params::Fixed(2) })
        .insert("loadtext"@, SCommand { name: "loadtext"@, is_reserved: true, params: Params::Fixed(1) })
        .insert("local"@, SCommand { name: "local"@, is_reserved: true, params: Params::Fixed(1) })
        .insert("log"@, SCommand { name: "log"@, is_reserved: true, params: Params::Fixed(2) })
        .insert("lput"@, SCommand { name: "lput"@, is_reserved: true, params: Params::Fixed(2) })
        .insert("make"@, SCommand { name: "make"@, is_reserved: true, params: Params::Fixed(2) })
        .insert("member?"@, SCommand { name: "member?"@, is_reserved: true, params: Params::Fixed(2) })
        .insert("minus"@, SCommand { name: "minus"@, is_reserved: true, params: Params::Fixed(1) })
        .insert("newtext"@, SCommand { name: "newtext"@, is_reserved: true, params: Params::Fixed(1) })
        .insert("newturtle"@, SCommand { name: "newturtle"@, is_reserved: true, params: Params::Fixed(1) })
        .insert("not"@, SCommand { name: "not"@, is_reserved: true, params: Params::Fixed(1) })
        .insert("or"@, SCommand { name: "or"@, is_reserved: true, params: Params::Variadic(2) })
        .insert("output"@, SCommand { name: "output"@, is_reserved: true, params: Params::Fixed(1) })
        .insert("pd"@, SCommand { name: "pd"@, is_reserved: true, params: Params::Empty })
        .insert("pensize"@, SCommand { name: "pensize"@, is_reserved: true, params: Params::Empty })
        .insert("pi"@, SCommand { name: "pi"@, is_reserved: true, params: Params::Empty })
        .insert("pick"@, SCommand { name: "pick"@, is_reserved: true, params: Params::Fixed(1) })
        .insert("pictlist"@, SCommand { name: "pictlist"@, is_reserved: true, params: Params::Empty })
}

/// The built-in commands and aliases, part 5 of 8.
pub open spec fn default_commands_4() -> Map<Seq<char>, SCommand> {
    default_commands_3()
        .insert("pos"@, SCommand { name: "pos"@, is_reserved: true, params: Params::Empty })
        .insert("power"@, SCommand { name: "power"@, is_reserved: true, params: Params::Fixed(2) })
        .insert("print"@, SCommand { name: "print"@, is_reserved: true, params: Params::Fixed(1) })
        .insert("procedures"@, SCommand { name: "procedures"@, is_reserved: true, params: Params::Empty })
        .insert("product"@, SCommand { name: "product"@, is_reserved: true, params: Params::Variadic(2) })
        .insert("projectsize"@, SCommand { name: "projectsize"@, is_reserved: true, params: Params::Empty })
        .insert("pu"@, SCommand { name: "pu"@, is_reserved: true, params: Params::Empty })
        .insert("quotient"@, SCommand { name: "quotient"@, is_reserved: true, params: Params::Fixed(2) })
        .insert("random"@, SCommand { name: "random"@, is_reserved: true, params: Params::Fixed(1) })
        .insert("readchar"@, SCommand { name: "readchar"@, is_reserved: true, params: Params::Empty })
        .insert("readclick"@, SCommand { name: "readclick"@, is_reserved: true, params: Params::Empty })
        .insert("remainder"@, SCommand { name: "remainder"@, is_reserved: true, params: Params::Fixed(2) })
        .insert("remove"@, SCommand { name: "remove"@, is_reserved: true, params: Params::Fixed(1) })
        .insert("repeat"@, SCommand { name: "repeat"@, is_reserved: true, params: Params::Fixed(2) })
        .insert("resett"@, SCommand { name: "resett"@, is_reserved: true, params: Params::Empty })
        .insert("right"@, SCommand { name: "right"@, is_reserved: true, params: Params::Fixed(1) })
        .insert("round"@, SCommand { name: "round"@, is_reserved: true, params: Params::Fixed(1) })
        .insert("run"@, SCommand { name: "run"@, is_reserved: true, params: Params::Fixed(1) })
        .insert("setbg"@, SCommand { name: "setbg"@, is_reserved: true, params: Params::Fixed(1) })
        .insert("setcolor"@, SCommand { name: "setcolor"@, is_reserved: true, params: Params::Fixed(1) })
}

/// The built-in commands and aliases, part 6 of 8.
pub open spec fn default_commands_5() -> Map<Seq<char>, SCommand> {
    default_commands_4()
        .insert("setfontsize"@, SCommand { name: "setfontsize"@, is_reserved: true, params: Params::Fixed(1) })
        .insert("setheading"@, SCommand { name: "setheading"@, is_reserved: true, params: Params::Fixed(1) })
        .insert("setpensize"@, SCommand { name: "setpensize"@, is_reserved: true, params: Params::Fixed(1) })
        .insert("setpos"@, SCommand { name: "setpos"@, is_reserved: true, params: Params::Fixed(1) })
        .insert("setprojectsize"@, SCommand { name: "setprojectsize"@, is_reserved: true, params: Params::Fixed(1) })
        .insert("setshape"@, SCommand { name: "setshape"@, is_reserved: true, params: Params::Fixed(1) })
        .insert("setsize"@, SCommand { name: "setsize"@, is_reserved: true, params: Params::Fixed(1) })
        .insert("setstyle"@, SCommand { name: "setstyle"@, is_reserved: true, params: Params::Fixed(1) })
        .insert("setx"@, SCommand { name: "setx"@, is_reserved: true, params: Params::Fixed(1) })
        .insert("sety"@, SCommand { name: "sety"@, is_reserved: true, params: Params::Fixed(1) })
        .insert("shape"@, SCommand { name: "shape"@, is_reserved: true, params: Params::Empty })
        .insert("show"@, SCommand { name: "show"@, is_reserved: true, params: Params::Fixed(1) })
        .insert("sin"@, SCommand { name: "sin"@, is_reserved: true, params: Params::Fixed(1) })
        .insert("size"@, SCommand { name: "size"@, is_reserved: true, params: Params::Empty })
        .insert("sqrt"@, SCommand { name: "sqrt"@, is_reserved: true, params: Params::Fixed(1) })
        .insert("st"@, SCommand { name: "st"@, is_reserved: true, params: Params::Empty })
        .insert("sum"@, SCommand { name: "sum"@, is_reserved: true, params: Params::Variadic(2) })
        .insert("talkto"@, SCommand { name: "talkto"@, is_reserved: true, params: Params::Fixed(1) })
        .insert("tan"@, SCommand { name: "tan"@, is_reserved: true, params: Params::Fixed(1) })
        .insert("text"@, SCommand { name: "text"@, is_reserved: true, params: Params::Empty })
}

/// The built-in commands and aliases, part 7 of 8.
pub open spec fn default_commands_6() -> Map<Seq<char>, SCommand> {
    default_commands_5()
        .insert("textlist"@, SCommand { name: "textlist"@, is_reserved: true, params: Params::Empty })
        .insert("timer"@, SCommand { name: "timer"@, is_reserved: true, params: Params::Empty })
        .insert("to"@, SCommand { name: "to"@, is_reserved: true, params: Params::Fixed(1) })
        .insert("touching?"@, SCommand { name: "touching?"@, is_reserved: true, params: Params::Fixed(2) })
        .insert("towards"@, SCommand { name: "towards"@, is_reserved: true, params: Params::Fixed(1) })
        .insert("turtlesown"@, SCommand { name: "turtlesown"@, is_reserved: true, params: Params::Fixed(1) })
        .insert("unfreeze"@, SCommand { name: "unfreeze"@, is_reserved: true, params: Params::Empty })
        .insert("visible?"@, SCommand { name: "visible?"@, is_reserved: true, params: Params::Empty })
        .insert("wait"@, SCommand { name: "wait"@, is_reserved: true, params: Params::Fixed(1) })
        .insert("who"@, SCommand { name: "who"@, is_reserved: true, params: Params::Empty })
        .insert("word"@, SCommand { name: "word"@, is_reserved: true, params: Params::Variadic(2) })
        .insert("xcor"@, SCommand { name: "xcor"@, is_reserved: true, params: Params::Empty })
        .insert("ycor"@, SCommand { name: "ycor"@, is_reserved: true, params: Params::Empty })
        .insert("bf"@, SCommand { name: "butfirst"@, is_reserved: true, params: Params::Fixed(1) })
        .insert("bk"@, SCommand { name: "back"@, is_reserved: true, params: Params::Fixed(1) })
        .insert("bl"@, SCommand { name: "butlast"@, is_reserved: true, params: Params::Fixed(1) })
        .insert("ct"@, SCommand { name: "cleartext"@, is_reserved: true, params: Params::Empty })
        .insert("fd"@, SCommand { name: "forward"@, is_reserved: true, params: Params::Fixed(1) })
        .insert("lt"@, SCommand { name: "left"@, is_reserved: true, params: Params::Fixed(1) })
        .insert("op"@, SCommand { name: "output"@, is_reserved: true, params: Params::Fixed(1) })
}

/// The built-in commands and aliases, part 8 of 8.
pub open spec fn default_commands_7() -> Map<Seq<char>, SCommand> {
    default_commands_6()
        .insert("pr"@, SCommand { name: "print"@, is_reserved: true, params: Params::Fixed(1) })
        .insert("rt"@, SCommand { name: "right"@, is_reserved: true, params: Params::Fixed(1) })
        .insert("se"@, SCommand { name: "list"@, is_reserved: true, params: Params::Variadic(2) })
        .insert("sentence"@, SCommand { name: "list"@, is_reserved: true, params: Params::Variadic(2) })
        .insert("setc"@, SCommand { name: "setcolor"@, is_reserved: true, params: Params::Fixed(1) })
        .insert("seth"@, SCommand { name: "setheading"@, is_reserved: true, params: Params::Fixed(1) })
        .insert("setsh"@, SCommand { name: "setshape"@, is_reserved: true, params: Params::Fixed(1) })
        .insert("tto"@, SCommand { name: "talkto"@, is_reserved: true, params: Params::Fixed(1) })
        .insert("__paren"@, SCommand { name: "__paren"@, is_reserved: true, params: Params::Fixed(1) })
}

/// The built-in commands, their aliases and the hidden grouping command.
pub open spec fn default_commands() -> Map<Seq<char>, SCommand> {
    default_commands_7()
}

/// The built-in infix operators.
pub open spec fn default_infix() -> Map<Seq<char>, SCommand> {
    Map::<Seq<char>, SCommand>::empty()
        .insert("+"@, SCommand { name: "sum"@, is_reserved: true, params: Params::Variadic(2) })
        .insert("-"@, SCommand { name: "difference"@, is_reserved: true, params: Params::Fixed(2) })
        .insert("*"@, SCommand { name: "product"@, is_reserved: true, params: Params::Variadic(2) })
        .insert("/"@, SCommand { name: "quotient"@, is_reserved: true, params: Params::Fixed(2) })
        .insert("^"@, SCommand { name: "power"@, is_reserved: true, params: Params::Fixed(2) })
        .insert("%"@, SCommand { name: "remainder"@, is_reserved: true, params: Params::Fixed(2) })
        .insert("="@, SCommand { name: "equal?"@, is_reserved: true, params: Params::Fixed(2) })
        .insert(">"@, SCommand { name: "greater?"@, is_reserved: true, params: Params::Fixed(2) })
        .insert("<"@, SCommand { name: "less?"@, is_reserved: true, params: Params::Fixed(2) })
}

impl View for Language {
    type V = SLanguage;

    closed spec fn view(&self) -> SLanguage {
        SLanguage {
            commands: command_values(self.commands.map()),
            infix: command_values(self.infix_operators.map()),
        }
    }
}

impl Language {
    /// Both dictionaries hold each name at most once.
    pub closed spec fn wf(self) -> bool {
        self.commands.wf() && self.infix_operators.wf()
    }

    /// A language with no commands.
    pub fn empty() -> (l: Self)
        ensures
            l.wf(),
            l@.commands == Map::<Seq<char>, SCommand>::empty(),
            l@.infix == Map::<Seq<char>, SCommand>::empty(),
    {
        let l = Language { commands: NameMap::new(), infix_operators: NameMap::new() };
        assert(l@.commands =~= Map::<Seq<char>, SCommand>::empty());
        assert(l@.infix =~= Map::<Seq<char>, SCommand>::empty());
        l
    }

    /// The command called `command_name`, if any.
    pub fn lookup(&self, command_name: &str) -> (r: Option<Command>)
        requires
            self.wf(),
        ensures
            match r {
                Some(c) => self@.commands.contains_key(command_name@) && c@
                    == self@.commands[command_name@],
                None => !self@.commands.contains_key(command_name@),
            },
    {
        match self.commands.get(command_name) {
            Some(command) => Some(command.duplicate()),
            None => None,
        }
    }

    /// Adds `command` under its own name, replacing any command of that
    /// name.
    pub fn add(&mut self, command: Command)
        requires
            old(self).wf(),
        ensures
            final(self).wf(),
            final(self)@.commands == old(self)@.commands.insert(command.name@, command@),
            final(self)@.infix == old(self)@.infix,
    {
        let name = command.name.clone();
        let ghost c = command;
        self.commands.insert(name, command);
        assert(self@.commands =~= old(self)@.commands.insert(c.name@, c@));
    }

    /// Adds `command` under the name `alias`, replacing any command of that
    /// name.
    pub fn add_alias(&mut self, alias: &str, command: Command)
        requires
            old(self).wf(),
        ensures
            final(self).wf(),
            final(self)@.commands == old(self)@.commands.insert(alias@, command@),
            final(self)@.infix == old(self)@.infix,
    {
        let ghost c = command;
        self.commands.insert(String::from_str(alias), command);
        assert(self@.commands =~= old(self)@.commands.insert(alias@, c@));
    }

    /// The infix operator written `command_name`, if any.
    pub fn lookup_infix(&self, command_name: &str) -> (r: Option<Command>)
        requires
            self.wf(),
        ensures
            match r {
                Some(c) => self@.infix.contains_key(command_name@) && c@ == self@.infix[command_name@],
                None => !self@.infix.contains_key(command_name@),
            },
    {
        match self.infix_operators.get(command_name) {
            Some(command) => Some(command.duplicate()),
            None => None,
        }
    }

    /// Adds `command` as the infix operator written `name`.
    pub fn add_infix(&mut self, name: &str, command: Command)
        requires
            old(self).wf(),
        ensures
            final(self).wf(),
            final(self)@.infix == old(self)@.infix.insert(name@, command@),
            final(self)@.commands == old(self)@.commands,
    {
        let ghost c = command;
        self.infix_operators.insert(String::from_str(name), command);
        assert(self@.infix =~= old(self)@.infix.insert(name@, c@));
    }

    fn add_defaults_0(&mut self)
        requires
            old(self).wf(),
            old(self)@.commands == Map::<Seq<char>, SCommand>::empty(),
        ensures
            final(self).wf(),
            final(self)@.commands == default_commands_0(),
            final(self)@.infix == old(self)@.infix,
    {
        self.add(Command::abs());
        self.add(Command::again());
        self.add(Command::and());
        self.add(Command::announce());
        self.add(Command::arctan());
        self.add(Command::ascii());
        self.add(Command::ask());
        self.add(Command::back());
        self.add(Command::bg());
        self.add(Command::butfirst());
        self.add(Command::butlast());
        self.add(Command::carefully());
        self.add(Command::cc());
        self.add(Command::cg());
        self.add(Command::char());
        self.add(Command::chdir());
        self.add(Command::clean());
        self.add(Command::clearname());
        self.add(Command::clearnames());
        self.add(Command::cleartext());
    }

    fn add_defaults_1(&mut self)
        requires
            old(self).wf(),
            old(self)@.commands == default_commands_0(),
        ensures
            final(self).wf(),
            final(self)@.commands == default_commands_1(),
            final(self)@.infix == old(self)@.infix,
    {
        self.add(Command::clicked());
        self.add(Command::color());
        self.add(Command::colorunder());
        self.add(Command::cos());
        self.add(Command::count());
        self.add(Command::currentdir());
        self.add(Command::difference());
        self.add(Command::directories());
        self.add(Command::distance());
        self.add(Command::dolist());
        self.add(Command::dotimes());
        self.add(Command::empty());
        self.add(Command::equal());
        self.add(Command::errormessage());
        self.add(Command::exp());
        self.add(Command::files());
        self.add(Command::first());
        self.add(Command::fontsize());
        self.add(Command::forever());
        self.add(Command::forward());
    }

    fn add_defaults_2(&mut self)
        requires
            old(self).wf(),
            old(self)@.commands == default_commands_1(),
        ensures
            final(self).wf(),
            final(self)@.commands == default_commands_2(),
            final(self)@.infix == old(self)@.infix,
    {
        self.add(Command::fput());
        self.add(Command::freeze());
        self.add(Command::greater());
        self.add(Command::heading());
        self.add(Command::home());
        self.add(Command::ht());
        self.add(Command::ifelse());
        self.add(Command::ifthen());
        self.add(Command::integer());
        self.add(Command::islist());
        self.add(Command::isnumber());
        self.add(Command::isword());
        self.add(Command::item());
        self.add(Command::key());
        self.add(Command::keydown());
        self.add(Command::last());
        self.add(Command::left());
        self.add(Command::less());
        self.add(Command::letvar());
        self.add(Command::list());
    }

    fn add_defaults_3(&mut self)
        requires
            old(self).wf(),
            old(self)@.commands == default_commands_2(),
        ensures
            final(self).wf(),
            final(self)@.commands == default_commands_3(),
            final(self)@.infix == old(self)@.infix,
    {
        self.add(Command::ln());
        self.add(Command::loadpict());
        self.add(Command::loadshape());
        self.add(Command::loadtext());
        self.add(Command::local());
        self.add(Command::log());
        self.add(Command::lput());
        self.add(Command::make());
        self.add(Command::member());
        self.add(Command::minus());
        self.add(Command::newtext());
        self.add(Command::newturtle());
        self.add(Command::not());
        self.add(Command::or());
        self.add(Command::output());
        self.add(Command::pd());
        self.add(Command::pensize());
        self.add(Command::pi());
        self.add(Command::pick());
        self.add(Command::pictlist());
    }

    fn add_defaults_4(&mut self)
        requires
            old(self).wf(),
            old(self)@.commands == default_commands_3(),
        ensures
            final(self).wf(),
            final(self)@.commands == default_commands_4(),
            final(self)@.infix == old(self)@.infix,
    {
        self.add(Command::pos());
        self.add(Command::power());
        self.add(Command::print());
        self.add(Command::procedures());
        self.add(Command::product());
        self.add(Command::projectsize());
        self.add(Command::pu());
        self.add(Command::quotient());
        self.add(Command::random());
        self.add(Command::readchar());
        self.add(Command::readclick());
        self.add(Command::remainder());
        self.add(Command::remove());
        self.add(Command::repeat());
        self.add(Command::resett());
        self.add(Command::right());
        self.add(Command::round());
        self.add(Command::run());
        self.add(Command::setbg());
        self.add(Command::setcolor());
    }

    fn add_defaults_5(&mut self)
        requires
            old(self).wf(),
            old(self)@.commands == default_commands_4(),
        ensures
            final(self).wf(),
            final(self)@.commands == default_commands_5(),
            final(self)@.infix == old(self)@.infix,
    {
        self.add(Command::setfontsize());
        self.add(Command::setheading());
        self.add(Command::setpensize());
        self.add(Command::setpos());
        self.add(Command::setprojectsize());
        self.add(Command::setshape());
        self.add(Command::setsize());
        self.add(Command::setstyle());
        self.add(Command::setx());
        self.add(Command::sety());
        self.add(Command::shape());
        self.add(Command::show());
        self.add(Command::sin());
        self.add(Command::size());
        self.add(Command::sqrt());
        self.add(Command::st());
        self.add(Command::sum());
        self.add(Command::talkto());
        self.add(Command::tan());
        self.add(Command::text());
    }

    fn add_defaults_6(&mut self)
        requires
            old(self).wf(),
            old(self)@.commands == default_commands_5(),
        ensures
            final(self).wf(),
            final(self)@.commands == default_commands_6(),
            final(self)@.infix == old(self)@.infix,
    {
        self.add(Command::textlist());
        self.add(Command::timer());
        self.add(Command::to());
        self.add(Command::touching());
        self.add(Command::towards());
        self.add(Command::turtlesown());
        self.add(Command::unfreeze());
        self.add(Command::visible());
        self.add(Command::wait());
        self.add(Command::who());
        self.add(Command::word());
        self.add(Command::xcor());
        self.add(Command::ycor());
        self.add_alias("bf", Command::butfirst());
        self.add_alias("bk", Command::back());
        self.add_alias("bl", Command::butlast());
        self.add_alias("ct", Command::cleartext());
        self.add_alias("fd", Command::forward());
        self.add_alias("lt", Command::left());
        self.add_alias("op", Command::output());
    }

    fn add_defaults_7(&mut self)
        requires
            old(self).wf(),
            old(self)@.commands == default_commands_6(),
        ensures
            final(self).wf(),
            final(self)@.commands == default_commands_7(),
            final(self)@.infix == old(self)@.infix,
    {
        self.add_alias("pr", Command::print());
        self.add_alias("rt", Command::right());
        self.add_alias("se", Command::list());
        self.add_alias("sentence", Command::list());
        self.add_alias("setc", Command::setcolor());
        self.add_alias("seth", Command::setheading());
        self.add_alias("setsh", Command::setshape());
        self.add_alias("tto", Command::talkto());
        self.add(Command::paren());
    }

    /// The language with all built-in commands, their aliases, the infix
    /// operators and the hidden grouping command.
    pub fn default() -> (l: Self)
        ensures
            l.wf(),
            l@.commands == default_commands(),
            l@.infix == default_infix(),
    {
        let mut language = Language::empty();
        language.add_defaults_0();
        language.add_defaults_1();
        language.add_defaults_2();
        language.add_defaults_3();
        language.add_defaults_4();
        language.add_defaults_5();
        language.add_defaults_6();
        language.add_defaults_7();
        language.add_infix("+", Command::sum());
        language.add_infix("-", Command::difference());
        language.add_infix("*", Command::product());
        language.add_infix("/", Command::quotient());
        language.add_infix("^", Command::power());
        language.add_infix("%", Command::remainder());
        language.add_infix("=", Command::equal());
        language.add_infix(">", Command::greater());
        language.add_infix("<", Command::less());
        language
    }
}

/// How part 1 of the default dictionary holds the names that the law
/// on aliases speaks of.
proof fn lemma_alias_names_0()
    ensures
        default_commands_0().contains_key("back"@) && default_commands_0()["back"@] == (SCommand { name: "back"@, is_reserved: true, params: Params::Fixed(1) }),
        !default_commands_0().contains_key("bf"@),
        !default_commands_0().contains_key("bk"@),
        !default_commands_0().contains_key("bl"@),
        default_commands_0().contains_key("butfirst"@) && default_commands_0()["butfirst"@] == (SCommand { name: "butfirst"@, is_reserved: true, params: Params::Fixed(1) }),
        default_commands_0().contains_key("butlast"@) && default_commands_0()["butlast"@] == (SCommand { name: "butlast"@, is_reserved: true, params: Params::Fixed(1) }),
        default_commands_0().contains_key("cleartext"@) && default_commands_0()["cleartext"@] == (SCommand { name: "cleartext"@, is_reserved: true, params: Params::Empty }),
        !default_commands_0().contains_key("ct"@),
        !default_commands_0().contains_key("fd"@),
        !default_commands_0().contains_key("forward"@),
        !default_commands_0().contains_key("left"@),
        !default_commands_0().contains_key("list"@),
        !default_commands_0().contains_key("lt"@),
        !default_commands_0().contains_key("op"@),
        !default_commands_0().contains_key("output"@),
        !default_commands_0().contains_key("pr"@),
        !default_commands_0().contains_key("print"@),
        !default_commands_0().contains_key("right"@),
        !default_commands_0().contains_key("rt"@),
        !default_commands_0().contains_key("se"@),
        !default_commands_0().contains_key("sentence"@),
        !default_commands_0().contains_key("setc"@),
        !default_commands_0().contains_key("setcolor"@),
        !default_commands_0().contains_key("seth"@),
        !default_commands_0().contains_key("setheading"@),
        !default_commands_0().contains_key("setsh"@),
        !default_commands_0().contains_key("setshape"@),
        !default_commands_0().contains_key("talkto"@),
        !default_commands_0().contains_key("tto"@),
{
    reveal_strlit("abs");
    assert("abs"@.len() == 3 && "abs"@[0] == 'a' && "abs"@[1] == 'b' && "abs"@[2] == 's');
    reveal_strlit("again");
    assert("again"@.len() == 5 && "again"@[0] == 'a' && "again"@[1] == 'g' && "again"@[2] == 'a' && "again"@[3] == 'i' && "again"@[4] == 'n');
    reveal_strlit("and");
    assert("and"@.len() == 3 && "and"@[0] == 'a' && "and"@[1] == 'n' && "and"@[2] == 'd');
    reveal_strlit("announce");
    assert("announce"@.len() == 8 && "announce"@[0] == 'a' && "announce"@[1] == 'n' && "announce"@[2] == 'n' && "announce"@[3] == 'o' && "announce"@[4] == 'u' && "announce"@[5] == 'n' && "announce"@[6] == 'c' && "announce"@[7] == 'e');
    reveal_strlit("arctan");
    assert("arctan"@.len() == 6 && "arctan"@[0] == 'a' && "arctan"@[1] == 'r' && "arctan"@[2] == 'c' && "arctan"@[3] == 't' && "arctan"@[4] == 'a' && "arctan"@[5] == 'n');
    reveal_strlit("ascii");
    assert("ascii"@.len() == 5 && "ascii"@[0] == 'a' && "ascii"@[1] == 's' && "ascii"@[2] == 'c' && "ascii"@[3] == 'i' && "ascii"@[4] == 'i');
    reveal_strlit("ask");
    assert("ask"@.len() == 3 && "ask"@[0] == 'a' && "ask"@[1] == 's' && "ask"@[2] == 'k');
    reveal_strlit("back");
    assert("back"@.len() == 4 && "back"@[0] == 'b' && "back"@[1] == 'a' && "back"@[2] == 'c' && "back"@[3] == 'k');
    reveal_strlit("bf");
    assert("bf"@.len() == 2 && "bf"@[0] == 'b' && "bf"@[1] == 'f');
    reveal_strlit("bg");
    assert("bg"@.len() == 2 && "bg"@[0] == 'b' && "bg"@[1] == 'g');
    reveal_strlit("bk");
    assert("bk"@.len() == 2 && "bk"@[0] == 'b' && "bk"@[1] == 'k');
    reveal_strlit("bl");
    assert("bl"@.len() == 2 && "bl"@[0] == 'b' && "bl"@[1] == 'l');
    reveal_strlit("butfirst");
    assert("butfirst"@.len() == 8 && "butfirst"@[0] == 'b' && "butfirst"@[1] == 'u' && "butfirst"@[2] == 't' && "butfirst"@[3] == 'f' && "butfirst"@[4] == 'i' && "butfirst"@[5] == 'r' && "butfirst"@[6] == 's' && "butfirst"@[7] == 't');
    reveal_strlit("butlast");
    assert("butlast"@.len() == 7 && "butlast"@[0] == 'b' && "butlast"@[1] == 'u' && "butlast"@[2] == 't' && "butlast"@[3] == 'l' && "butlast"@[4] == 'a' && "butlast"@[5] == 's' && "butlast"@[6] == 't');
    reveal_strlit("carefully");
    assert("carefully"@.len() == 9 && "carefully"@[0] == 'c' && "carefully"@[1] == 'a' && "carefully"@[2] == 'r' && "carefully"@[3] == 'e' && "carefully"@[4] == 'f' && "carefully"@[5] == 'u' && "carefully"@[6] == 'l' && "carefully"@[7] == 'l' && "carefully"@[8] == 'y');
    reveal_strlit("cc");
    assert("cc"@.len() == 2 && "cc"@[0] == 'c' && "cc"@[1] == 'c');
    reveal_strlit("cg");
    assert("cg"@.len() == 2 && "cg"@[0] == 'c' && "cg"@[1] == 'g');
    reveal_strlit("char");
    assert("char"@.len() == 4 && "char"@[0] == 'c' && "char"@[1] == 'h' && "char"@[2] == 'a' && "char"@[3] == 'r');
    reveal_strlit("chdir");
    assert("chdir"@.len() == 5 && "chdir"@[0] == 'c' && "chdir"@[1] == 'h' && "chdir"@[2] == 'd' && "chdir"@[3] == 'i' && "chdir"@[4] == 'r');
    reveal_strlit("clean");
    assert("clean"@.len() == 5 && "clean"@[0] == 'c' && "clean"@[1] == 'l' && "clean"@[2] == 'e' && "clean"@[3] == 'a' && "clean"@[4] == 'n');
    reveal_strlit("clearname");
    assert("clearname"@.len() == 9 && "clearname"@[0] == 'c' && "clearname"@[1] == 'l' && "clearname"@[2] == 'e' && "clearname"@[3] == 'a' && "clearname"@[4] == 'r' && "clearname"@[5] == 'n' && "clearname"@[6] == 'a' && "clearname"@[7] == 'm' && "clearname"@[8] == 'e');
    reveal_strlit("clearnames");
    assert("clearnames"@.len() == 10 && "clearnames"@[0] == 'c' && "clearnames"@[1] == 'l' && "clearnames"@[2] == 'e' && "clearnames"@[3] == 'a' && "clearnames"@[4] == 'r' && "clearnames"@[5] == 'n' && "clearnames"@[6] == 'a' && "clearnames"@[7] == 'm' && "clearnames"@[8] == 'e' && "clearnames"@[9] == 's');
    reveal_strlit("cleartext");
    assert("cleartext"@.len() == 9 && "cleartext"@[0] == 'c' && "cleartext"@[1] == 'l' && "cleartext"@[2] == 'e' && "cleartext"@[3] == 'a' && "cleartext"@[4] == 'r' && "cleartext"@[5] == 't' && "cleartext"@[6] == 'e' && "cleartext"@[7] == 'x' && "cleartext"@[8] == 't');
    reveal_strlit("ct");
    assert("ct"@.len() == 2 && "ct"@[0] == 'c' && "ct"@[1] == 't');
    reveal_strlit("fd");
    assert("fd"@.len() == 2 && "fd"@[0] == 'f' && "fd"@[1] == 'd');
    reveal_strlit("forward");
    assert("forward"@.len() == 7 && "forward"@[0] == 'f' && "forward"@[1] == 'o' && "forward"@[2] == 'r' && "forward"@[3] == 'w' && "forward"@[4] == 'a' && "forward"@[5] == 'r' && "forward"@[6] == 'd');
    reveal_strlit("left");
    assert("left"@.len() == 4 && "left"@[0] == 'l' && "left"@[1] == 'e' && "left"@[2] == 'f' && "left"@[3] == 't');
    reveal_strlit("list");
    assert("list"@.len() == 4 && "list"@[0] == 'l' && "list"@[1] == 'i' && "list"@[2] == 's' && "list"@[3] == 't');
    reveal_strlit("lt");
    assert("lt"@.len() == 2 && "lt"@[0] == 'l' && "lt"@[1] == 't');
    reveal_strlit("op");
    assert("op"@.len() == 2 && "op"@[0] == 'o' && "op"@[1] == 'p');
    reveal_strlit("output");
    assert("output"@.len() == 6 && "output"@[0] == 'o' && "output"@[1] == 'u' && "output"@[2] == 't' && "output"@[3] == 'p' && "output"@[4] == 'u' && "output"@[5] == 't');
    reveal_strlit("pr");
    assert("pr"@.len() == 2 && "pr"@[0] == 'p' && "pr"@[1] == 'r');
    reveal_strlit("print");
    assert("print"@.len() == 5 && "print"@[0] == 'p' && "print"@[1] == 'r' && "print"@[2] == 'i' && "print"@[3] == 'n' && "print"@[4] == 't');
    reveal_strlit("right");
    assert("right"@.len() == 5 && "right"@[0] == 'r' && "right"@[1] == 'i' && "right"@[2] == 'g' && "right"@[3] == 'h' && "right"@[4] == 't');
    reveal_strlit("rt");
    assert("rt"@.len() == 2 && "rt"@[0] == 'r' && "rt"@[1] == 't');
    reveal_strlit("se");
    assert("se"@.len() == 2 && "se"@[0] == 's' && "se"@[1] == 'e');
    reveal_strlit("sentence");
    assert("sentence"@.len() == 8 && "sentence"@[0] == 's' && "sentence"@[1] == 'e' && "sentence"@[2] == 'n' && "sentence"@[3] == 't' && "sentence"@[4] == 'e' && "sentence"@[5] == 'n' && "sentence"@[6] == 'c' && "sentence"@[7] == 'e');
    reveal_strlit("setc");
    assert("setc"@.len() == 4 && "setc"@[0] == 's' && "setc"@[1] == 'e' && "setc"@[2] == 't' && "setc"@[3] == 'c');
    reveal_strlit("setcolor");
    assert("setcolor"@.len() == 8 && "setcolor"@[0] == 's' && "setcolor"@[1] == 'e' && "setcolor"@[2] == 't' && "setcolor"@[3] == 'c' && "setcolor"@[4] == 'o' && "setcolor"@[5] == 'l' && "setcolor"@[6] == 'o' && "setcolor"@[7] == 'r');
    reveal_strlit("seth");
    assert("seth"@.len() == 4 && "seth"@[0] == 's' && "seth"@[1] == 'e' && "seth"@[2] == 't' && "seth"@[3] == 'h');
    reveal_strlit("setheading");
    assert("setheading"@.len() == 10 && "setheading"@[0] == 's' && "setheading"@[1] == 'e' && "setheading"@[2] == 't' && "setheading"@[3] == 'h' && "setheading"@[4] == 'e' && "setheading"@[5] == 'a' && "setheading"@[6] == 'd' && "setheading"@[7] == 'i' && "setheading"@[8] == 'n' && "setheading"@[9] == 'g');
    reveal_strlit("setsh");
    assert("setsh"@.len() == 5 && "setsh"@[0] == 's' && "setsh"@[1] == 'e' && "setsh"@[2] == 't' && "setsh"@[3] == 's' && "setsh"@[4] == 'h');
    reveal_strlit("setshape");
    assert("setshape"@.len() == 8 && "setshape"@[0] == 's' && "setshape"@[1] == 'e' && "setshape"@[2] == 't' && "setshape"@[3] == 's' && "setshape"@[4] == 'h' && "setshape"@[5] == 'a' && "setshape"@[6] == 'p' && "setshape"@[7] == 'e');
    reveal_strlit("talkto");
    assert("talkto"@.len() == 6 && "talkto"@[0] == 't' && "talkto"@[1] == 'a' && "talkto"@[2] == 'l' && "talkto"@[3] == 'k' && "talkto"@[4] == 't' && "talkto"@[5] == 'o');
    reveal_strlit("tto");
    assert("tto"@.len() == 3 && "tto"@[0] == 't' && "tto"@[1] == 't' && "tto"@[2] == 'o');
}

/// How part 2 of the default dictionary holds the names that the law
/// on aliases speaks of.
proof fn lemma_alias_names_1()
    ensures
        default_commands_1().contains_key("back"@) == default_commands_0().contains_key("back"@),
        default_commands_0().contains_key("back"@) ==> default_commands_1()["back"@] == default_commands_0()["back"@],
        default_commands_1().contains_key("bf"@) == default_commands_0().contains_key("bf"@),
        default_commands_0().contains_key("bf"@) ==> default_commands_1()["bf"@] == default_commands_0()["bf"@],
        default_commands_1().contains_key("bk"@) == default_commands_0().contains_key("bk"@),
        default_commands_0().contains_key("bk"@) ==> default_commands_1()["bk"@] == default_commands_0()["bk"@],
        default_commands_1().contains_key("bl"@) == default_commands_0().contains_key("bl"@),
        default_commands_0().contains_key("bl"@) ==> default_commands_1()["bl"@] == default_commands_0()["bl"@],
        default_commands_1().contains_key("butfirst"@) == default_commands_0().contains_key("butfirst"@),
        default_commands_0().contains_key("butfirst"@) ==> default_commands_1()["butfirst"@] == default_commands_0()["butfirst"@],
        default_commands_1().contains_key("butlast"@) == default_commands_0().contains_key("butlast"@),
        default_commands_0().contains_key("butlast"@) ==> default_commands_1()["butlast"@] == default_commands_0()["butlast"@],
        default_commands_1().contains_key("cleartext"@) == default_commands_0().contains_key("cleartext"@),
        default_commands_0().contains_key("cleartext"@) ==> default_commands_1()["cleartext"@] == default_commands_0()["cleartext"@],
        default_commands_1().contains_key("ct"@) == default_commands_0().contains_key("ct"@),
        default_commands_0().contains_key("ct"@) ==> default_commands_1()["ct"@] == default_commands_0()["ct"@],
        default_commands_1().contains_key("fd"@) == default_commands_0().contains_key("fd"@),
        default_commands_0().contains_key("fd"@) ==> default_commands_1()["fd"@] == default_commands_0()["fd"@],
        default_commands_1().contains_key("forward"@) && default_commands_1()["forward"@] == (SCommand { name: "forward"@, is_reserved: true, params: Params::Fixed(1) }),
        default_commands_1().contains_key("left"@) == default_commands_0().contains_key("left"@),
        default_commands_0().contains_key("left"@) ==> default_commands_1()["left"@] == default_commands_0()["left"@],
        default_commands_1().contains_key("list"@) == default_commands_0().contains_key("list"@),
        default_commands_0().contains_key("list"@) ==> default_commands_1()["list"@] == default_commands_0()["list"@],
        default_commands_1().contains_key("lt"@) == default_commands_0().contains_key("lt"@),
        default_commands_0().contains_key("lt"@) ==> default_commands_1()["lt"@] == default_commands_0()["lt"@],
        default_commands_1().contains_key("op"@) == default_commands_0().contains_key("op"@),
        default_commands_0().contains_key("op"@) ==> default_commands_1()["op"@] == default_commands_0()["op"@],
        default_commands_1().contains_key("output"@) == default_commands_0().contains_key("output"@),
        default_commands_0().contains_key("output"@) ==> default_commands_1()["output"@] == default_commands_0()["output"@],
        default_commands_1().contains_key("pr"@) == default_commands_0().contains_key("pr"@),
        default_commands_0().contains_key("pr"@) ==> default_commands_1()["pr"@] == default_commands_0()["pr"@],
        default_commands_1().contains_key("print"@) == default_commands_0().contains_key("print"@),
        default_commands_0().contains_key("print"@) ==> default_commands_1()["print"@] == default_commands_0()["print"@],
        default_commands_1().contains_key("right"@) == default_commands_0().contains_key("right"@),
        default_commands_0().contains_key("right"@) ==> default_commands_1()["right"@] == default_commands_0()["right"@],
        default_commands_1().contains_key("rt"@) == default_commands_0().contains_key("rt"@),
        default_commands_0().contains_key("rt"@) ==> default_commands_1()["rt"@] == default_commands_0()["rt"@],
        default_commands_1().contains_key("se"@) == default_commands_0().contains_key("se"@),
        default_commands_0().contains_key("se"@) ==> default_commands_1()["se"@] == default_commands_0()["se"@],
        default_commands_1().contains_key("sentence"@) == default_commands_0().contains_key("sentence"@),
        default_commands_0().contains_key("sentence"@) ==> default_commands_1()["sentence"@] == default_commands_0()["sentence"@],
        default_commands_1().contains_key("setc"@) == default_commands_0().contains_key("setc"@),
        default_commands_0().contains_key("setc"@) ==> default_commands_1()["setc"@] == default_commands_0()["setc"@],
        default_commands_1().contains_key("setcolor"@) == default_commands_0().contains_key("setcolor"@),
        default_commands_0().contains_key("setcolor"@) ==> default_commands_1()["setcolor"@] == default_commands_0()["setcolor"@],
        default_commands_1().contains_key("seth"@) == default_commands_0().contains_key("seth"@),
        default_commands_0().contains_key("seth"@) ==> default_commands_1()["seth"@] == default_commands_0()["seth"@],
        default_commands_1().contains_key("setheading"@) == default_commands_0().contains_key("setheading"@),
        default_commands_0().contains_key("setheading"@) ==> default_commands_1()["setheading"@] == default_commands_0()["setheading"@],
        default_commands_1().contains_key("setsh"@) == default_commands_0().contains_key("setsh"@),
        default_commands_0().contains_key("setsh"@) ==> default_commands_1()["setsh"@] == default_commands_0()["setsh"@],
        default_commands_1().contains_key("setshape"@) == default_commands_0().contains_key("setshape"@),
        default_commands_0().contains_key("setshape"@) ==> default_commands_1()["setshape"@] == default_commands_0()["setshape"@],
        default_commands_1().contains_key("talkto"@) == default_commands_0().contains_key("talkto"@),
        default_commands_0().contains_key("talkto"@) ==> default_commands_1()["talkto"@] == default_commands_0()["talkto"@],
        default_commands_1().contains_key("tto"@) == default_commands_0().contains_key("tto"@),
        default_commands_0().contains_key("tto"@) ==> default_commands_1()["tto"@] == default_commands_0()["tto"@],
{
    reveal_strlit("back");
    assert("back"@.len() == 4 && "back"@[0] == 'b' && "back"@[1] == 'a' && "back"@[2] == 'c' && "back"@[3] == 'k');
    reveal_strlit("bf");
    assert("bf"@.len() == 2 && "bf"@[0] == 'b' && "bf"@[1] == 'f');
    reveal_strlit("bk");
    assert("bk"@.len() == 2 && "bk"@[0] == 'b' && "bk"@[1] == 'k');
    reveal_strlit("bl");
    assert("bl"@.len() == 2 && "bl"@[0] == 'b' && "bl"@[1] == 'l');
    reveal_strlit("butfirst");
    assert("butfirst"@.len() == 8 && "butfirst"@[0] == 'b' && "butfirst"@[1] == 'u' && "butfirst"@[2] == 't' && "butfirst"@[3] == 'f' && "butfirst"@[4] == 'i' && "butfirst"@[5] == 'r' && "butfirst"@[6] == 's' && "butfirst"@[7] == 't');
    reveal_strlit("butlast");
    assert("butlast"@.len() == 7 && "butlast"@[0] == 'b' && "butlast"@[1] == 'u' && "butlast"@[2] == 't' && "butlast"@[3] == 'l' && "butlast"@[4] == 'a' && "butlast"@[5] == 's' && "butlast"@[6] == 't');
    reveal_strlit("cleartext");
    assert("cleartext"@.len() == 9 && "cleartext"@[0] == 'c' && "cleartext"@[1] == 'l' && "cleartext"@[2] == 'e' && "cleartext"@[3] == 'a' && "cleartext"@[4] == 'r' && "cleartext"@[5] == 't' && "cleartext"@[6] == 'e' && "cleartext"@[7] == 'x' && "cleartext"@[8] == 't');
    reveal_strlit("clicked?");
    assert("clicked?"@.len() == 8 && "clicked?"@[0] == 'c' && "clicked?"@[1] == 'l' && "clicked?"@[2] == 'i' && "clicked?"@[3] == 'c' && "clicked?"@[4] == 'k' && "clicked?"@[5] == 'e' && "clicked?"@[6] == 'd' && "clicked?"@[7] == '?');
    reveal_strlit("color");
    assert("color"@.len() == 5 && "color"@[0] == 'c' && "color"@[1] == 'o' && "color"@[2] == 'l' && "color"@[3] == 'o' && "color"@[4] == 'r');
    reveal_strlit("colorunder");
    assert("colorunder"@.len() == 10 && "colorunder"@[0] == 'c' && "colorunder"@[1] == 'o' && "colorunder"@[2] == 'l' && "colorunder"@[3] == 'o' && "colorunder"@[4] == 'r' && "colorunder"@[5] == 'u' && "colorunder"@[6] == 'n' && "colorunder"@[7] == 'd' && "colorunder"@[8] == 'e' && "colorunder"@[9] == 'r');
    reveal_strlit("cos");
    assert("cos"@.len() == 3 && "cos"@[0] == 'c' && "cos"@[1] == 'o' && "cos"@[2] == 's');
    reveal_strlit("count");
    assert("count"@.len() == 5 && "count"@[0] == 'c' && "count"@[1] == 'o' && "count"@[2] == 'u' && "count"@[3] == 'n' && "count"@[4] == 't');
    reveal_strlit("ct");
    assert("ct"@.len() == 2 && "ct"@[0] == 'c' && "ct"@[1] == 't');
    reveal_strlit("currentdir");
    assert("currentdir"@.len() == 10 && "currentdir"@[0] == 'c' && "currentdir"@[1] == 'u' && "currentdir"@[2] == 'r' && "currentdir"@[3] == 'r' && "currentdir"@[4] == 'e' && "currentdir"@[5] == 'n' && "currentdir"@[6] == 't' && "currentdir"@[7] == 'd' && "currentdir"@[8] == 'i' && "currentdir"@[9] == 'r');
    reveal_strlit("difference");
    assert("difference"@.len() == 10 && "difference"@[0] == 'd' && "difference"@[1] == 'i' && "difference"@[2] == 'f' && "difference"@[3] == 'f' && "difference"@[4] == 'e' && "difference"@[5] == 'r' && "difference"@[6] == 'e' && "difference"@[7] == 'n' && "difference"@[8] == 'c' && "difference"@[9] == 'e');
    reveal_strlit("directories");
    assert("directories"@.len() == 11 && "directories"@[0] == 'd' && "directories"@[1] == 'i' && "directories"@[2] == 'r' && "directories"@[3] == 'e' && "directories"@[4] == 'c' && "directories"@[5] == 't' && "directories"@[6] == 'o' && "directories"@[7] == 'r' && "directories"@[8] == 'i' && "directories"@[9] == 'e' && "directories"@[10] == 's');
    reveal_strlit("distance");
    assert("distance"@.len() == 8 && "distance"@[0] == 'd' && "distance"@[1] == 'i' && "distance"@[2] == 's' && "distance"@[3] == 't' && "distance"@[4] == 'a' && "distance"@[5] == 'n' && "distance"@[6] == 'c' && "distance"@[7] == 'e');
    reveal_strlit("dolist");
    assert("dolist"@.len() == 6 && "dolist"@[0] == 'd' && "dolist"@[1] == 'o' && "dolist"@[2] == 'l' && "dolist"@[3] == 'i' && "dolist"@[4] == 's' && "dolist"@[5] == 't');
    reveal_strlit("dotimes");
    assert("dotimes"@.len() == 7 && "dotimes"@[0] == 'd' && "dotimes"@[1] == 'o' && "dotimes"@[2] == 't' && "dotimes"@[3] == 'i' && "dotimes"@[4] == 'm' && "dotimes"@[5] == 'e' && "dotimes"@[6] == 's');
    reveal_strlit("empty?");
    assert("empty?"@.len() == 6 && "empty?"@[0] == 'e' && "empty?"@[1] == 'm' && "empty?"@[2] == 'p' && "empty?"@[3] == 't' && "empty?"@[4] == 'y' && "empty?"@[5] == '?');
    reveal_strlit("equal?");
    assert("equal?"@.len() == 6 && "equal?"@[0] == 'e' && "equal?"@[1] == 'q' && "equal?"@[2] == 'u' && "equal?"@[3] == 'a' && "equal?"@[4] == 'l' && "equal?"@[5] == '?');
    reveal_strlit("errormessage");
    assert("errormessage"@.len() == 12 && "errormessage"@[0] == 'e' && "errormessage"@[1] == 'r' && "errormessage"@[2] == 'r' && "errormessage"@[3] == 'o' && "errormessage"@[4] == 'r' && "errormessage"@[5] == 'm' && "errormessage"@[6] == 'e' && "errormessage"@[7] == 's' && "errormessage"@[8] == 's' && "errormessage"@[9] == 'a' && "errormessage"@[10] == 'g' && "errormessage"@[11] == 'e');
    reveal_strlit("exp");
    assert("exp"@.len() == 3 && "exp"@[0] == 'e' && "exp"@[1] == 'x' && "exp"@[2] == 'p');
    reveal_strlit("fd");
    assert("fd"@.len() == 2 && "fd"@[0] == 'f' && "fd"@[1] == 'd');
    reveal_strlit("files");
    assert("files"@.len() == 5 && "files"@[0] == 'f' && "files"@[1] == 'i' && "files"@[2] == 'l' && "files"@[3] == 'e' && "files"@[4] == 's');
    reveal_strlit("first");
    assert("first"@.len() == 5 && "first"@[0] == 'f' && "first"@[1] == 'i' && "first"@[2] == 'r' && "first"@[3] == 's' && "first"@[4] == 't');
    reveal_strlit("fontsize");
    assert("fontsize"@.len() == 8 && "fontsize"@[0] == 'f' && "fontsize"@[1] == 'o' && "fontsize"@[2] == 'n' && "fontsize"@[3] == 't' && "fontsize"@[4] == 's' && "fontsize"@[5] == 'i' && "fontsize"@[6] == 'z' && "fontsize"@[7] == 'e');
    reveal_strlit("forever");
    assert("forever"@.len() == 7 && "forever"@[0] == 'f' && "forever"@[1] == 'o' && "forever"@[2] == 'r' && "forever"@[3] == 'e' && "forever"@[4] == 'v' && "forever"@[5] == 'e' && "forever"@[6] == 'r');
    reveal_strlit("forward");
    assert("forward"@.len() == 7 && "forward"@[0] == 'f' && "forward"@[1] == 'o' && "forward"@[2] == 'r' && "forward"@[3] == 'w' && "forward"@[4] == 'a' && "forward"@[5] == 'r' && "forward"@[6] == 'd');
    reveal_strlit("left");
    assert("left"@.len() == 4 && "left"@[0] == 'l' && "left"@[1] == 'e' && "left"@[2] == 'f' && "left"@[3] == 't');
    reveal_strlit("list");
    assert("list"@.len() == 4 && "list"@[0] == 'l' && "list"@[1] == 'i' && "list"@[2] == 's' && "list"@[3] == 't');
    reveal_strlit("lt");
    assert("lt"@.len() == 2 && "lt"@[0] == 'l' && "lt"@[1] == 't');
    reveal_strlit("op");
    assert("op"@.len() == 2 && "op"@[0] == 'o' && "op"@[1] == 'p');
    reveal_strlit("output");
    assert("output"@.len() == 6 && "output"@[0] == 'o' && "output"@[1] == 'u' && "output"@[2] == 't' && "output"@[3] == 'p' && "output"@[4] == 'u' && "output"@[5] == 't');
    reveal_strlit("pr");
    assert("pr"@.len() == 2 && "pr"@[0] == 'p' && "pr"@[1] == 'r');
    reveal_strlit("print");
    assert("print"@.len() == 5 && "print"@[0] == 'p' && "print"@[1] == 'r' && "print"@[2] == 'i' && "print"@[3] == 'n' && "print"@[4] == 't');
    reveal_strlit("right");
    assert("right"@.len() == 5 && "right"@[0] == 'r' && "right"@[1] == 'i' && "right"@[2] == 'g' && "right"@[3] == 'h' && "right"@[4] == 't');
    reveal_strlit("rt");
    assert("rt"@.len() == 2 && "rt"@[0] == 'r' && "rt"@[1] == 't');
    reveal_strlit("se");
    assert("se"@.len() == 2 && "se"@[0] == 's' && "se"@[1] == 'e');
    reveal_strlit("sentence");
    assert("sentence"@.len() == 8 && "sentence"@[0] == 's' && "sentence"@[1] == 'e' && "sentence"@[2] == 'n' && "sentence"@[3] == 't' && "sentence"@[4] == 'e' && "sentence"@[5] == 'n' && "sentence"@[6] == 'c' && "sentence"@[7] == 'e');
    reveal_strlit("setc");
    assert("setc"@.len() == 4 && "setc"@[0] == 's' && "setc"@[1] == 'e' && "setc"@[2] == 't' && "setc"@[3] == 'c');
    reveal_strlit("setcolor");
    assert("setcolor"@.len() == 8 && "setcolor"@[0] == 's' && "setcolor"@[1] == 'e' && "setcolor"@[2] == 't' && "setcolor"@[3] == 'c' && "setcolor"@[4] == 'o' && "setcolor"@[5] == 'l' && "setcolor"@[6] == 'o' && "setcolor"@[7] == 'r');
    reveal_strlit("seth");
    assert("seth"@.len() == 4 && "seth"@[0] == 's' && "seth"@[1] == 'e' && "seth"@[2] == 't' && "seth"@[3] == 'h');
    reveal_strlit("setheading");
    assert("setheading"@.len() == 10 && "setheading"@[0] == 's' && "setheading"@[1] == 'e' && "setheading"@[2] == 't' && "setheading"@[3] == 'h' && "setheading"@[4] == 'e' && "setheading"@[5] == 'a' && "setheading"@[6] == 'd' && "setheading"@[7] == 'i' && "setheading"@[8] == 'n' && "setheading"@[9] == 'g');
    reveal_strlit("setsh");
    assert("setsh"@.len() == 5 && "setsh"@[0] == 's' && "setsh"@[1] == 'e' && "setsh"@[2] == 't' && "setsh"@[3] == 's' && "setsh"@[4] == 'h');
    reveal_strlit("setshape");
    assert("setshape"@.len() == 8 && "setshape"@[0] == 's' && "setshape"@[1] == 'e' && "setshape"@[2] == 't' && "setshape"@[3] == 's' && "setshape"@[4] == 'h' && "setshape"@[5] == 'a' && "setshape"@[6] == 'p' && "setshape"@[7] == 'e');
    reveal_strlit("talkto");
    assert("talkto"@.len() == 6 && "talkto"@[0] == 't' && "talkto"@[1] == 'a' && "talkto"@[2] == 'l' && "talkto"@[3] == 'k' && "talkto"@[4] == 't' && "talkto"@[5] == 'o');
    reveal_strlit("tto");
    assert("tto"@.len() == 3 && "tto"@[0] == 't' && "tto"@[1] == 't' && "tto"@[2] == 'o');
}

/// How part 3 of the default dictionary holds the names that the law
/// on aliases speaks of.
proof fn lemma_alias_names_2()
    ensures
        default_commands_2().contains_key("back"@) == default_commands_1().contains_key("back"@),
        default_commands_1().contains_key("back"@) ==> default_commands_2()["back"@] == default_commands_1()["back"@],
        default_commands_2().contains_key("bf"@) == default_commands_1().contains_key("bf"@),
        default_commands_1().contains_key("bf"@) ==> default_commands_2()["bf"@] == default_commands_1()["bf"@],
        default_commands_2().contains_key("bk"@) == default_commands_1().contains_key("bk"@),
        default_commands_1().contains_key("bk"@) ==> default_commands_2()["bk"@] == default_commands_1()["bk"@],
        default_commands_2().contains_key("bl"@) == default_commands_1().contains_key("bl"@),
        default_commands_1().contains_key("bl"@) ==> default_commands_2()["bl"@] == default_commands_1()["bl"@],
        default_commands_2().contains_key("butfirst"@) == default_commands_1().contains_key("butfirst"@),
        default_commands_1().contains_key("butfirst"@) ==> default_commands_2()["butfirst"@] == default_commands_1()["butfirst"@],
        default_commands_2().contains_key("butlast"@) == default_commands_1().contains_key("butlast"@),
        default_commands_1().contains_key("butlast"@) ==> default_commands_2()["butlast"@] == default_commands_1()["butlast"@],
        default_commands_2().contains_key("cleartext"@) == default_commands_1().contains_key("cleartext"@),
        default_commands_1().contains_key("cleartext"@) ==> default_commands_2()["cleartext"@] == default_commands_1()["cleartext"@],
        default_commands_2().contains_key("ct"@) == default_commands_1().contains_key("ct"@),
        default_commands_1().contains_key("ct"@) ==> default_commands_2()["ct"@] == default_commands_1()["ct"@],
        default_commands_2().contains_key("fd"@) == default_commands_1().contains_key("fd"@),
        default_commands_1().contains_key("fd"@) ==> default_commands_2()["fd"@] == default_commands_1()["fd"@],
        default_commands_2().contains_key("forward"@) == default_commands_1().contains_key("forward"@),
        default_commands_1().contains_key("forward"@) ==> default_commands_2()["forward"@] == default_commands_1()["forward"@],
        default_commands_2().contains_key("left"@) && default_commands_2()["left"@] == (SCommand { name: "left"@, is_reserved: true, params: Params::Fixed(1) }),
        default_commands_2().contains_key("list"@) && default_commands_2()["list"@] == (SCommand { name: "list"@, is_reserved: true, params: Params::Variadic(2) }),
        default_commands_2().contains_key("lt"@) == default_commands_1().contains_key("lt"@),
        default_commands_1().contains_key("lt"@) ==> default_commands_2()["lt"@] == default_commands_1()["lt"@],
        default_commands_2().contains_key("op"@) == default_commands_1().contains_key("op"@),
        default_commands_1().contains_key("op"@) ==> default_commands_2()["op"@] == default_commands_1()["op"@],
        default_commands_2().contains_key("output"@) == default_commands_1().contains_key("output"@),
        default_commands_1().contains_key("output"@) ==> default_commands_2()["output"@] == default_commands_1()["output"@],
        default_commands_2().contains_key("pr"@) == default_commands_1().contains_key("pr"@),
        default_commands_1().contains_key("pr"@) ==> default_commands_2()["pr"@] == default_commands_1()["pr"@],
        default_commands_2().contains_key("print"@) == default_commands_1().contains_key("print"@),
        default_commands_1().contains_key("print"@) ==> default_commands_2()["print"@] == default_commands_1()["print"@],
        default_commands_2().contains_key("right"@) == default_commands_1().contains_key("right"@),
        default_commands_1().contains_key("right"@) ==> default_commands_2()["right"@] == default_commands_1()["right"@],
        default_commands_2().contains_key("rt"@) == default_commands_1().contains_key("rt"@),
        default_commands_1().contains_key("rt"@) ==> default_commands_2()["rt"@] == default_commands_1()["rt"@],
        default_commands_2().contains_key("se"@) == default_commands_1().contains_key("se"@),
        default_commands_1().contains_key("se"@) ==> default_commands_2()["se"@] == default_commands_1()["se"@],
        default_commands_2().contains_key("sentence"@) == default_commands_1().contains_key("sentence"@),
        default_commands_1().contains_key("sentence"@) ==> default_commands_2()["sentence"@] == default_commands_1()["sentence"@],
        default_commands_2().contains_key("setc"@) == default_commands_1().contains_key("setc"@),
        default_commands_1().contains_key("setc"@) ==> default_commands_2()["setc"@] == default_commands_1()["setc"@],
        default_commands_2().contains_key("setcolor"@) == default_commands_1().contains_key("setcolor"@),
        default_commands_1().contains_key("setcolor"@) ==> default_commands_2()["setcolor"@] == default_commands_1()["setcolor"@],
        default_commands_2().contains_key("seth"@) == default_commands_1().contains_key("seth"@),
        default_commands_1().contains_key("seth"@) ==> default_commands_2()["seth"@] == default_commands_1()["seth"@],
        default_commands_2().contains_key("setheading"@) == default_commands_1().contains_key("setheading"@),
        default_commands_1().contains_key("setheading"@) ==> default_commands_2()["setheading"@] == default_commands_1()["setheading"@],
        default_commands_2().contains_key("setsh"@) == default_commands_1().contains_key("setsh"@),
        default_commands_1().contains_key("setsh"@) ==> default_commands_2()["setsh"@] == default_commands_1()["setsh"@],
        default_commands_2().contains_key("setshape"@) == default_commands_1().contains_key("setshape"@),
        default_commands_1().contains_key("setshape"@) ==> default_commands_2()["setshape"@] == default_commands_1()["setshape"@],
        default_commands_2().contains_key("talkto"@) == default_commands_1().contains_key("talkto"@),
        default_commands_1().contains_key("talkto"@) ==> default_commands_2()["talkto"@] == default_commands_1()["talkto"@],
        default_commands_2().contains_key("tto"@) == default_commands_1().contains_key("tto"@),
        default_commands_1().contains_key("tto"@) ==> default_commands_2()["tto"@] == default_commands_1()["tto"@],
{
    reveal_strlit("back");
    assert("back"@.len() == 4 && "back"@[0] == 'b' && "back"@[1] == 'a' && "back"@[2] == 'c' && "back"@[3] == 'k');
    reveal_strlit("bf");
    assert("bf"@.len() == 2 && "bf"@[0] == 'b' && "bf"@[1] == 'f');
    reveal_strlit("bk");
    assert("bk"@.len() == 2 && "bk"@[0] == 'b' && "bk"@[1] == 'k');
    reveal_strlit("bl");
    assert("bl"@.len() == 2 && "bl"@[0] == 'b' && "bl"@[1] == 'l');
    reveal_strlit("butfirst");
    assert("butfirst"@.len() == 8 && "butfirst"@[0] == 'b' && "butfirst"@[1] == 'u' && "butfirst"@[2] == 't' && "butfirst"@[3] == 'f' && "butfirst"@[4] == 'i' && "butfirst"@[5] == 'r' && "butfirst"@[6] == 's' && "butfirst"@[7] == 't');
    reveal_strlit("butlast");
    assert("butlast"@.len() == 7 && "butlast"@[0] == 'b' && "butlast"@[1] == 'u' && "butlast"@[2] == 't' && "butlast"@[3] == 'l' && "butlast"@[4] == 'a' && "butlast"@[5] == 's' && "butlast"@[6] == 't');
    reveal_strlit("cleartext");
    assert("cleartext"@.len() == 9 && "cleartext"@[0] == 'c' && "cleartext"@[1] == 'l' && "cleartext"@[2] == 'e' && "cleartext"@[3] == 'a' && "cleartext"@[4] == 'r' && "cleartext"@[5] == 't' && "cleartext"@[6] == 'e' && "cleartext"@[7] == 'x' && "cleartext"@[8] == 't');
    reveal_strlit("ct");
    assert("ct"@.len() == 2 && "ct"@[0] == 'c' && "ct"@[1] == 't');
    reveal_strlit("fd");
    assert("fd"@.len() == 2 && "fd"@[0] == 'f' && "fd"@[1] == 'd');
    reveal_strlit("forward");
    assert("forward"@.len() == 7 && "forward"@[0] == 'f' && "forward"@[1] == 'o' && "forward"@[2] == 'r' && "forward"@[3] == 'w' && "forward"@[4] == 'a' && "forward"@[5] == 'r' && "forward"@[6] == 'd');
    reveal_strlit("fput");
    assert("fput"@.len() == 4 && "fput"@[0] == 'f' && "fput"@[1] == 'p' && "fput"@[2] == 'u' && "fput"@[3] == 't');
    reveal_strlit("freeze");
    assert("freeze"@.len() == 6 && "freeze"@[0] == 'f' && "freeze"@[1] == 'r' && "freeze"@[2] == 'e' && "freeze"@[3] == 'e' && "freeze"@[4] == 'z' && "freeze"@[5] == 'e');
    reveal_strlit("greater?");
    assert("greater?"@.len() == 8 && "greater?"@[0] == 'g' && "greater?"@[1] == 'r' && "greater?"@[2] == 'e' && "greater?"@[3] == 'a' && "greater?"@[4] == 't' && "greater?"@[5] == 'e' && "greater?"@[6] == 'r' && "greater?"@[7] == '?');
    reveal_strlit("heading");
    assert("heading"@.len() == 7 && "heading"@[0] == 'h' && "heading"@[1] == 'e' && "heading"@[2] == 'a' && "heading"@[3] == 'd' && "heading"@[4] == 'i' && "heading"@[5] == 'n' && "heading"@[6] == 'g');
    reveal_strlit("home");
    assert("home"@.len() == 4 && "home"@[0] == 'h' && "home"@[1] == 'o' && "home"@[2] == 'm' && "home"@[3] == 'e');
    reveal_strlit("ht");
    assert("ht"@.len() == 2 && "ht"@[0] == 'h' && "ht"@[1] == 't');
    reveal_strlit("if");
    assert("if"@.len() == 2 && "if"@[0] == 'i' && "if"@[1] == 'f');
    reveal_strlit("ifelse");
    assert("ifelse"@.len() == 6 && "ifelse"@[0] == 'i' && "ifelse"@[1] == 'f' && "ifelse"@[2] == 'e' && "ifelse"@[3] == 'l' && "ifelse"@[4] == 's' && "ifelse"@[5] == 'e');
    reveal_strlit("int");
    assert("int"@.len() == 3 && "int"@[0] == 'i' && "int"@[1] == 'n' && "int"@[2] == 't');
    reveal_strlit("item");
    assert("item"@.len() == 4 && "item"@[0] == 'i' && "item"@[1] == 't' && "item"@[2] == 'e' && "item"@[3] == 'm');
    reveal_strlit("key?");
    assert("key?"@.len() == 4 && "key?"@[0] == 'k' && "key?"@[1] == 'e' && "key?"@[2] == 'y' && "key?"@[3] == '?');
    reveal_strlit("keydown?");
    assert("keydown?"@.len() == 8 && "keydown?"@[0] == 'k' && "keydown?"@[1] == 'e' && "keydown?"@[2] == 'y' && "keydown?"@[3] == 'd' && "keydown?"@[4] == 'o' && "keydown?"@[5] == 'w' && "keydown?"@[6] == 'n' && "keydown?"@[7] == '?');
    reveal_strlit("last");
    assert("last"@.len() == 4 && "last"@[0] == 'l' && "last"@[1] == 'a' && "last"@[2] == 's' && "last"@[3] == 't');
    reveal_strlit("left");
    assert("left"@.len() == 4 && "left"@[0] == 'l' && "left"@[1] == 'e' && "left"@[2] == 'f' && "left"@[3] == 't');
    reveal_strlit("less?");
    assert("less?"@.len() == 5 && "less?"@[0] == 'l' && "less?"@[1] == 'e' && "less?"@[2] == 's' && "less?"@[3] == 's' && "less?"@[4] == '?');
    reveal_strlit("let");
    assert("let"@.len() == 3 && "let"@[0] == 'l' && "let"@[1] == 'e' && "let"@[2] == 't');
    reveal_strlit("list");
    assert("list"@.len() == 4 && "list"@[0] == 'l' && "list"@[1] == 'i' && "list"@[2] == 's' && "list"@[3] == 't');
    reveal_strlit("list?");
    assert("list?"@.len() == 5 && "list?"@[0] == 'l' && "list?"@[1] == 'i' && "list?"@[2] == 's' && "list?"@[3] == 't' && "list?"@[4] == '?');
    reveal_strlit("lt");
    assert("lt"@.len() == 2 && "lt"@[0] == 'l' && "lt"@[1] == 't');
    reveal_strlit("number?");
    assert("number?"@.len() == 7 && "number?"@[0] == 'n' && "number?"@[1] == 'u' && "number?"@[2] == 'm' && "number?"@[3] == 'b' && "number?"@[4] == 'e' && "number?"@[5] == 'r' && "number?"@[6] == '?');
    reveal_strlit("op");
    assert("op"@.len() == 2 && "op"@[0] == 'o' && "op"@[1] == 'p');
    reveal_strlit("output");
    assert("output"@.len() == 6 && "output"@[0] == 'o' && "output"@[1] == 'u' && "output"@[2] == 't' && "output"@[3] == 'p' && "output"@[4] == 'u' && "output"@[5] == 't');
    reveal_strlit("pr");
    assert("pr"@.len() == 2 && "pr"@[0] == 'p' && "pr"@[1] == 'r');
    reveal_strlit("print");
    assert("print"@.len() == 5 && "print"@[0] == 'p' && "print"@[1] == 'r' && "print"@[2] == 'i' && "print"@[3] == 'n' && "print"@[4] == 't');
    reveal_strlit("right");
    assert("right"@.len() == 5 && "right"@[0] == 'r' && "right"@[1] == 'i' && "right"@[2] == 'g' && "right"@[3] == 'h' && "right"@[4] == 't');
    reveal_strlit("rt");
    assert("rt"@.len() == 2 && "rt"@[0] == 'r' && "rt"@[1] == 't');
    reveal_strlit("se");
    assert("se"@.len() == 2 && "se"@[0] == 's' && "se"@[1] == 'e');
    reveal_strlit("sentence");
    assert("sentence"@.len() == 8 && "sentence"@[0] == 's' && "sentence"@[1] == 'e' && "sentence"@[2] == 'n' && "sentence"@[3] == 't' && "sentence"@[4] == 'e' && "sentence"@[5] == 'n' && "sentence"@[6] == 'c' && "sentence"@[7] == 'e');
    reveal_strlit("setc");
    assert("setc"@.len() == 4 && "setc"@[0] == 's' && "setc"@[1] == 'e' && "setc"@[2] == 't' && "setc"@[3] == 'c');
    reveal_strlit("setcolor");
    assert("setcolor"@.len() == 8 && "setcolor"@[0] == 's' && "setcolor"@[1] == 'e' && "setcolor"@[2] == 't' && "setcolor"@[3] == 'c' && "setcolor"@[4] == 'o' && "setcolor"@[5] == 'l' && "setcolor"@[6] == 'o' && "setcolor"@[7] == 'r');
    reveal_strlit("seth");
    assert("seth"@.len() == 4 && "seth"@[0] == 's' && "seth"@[1] == 'e' && "seth"@[2] == 't' && "seth"@[3] == 'h');
    reveal_strlit("setheading");
    assert("setheading"@.len() == 10 && "setheading"@[0] == 's' && "setheading"@[1] == 'e' && "setheading"@[2] == 't' && "setheading"@[3] == 'h' && "setheading"@[4] == 'e' && "setheading"@[5] == 'a' && "setheading"@[6] == 'd' && "setheading"@[7] == 'i' && "setheading"@[8] == 'n' && "setheading"@[9] == 'g');
    reveal_strlit("setsh");
    assert("setsh"@.len() == 5 && "setsh"@[0] == 's' && "setsh"@[1] == 'e' && "setsh"@[2] == 't' && "setsh"@[3] == 's' && "setsh"@[4] == 'h');
    reveal_strlit("setshape");
    assert("setshape"@.len() == 8 && "setshape"@[0] == 's' && "setshape"@[1] == 'e' && "setshape"@[2] == 't' && "setshape"@[3] == 's' && "setshape"@[4] == 'h' && "setshape"@[5] == 'a' && "setshape"@[6] == 'p' && "setshape"@[7] == 'e');
    reveal_strlit("talkto");
    assert("talkto"@.len() == 6 && "talkto"@[0] == 't' && "talkto"@[1] == 'a' && "talkto"@[2] == 'l' && "talkto"@[3] == 'k' && "talkto"@[4] == 't' && "talkto"@[5] == 'o');
    reveal_strlit("tto");
    assert("tto"@.len() == 3 && "tto"@[0] == 't' && "tto"@[1] == 't' && "tto"@[2] == 'o');
    reveal_strlit("word?");
    assert("word?"@.len() == 5 && "word?"@[0] == 'w' && "word?"@[1] == 'o' && "word?"@[2] == 'r' && "word?"@[3] == 'd' && "word?"@[4] == '?');
}

/// How part 4 of the default dictionary holds the names that the law
/// on aliases speaks of.
proof fn lemma_alias_names_3()
    ensures
        default_commands_3().contains_key("back"@) == default_commands_2().contains_key("back"@),
        default_commands_2().contains_key("back"@) ==> default_commands_3()["back"@] == default_commands_2()["back"@],
        default_commands_3().contains_key("bf"@) == default_commands_2().contains_key("bf"@),
        default_commands_2().contains_key("bf"@) ==> default_commands_3()["bf"@] == default_commands_2()["bf"@],
        default_commands_3().contains_key("bk"@) == default_commands_2().contains_key("bk"@),
        default_commands_2().contains_key("bk"@) ==> default_commands_3()["bk"@] == default_commands_2()["bk"@],
        default_commands_3().contains_key("bl"@) == default_commands_2().contains_key("bl"@),
        default_commands_2().contains_key("bl"@) ==> default_commands_3()["bl"@] == default_commands_2()["bl"@],
        default_commands_3().contains_key("butfirst"@) == default_commands_2().contains_key("butfirst"@),
        default_commands_2().contains_key("butfirst"@) ==> default_commands_3()["butfirst"@] == default_commands_2()["butfirst"@],
        default_commands_3().contains_key("butlast"@) == default_commands_2().contains_key("butlast"@),
        default_commands_2().contains_key("butlast"@) ==> default_commands_3()["butlast"@] == default_commands_2()["butlast"@],
        default_commands_3().contains_key("cleartext"@) == default_commands_2().contains_key("cleartext"@),
        default_commands_2().contains_key("cleartext"@) ==> default_commands_3()["cleartext"@] == default_commands_2()["cleartext"@],
        default_commands_3().contains_key("ct"@) == default_commands_2().contains_key("ct"@),
        default_commands_2().contains_key("ct"@) ==> default_commands_3()["ct"@] == default_commands_2()["ct"@],
        default_commands_3().contains_key("fd"@) == default_commands_2().contains_key("fd"@),
        default_commands_2().contains_key("fd"@) ==> default_commands_3()["fd"@] == default_commands_2()["fd"@],
        default_commands_3().contains_key("forward"@) == default_commands_2().contains_key("forward"@),
        default_commands_2().contains_key("forward"@) ==> default_commands_3()["forward"@] == default_commands_2()["forward"@],
        default_commands_3().contains_key("left"@) == default_commands_2().contains_key("left"@),
        default_commands_2().contains_key("left"@) ==> default_commands_3()["left"@] == default_commands_2()["left"@],
        default_commands_3().contains_key("list"@) == default_commands_2().contains_key("list"@),
        default_commands_2().contains_key("list"@) ==> default_commands_3()["list"@] == default_commands_2()["list"@],
        default_commands_3().contains_key("lt"@) == default_commands_2().contains_key("lt"@),
        default_commands_2().contains_key("lt"@) ==> default_commands_3()["lt"@] == default_commands_2()["lt"@],
        default_commands_3().contains_key("op"@) == default_commands_2().contains_key("op"@),
        default_commands_2().contains_key("op"@) ==> default_commands_3()["op"@] == default_commands_2()["op"@],
        default_commands_3().contains_key("output"@) && default_commands_3()["output"@] == (SCommand { name: "output"@, is_reserved: true, params: Params::Fixed(1) }),
        default_commands_3().contains_key("pr"@) == default_commands_2().contains_key("pr"@),
        default_commands_2().contains_key("pr"@) ==> default_commands_3()["pr"@] == default_commands_2()["pr"@],
        default_commands_3().contains_key("print"@) == default_commands_2().contains_key("print"@),
        default_commands_2().contains_key("print"@) ==> default_commands_3()["print"@] == default_commands_2()["print"@],
        default_commands_3().contains_key("right"@) == default_commands_2().contains_key("right"@),
        default_commands_2().contains_key("right"@) ==> default_commands_3()["right"@] == default_commands_2()["right"@],
        default_commands_3().contains_key("rt"@) == default_commands_2().contains_key("rt"@),
        default_commands_2().contains_key("rt"@) ==> default_commands_3()["rt"@] == default_commands_2()["rt"@],
        default_commands_3().contains_key("se"@) == default_commands_2().contains_key("se"@),
        default_commands_2().contains_key("se"@) ==> default_commands_3()["se"@] == default_commands_2()["se"@],
        default_commands_3().contains_key("sentence"@) == default_commands_2().contains_key("sentence"@),
        default_commands_2().contains_key("sentence"@) ==> default_commands_3()["sentence"@] == default_commands_2()["sentence"@],
        default_commands_3().contains_key("setc"@) == default_commands_2().contains_key("setc"@),
        default_commands_2().contains_key("setc"@) ==> default_commands_3()["setc"@] == default_commands_2()["setc"@],
        default_commands_3().contains_key("setcolor"@) == default_commands_2().contains_key("setcolor"@),
        default_commands_2().contains_key("setcolor"@) ==> default_commands_3()["setcolor"@] == default_commands_2()["setcolor"@],
        default_commands_3().contains_key("seth"@) == default_commands_2().contains_key("seth"@),
        default_commands_2().contains_key("seth"@) ==> default_commands_3()["seth"@] == default_commands_2()["seth"@],
        default_commands_3().contains_key("setheading"@) == default_commands_2().contains_key("setheading"@),
        default_commands_2().contains_key("setheading"@) ==> default_commands_3()["setheading"@] == default_commands_2()["setheading"@],
        default_commands_3().contains_key("setsh"@) == default_commands_2().contains_key("setsh"@),
        default_commands_2().contains_key("setsh"@) ==> default_commands_3()["setsh"@] == default_commands_2()["setsh"@],
        default_commands_3().contains_key("setshape"@) == default_commands_2().contains_key("setshape"@),
        default_commands_2().contains_key("setshape"@) ==> default_commands_3()["setshape"@] == default_commands_2()["setshape"@],
        default_commands_3().contains_key("talkto"@) == default_commands_2().contains_key("talkto"@),
        default_commands_2().contains_key("talkto"@) ==> default_commands_3()["talkto"@] == default_commands_2()["talkto"@],
        default_commands_3().contains_key("tto"@) == default_commands_2().contains_key("tto"@),
        default_commands_2().contains_key("tto"@) ==> default_commands_3()["tto"@] == default_commands_2()["tto"@],
{
    reveal_strlit("back");
    assert("back"@.len() == 4 && "back"@[0] == 'b' && "back"@[1] == 'a' && "back"@[2] == 'c' && "back"@[3] == 'k');
    reveal_strlit("bf");
    assert("bf"@.len() == 2 && "bf"@[0] == 'b' && "bf"@[1] == 'f');
    reveal_strlit("bk");
    assert("bk"@.len() == 2 && "bk"@[0] == 'b' && "bk"@[1] == 'k');
    reveal_strlit("bl");
    assert("bl"@.len() == 2 && "bl"@[0] == 'b' && "bl"@[1] == 'l');
    reveal_strlit("butfirst");
    assert("butfirst"@.len() == 8 && "butfirst"@[0] == 'b' && "butfirst"@[1] == 'u' && "butfirst"@[2] == 't' && "butfirst"@[3] == 'f' && "butfirst"@[4] == 'i' && "butfirst"@[5] == 'r' && "butfirst"@[6] == 's' && "butfirst"@[7] == 't');
    reveal_strlit("butlast");
    assert("butlast"@.len() == 7 && "butlast"@[0] == 'b' && "butlast"@[1] == 'u' && "butlast"@[2] == 't' && "butlast"@[3] == 'l' && "butlast"@[4] == 'a' && "butlast"@[5] == 's' && "butlast"@[6] == 't');
    reveal_strlit("cleartext");
    assert("cleartext"@.len() == 9 && "cleartext"@[0] == 'c' && "cleartext"@[1] == 'l' && "cleartext"@[2] == 'e' && "cleartext"@[3] == 'a' && "cleartext"@[4] == 'r' && "cleartext"@[5] == 't' && "cleartext"@[6] == 'e' && "cleartext"@[7] == 'x' && "cleartext"@[8] == 't');
    reveal_strlit("ct");
    assert("ct"@.len() == 2 && "ct"@[0] == 'c' && "ct"@[1] == 't');
    reveal_strlit("fd");
    assert("fd"@.len() == 2 && "fd"@[0] == 'f' && "fd"@[1] == 'd');
    reveal_strlit("forward");
    assert("forward"@.len() == 7 && "forward"@[0] == 'f' && "forward"@[1] == 'o' && "forward"@[2] == 'r' && "forward"@[3] == 'w' && "forward"@[4] == 'a' && "forward"@[5] == 'r' && "forward"@[6] == 'd');
    reveal_strlit("left");
    assert("left"@.len() == 4 && "left"@[0] == 'l' && "left"@[1] == 'e' && "left"@[2] == 'f' && "left"@[3] == 't');
    reveal_strlit("list");
    assert("list"@.len() == 4 && "list"@[0] == 'l' && "list"@[1] == 'i' && "list"@[2] == 's' && "list"@[3] == 't');
    reveal_strlit("ln");
    assert("ln"@.len() == 2 && "ln"@[0] == 'l' && "ln"@[1] == 'n');
    reveal_strlit("loadpict");
    assert("loadpict"@.len() == 8 && "loadpict"@[0] == 'l' && "loadpict"@[1] == 'o' && "loadpict"@[2] == 'a' && "loadpict"@[3] == 'd' && "loadpict"@[4] == 'p' && "loadpict"@[5] == 'i' && "loadpict"@[6] == 'c' && "loadpict"@[7] == 't');
    reveal_strlit("loadshape");
    assert("loadshape"@.len() == 9 && "loadshape"@[0] == 'l' && "loadshape"@[1] == 'o' && "loadshape"@[2] == 'a' && "loadshape"@[3] == 'd' && "loadshape"@[4] == 's' && "loadshape"@[5] == 'h' && "loadshape"@[6] == 'a' && "loadshape"@[7] == 'p' && "loadshape"@[8] == 'e');
    reveal_strlit("loadtext");
    assert("loadtext"@.len() == 8 && "loadtext"@[0] == 'l' && "loadtext"@[1] == 'o' && "loadtext"@[2] == 'a' && "loadtext"@[3] == 'd' && "loadtext"@[4] == 't' && "loadtext"@[5] == 'e' && "loadtext"@[6] == 'x' && "loadtext"@[7] == 't');
    reveal_strlit("local");
    assert("local"@.len() == 5 && "local"@[0] == 'l' && "local"@[1] == 'o' && "local"@[2] == 'c' && "local"@[3] == 'a' && "local"@[4] == 'l');
    reveal_strlit("log");
    assert("log"@.len() == 3 && "log"@[0] == 'l' && "log"@[1] == 'o' && "log"@[2] == 'g');
    reveal_strlit("lput");
    assert("lput"@.len() == 4 && "lput"@[0] == 'l' && "lput"@[1] == 'p' && "lput"@[2] == 'u' && "lput"@[3] == 't');
    reveal_strlit("lt");
    assert("lt"@.len() == 2 && "lt"@[0] == 'l' && "lt"@[1] == 't');
    reveal_strlit("make");
    assert("make"@.len() == 4 && "make"@[0] == 'm' && "make"@[1] == 'a' && "make"@[2] == 'k' && "make"@[3] == 'e');
    reveal_strlit("member?");
    assert("member?"@.len() == 7 && "member?"@[0] == 'm' && "member?"@[1] == 'e' && "member?"@[2] == 'm' && "member?"@[3] == 'b' && "member?"@[4] == 'e' && "member?"@[5] == 'r' && "member?"@[6] == '?');
    reveal_strlit("minus");
    assert("minus"@.len() == 5 && "minus"@[0] == 'm' && "minus"@[1] == 'i' && "minus"@[2] == 'n' && "minus"@[3] == 'u' && "minus"@[4] == 's');
    reveal_strlit("newtext");
    assert("newtext"@.len() == 7 && "newtext"@[0] == 'n' && "newtext"@[1] == 'e' && "newtext"@[2] == 'w' && "newtext"@[3] == 't' && "newtext"@[4] == 'e' && "newtext"@[5] == 'x' && "newtext"@[6] == 't');
    reveal_strlit("newturtle");
    assert("newturtle"@.len() == 9 && "newturtle"@[0] == 'n' && "newturtle"@[1] == 'e' && "newturtle"@[2] == 'w' && "newturtle"@[3] == 't' && "newturtle"@[4] == 'u' && "newturtle"@[5] == 'r' && "newturtle"@[6] == 't' && "newturtle"@[7] == 'l' && "newturtle"@[8] == 'e');
    reveal_strlit("not");
    assert("not"@.len() == 3 && "not"@[0] == 'n' && "not"@[1] == 'o' && "not"@[2] == 't');
    reveal_strlit("op");
    assert("op"@.len() == 2 && "op"@[0] == 'o' && "op"@[1] == 'p');
    reveal_strlit("or");
    assert("or"@.len() == 2 && "or"@[0] == 'o' && "or"@[1] == 'r');
    reveal_strlit("output");
    assert("output"@.len() == 6 && "output"@[0] == 'o' && "output"@[1] == 'u' && "output"@[2] == 't' && "output"@[3] == 'p' && "output"@[4] == 'u' && "output"@[5] == 't');
    reveal_strlit("pd");
    assert("pd"@.len() == 2 && "pd"@[0] == 'p' && "pd"@[1] == 'd');
    reveal_strlit("pensize");
    assert("pensize"@.len() == 7 && "pensize"@[0] == 'p' && "pensize"@[1] == 'e' && "pensize"@[2] == 'n' && "pensize"@[3] == 's' && "pensize"@[4] == 'i' && "pensize"@[5] == 'z' && "pensize"@[6] == 'e');
    reveal_strlit("pi");
    assert("pi"@.len() == 2 && "pi"@[0] == 'p' && "pi"@[1] == 'i');
    reveal_strlit("pick");
    assert("pick"@.len() == 4 && "pick"@[0] == 'p' && "pick"@[1] == 'i' && "pick"@[2] == 'c' && "pick"@[3] == 'k');
    reveal_strlit("pictlist");
    assert("pictlist"@.len() == 8 && "pictlist"@[0] == 'p' && "pictlist"@[1] == 'i' && "pictlist"@[2] == 'c' && "pictlist"@[3] == 't' && "pictlist"@[4] == 'l' && "pictlist"@[5] == 'i' && "pictlist"@[6] == 's' && "pictlist"@[7] == 't');
    reveal_strlit("pr");
    assert("pr"@.len() == 2 && "pr"@[0] == 'p' && "pr"@[1] == 'r');
    reveal_strlit("print");
    assert("print"@.len() == 5 && "print"@[0] == 'p' && "print"@[1] == 'r' && "print"@[2] == 'i' && "print"@[3] == 'n' && "print"@[4] == 't');
    reveal_strlit("right");
    assert("right"@.len() == 5 && "right"@[0] == 'r' && "right"@[1] == 'i' && "right"@[2] == 'g' && "right"@[3] == 'h' && "right"@[4] == 't');
    reveal_strlit("rt");
    assert("rt"@.len() == 2 && "rt"@[0] == 'r' && "rt"@[1] == 't');
    reveal_strlit("se");
    assert("se"@.len() == 2 && "se"@[0] == 's' && "se"@[1] == 'e');
    reveal_strlit("sentence");
    assert("sentence"@.len() == 8 && "sentence"@[0] == 's' && "sentence"@[1] == 'e' && "sentence"@[2] == 'n' && "sentence"@[3] == 't' && "sentence"@[4] == 'e' && "sentence"@[5] == 'n' && "sentence"@[6] == 'c' && "sentence"@[7] == 'e');
    reveal_strlit("setc");
    assert("setc"@.len() == 4 && "setc"@[0] == 's' && "setc"@[1] == 'e' && "setc"@[2] == 't' && "setc"@[3] == 'c');
    reveal_strlit("setcolor");
    assert("setcolor"@.len() == 8 && "setcolor"@[0] == 's' && "setcolor"@[1] == 'e' && "setcolor"@[2] == 't' && "setcolor"@[3] == 'c' && "setcolor"@[4] == 'o' && "setcolor"@[5] == 'l' && "setcolor"@[6] == 'o' && "setcolor"@[7] == 'r');
    reveal_strlit("seth");
    assert("seth"@.len() == 4 && "seth"@[0] == 's' && "seth"@[1] == 'e' && "seth"@[2] == 't' && "seth"@[3] == 'h');
    reveal_strlit("setheading");
    assert("setheading"@.len() == 10 && "setheading"@[0] == 's' && "setheading"@[1] == 'e' && "setheading"@[2] == 't' && "setheading"@[3] == 'h' && "setheading"@[4] == 'e' && "setheading"@[5] == 'a' && "setheading"@[6] == 'd' && "setheading"@[7] == 'i' && "setheading"@[8] == 'n' && "setheading"@[9] == 'g');
    reveal_strlit("setsh");
    assert("setsh"@.len() == 5 && "setsh"@[0] == 's' && "setsh"@[1] == 'e' && "setsh"@[2] == 't' && "setsh"@[3] == 's' && "setsh"@[4] == 'h');
    reveal_strlit("setshape");
    assert("setshape"@.len() == 8 && "setshape"@[0] == 's' && "setshape"@[1] == 'e' && "setshape"@[2] == 't' && "setshape"@[3] == 's' && "setshape"@[4] == 'h' && "setshape"@[5] == 'a' && "setshape"@[6] == 'p' && "setshape"@[7] == 'e');
    reveal_strlit("talkto");
    assert("talkto"@.len() == 6 && "talkto"@[0] == 't' && "talkto"@[1] == 'a' && "talkto"@[2] == 'l' && "talkto"@[3] == 'k' && "talkto"@[4] == 't' && "talkto"@[5] == 'o');
    reveal_strlit("tto");
    assert("tto"@.len() == 3 && "tto"@[0] == 't' && "tto"@[1] == 't' && "tto"@[2] == 'o');
}

/// How part 5 of the default dictionary holds the names that the law
/// on aliases speaks of.
proof fn lemma_alias_names_4()
    ensures
        default_commands_4().contains_key("back"@) == default_commands_3().contains_key("back"@),
        default_commands_3().contains_key("back"@) ==> default_commands_4()["back"@] == default_commands_3()["back"@],
        default_commands_4().contains_key("bf"@) == default_commands_3().contains_key("bf"@),
        default_commands_3().contains_key("bf"@) ==> default_commands_4()["bf"@] == default_commands_3()["bf"@],
        default_commands_4().contains_key("bk"@) == default_commands_3().contains_key("bk"@),
        default_commands_3().contains_key("bk"@) ==> default_commands_4()["bk"@] == default_commands_3()["bk"@],
        default_commands_4().contains_key("bl"@) == default_commands_3().contains_key("bl"@),
        default_commands_3().contains_key("bl"@) ==> default_commands_4()["bl"@] == default_commands_3()["bl"@],
        default_commands_4().contains_key("butfirst"@) == default_commands_3().contains_key("butfirst"@),
        default_commands_3().contains_key("butfirst"@) ==> default_commands_4()["butfirst"@] == default_commands_3()["butfirst"@],
        default_commands_4().contains_key("butlast"@) == default_commands_3().contains_key("butlast"@),
        default_commands_3().contains_key("butlast"@) ==> default_commands_4()["butlast"@] == default_commands_3()["butlast"@],
        default_commands_4().contains_key("cleartext"@) == default_commands_3().contains_key("cleartext"@),
        default_commands_3().contains_key("cleartext"@) ==> default_commands_4()["cleartext"@] == default_commands_3()["cleartext"@],
        default_commands_4().contains_key("ct"@) == default_commands_3().contains_key("ct"@),
        default_commands_3().contains_key("ct"@) ==> default_commands_4()["ct"@] == default_commands_3()["ct"@],
        default_commands_4().contains_key("fd"@) == default_commands_3().contains_key("fd"@),
        default_commands_3().contains_key("fd"@) ==> default_commands_4()["fd"@] == default_commands_3()["fd"@],
        default_commands_4().contains_key("forward"@) == default_commands_3().contains_key("forward"@),
        default_commands_3().contains_key("forward"@) ==> default_commands_4()["forward"@] == default_commands_3()["forward"@],
        default_commands_4().contains_key("left"@) == default_commands_3().contains_key("left"@),
        default_commands_3().contains_key("left"@) ==> default_commands_4()["left"@] == default_commands_3()["left"@],
        default_commands_4().contains_key("list"@) == default_commands_3().contains_key("list"@),
        default_commands_3().contains_key("list"@) ==> default_commands_4()["list"@] == default_commands_3()["list"@],
        default_commands_4().contains_key("lt"@) == default_commands_3().contains_key("lt"@),
        default_commands_3().contains_key("lt"@) ==> default_commands_4()["lt"@] == default_commands_3()["lt"@],
        default_commands_4().contains_key("op"@) == default_commands_3().contains_key("op"@),
        default_commands_3().contains_key("op"@) ==> default_commands_4()["op"@] == default_commands_3()["op"@],
        default_commands_4().contains_key("output"@) == default_commands_3().contains_key("output"@),
        default_commands_3().contains_key("output"@) ==> default_commands_4()["output"@] == default_commands_3()["output"@],
        default_commands_4().contains_key("pr"@) == default_commands_3().contains_key("pr"@),
        default_commands_3().contains_key("pr"@) ==> default_commands_4()["pr"@] == default_commands_3()["pr"@],
        default_commands_4().contains_key("print"@) && default_commands_4()["print"@] == (SCommand { name: "print"@, is_reserved: true, params: Params::Fixed(1) }),
        default_commands_4().contains_key("right"@) && default_commands_4()["right"@] == (SCommand { name: "right"@, is_reserved: true, params: Params::Fixed(1) }),
        default_commands_4().contains_key("rt"@) == default_commands_3().contains_key("rt"@),
        default_commands_3().contains_key("rt"@) ==> default_commands_4()["rt"@] == default_commands_3()["rt"@],
        default_commands_4().contains_key("se"@) == default_commands_3().contains_key("se"@),
        default_commands_3().contains_key("se"@) ==> default_commands_4()["se"@] == default_commands_3()["se"@],
        default_commands_4().contains_key("sentence"@) == default_commands_3().contains_key("sentence"@),
        default_commands_3().contains_key("sentence"@) ==> default_commands_4()["sentence"@] == default_commands_3()["sentence"@],
        default_commands_4().contains_key("setc"@) == default_commands_3().contains_key("setc"@),
        default_commands_3().contains_key("setc"@) ==> default_commands_4()["setc"@] == default_commands_3()["setc"@],
        default_commands_4().contains_key("setcolor"@) && default_commands_4()["setcolor"@] == (SCommand { name: "setcolor"@, is_reserved: true, params: Params::Fixed(1) }),
        default_commands_4().contains_key("seth"@) == default_commands_3().contains_key("seth"@),
        default_commands_3().contains_key("seth"@) ==> default_commands_4()["seth"@] == default_commands_3()["seth"@],
        default_commands_4().contains_key("setheading"@) == default_commands_3().contains_key("setheading"@),
        default_commands_3().contains_key("setheading"@) ==> default_commands_4()["setheading"@] == default_commands_3()["setheading"@],
        default_commands_4().contains_key("setsh"@) == default_commands_3().contains_key("setsh"@),
        default_commands_3().contains_key("setsh"@) ==> default_commands_4()["setsh"@] == default_commands_3()["setsh"@],
        default_commands_4().contains_key("setshape"@) == default_commands_3().contains_key("setshape"@),
        default_commands_3().contains_key("setshape"@) ==> default_commands_4()["setshape"@] == default_commands_3()["setshape"@],
        default_commands_4().contains_key("talkto"@) == default_commands_3().contains_key("talkto"@),
        default_commands_3().contains_key("talkto"@) ==> default_commands_4()["talkto"@] == default_commands_3()["talkto"@],
        default_commands_4().contains_key("tto"@) == default_commands_3().contains_key("tto"@),
        default_commands_3().contains_key("tto"@) ==> default_commands_4()["tto"@] == default_commands_3()["tto"@],
{
    reveal_strlit("back");
    assert("back"@.len() == 4 && "back"@[0] == 'b' && "back"@[1] == 'a' && "back"@[2] == 'c' && "back"@[3] == 'k');
    reveal_strlit("bf");
    assert("bf"@.len() == 2 && "bf"@[0] == 'b' && "bf"@[1] == 'f');
    reveal_strlit("bk");
    assert("bk"@.len() == 2 && "bk"@[0] == 'b' && "bk"@[1] == 'k');
    reveal_strlit("bl");
    assert("bl"@.len() == 2 && "bl"@[0] == 'b' && "bl"@[1] == 'l');
    reveal_strlit("butfirst");
    assert("butfirst"@.len() == 8 && "butfirst"@[0] == 'b' && "butfirst"@[1] == 'u' && "butfirst"@[2] == 't' && "butfirst"@[3] == 'f' && "butfirst"@[4] == 'i' && "butfirst"@[5] == 'r' && "butfirst"@[6] == 's' && "butfirst"@[7] == 't');
    reveal_strlit("butlast");
    assert("butlast"@.len() == 7 && "butlast"@[0] == 'b' && "butlast"@[1] == 'u' && "butlast"@[2] == 't' && "butlast"@[3] == 'l' && "butlast"@[4] == 'a' && "butlast"@[5] == 's' && "butlast"@[6] == 't');
    reveal_strlit("cleartext");
    assert("cleartext"@.len() == 9 && "cleartext"@[0] == 'c' && "cleartext"@[1] == 'l' && "cleartext"@[2] == 'e' && "cleartext"@[3] == 'a' && "cleartext"@[4] == 'r' && "cleartext"@[5] == 't' && "cleartext"@[6] == 'e' && "cleartext"@[7] == 'x' && "cleartext"@[8] == 't');
    reveal_strlit("ct");
    assert("ct"@.len() == 2 && "ct"@[0] == 'c' && "ct"@[1] == 't');
    reveal_strlit("fd");
    assert("fd"@.len() == 2 && "fd"@[0] == 'f' && "fd"@[1] == 'd');
    reveal_strlit("forward");
    assert("forward"@.len() == 7 && "forward"@[0] == 'f' && "forward"@[1] == 'o' && "forward"@[2] == 'r' && "forward"@[3] == 'w' && "forward"@[4] == 'a' && "forward"@[5] == 'r' && "forward"@[6] == 'd');
    reveal_strlit("left");
    assert("left"@.len() == 4 && "left"@[0] == 'l' && "left"@[1] == 'e' && "left"@[2] == 'f' && "left"@[3] == 't');
    reveal_strlit("list");
    assert("list"@.len() == 4 && "list"@[0] == 'l' && "list"@[1] == 'i' && "list"@[2] == 's' && "list"@[3] == 't');
    reveal_strlit("lt");
    assert("lt"@.len() == 2 && "lt"@[0] == 'l' && "lt"@[1] == 't');
    reveal_strlit("op");
    assert("op"@.len() == 2 && "op"@[0] == 'o' && "op"@[1] == 'p');
    reveal_strlit("output");
    assert("output"@.len() == 6 && "output"@[0] == 'o' && "output"@[1] == 'u' && "output"@[2] == 't' && "output"@[3] == 'p' && "output"@[4] == 'u' && "output"@[5] == 't');
    reveal_strlit("pos");
    assert("pos"@.len() == 3 && "pos"@[0] == 'p' && "pos"@[1] == 'o' && "pos"@[2] == 's');
    reveal_strlit("power");
    assert("power"@.len() == 5 && "power"@[0] == 'p' && "power"@[1] == 'o' && "power"@[2] == 'w' && "power"@[3] == 'e' && "power"@[4] == 'r');
    reveal_strlit("pr");
    assert("pr"@.len() == 2 && "pr"@[0] == 'p' && "pr"@[1] == 'r');
    reveal_strlit("print");
    assert("print"@.len() == 5 && "print"@[0] == 'p' && "print"@[1] == 'r' && "print"@[2] == 'i' && "print"@[3] == 'n' && "print"@[4] == 't');
    reveal_strlit("procedures");
    assert("procedures"@.len() == 10 && "procedures"@[0] == 'p' && "procedures"@[1] == 'r' && "procedures"@[2] == 'o' && "procedures"@[3] == 'c' && "procedures"@[4] == 'e' && "procedures"@[5] == 'd' && "procedures"@[6] == 'u' && "procedures"@[7] == 'r' && "procedures"@[8] == 'e' && "procedures"@[9] == 's');
    reveal_strlit("product");
    assert("product"@.len() == 7 && "product"@[0] == 'p' && "product"@[1] == 'r' && "product"@[2] == 'o' && "product"@[3] == 'd' && "product"@[4] == 'u' && "product"@[5] == 'c' && "product"@[6] == 't');
    reveal_strlit("projectsize");
    assert("projectsize"@.len() == 11 && "projectsize"@[0] == 'p' && "projectsize"@[1] == 'r' && "projectsize"@[2] == 'o' && "projectsize"@[3] == 'j' && "projectsize"@[4] == 'e' && "projectsize"@[5] == 'c' && "projectsize"@[6] == 't' && "projectsize"@[7] == 's' && "projectsize"@[8] == 'i' && "projectsize"@[9] == 'z' && "projectsize"@[10] == 'e');
    reveal_strlit("pu");
    assert("pu"@.len() == 2 && "pu"@[0] == 'p' && "pu"@[1] == 'u');
    reveal_strlit("quotient");
    assert("quotient"@.len() == 8 && "quotient"@[0] == 'q' && "quotient"@[1] == 'u' && "quotient"@[2] == 'o' && "quotient"@[3] == 't' && "quotient"@[4] == 'i' && "quotient"@[5] == 'e' && "quotient"@[6] == 'n' && "quotient"@[7] == 't');
    reveal_strlit("random");
    assert("random"@.len() == 6 && "random"@[0] == 'r' && "random"@[1] == 'a' && "random"@[2] == 'n' && "random"@[3] == 'd' && "random"@[4] == 'o' && "random"@[5] == 'm');
    reveal_strlit("readchar");
    assert("readchar"@.len() == 8 && "readchar"@[0] == 'r' && "readchar"@[1] == 'e' && "readchar"@[2] == 'a' && "readchar"@[3] == 'd' && "readchar"@[4] == 'c' && "readchar"@[5] == 'h' && "readchar"@[6] == 'a' && "readchar"@[7] == 'r');
    reveal_strlit("readclick");
    assert("readclick"@.len() == 9 && "readclick"@[0] == 'r' && "readclick"@[1] == 'e' && "readclick"@[2] == 'a' && "readclick"@[3] == 'd' && "readclick"@[4] == 'c' && "readclick"@[5] == 'l' && "readclick"@[6] == 'i' && "readclick"@[7] == 'c' && "readclick"@[8] == 'k');
    reveal_strlit("remainder");
    assert("remainder"@.len() == 9 && "remainder"@[0] == 'r' && "remainder"@[1] == 'e' && "remainder"@[2] == 'm' && "remainder"@[3] == 'a' && "remainder"@[4] == 'i' && "remainder"@[5] == 'n' && "remainder"@[6] == 'd' && "remainder"@[7] == 'e' && "remainder"@[8] == 'r');
    reveal_strlit("remove");
    assert("remove"@.len() == 6 && "remove"@[0] == 'r' && "remove"@[1] == 'e' && "remove"@[2] == 'm' && "remove"@[3] == 'o' && "remove"@[4] == 'v' && "remove"@[5] == 'e');
    reveal_strlit("repeat");
    assert("repeat"@.len() == 6 && "repeat"@[0] == 'r' && "repeat"@[1] == 'e' && "repeat"@[2] == 'p' && "repeat"@[3] == 'e' && "repeat"@[4] == 'a' && "repeat"@[5] == 't');
    reveal_strlit("resett");
    assert("resett"@.len() == 6 && "resett"@[0] == 'r' && "resett"@[1] == 'e' && "resett"@[2] == 's' && "resett"@[3] == 'e' && "resett"@[4] == 't' && "resett"@[5] == 't');
    reveal_strlit("right");
    assert("right"@.len() == 5 && "right"@[0] == 'r' && "right"@[1] == 'i' && "right"@[2] == 'g' && "right"@[3] == 'h' && "right"@[4] == 't');
    reveal_strlit("round");
    assert("round"@.len() == 5 && "round"@[0] == 'r' && "round"@[1] == 'o' && "round"@[2] == 'u' && "round"@[3] == 'n' && "round"@[4] == 'd');
    reveal_strlit("rt");
    assert("rt"@.len() == 2 && "rt"@[0] == 'r' && "rt"@[1] == 't');
    reveal_strlit("run");
    assert("run"@.len() == 3 && "run"@[0] == 'r' && "run"@[1] == 'u' && "run"@[2] == 'n');
    reveal_strlit("se");
    assert("se"@.len() == 2 && "se"@[0] == 's' && "se"@[1] == 'e');
    reveal_strlit("sentence");
    assert("sentence"@.len() == 8 && "sentence"@[0] == 's' && "sentence"@[1] == 'e' && "sentence"@[2] == 'n' && "sentence"@[3] == 't' && "sentence"@[4] == 'e' && "sentence"@[5] == 'n' && "sentence"@[6] == 'c' && "sentence"@[7] == 'e');
    reveal_strlit("setbg");
    assert("setbg"@.len() == 5 && "setbg"@[0] == 's' && "setbg"@[1] == 'e' && "setbg"@[2] == 't' && "setbg"@[3] == 'b' && "setbg"@[4] == 'g');
    reveal_strlit("setc");
    assert("setc"@.len() == 4 && "setc"@[0] == 's' && "setc"@[1] == 'e' && "setc"@[2] == 't' && "setc"@[3] == 'c');
    reveal_strlit("setcolor");
    assert("setcolor"@.len() == 8 && "setcolor"@[0] == 's' && "setcolor"@[1] == 'e' && "setcolor"@[2] == 't' && "setcolor"@[3] == 'c' && "setcolor"@[4] == 'o' && "setcolor"@[5] == 'l' && "setcolor"@[6] == 'o' && "setcolor"@[7] == 'r');
    reveal_strlit("seth");
    assert("seth"@.len() == 4 && "seth"@[0] == 's' && "seth"@[1] == 'e' && "seth"@[2] == 't' && "seth"@[3] == 'h');
    reveal_strlit("setheading");
    assert("setheading"@.len() == 10 && "setheading"@[0] == 's' && "setheading"@[1] == 'e' && "setheading"@[2] == 't' && "setheading"@[3] == 'h' && "setheading"@[4] == 'e' && "setheading"@[5] == 'a' && "setheading"@[6] == 'd' && "setheading"@[7] == 'i' && "setheading"@[8] == 'n' && "setheading"@[9] == 'g');
    reveal_strlit("setsh");
    assert("setsh"@.len() == 5 && "setsh"@[0] == 's' && "setsh"@[1] == 'e' && "setsh"@[2] == 't' && "setsh"@[3] == 's' && "setsh"@[4] == 'h');
    reveal_strlit("setshape");
    assert("setshape"@.len() == 8 && "setshape"@[0] == 's' && "setshape"@[1] == 'e' && "setshape"@[2] == 't' && "setshape"@[3] == 's' && "setshape"@[4] == 'h' && "setshape"@[5] == 'a' && "setshape"@[6] == 'p' && "setshape"@[7] == 'e');
    reveal_strlit("talkto");
    assert("talkto"@.len() == 6 && "talkto"@[0] == 't' && "talkto"@[1] == 'a' && "talkto"@[2] == 'l' && "talkto"@[3] == 'k' && "talkto"@[4] == 't' && "talkto"@[5] == 'o');
    reveal_strlit("tto");
    assert("tto"@.len() == 3 && "tto"@[0] == 't' && "tto"@[1] == 't' && "tto"@[2] == 'o');
}

/// How part 6 of the default dictionary holds the names that the law
/// on aliases speaks of.
proof fn lemma_alias_names_5()
    ensures
        default_commands_5().contains_key("back"@) == default_commands_4().contains_key("back"@),
        default_commands_4().contains_key("back"@) ==> default_commands_5()["back"@] == default_commands_4()["back"@],
        default_commands_5().contains_key("bf"@) == default_commands_4().contains_key("bf"@),
        default_commands_4().contains_key("bf"@) ==> default_commands_5()["bf"@] == default_commands_4()["bf"@],
        default_commands_5().contains_key("bk"@) == default_commands_4().contains_key("bk"@),
        default_commands_4().contains_key("bk"@) ==> default_commands_5()["bk"@] == default_commands_4()["bk"@],
        default_commands_5().contains_key("bl"@) == default_commands_4().contains_key("bl"@),
        default_commands_4().contains_key("bl"@) ==> default_commands_5()["bl"@] == default_commands_4()["bl"@],
        default_commands_5().contains_key("butfirst"@) == default_commands_4().contains_key("butfirst"@),
        default_commands_4().contains_key("butfirst"@) ==> default_commands_5()["butfirst"@] == default_commands_4()["butfirst"@],
        default_commands_5().contains_key("butlast"@) == default_commands_4().contains_key("butlast"@),
        default_commands_4().contains_key("butlast"@) ==> default_commands_5()["butlast"@] == default_commands_4()["butlast"@],
        default_commands_5().contains_key("cleartext"@) == default_commands_4().contains_key("cleartext"@),
        default_commands_4().contains_key("cleartext"@) ==> default_commands_5()["cleartext"@] == default_commands_4()["cleartext"@],
        default_commands_5().contains_key("ct"@) == default_commands_4().contains_key("ct"@),
        default_commands_4().contains_key("ct"@) ==> default_commands_5()["ct"@] == default_commands_4()["ct"@],
        default_commands_5().contains_key("fd"@) == default_commands_4().contains_key("fd"@),
        default_commands_4().contains_key("fd"@) ==> default_commands_5()["fd"@] == default_commands_4()["fd"@],
        default_commands_5().contains_key("forward"@) == default_commands_4().contains_key("forward"@),
        default_commands_4().contains_key("forward"@) ==> default_commands_5()["forward"@] == default_commands_4()["forward"@],
        default_commands_5().contains_key("left"@) == default_commands_4().contains_key("left"@),
        default_commands_4().contains_key("left"@) ==> default_commands_5()["left"@] == default_commands_4()["left"@],
        default_commands_5().contains_key("list"@) == default_commands_4().contains_key("list"@),
        default_commands_4().contains_key("list"@) ==> default_commands_5()["list"@] == default_commands_4()["list"@],
        default_commands_5().contains_key("lt"@) == default_commands_4().contains_key("lt"@),
        default_commands_4().contains_key("lt"@) ==> default_commands_5()["lt"@] == default_commands_4()["lt"@],
        default_commands_5().contains_key("op"@) == default_commands_4().contains_key("op"@),
        default_commands_4().contains_key("op"@) ==> default_commands_5()["op"@] == default_commands_4()["op"@],
        default_commands_5().contains_key("output"@) == default_commands_4().contains_key("output"@),
        default_commands_4().contains_key("output"@) ==> default_commands_5()["output"@] == default_commands_4()["output"@],
        default_commands_5().contains_key("pr"@) == default_commands_4().contains_key("pr"@),
        default_commands_4().contains_key("pr"@) ==> default_commands_5()["pr"@] == default_commands_4()["pr"@],
        default_commands_5().contains_key("print"@) == default_commands_4().contains_key("print"@),
        default_commands_4().contains_key("print"@) ==> default_commands_5()["print"@] == default_commands_4()["print"@],
        default_commands_5().contains_key("right"@) == default_commands_4().contains_key("right"@),
        default_commands_4().contains_key("right"@) ==> default_commands_5()["right"@] == default_commands_4()["right"@],
        default_commands_5().contains_key("rt"@) == default_commands_4().contains_key("rt"@),
        default_commands_4().contains_key("rt"@) ==> default_commands_5()["rt"@] == default_commands_4()["rt"@],
        default_commands_5().contains_key("se"@) == default_commands_4().contains_key("se"@),
        default_commands_4().contains_key("se"@) ==> default_commands_5()["se"@] == default_commands_4()["se"@],
        default_commands_5().contains_key("sentence"@) == default_commands_4().contains_key("sentence"@),
        default_commands_4().contains_key("sentence"@) ==> default_commands_5()["sentence"@] == default_commands_4()["sentence"@],
        default_commands_5().contains_key("setc"@) == default_commands_4().contains_key("setc"@),
        default_commands_4().contains_key("setc"@) ==> default_commands_5()["setc"@] == default_commands_4()["setc"@],
        default_commands_5().contains_key("setcolor"@) == default_commands_4().contains_key("setcolor"@),
        default_commands_4().contains_key("setcolor"@) ==> default_commands_5()["setcolor"@] == default_commands_4()["setcolor"@],
        default_commands_5().contains_key("seth"@) == default_commands_4().contains_key("seth"@),
        default_commands_4().contains_key("seth"@) ==> default_commands_5()["seth"@] == default_commands_4()["seth"@],
        default_commands_5().contains_key("setheading"@) && default_commands_5()["setheading"@] == (SCommand { name: "setheading"@, is_reserved: true, params: Params::Fixed(1) }),
        default_commands_5().contains_key("setsh"@) == default_commands_4().contains_key("setsh"@),
        default_commands_4().contains_key("setsh"@) ==> default_commands_5()["setsh"@] == default_commands_4()["setsh"@],
        default_commands_5().contains_key("setshape"@) && default_commands_5()["setshape"@] == (SCommand { name: "setshape"@, is_reserved: true, params: Params::Fixed(1) }),
        default_commands_5().contains_key("talkto"@) && default_commands_5()["talkto"@] == (SCommand { name: "talkto"@, is_reserved: true, params: Params::Fixed(1) }),
        default_commands_5().contains_key("tto"@) == default_commands_4().contains_key("tto"@),
        default_commands_4().contains_key("tto"@) ==> default_commands_5()["tto"@] == default_commands_4()["tto"@],
{
    reveal_strlit("back");
    assert("back"@.len() == 4 && "back"@[0] == 'b' && "back"@[1] == 'a' && "back"@[2] == 'c' && "back"@[3] == 'k');
    reveal_strlit("bf");
    assert("bf"@.len() == 2 && "bf"@[0] == 'b' && "bf"@[1] == 'f');
    reveal_strlit("bk");
    assert("bk"@.len() == 2 && "bk"@[0] == 'b' && "bk"@[1] == 'k');
    reveal_strlit("bl");
    assert("bl"@.len() == 2 && "bl"@[0] == 'b' && "bl"@[1] == 'l');
    reveal_strlit("butfirst");
    assert("butfirst"@.len() == 8 && "butfirst"@[0] == 'b' && "butfirst"@[1] == 'u' && "butfirst"@[2] == 't' && "butfirst"@[3] == 'f' && "butfirst"@[4] == 'i' && "butfirst"@[5] == 'r' && "butfirst"@[6] == 's' && "butfirst"@[7] == 't');
    reveal_strlit("butlast");
    assert("butlast"@.len() == 7 && "butlast"@[0] == 'b' && "butlast"@[1] == 'u' && "butlast"@[2] == 't' && "butlast"@[3] == 'l' && "butlast"@[4] == 'a' && "butlast"@[5] == 's' && "butlast"@[6] == 't');
    reveal_strlit("cleartext");
    assert("cleartext"@.len() == 9 && "cleartext"@[0] == 'c' && "cleartext"@[1] == 'l' && "cleartext"@[2] == 'e' && "cleartext"@[3] == 'a' && "cleartext"@[4] == 'r' && "cleartext"@[5] == 't' && "cleartext"@[6] == 'e' && "cleartext"@[7] == 'x' && "cleartext"@[8] == 't');
    reveal_strlit("ct");
    assert("ct"@.len() == 2 && "ct"@[0] == 'c' && "ct"@[1] == 't');
    reveal_strlit("fd");
    assert("fd"@.len() == 2 && "fd"@[0] == 'f' && "fd"@[1] == 'd');
    reveal_strlit("forward");
    assert("forward"@.len() == 7 && "forward"@[0] == 'f' && "forward"@[1] == 'o' && "forward"@[2] == 'r' && "forward"@[3] == 'w' && "forward"@[4] == 'a' && "forward"@[5] == 'r' && "forward"@[6] == 'd');
    reveal_strlit("left");
    assert("left"@.len() == 4 && "left"@[0] == 'l' && "left"@[1] == 'e' && "left"@[2] == 'f' && "left"@[3] == 't');
    reveal_strlit("list");
    assert("list"@.len() == 4 && "list"@[0] == 'l' && "list"@[1] == 'i' && "list"@[2] == 's' && "list"@[3] == 't');
    reveal_strlit("lt");
    assert("lt"@.len() == 2 && "lt"@[0] == 'l' && "lt"@[1] == 't');
    reveal_strlit("op");
    assert("op"@.len() == 2 && "op"@[0] == 'o' && "op"@[1] == 'p');
    reveal_strlit("output");
    assert("output"@.len() == 6 && "output"@[0] == 'o' && "output"@[1] == 'u' && "output"@[2] == 't' && "output"@[3] == 'p' && "output"@[4] == 'u' && "output"@[5] == 't');
    reveal_strlit("pr");
    assert("pr"@.len() == 2 && "pr"@[0] == 'p' && "pr"@[1] == 'r');
    reveal_strlit("print");
    assert("print"@.len() == 5 && "print"@[0] == 'p' && "print"@[1] == 'r' && "print"@[2] == 'i' && "print"@[3] == 'n' && "print"@[4] == 't');
    reveal_strlit("right");
    assert("right"@.len() == 5 && "right"@[0] == 'r' && "right"@[1] == 'i' && "right"@[2] == 'g' && "right"@[3] == 'h' && "right"@[4] == 't');
    reveal_strlit("rt");
    assert("rt"@.len() == 2 && "rt"@[0] == 'r' && "rt"@[1] == 't');
    reveal_strlit("se");
    assert("se"@.len() == 2 && "se"@[0] == 's' && "se"@[1] == 'e');
    reveal_strlit("sentence");
    assert("sentence"@.len() == 8 && "sentence"@[0] == 's' && "sentence"@[1] == 'e' && "sentence"@[2] == 'n' && "sentence"@[3] == 't' && "sentence"@[4] == 'e' && "sentence"@[5] == 'n' && "sentence"@[6] == 'c' && "sentence"@[7] == 'e');
    reveal_strlit("setc");
    assert("setc"@.len() == 4 && "setc"@[0] == 's' && "setc"@[1] == 'e' && "setc"@[2] == 't' && "setc"@[3] == 'c');
    reveal_strlit("setcolor");
    assert("setcolor"@.len() == 8 && "setcolor"@[0] == 's' && "setcolor"@[1] == 'e' && "setcolor"@[2] == 't' && "setcolor"@[3] == 'c' && "setcolor"@[4] == 'o' && "setcolor"@[5] == 'l' && "setcolor"@[6] == 'o' && "setcolor"@[7] == 'r');
    reveal_strlit("setfontsize");
    assert("setfontsize"@.len() == 11 && "setfontsize"@[0] == 's' && "setfontsize"@[1] == 'e' && "setfontsize"@[2] == 't' && "setfontsize"@[3] == 'f' && "setfontsize"@[4] == 'o' && "setfontsize"@[5] == 'n' && "setfontsize"@[6] == 't' && "setfontsize"@[7] == 's' && "setfontsize"@[8] == 'i' && "setfontsize"@[9] == 'z' && "setfontsize"@[10] == 'e');
    reveal_strlit("seth");
    assert("seth"@.len() == 4 && "seth"@[0] == 's' && "seth"@[1] == 'e' && "seth"@[2] == 't' && "seth"@[3] == 'h');
    reveal_strlit("setheading");
    assert("setheading"@.len() == 10 && "setheading"@[0] == 's' && "setheading"@[1] == 'e' && "setheading"@[2] == 't' && "setheading"@[3] == 'h' && "setheading"@[4] == 'e' && "setheading"@[5] == 'a' && "setheading"@[6] == 'd' && "setheading"@[7] == 'i' && "setheading"@[8] == 'n' && "setheading"@[9] == 'g');
    reveal_strlit("setpensize");
    assert("setpensize"@.len() == 10 && "setpensize"@[0] == 's' && "setpensize"@[1] == 'e' && "setpensize"@[2] == 't' && "setpensize"@[3] == 'p' && "setpensize"@[4] == 'e' && "setpensize"@[5] == 'n' && "setpensize"@[6] == 's' && "setpensize"@[7] == 'i' && "setpensize"@[8] == 'z' && "setpensize"@[9] == 'e');
    reveal_strlit("setpos");
    assert("setpos"@.len() == 6 && "setpos"@[0] == 's' && "setpos"@[1] == 'e' && "setpos"@[2] == 't' && "setpos"@[3] == 'p' && "setpos"@[4] == 'o' && "setpos"@[5] == 's');
    reveal_strlit("setprojectsize");
    assert("setprojectsize"@.len() == 14 && "setprojectsize"@[0] == 's' && "setprojectsize"@[1] == 'e' && "setprojectsize"@[2] == 't' && "setprojectsize"@[3] == 'p' && "setprojectsize"@[4] == 'r' && "setprojectsize"@[5] == 'o' && "setprojectsize"@[6] == 'j' && "setprojectsize"@[7] == 'e' && "setprojectsize"@[8] == 'c' && "setprojectsize"@[9] == 't' && "setprojectsize"@[10] == 's' && "setprojectsize"@[11] == 'i' && "setprojectsize"@[12] == 'z' && "setprojectsize"@[13] == 'e');
    reveal_strlit("setsh");
    assert("setsh"@.len() == 5 && "setsh"@[0] == 's' && "setsh"@[1] == 'e' && "setsh"@[2] == 't' && "setsh"@[3] == 's' && "setsh"@[4] == 'h');
    reveal_strlit("setshape");
    assert("setshape"@.len() == 8 && "setshape"@[0] == 's' && "setshape"@[1] == 'e' && "setshape"@[2] == 't' && "setshape"@[3] == 's' && "setshape"@[4] == 'h' && "setshape"@[5] == 'a' && "setshape"@[6] == 'p' && "setshape"@[7] == 'e');
    reveal_strlit("setsize");
    assert("setsize"@.len() == 7 && "setsize"@[0] == 's' && "setsize"@[1] == 'e' && "setsize"@[2] == 't' && "setsize"@[3] == 's' && "setsize"@[4] == 'i' && "setsize"@[5] == 'z' && "setsize"@[6] == 'e');
    reveal_strlit("setstyle");
    assert("setstyle"@.len() == 8 && "setstyle"@[0] == 's' && "setstyle"@[1] == 'e' && "setstyle"@[2] == 't' && "setstyle"@[3] == 's' && "setstyle"@[4] == 't' && "setstyle"@[5] == 'y' && "setstyle"@[6] == 'l' && "setstyle"@[7] == 'e');
    reveal_strlit("setx");
    assert("setx"@.len() == 4 && "setx"@[0] == 's' && "setx"@[1] == 'e' && "setx"@[2] == 't' && "setx"@[3] == 'x');
    reveal_strlit("sety");
    assert("sety"@.len() == 4 && "sety"@[0] == 's' && "sety"@[1] == 'e' && "sety"@[2] == 't' && "sety"@[3] == 'y');
    reveal_strlit("shape");
    assert("shape"@.len() == 5 && "shape"@[0] == 's' && "shape"@[1] == 'h' && "shape"@[2] == 'a' && "shape"@[3] == 'p' && "shape"@[4] == 'e');
    reveal_strlit("show");
    assert("show"@.len() == 4 && "show"@[0] == 's' && "show"@[1] == 'h' && "show"@[2] == 'o' && "show"@[3] == 'w');
    reveal_strlit("sin");
    assert("sin"@.len() == 3 && "sin"@[0] == 's' && "sin"@[1] == 'i' && "sin"@[2] == 'n');
    reveal_strlit("size");
    assert("size"@.len() == 4 && "size"@[0] == 's' && "size"@[1] == 'i' && "size"@[2] == 'z' && "size"@[3] == 'e');
    reveal_strlit("sqrt");
    assert("sqrt"@.len() == 4 && "sqrt"@[0] == 's' && "sqrt"@[1] == 'q' && "sqrt"@[2] == 'r' && "sqrt"@[3] == 't');
    reveal_strlit("st");
    assert("st"@.len() == 2 && "st"@[0] == 's' && "st"@[1] == 't');
    reveal_strlit("sum");
    assert("sum"@.len() == 3 && "sum"@[0] == 's' && "sum"@[1] == 'u' && "sum"@[2] == 'm');
    reveal_strlit("talkto");
    assert("talkto"@.len() == 6 && "talkto"@[0] == 't' && "talkto"@[1] == 'a' && "talkto"@[2] == 'l' && "talkto"@[3] == 'k' && "talkto"@[4] == 't' && "talkto"@[5] == 'o');
    reveal_strlit("tan");
    assert("tan"@.len() == 3 && "tan"@[0] == 't' && "tan"@[1] == 'a' && "tan"@[2] == 'n');
    reveal_strlit("text");
    assert("text"@.len() == 4 && "text"@[0] == 't' && "text"@[1] == 'e' && "text"@[2] == 'x' && "text"@[3] == 't');
    reveal_strlit("tto");
    assert("tto"@.len() == 3 && "tto"@[0] == 't' && "tto"@[1] == 't' && "tto"@[2] == 'o');
}

/// How part 7 of the default dictionary holds the names that the law
/// on aliases speaks of.
proof fn lemma_alias_names_6()
    ensures
        default_commands_6().contains_key("back"@) == default_commands_5().contains_key("back"@),
        default_commands_5().contains_key("back"@) ==> default_commands_6()["back"@] == default_commands_5()["back"@],
        default_commands_6().contains_key("bf"@) && default_commands_6()["bf"@] == (SCommand { name: "butfirst"@, is_reserved: true, params: Params::Fixed(1) }),
        default_commands_6().contains_key("bk"@) && default_commands_6()["bk"@] == (SCommand { name: "back"@, is_reserved: true, params: Params::Fixed(1) }),
        default_commands_6().contains_key("bl"@) && default_commands_6()["bl"@] == (SCommand { name: "butlast"@, is_reserved: true, params: Params::Fixed(1) }),
        default_commands_6().contains_key("butfirst"@) == default_commands_5().contains_key("butfirst"@),
        default_commands_5().contains_key("butfirst"@) ==> default_commands_6()["butfirst"@] == default_commands_5()["butfirst"@],
        default_commands_6().contains_key("butlast"@) == default_commands_5().contains_key("butlast"@),
        default_commands_5().contains_key("butlast"@) ==> default_commands_6()["butlast"@] == default_commands_5()["butlast"@],
        default_commands_6().contains_key("cleartext"@) == default_commands_5().contains_key("cleartext"@),
        default_commands_5().contains_key("cleartext"@) ==> default_commands_6()["cleartext"@] == default_commands_5()["cleartext"@],
        default_commands_6().contains_key("ct"@) && default_commands_6()["ct"@] == (SCommand { name: "cleartext"@, is_reserved: true, params: Params::Empty }),
        default_commands_6().contains_key("fd"@) && default_commands_6()["fd"@] == (SCommand { name: "forward"@, is_reserved: true, params: Params::Fixed(1) }),
        default_commands_6().contains_key("forward"@) == default_commands_5().contains_key("forward"@),
        default_commands_5().contains_key("forward"@) ==> default_commands_6()["forward"@] == default_commands_5()["forward"@],
        default_commands_6().contains_key("left"@) == default_commands_5().contains_key("left"@),
        default_commands_5().contains_key("left"@) ==> default_commands_6()["left"@] == default_commands_5()["left"@],
        default_commands_6().contains_key("list"@) == default_commands_5().contains_key("list"@),
        default_commands_5().contains_key("list"@) ==> default_commands_6()["list"@] == default_commands_5()["list"@],
        default_commands_6().contains_key("lt"@) && default_commands_6()["lt"@] == (SCommand { name: "left"@, is_reserved: true, params: Params::Fixed(1) }),
        default_commands_6().contains_key("op"@) && default_commands_6()["op"@] == (SCommand { name: "output"@, is_reserved: true, params: Params::Fixed(1) }),
        default_commands_6().contains_key("output"@) == default_commands_5().contains_key("output"@),
        default_commands_5().contains_key("output"@) ==> default_commands_6()["output"@] == default_commands_5()["output"@],
        default_commands_6().contains_key("pr"@) == default_commands_5().contains_key("pr"@),
        default_commands_5().contains_key("pr"@) ==> default_commands_6()["pr"@] == default_commands_5()["pr"@],
        default_commands_6().contains_key("print"@) == default_commands_5().contains_key("print"@),
        default_commands_5().contains_key("print"@) ==> default_commands_6()["print"@] == default_commands_5()["print"@],
        default_commands_6().contains_key("right"@) == default_commands_5().contains_key("right"@),
        default_commands_5().contains_key("right"@) ==> default_commands_6()["right"@] == default_commands_5()["right"@],
        default_commands_6().contains_key("rt"@) == default_commands_5().contains_key("rt"@),
        default_commands_5().contains_key("rt"@) ==> default_commands_6()["rt"@] == default_commands_5()["rt"@],
        default_commands_6().contains_key("se"@) == default_commands_5().contains_key("se"@),
        default_commands_5().contains_key("se"@) ==> default_commands_6()["se"@] == default_commands_5()["se"@],
        default_commands_6().contains_key("sentence"@) == default_commands_5().contains_key("sentence"@),
        default_commands_5().contains_key("sentence"@) ==> default_commands_6()["sentence"@] == default_commands_5()["sentence"@],
        default_commands_6().contains_key("setc"@) == default_commands_5().contains_key("setc"@),
        default_commands_5().contains_key("setc"@) ==> default_commands_6()["setc"@] == default_commands_5()["setc"@],
        default_commands_6().contains_key("setcolor"@) == default_commands_5().contains_key("setcolor"@),
        default_commands_5().contains_key("setcolor"@) ==> default_commands_6()["setcolor"@] == default_commands_5()["setcolor"@],
        default_commands_6().contains_key("seth"@) == default_commands_5().contains_key("seth"@),
        default_commands_5().contains_key("seth"@) ==> default_commands_6()["seth"@] == default_commands_5()["seth"@],
        default_commands_6().contains_key("setheading"@) == default_commands_5().contains_key("setheading"@),
        default_commands_5().contains_key("setheading"@) ==> default_commands_6()["setheading"@] == default_commands_5()["setheading"@],
        default_commands_6().contains_key("setsh"@) == default_commands_5().contains_key("setsh"@),
        default_commands_5().contains_key("setsh"@) ==> default_commands_6()["setsh"@] == default_commands_5()["setsh"@],
        default_commands_6().contains_key("setshape"@) == default_commands_5().contains_key("setshape"@),
        default_commands_5().contains_key("setshape"@) ==> default_commands_6()["setshape"@] == default_commands_5()["setshape"@],
        default_commands_6().contains_key("talkto"@) == default_commands_5().contains_key("talkto"@),
        default_commands_5().contains_key("talkto"@) ==> default_commands_6()["talkto"@] == default_commands_5()["talkto"@],
        default_commands_6().contains_key("tto"@) == default_commands_5().contains_key("tto"@),
        default_commands_5().contains_key("tto"@) ==> default_commands_6()["tto"@] == default_commands_5()["tto"@],
{
    reveal_strlit("back");
    assert("back"@.len() == 4 && "back"@[0] == 'b' && "back"@[1] == 'a' && "back"@[2] == 'c' && "back"@[3] == 'k');
    reveal_strlit("bf");
    assert("bf"@.len() == 2 && "bf"@[0] == 'b' && "bf"@[1] == 'f');
    reveal_strlit("bk");
    assert("bk"@.len() == 2 && "bk"@[0] == 'b' && "bk"@[1] == 'k');
    reveal_strlit("bl");
    assert("bl"@.len() == 2 && "bl"@[0] == 'b' && "bl"@[1] == 'l');
    reveal_strlit("butfirst");
    assert("butfirst"@.len() == 8 && "butfirst"@[0] == 'b' && "butfirst"@[1] == 'u' && "butfirst"@[2] == 't' && "butfirst"@[3] == 'f' && "butfirst"@[4] == 'i' && "butfirst"@[5] == 'r' && "butfirst"@[6] == 's' && "butfirst"@[7] == 't');
    reveal_strlit("butlast");
    assert("butlast"@.len() == 7 && "butlast"@[0] == 'b' && "butlast"@[1] == 'u' && "butlast"@[2] == 't' && "butlast"@[3] == 'l' && "butlast"@[4] == 'a' && "butlast"@[5] == 's' && "butlast"@[6] == 't');
    reveal_strlit("cleartext");
    assert("cleartext"@.len() == 9 && "cleartext"@[0] == 'c' && "cleartext"@[1] == 'l' && "cleartext"@[2] == 'e' && "cleartext"@[3] == 'a' && "cleartext"@[4] == 'r' && "cleartext"@[5] == 't' && "cleartext"@[6] == 'e' && "cleartext"@[7] == 'x' && "cleartext"@[8] == 't');
    reveal_strlit("ct");
    assert("ct"@.len() == 2 && "ct"@[0] == 'c' && "ct"@[1] == 't');
    reveal_strlit("fd");
    assert("fd"@.len() == 2 && "fd"@[0] == 'f' && "fd"@[1] == 'd');
    reveal_strlit("forward");
    assert("forward"@.len() == 7 && "forward"@[0] == 'f' && "forward"@[1] == 'o' && "forward"@[2] == 'r' && "forward"@[3] == 'w' && "forward"@[4] == 'a' && "forward"@[5] == 'r' && "forward"@[6] == 'd');
    reveal_strlit("left");
    assert("left"@.len() == 4 && "left"@[0] == 'l' && "left"@[1] == 'e' && "left"@[2] == 'f' && "left"@[3] == 't');
    reveal_strlit("list");
    assert("list"@.len() == 4 && "list"@[0] == 'l' && "list"@[1] == 'i' && "list"@[2] == 's' && "list"@[3] == 't');
    reveal_strlit("lt");
    assert("lt"@.len() == 2 && "lt"@[0] == 'l' && "lt"@[1] == 't');
    reveal_strlit("op");
    assert("op"@.len() == 2 && "op"@[0] == 'o' && "op"@[1] == 'p');
    reveal_strlit("output");
    assert("output"@.len() == 6 && "output"@[0] == 'o' && "output"@[1] == 'u' && "output"@[2] == 't' && "output"@[3] == 'p' && "output"@[4] == 'u' && "output"@[5] == 't');
    reveal_strlit("pr");
    assert("pr"@.len() == 2 && "pr"@[0] == 'p' && "pr"@[1] == 'r');
    reveal_strlit("print");
    assert("print"@.len() == 5 && "print"@[0] == 'p' && "print"@[1] == 'r' && "print"@[2] == 'i' && "print"@[3] == 'n' && "print"@[4] == 't');
    reveal_strlit("right");
    assert("right"@.len() == 5 && "right"@[0] == 'r' && "right"@[1] == 'i' && "right"@[2] == 'g' && "right"@[3] == 'h' && "right"@[4] == 't');
    reveal_strlit("rt");
    assert("rt"@.len() == 2 && "rt"@[0] == 'r' && "rt"@[1] == 't');
    reveal_strlit("se");
    assert("se"@.len() == 2 && "se"@[0] == 's' && "se"@[1] == 'e');
    reveal_strlit("sentence");
    assert("sentence"@.len() == 8 && "sentence"@[0] == 's' && "sentence"@[1] == 'e' && "sentence"@[2] == 'n' && "sentence"@[3] == 't' && "sentence"@[4] == 'e' && "sentence"@[5] == 'n' && "sentence"@[6] == 'c' && "sentence"@[7] == 'e');
    reveal_strlit("setc");
    assert("setc"@.len() == 4 && "setc"@[0] == 's' && "setc"@[1] == 'e' && "setc"@[2] == 't' && "setc"@[3] == 'c');
    reveal_strlit("setcolor");
    assert("setcolor"@.len() == 8 && "setcolor"@[0] == 's' && "setcolor"@[1] == 'e' && "setcolor"@[2] == 't' && "setcolor"@[3] == 'c' && "setcolor"@[4] == 'o' && "setcolor"@[5] == 'l' && "setcolor"@[6] == 'o' && "setcolor"@[7] == 'r');
    reveal_strlit("seth");
    assert("seth"@.len() == 4 && "seth"@[0] == 's' && "seth"@[1] == 'e' && "seth"@[2] == 't' && "seth"@[3] == 'h');
    reveal_strlit("setheading");
    assert("setheading"@.len() == 10 && "setheading"@[0] == 's' && "setheading"@[1] == 'e' && "setheading"@[2] == 't' && "setheading"@[3] == 'h' && "setheading"@[4] == 'e' && "setheading"@[5] == 'a' && "setheading"@[6] == 'd' && "setheading"@[7] == 'i' && "setheading"@[8] == 'n' && "setheading"@[9] == 'g');
    reveal_strlit("setsh");
    assert("setsh"@.len() == 5 && "setsh"@[0] == 's' && "setsh"@[1] == 'e' && "setsh"@[2] == 't' && "setsh"@[3] == 's' && "setsh"@[4] == 'h');
    reveal_strlit("setshape");
    assert("setshape"@.len() == 8 && "setshape"@[0] == 's' && "setshape"@[1] == 'e' && "setshape"@[2] == 't' && "setshape"@[3] == 's' && "setshape"@[4] == 'h' && "setshape"@[5] == 'a' && "setshape"@[6] == 'p' && "setshape"@[7] == 'e');
    reveal_strlit("talkto");
    assert("talkto"@.len() == 6 && "talkto"@[0] == 't' && "talkto"@[1] == 'a' && "talkto"@[2] == 'l' && "talkto"@[3] == 'k' && "talkto"@[4] == 't' && "talkto"@[5] == 'o');
    reveal_strlit("textlist");
    assert("textlist"@.len() == 8 && "textlist"@[0] == 't' && "textlist"@[1] == 'e' && "textlist"@[2] == 'x' && "textlist"@[3] == 't' && "textlist"@[4] == 'l' && "textlist"@[5] == 'i' && "textlist"@[6] == 's' && "textlist"@[7] == 't');
    reveal_strlit("timer");
    assert("timer"@.len() == 5 && "timer"@[0] == 't' && "timer"@[1] == 'i' && "timer"@[2] == 'm' && "timer"@[3] == 'e' && "timer"@[4] == 'r');
    reveal_strlit("to");
    assert("to"@.len() == 2 && "to"@[0] == 't' && "to"@[1] == 'o');
    reveal_strlit("touching?");
    assert("touching?"@.len() == 9 && "touching?"@[0] == 't' && "touching?"@[1] == 'o' && "touching?"@[2] == 'u' && "touching?"@[3] == 'c' && "touching?"@[4] == 'h' && "touching?"@[5] == 'i' && "touching?"@[6] == 'n' && "touching?"@[7] == 'g' && "touching?"@[8] == '?');
    reveal_strlit("towards");
    assert("towards"@.len() == 7 && "towards"@[0] == 't' && "towards"@[1] == 'o' && "towards"@[2] == 'w' && "towards"@[3] == 'a' && "towards"@[4] == 'r' && "towards"@[5] == 'd' && "towards"@[6] == 's');
    reveal_strlit("tto");
    assert("tto"@.len() == 3 && "tto"@[0] == 't' && "tto"@[1] == 't' && "tto"@[2] == 'o');
    reveal_strlit("turtlesown");
    assert("turtlesown"@.len() == 10 && "turtlesown"@[0] == 't' && "turtlesown"@[1] == 'u' && "turtlesown"@[2] == 'r' && "turtlesown"@[3] == 't' && "turtlesown"@[4] == 'l' && "turtlesown"@[5] == 'e' && "turtlesown"@[6] == 's' && "turtlesown"@[7] == 'o' && "turtlesown"@[8] == 'w' && "turtlesown"@[9] == 'n');
    reveal_strlit("unfreeze");
    assert("unfreeze"@.len() == 8 && "unfreeze"@[0] == 'u' && "unfreeze"@[1] == 'n' && "unfreeze"@[2] == 'f' && "unfreeze"@[3] == 'r' && "unfreeze"@[4] == 'e' && "unfreeze"@[5] == 'e' && "unfreeze"@[6] == 'z' && "unfreeze"@[7] == 'e');
    reveal_strlit("visible?");
    assert("visible?"@.len() == 8 && "visible?"@[0] == 'v' && "visible?"@[1] == 'i' && "visible?"@[2] == 's' && "visible?"@[3] == 'i' && "visible?"@[4] == 'b' && "visible?"@[5] == 'l' && "visible?"@[6] == 'e' && "visible?"@[7] == '?');
    reveal_strlit("wait");
    assert("wait"@.len() == 4 && "wait"@[0] == 'w' && "wait"@[1] == 'a' && "wait"@[2] == 'i' && "wait"@[3] == 't');
    reveal_strlit("who");
    assert("who"@.len() == 3 && "who"@[0] == 'w' && "who"@[1] == 'h' && "who"@[2] == 'o');
    reveal_strlit("word");
    assert("word"@.len() == 4 && "word"@[0] == 'w' && "word"@[1] == 'o' && "word"@[2] == 'r' && "word"@[3] == 'd');
    reveal_strlit("xcor");
    assert("xcor"@.len() == 4 && "xcor"@[0] == 'x' && "xcor"@[1] == 'c' && "xcor"@[2] == 'o' && "xcor"@[3] == 'r');
    reveal_strlit("ycor");
    assert("ycor"@.len() == 4 && "ycor"@[0] == 'y' && "ycor"@[1] == 'c' && "ycor"@[2] == 'o' && "ycor"@[3] == 'r');
}

/// How part 8 of the default dictionary holds the names that the law
/// on aliases speaks of.
proof fn lemma_alias_names_7()
    ensures
        default_commands_7().contains_key("back"@) == default_commands_6().contains_key("back"@),
        default_commands_6().contains_key("back"@) ==> default_commands_7()["back"@] == default_commands_6()["back"@],
        default_commands_7().contains_key("bf"@) == default_commands_6().contains_key("bf"@),
        default_commands_6().contains_key("bf"@) ==> default_commands_7()["bf"@] == default_commands_6()["bf"@],
        default_commands_7().contains_key("bk"@) == default_commands_6().contains_key("bk"@),
        default_commands_6().contains_key("bk"@) ==> default_commands_7()["bk"@] == default_commands_6()["bk"@],
        default_commands_7().contains_key("bl"@) == default_commands_6().contains_key("bl"@),
        default_commands_6().contains_key("bl"@) ==> default_commands_7()["bl"@] == default_commands_6()["bl"@],
        default_commands_7().contains_key("butfirst"@) == default_commands_6().contains_key("butfirst"@),
        default_commands_6().contains_key("butfirst"@) ==> default_commands_7()["butfirst"@] == default_commands_6()["butfirst"@],
        default_commands_7().contains_key("butlast"@) == default_commands_6().contains_key("butlast"@),
        default_commands_6().contains_key("butlast"@) ==> default_commands_7()["butlast"@] == default_commands_6()["butlast"@],
        default_commands_7().contains_key("cleartext"@) == default_commands_6().contains_key("cleartext"@),
        default_commands_6().contains_key("cleartext"@) ==> default_commands_7()["cleartext"@] == default_commands_6()["cleartext"@],
        default_commands_7().contains_key("ct"@) == default_commands_6().contains_key("ct"@),
        default_commands_6().contains_key("ct"@) ==> default_commands_7()["ct"@] == default_commands_6()["ct"@],
        default_commands_7().contains_key("fd"@) == default_commands_6().contains_key("fd"@),
        default_commands_6().contains_key("fd"@) ==> default_commands_7()["fd"@] == default_commands_6()["fd"@],
        default_commands_7().contains_key("forward"@) == default_commands_6().contains_key("forward"@),
        default_commands_6().contains_key("forward"@) ==> default_commands_7()["forward"@] == default_commands_6()["forward"@],
        default_commands_7().contains_key("left"@) == default_commands_6().contains_key("left"@),
        default_commands_6().contains_key("left"@) ==> default_commands_7()["left"@] == default_commands_6()["left"@],
        default_commands_7().contains_key("list"@) == default_commands_6().contains_key("list"@),
        default_commands_6().contains_key("list"@) ==> default_commands_7()["list"@] == default_commands_6()["list"@],
        default_commands_7().contains_key("lt"@) == default_commands_6().contains_key("lt"@),
        default_commands_6().contains_key("lt"@) ==> default_commands_7()["lt"@] == default_commands_6()["lt"@],
        default_commands_7().contains_key("op"@) == default_commands_6().contains_key("op"@),
        default_commands_6().contains_key("op"@) ==> default_commands_7()["op"@] == default_commands_6()["op"@],
        default_commands_7().contains_key("output"@) == default_commands_6().contains_key("output"@),
        default_commands_6().contains_key("output"@) ==> default_commands_7()["output"@] == default_commands_6()["output"@],
        default_commands_7().contains_key("pr"@) && default_commands_7()["pr"@] == (SCommand { name: "print"@, is_reserved: true, params: Params::Fixed(1) }),
        default_commands_7().contains_key("print"@) == default_commands_6().contains_key("print"@),
        default_commands_6().contains_key("print"@) ==> default_commands_7()["print"@] == default_commands_6()["print"@],
        default_commands_7().contains_key("right"@) == default_commands_6().contains_key("right"@),
        default_commands_6().contains_key("right"@) ==> default_commands_7()["right"@] == default_commands_6()["right"@],
        default_commands_7().contains_key("rt"@) && default_commands_7()["rt"@] == (SCommand { name: "right"@, is_reserved: true, params: Params::Fixed(1) }),
        default_commands_7().contains_key("se"@) && default_commands_7()["se"@] == (SCommand { name: "list"@, is_reserved: true, params: Params::Variadic(2) }),
        default_commands_7().contains_key("sentence"@) && default_commands_7()["sentence"@] == (SCommand { name: "list"@, is_reserved: true, params: Params::Variadic(2) }),
        default_commands_7().contains_key("setc"@) && default_commands_7()["setc"@] == (SCommand { name: "setcolor"@, is_reserved: true, params: Params::Fixed(1) }),
        default_commands_7().contains_key("setcolor"@) == default_commands_6().contains_key("setcolor"@),
        default_commands_6().contains_key("setcolor"@) ==> default_commands_7()["setcolor"@] == default_commands_6()["setcolor"@],
        default_commands_7().contains_key("seth"@) && default_commands_7()["seth"@] == (SCommand { name: "setheading"@, is_reserved: true, params: Params::Fixed(1) }),
        default_commands_7().contains_key("setheading"@) == default_commands_6().contains_key("setheading"@),
        default_commands_6().contains_key("setheading"@) ==> default_commands_7()["setheading"@] == default_commands_6()["setheading"@],
        default_commands_7().contains_key("setsh"@) && default_commands_7()["setsh"@] == (SCommand { name: "setshape"@, is_reserved: true, params: Params::Fixed(1) }),
        default_commands_7().contains_key("setshape"@) == default_commands_6().contains_key("setshape"@),
        default_commands_6().contains_key("setshape"@) ==> default_commands_7()["setshape"@] == default_commands_6()["setshape"@],
        default_commands_7().contains_key("talkto"@) == default_commands_6().contains_key("talkto"@),
        default_commands_6().contains_key("talkto"@) ==> default_commands_7()["talkto"@] == default_commands_6()["talkto"@],
        default_commands_7().contains_key("tto"@) && default_commands_7()["tto"@] == (SCommand { name: "talkto"@, is_reserved: true, params: Params::Fixed(1) }),
{
    reveal_strlit("__paren");
    assert("__paren"@.len() == 7 && "__paren"@[0] == '_' && "__paren"@[1] == '_' && "__paren"@[2] == 'p' && "__paren"@[3] == 'a' && "__paren"@[4] == 'r' && "__paren"@[5] == 'e' && "__paren"@[6] == 'n');
    reveal_strlit("back");
    assert("back"@.len() == 4 && "back"@[0] == 'b' && "back"@[1] == 'a' && "back"@[2] == 'c' && "back"@[3] == 'k');
    reveal_strlit("bf");
    assert("bf"@.len() == 2 && "bf"@[0] == 'b' && "bf"@[1] == 'f');
    reveal_strlit("bk");
    assert("bk"@.len() == 2 && "bk"@[0] == 'b' && "bk"@[1] == 'k');
    reveal_strlit("bl");
    assert("bl"@.len() == 2 && "bl"@[0] == 'b' && "bl"@[1] == 'l');
    reveal_strlit("butfirst");
    assert("butfirst"@.len() == 8 && "butfirst"@[0] == 'b' && "butfirst"@[1] == 'u' && "butfirst"@[2] == 't' && "butfirst"@[3] == 'f' && "butfirst"@[4] == 'i' && "butfirst"@[5] == 'r' && "butfirst"@[6] == 's' && "butfirst"@[7] == 't');
    reveal_strlit("butlast");
    assert("butlast"@.len() == 7 && "butlast"@[0] == 'b' && "butlast"@[1] == 'u' && "butlast"@[2] == 't' && "butlast"@[3] == 'l' && "butlast"@[4] == 'a' && "butlast"@[5] == 's' && "butlast"@[6] == 't');
    reveal_strlit("cleartext");
    assert("cleartext"@.len() == 9 && "cleartext"@[0] == 'c' && "cleartext"@[1] == 'l' && "cleartext"@[2] == 'e' && "cleartext"@[3] == 'a' && "cleartext"@[4] == 'r' && "cleartext"@[5] == 't' && "cleartext"@[6] == 'e' && "cleartext"@[7] == 'x' && "cleartext"@[8] == 't');
    reveal_strlit("ct");
    assert("ct"@.len() == 2 && "ct"@[0] == 'c' && "ct"@[1] == 't');
    reveal_strlit("fd");
    assert("fd"@.len() == 2 && "fd"@[0] == 'f' && "fd"@[1] == 'd');
    reveal_strlit("forward");
    assert("forward"@.len() == 7 && "forward"@[0] == 'f' && "forward"@[1] == 'o' && "forward"@[2] == 'r' && "forward"@[3] == 'w' && "forward"@[4] == 'a' && "forward"@[5] == 'r' && "forward"@[6] == 'd');
    reveal_strlit("left");
    assert("left"@.len() == 4 && "left"@[0] == 'l' && "left"@[1] == 'e' && "left"@[2] == 'f' && "left"@[3] == 't');
    reveal_strlit("list");
    assert("list"@.len() == 4 && "list"@[0] == 'l' && "list"@[1] == 'i' && "list"@[2] == 's' && "list"@[3] == 't');
    reveal_strlit("lt");
    assert("lt"@.len() == 2 && "lt"@[0] == 'l' && "lt"@[1] == 't');
    reveal_strlit("op");
    assert("op"@.len() == 2 && "op"@[0] == 'o' && "op"@[1] == 'p');
    reveal_strlit("output");
    assert("output"@.len() == 6 && "output"@[0] == 'o' && "output"@[1] == 'u' && "output"@[2] == 't' && "output"@[3] == 'p' && "output"@[4] == 'u' && "output"@[5] == 't');
    reveal_strlit("pr");
    assert("pr"@.len() == 2 && "pr"@[0] == 'p' && "pr"@[1] == 'r');
    reveal_strlit("print");
    assert("print"@.len() == 5 && "print"@[0] == 'p' && "print"@[1] == 'r' && "print"@[2] == 'i' && "print"@[3] == 'n' && "print"@[4] == 't');
    reveal_strlit("right");
    assert("right"@.len() == 5 && "right"@[0] == 'r' && "right"@[1] == 'i' && "right"@[2] == 'g' && "right"@[3] == 'h' && "right"@[4] == 't');
    reveal_strlit("rt");
    assert("rt"@.len() == 2 && "rt"@[0] == 'r' && "rt"@[1] == 't');
    reveal_strlit("se");
    assert("se"@.len() == 2 && "se"@[0] == 's' && "se"@[1] == 'e');
    reveal_strlit("sentence");
    assert("sentence"@.len() == 8 && "sentence"@[0] == 's' && "sentence"@[1] == 'e' && "sentence"@[2] == 'n' && "sentence"@[3] == 't' && "sentence"@[4] == 'e' && "sentence"@[5] == 'n' && "sentence"@[6] == 'c' && "sentence"@[7] == 'e');
    reveal_strlit("setc");
    assert("setc"@.len() == 4 && "setc"@[0] == 's' && "setc"@[1] == 'e' && "setc"@[2] == 't' && "setc"@[3] == 'c');
    reveal_strlit("setcolor");
    assert("setcolor"@.len() == 8 && "setcolor"@[0] == 's' && "setcolor"@[1] == 'e' && "setcolor"@[2] == 't' && "setcolor"@[3] == 'c' && "setcolor"@[4] == 'o' && "setcolor"@[5] == 'l' && "setcolor"@[6] == 'o' && "setcolor"@[7] == 'r');
    reveal_strlit("seth");
    assert("seth"@.len() == 4 && "seth"@[0] == 's' && "seth"@[1] == 'e' && "seth"@[2] == 't' && "seth"@[3] == 'h');
    reveal_strlit("setheading");
    assert("setheading"@.len() == 10 && "setheading"@[0] == 's' && "setheading"@[1] == 'e' && "setheading"@[2] == 't' && "setheading"@[3] == 'h' && "setheading"@[4] == 'e' && "setheading"@[5] == 'a' && "setheading"@[6] == 'd' && "setheading"@[7] == 'i' && "setheading"@[8] == 'n' && "setheading"@[9] == 'g');
    reveal_strlit("setsh");
    assert("setsh"@.len() == 5 && "setsh"@[0] == 's' && "setsh"@[1] == 'e' && "setsh"@[2] == 't' && "setsh"@[3] == 's' && "setsh"@[4] == 'h');
    reveal_strlit("setshape");
    assert("setshape"@.len() == 8 && "setshape"@[0] == 's' && "setshape"@[1] == 'e' && "setshape"@[2] == 't' && "setshape"@[3] == 's' && "setshape"@[4] == 'h' && "setshape"@[5] == 'a' && "setshape"@[6] == 'p' && "setshape"@[7] == 'e');
    reveal_strlit("talkto");
    assert("talkto"@.len() == 6 && "talkto"@[0] == 't' && "talkto"@[1] == 'a' && "talkto"@[2] == 'l' && "talkto"@[3] == 'k' && "talkto"@[4] == 't' && "talkto"@[5] == 'o');
    reveal_strlit("tto");
    assert("tto"@.len() == 3 && "tto"@[0] == 't' && "tto"@[1] == 't' && "tto"@[2] == 'o');
}

/// In the default dictionary each alias stands for the same command as its
/// long name: `bf` for `butfirst`, `bk` for `back`, `bl` for `butlast`, `ct`
/// for `cleartext`, `fd` for `forward`, `lt` for `left`, `op` for `output`,
/// `pr` for `print`, `rt` for `right`, `se` and `sentence` for `list`,
/// `setc` for `setcolor`, `seth` for `setheading`, `setsh` for `setshape`
/// and `tto` for `talkto`; and each long name is a command of its own name.
pub proof fn law_aliases_name_their_commands()
    ensures
        default_commands().contains_key("bf"@) && default_commands()["bf"@] == default_commands()["butfirst"@],
        default_commands().contains_key("bk"@) && default_commands()["bk"@] == default_commands()["back"@],
        default_commands().contains_key("bl"@) && default_commands()["bl"@] == default_commands()["butlast"@],
        default_commands().contains_key("ct"@) && default_commands()["ct"@] == default_commands()["cleartext"@],
        default_commands().contains_key("fd"@) && default_commands()["fd"@] == default_commands()["forward"@],
        default_commands().contains_key("lt"@) && default_commands()["lt"@] == default_commands()["left"@],
        default_commands().contains_key("op"@) && default_commands()["op"@] == default_commands()["output"@],
        default_commands().contains_key("pr"@) && default_commands()["pr"@] == default_commands()["print"@],
        default_commands().contains_key("rt"@) && default_commands()["rt"@] == default_commands()["right"@],
        default_commands().contains_key("se"@) && default_commands()["se"@] == default_commands()["list"@],
        default_commands().contains_key("sentence"@) && default_commands()["sentence"@] == default_commands()["list"@],
        default_commands().contains_key("setc"@) && default_commands()["setc"@] == default_commands()["setcolor"@],
        default_commands().contains_key("seth"@) && default_commands()["seth"@] == default_commands()["setheading"@],
        default_commands().contains_key("setsh"@) && default_commands()["setsh"@] == default_commands()["setshape"@],
        default_commands().contains_key("tto"@) && default_commands()["tto"@] == default_commands()["talkto"@],
        default_commands().contains_key("back"@) && default_commands()["back"@].name == "back"@,
        default_commands().contains_key("butfirst"@) && default_commands()["butfirst"@].name == "butfirst"@,
        default_commands().contains_key("butlast"@) && default_commands()["butlast"@].name == "butlast"@,
        default_commands().contains_key("cleartext"@) && default_commands()["cleartext"@].name == "cleartext"@,
        default_commands().contains_key("forward"@) && default_commands()["forward"@].name == "forward"@,
        default_commands().contains_key("left"@) && default_commands()["left"@].name == "left"@,
        default_commands().contains_key("list"@) && default_commands()["list"@].name == "list"@,
        default_commands().contains_key("output"@) && default_commands()["output"@].name == "output"@,
        default_commands().contains_key("print"@) && default_commands()["print"@].name == "print"@,
        default_commands().contains_key("right"@) && default_commands()["right"@].name == "right"@,
        default_commands().contains_key("setcolor"@) && default_commands()["setcolor"@].name == "setcolor"@,
        default_commands().contains_key("setheading"@) && default_commands()["setheading"@].name == "setheading"@,
        default_commands().contains_key("setshape"@) && default_commands()["setshape"@].name == "setshape"@,
        default_commands().contains_key("talkto"@) && default_commands()["talkto"@].name == "talkto"@,
{
    lemma_alias_names_0();
    lemma_alias_names_1();
    lemma_alias_names_2();
    lemma_alias_names_3();
    lemma_alias_names_4();
    lemma_alias_names_5();
    lemma_alias_names_6();
    lemma_alias_names_7();
}

} // verus!
