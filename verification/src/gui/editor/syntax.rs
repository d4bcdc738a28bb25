//! The words the code editor colours: definition, control-flow and other
//! commands, and how many words after a command name a variable or an
//! object.
use vstd::prelude::*;

verus! {

/// Whether `word` is the text `lit`.
fn is_word(word: &String, lit: &str) -> (b: bool)
    ensures
        b == (word@ == lit@),
{
    *word == String::from_str(lit)
}

/// The commands that define names: variables, procedures and objects.
pub open spec fn definition_commands(w: Seq<char>) -> bool {
    w == "clearname"@
        || w == "clearnames"@
        || w == "end"@
        || w == "let"@
        || w == "local"@
        || w == "make"@
        || w == "newtext"@
        || w == "newturtle"@
        || w == "remove"@
        || w == "to"@
        || w == "turtlesown"@
}

/// Whether `word` is one of the words of `definition_commands`.
pub fn is_definition_command(word: &String) -> (b: bool)
    ensures
        b == definition_commands(word@),
{
    is_word(word, "clearname")
        || is_word(word, "clearnames")
        || is_word(word, "end")
        || is_word(word, "let")
        || is_word(word, "local")
        || is_word(word, "make")
        || is_word(word, "newtext")
        || is_word(word, "newturtle")
        || is_word(word, "remove")
        || is_word(word, "to")
        || is_word(word, "turtlesown")
}

/// The commands that steer the flow of a program.
pub open spec fn control_flow_commands(w: Seq<char>) -> bool {
    w == "again"@
        || w == "and"@
        || w == "carefully"@
        || w == "dolist"@
        || w == "dotimes"@
        || w == "forever"@
        || w == "if"@
        || w == "ifelse"@
        || w == "not"@
        || w == "op"@
        || w == "or"@
        || w == "output"@
        || w == "repeat"@
        || w == "run"@
        || w == "wait"@
}

/// Whether `word` is one of the words of `control_flow_commands`.
pub fn is_control_flow_command(word: &String) -> (b: bool)
    ensures
        b == control_flow_commands(word@),
{
    is_word(word, "again")
        || is_word(word, "and")
        || is_word(word, "carefully")
        || is_word(word, "dolist")
        || is_word(word, "dotimes")
        || is_word(word, "forever")
        || is_word(word, "if")
        || is_word(word, "ifelse")
        || is_word(word, "not")
        || is_word(word, "op")
        || is_word(word, "or")
        || is_word(word, "output")
        || is_word(word, "repeat")
        || is_word(word, "run")
        || is_word(word, "wait")
}

/// The other commands the editor knows.
pub open spec fn other_commands(w: Seq<char>) -> bool {
    w == "abs"@
        || w == "again"@
        || w == "announce"@
        || w == "arctan"@
        || w == "ascii"@
        || w == "ask"@
        || w == "back"@
        || w == "bf"@
        || w == "bg"@
        || w == "bk"@
        || w == "bl"@
        || w == "butfirst"@
        || w == "butlast"@
        || w == "cc"@
        || w == "cg"@
        || w == "char"@
        || w == "chdir"@
        || w == "clean"@
        || w == "cleartext"@
        || w == "clicked?"@
        || w == "color"@
        || w == "colorunder"@
        || w == "cos"@
        || w == "count"@
        || w == "ct"@
        || w == "currentdir"@
        || w == "difference"@
        || w == "directories"@
        || w == "distance"@
        || w == "empty?"@
        || w == "equal?"@
        || w == "errormessage"@
        || w == "exp"@
        || w == "fd"@
        || w == "files"@
        || w == "first"@
        || w == "fontsize"@
        || w == "forward"@
        || w == "fput"@
        || w == "freeze"@
        || w == "greater?"@
        || w == "heading"@
        || w == "home"@
        || w == "ht"@
        || w == "int"@
        || w == "item"@
        || w == "key?"@
        || w == "keydown?"@
        || w == "last"@
        || w == "left"@
        || w == "less?"@
        || w == "list"@
        || w == "list?"@
        || w == "ln"@
        || w == "loadpict"@
        || w == "loadshape"@
        || w == "loadtext"@
        || w == "log"@
        || w == "lput"@
        || w == "lt"@
        || w == "member?"@
        || w == "minus"@
        || w == "number?"@
        || w == "on?"@
        || w == "pd"@
        || w == "pensize"@
        || w == "pi"@
        || w == "pick"@
        || w == "pictlist"@
        || w == "placepict"@
        || w == "pos"@
        || w == "power"@
        || w == "pr"@
        || w == "print"@
        || w == "procedures"@
        || w == "product"@
        || w == "projectsize"@
        || w == "pu"@
        || w == "quotient"@
        || w == "random"@
        || w == "readchar"@
        || w == "readclick"@
        || w == "remainder"@
        || w == "remove"@
        || w == "resett"@
        || w == "right"@
        || w == "round"@
        || w == "rt"@
        || w == "run"@
        || w == "se"@
        || w == "sentence"@
        || w == "setbg"@
        || w == "setc"@
        || w == "setcolor"@
        || w == "setfontsize"@
        || w == "seth"@
        || w == "setheading"@
        || w == "setpensize"@
        || w == "setpos"@
        || w == "setprojectsize"@
        || w == "setsh"@
        || w == "setshape"@
        || w == "setsize"@
        || w == "setstyle"@
        || w == "setx"@
        || w == "sety"@
        || w == "shape"@
        || w == "show"@
        || w == "sin"@
        || w == "size"@
        || w == "sqrt"@
        || w == "st"@
        || w == "sum"@
        || w == "talkto"@
        || w == "tan"@
        || w == "text"@
        || w == "textlist"@
        || w == "timer"@
        || w == "touching?"@
        || w == "towards"@
        || w == "tto"@
        || w == "unfreeze"@
        || w == "visible?"@
        || w == "who"@
        || w == "word"@
        || w == "word?"@
        || w == "xcor"@
        || w == "ycor"@
}

/// Whether `word` is one of the words of `other_commands`.
pub fn is_other_command(word: &String) -> (b: bool)
    ensures
        b == other_commands(word@),
{
    is_word(word, "abs")
        || is_word(word, "again")
        || is_word(word, "announce")
        || is_word(word, "arctan")
        || is_word(word, "ascii")
        || is_word(word, "ask")
        || is_word(word, "back")
        || is_word(word, "bf")
        || is_word(word, "bg")
        || is_word(word, "bk")
        || is_word(word, "bl")
        || is_word(word, "butfirst")
        || is_word(word, "butlast")
        || is_word(word, "cc")
        || is_word(word, "cg")
        || is_word(word, "char")
        || is_word(word, "chdir")
        || is_word(word, "clean")
        || is_word(word, "cleartext")
        || is_word(word, "clicked?")
        || is_word(word, "color")
        || is_word(word, "colorunder")
        || is_word(word, "cos")
        || is_word(word, "count")
        || is_word(word, "ct")
        || is_word(word, "currentdir")
        || is_word(word, "difference")
        || is_word(word, "directories")
        || is_word(word, "distance")
        || is_word(word, "empty?")
        || is_word(word, "equal?")
        || is_word(word, "errormessage")
        || is_word(word, "exp")
        || is_word(word, "fd")
        || is_word(word, "files")
        || is_word(word, "first")
        || is_word(word, "fontsize")
        || is_word(word, "forward")
        || is_word(word, "fput")
        || is_word(word, "freeze")
        || is_word(word, "greater?")
        || is_word(word, "heading")
        || is_word(word, "home")
        || is_word(word, "ht")
        || is_word(word, "int")
        || is_word(word, "item")
        || is_word(word, "key?")
        || is_word(word, "keydown?")
        || is_word(word, "last")
        || is_word(word, "left")
        || is_word(word, "less?")
        || is_word(word, "list")
        || is_word(word, "list?")
        || is_word(word, "ln")
        || is_word(word, "loadpict")
        || is_word(word, "loadshape")
        || is_word(word, "loadtext")
        || is_word(word, "log")
        || is_word(word, "lput")
        || is_word(word, "lt")
        || is_word(word, "member?")
        || is_word(word, "minus")
        || is_word(word, "number?")
        || is_word(word, "on?")
        || is_word(word, "pd")
        || is_word(word, "pensize")
        || is_word(word, "pi")
        || is_word(word, "pick")
        || is_word(word, "pictlist")
        || is_word(word, "placepict")
        || is_word(word, "pos")
        || is_word(word, "power")
        || is_word(word, "pr")
        || is_word(word, "print")
        || is_word(word, "procedures")
        || is_word(word, "product")
        || is_word(word, "projectsize")
        || is_word(word, "pu")
        || is_word(word, "quotient")
        || is_word(word, "random")
        || is_word(word, "readchar")
        || is_word(word, "readclick")
        || is_word(word, "remainder")
        || is_word(word, "remove")
        || is_word(word, "resett")
        || is_word(word, "right")
        || is_word(word, "round")
        || is_word(word, "rt")
        || is_word(word, "run")
        || is_word(word, "se")
        || is_word(word, "sentence")
        || is_word(word, "setbg")
        || is_word(word, "setc")
        || is_word(word, "setcolor")
        || is_word(word, "setfontsize")
        || is_word(word, "seth")
        || is_word(word, "setheading")
        || is_word(word, "setpensize")
        || is_word(word, "setpos")
        || is_word(word, "setprojectsize")
        || is_word(word, "setsh")
        || is_word(word, "setshape")
        || is_word(word, "setsize")
        || is_word(word, "setstyle")
        || is_word(word, "setx")
        || is_word(word, "sety")
        || is_word(word, "shape")
        || is_word(word, "show")
        || is_word(word, "sin")
        || is_word(word, "size")
        || is_word(word, "sqrt")
        || is_word(word, "st")
        || is_word(word, "sum")
        || is_word(word, "talkto")
        || is_word(word, "tan")
        || is_word(word, "text")
        || is_word(word, "textlist")
        || is_word(word, "timer")
        || is_word(word, "touching?")
        || is_word(word, "towards")
        || is_word(word, "tto")
        || is_word(word, "unfreeze")
        || is_word(word, "visible?")
        || is_word(word, "who")
        || is_word(word, "word")
        || is_word(word, "word?")
        || is_word(word, "xcor")
        || is_word(word, "ycor")
}

/// The commands whose input may be a list of words, shown as one word.
pub open spec fn word_list_commands(w: Seq<char>) -> bool {
    w == "announce"@
        || w == "print"@
        || w == "show"@
}

/// Whether `word` is one of the words of `word_list_commands`.
pub fn is_word_list_command(word: &String) -> (b: bool)
    ensures
        b == word_list_commands(word@),
{
    is_word(word, "announce")
        || is_word(word, "print")
        || is_word(word, "show")
}

/// For a command that names a variable, how many words after it the name stands.
pub open spec fn variable_definition_count(w: Seq<char>) -> Option<u8> {
    if w == "clearname"@ {
        Some(1u8)
    } else if w == "local"@ {
        Some(1u8)
    } else if w == "make"@ {
        Some(1u8)
    } else if w == "turtlesown"@ {
        Some(1u8)
    } else {
        None
    }
}

/// The count that `variable_definition_count` gives `word`, if any.
pub fn var_def_count(word: &String) -> (r: Option<u8>)
    ensures
        r == variable_definition_count(word@),
{
    if is_word(word, "clearname") {
        Some(1)
    } else if is_word(word, "local") {
        Some(1)
    } else if is_word(word, "make") {
        Some(1)
    } else if is_word(word, "turtlesown") {
        Some(1)
    } else {
        None
    }
}

/// For a command that names an object, how many words after it the name stands.
pub open spec fn object_definition_count(w: Seq<char>) -> Option<u8> {
    if w == "ask"@ {
        Some(1u8)
    } else if w == "distance"@ {
        Some(1u8)
    } else if w == "newtext"@ {
        Some(1u8)
    } else if w == "newturtle"@ {
        Some(1u8)
    } else if w == "remove"@ {
        Some(1u8)
    } else if w == "talkto"@ {
        Some(1u8)
    } else if w == "touching?"@ {
        Some(2u8)
    } else if w == "towards"@ {
        Some(1u8)
    } else if w == "tto"@ {
        Some(1u8)
    } else {
        None
    }
}

/// The count that `object_definition_count` gives `word`, if any.
pub fn obj_def_count(word: &String) -> (r: Option<u8>)
    ensures
        r == object_definition_count(word@),
{
    if is_word(word, "ask") {
        Some(1)
    } else if is_word(word, "distance") {
        Some(1)
    } else if is_word(word, "newtext") {
        Some(1)
    } else if is_word(word, "newturtle") {
        Some(1)
    } else if is_word(word, "remove") {
        Some(1)
    } else if is_word(word, "talkto") {
        Some(1)
    } else if is_word(word, "touching?") {
        Some(2)
    } else if is_word(word, "towards") {
        Some(1)
    } else if is_word(word, "tto") {
        Some(1)
    } else {
        None
    }
}

/// No word that starts with `"` is a command of any table, nor is it
/// counted as expecting variable or object names.
pub proof fn lemma_quoted_words_are_no_commands(q: Seq<char>)
    requires
        q.len() > 0,
        q[0] == '"',
    ensures
        !definition_commands(q),
        !control_flow_commands(q),
        !other_commands(q),
        !word_list_commands(q),
        variable_definition_count(q) is None,
        object_definition_count(q) is None,
{
    reveal_strlit("abs");
    assert("abs"@.len() > 0 && "abs"@[0] == 'a');
    reveal_strlit("again");
    assert("again"@.len() > 0 && "again"@[0] == 'a');
    reveal_strlit("and");
    assert("and"@.len() > 0 && "and"@[0] == 'a');
    reveal_strlit("announce");
    assert("announce"@.len() > 0 && "announce"@[0] == 'a');
    reveal_strlit("arctan");
    assert("arctan"@.len() > 0 && "arctan"@[0] == 'a');
    reveal_strlit("ascii");
    assert("ascii"@.len() > 0 && "ascii"@[0] == 'a');
    reveal_strlit("ask");
    assert("ask"@.len() > 0 && "ask"@[0] == 'a');
    reveal_strlit("back");
    assert("back"@.len() > 0 && "back"@[0] == 'b');
    reveal_strlit("bf");
    assert("bf"@.len() > 0 && "bf"@[0] == 'b');
    reveal_strlit("bg");
    assert("bg"@.len() > 0 && "bg"@[0] == 'b');
    reveal_strlit("bk");
    assert("bk"@.len() > 0 && "bk"@[0] == 'b');
    reveal_strlit("bl");
    assert("bl"@.len() > 0 && "bl"@[0] == 'b');
    reveal_strlit("butfirst");
    assert("butfirst"@.len() > 0 && "butfirst"@[0] == 'b');
    reveal_strlit("butlast");
    assert("butlast"@.len() > 0 && "butlast"@[0] == 'b');
    reveal_strlit("carefully");
    assert("carefully"@.len() > 0 && "carefully"@[0] == 'c');
    reveal_strlit("cc");
    assert("cc"@.len() > 0 && "cc"@[0] == 'c');
    reveal_strlit("cg");
    assert("cg"@.len() > 0 && "cg"@[0] == 'c');
    reveal_strlit("char");
    assert("char"@.len() > 0 && "char"@[0] == 'c');
    reveal_strlit("chdir");
    assert("chdir"@.len() > 0 && "chdir"@[0] == 'c');
    reveal_strlit("clean");
    assert("clean"@.len() > 0 && "clean"@[0] == 'c');
    reveal_strlit("clearname");
    assert("clearname"@.len() > 0 && "clearname"@[0] == 'c');
    reveal_strlit("clearnames");
    assert("clearnames"@.len() > 0 && "clearnames"@[0] == 'c');
    reveal_strlit("cleartext");
    assert("cleartext"@.len() > 0 && "cleartext"@[0] == 'c');
    reveal_strlit("clicked?");
    assert("clicked?"@.len() > 0 && "clicked?"@[0] == 'c');
    reveal_strlit("color");
    assert("color"@.len() > 0 && "color"@[0] == 'c');
    reveal_strlit("colorunder");
    assert("colorunder"@.len() > 0 && "colorunder"@[0] == 'c');
    reveal_strlit("cos");
    assert("cos"@.len() > 0 && "cos"@[0] == 'c');
    reveal_strlit("count");
    assert("count"@.len() > 0 && "count"@[0] == 'c');
    reveal_strlit("ct");
    assert("ct"@.len() > 0 && "ct"@[0] == 'c');
    reveal_strlit("currentdir");
    assert("currentdir"@.len() > 0 && "currentdir"@[0] == 'c');
    reveal_strlit("difference");
    assert("difference"@.len() > 0 && "difference"@[0] == 'd');
    reveal_strlit("directories");
    assert("directories"@.len() > 0 && "directories"@[0] == 'd');
    reveal_strlit("distance");
    assert("distance"@.len() > 0 && "distance"@[0] == 'd');
    reveal_strlit("dolist");
    assert("dolist"@.len() > 0 && "dolist"@[0] == 'd');
    reveal_strlit("dotimes");
    assert("dotimes"@.len() > 0 && "dotimes"@[0] == 'd');
    reveal_strlit("empty?");
    assert("empty?"@.len() > 0 && "empty?"@[0] == 'e');
    reveal_strlit("end");
    assert("end"@.len() > 0 && "end"@[0] == 'e');
    reveal_strlit("equal?");
    assert("equal?"@.len() > 0 && "equal?"@[0] == 'e');
    reveal_strlit("errormessage");
    assert("errormessage"@.len() > 0 && "errormessage"@[0] == 'e');
    reveal_strlit("exp");
    assert("exp"@.len() > 0 && "exp"@[0] == 'e');
    reveal_strlit("fd");
    assert("fd"@.len() > 0 && "fd"@[0] == 'f');
    reveal_strlit("files");
    assert("files"@.len() > 0 && "files"@[0] == 'f');
    reveal_strlit("first");
    assert("first"@.len() > 0 && "first"@[0] == 'f');
    reveal_strlit("fontsize");
    assert("fontsize"@.len() > 0 && "fontsize"@[0] == 'f');
    reveal_strlit("forever");
    assert("forever"@.len() > 0 && "forever"@[0] == 'f');
    reveal_strlit("forward");
    assert("forward"@.len() > 0 && "forward"@[0] == 'f');
    reveal_strlit("fput");
    assert("fput"@.len() > 0 && "fput"@[0] == 'f');
    reveal_strlit("freeze");
    assert("freeze"@.len() > 0 && "freeze"@[0] == 'f');
    reveal_strlit("greater?");
    assert("greater?"@.len() > 0 && "greater?"@[0] == 'g');
    reveal_strlit("heading");
    assert("heading"@.len() > 0 && "heading"@[0] == 'h');
    reveal_strlit("home");
    assert("home"@.len() > 0 && "home"@[0] == 'h');
    reveal_strlit("ht");
    assert("ht"@.len() > 0 && "ht"@[0] == 'h');
    reveal_strlit("if");
    assert("if"@.len() > 0 && "if"@[0] == 'i');
    reveal_strlit("ifelse");
    assert("ifelse"@.len() > 0 && "ifelse"@[0] == 'i');
    reveal_strlit("int");
    assert("int"@.len() > 0 && "int"@[0] == 'i');
    reveal_strlit("item");
    assert("item"@.len() > 0 && "item"@[0] == 'i');
    reveal_strlit("key?");
    assert("key?"@.len() > 0 && "key?"@[0] == 'k');
    reveal_strlit("keydown?");
    assert("keydown?"@.len() > 0 && "keydown?"@[0] == 'k');
    reveal_strlit("last");
    assert("last"@.len() > 0 && "last"@[0] == 'l');
    reveal_strlit("left");
    assert("left"@.len() > 0 && "left"@[0] == 'l');
    reveal_strlit("less?");
    assert("less?"@.len() > 0 && "less?"@[0] == 'l');
    reveal_strlit("let");
    assert("let"@.len() > 0 && "let"@[0] == 'l');
    reveal_strlit("list");
    assert("list"@.len() > 0 && "list"@[0] == 'l');
    reveal_strlit("list?");
    assert("list?"@.len() > 0 && "list?"@[0] == 'l');
    reveal_strlit("ln");
    assert("ln"@.len() > 0 && "ln"@[0] == 'l');
    reveal_strlit("loadpict");
    assert("loadpict"@.len() > 0 && "loadpict"@[0] == 'l');
    reveal_strlit("loadshape");
    assert("loadshape"@.len() > 0 && "loadshape"@[0] == 'l');
    reveal_strlit("loadtext");
    assert("loadtext"@.len() > 0 && "loadtext"@[0] == 'l');
    reveal_strlit("local");
    assert("local"@.len() > 0 && "local"@[0] == 'l');
    reveal_strlit("log");
    assert("log"@.len() > 0 && "log"@[0] == 'l');
    reveal_strlit("lput");
    assert("lput"@.len() > 0 && "lput"@[0] == 'l');
    reveal_strlit("lt");
    assert("lt"@.len() > 0 && "lt"@[0] == 'l');
    reveal_strlit("make");
    assert("make"@.len() > 0 && "make"@[0] == 'm');
    reveal_strlit("member?");
    assert("member?"@.len() > 0 && "member?"@[0] == 'm');
    reveal_strlit("minus");
    assert("minus"@.len() > 0 && "minus"@[0] == 'm');
    reveal_strlit("newtext");
    assert("newtext"@.len() > 0 && "newtext"@[0] == 'n');
    reveal_strlit("newturtle");
    assert("newturtle"@.len() > 0 && "newturtle"@[0] == 'n');
    reveal_strlit("not");
    assert("not"@.len() > 0 && "not"@[0] == 'n');
    reveal_strlit("number?");
    assert("number?"@.len() > 0 && "number?"@[0] == 'n');
    reveal_strlit("on?");
    assert("on?"@.len() > 0 && "on?"@[0] == 'o');
    reveal_strlit("op");
    assert("op"@.len() > 0 && "op"@[0] == 'o');
    reveal_strlit("or");
    assert("or"@.len() > 0 && "or"@[0] == 'o');
    reveal_strlit("output");
    assert("output"@.len() > 0 && "output"@[0] == 'o');
    reveal_strlit("pd");
    assert("pd"@.len() > 0 && "pd"@[0] == 'p');
    reveal_strlit("pensize");
    assert("pensize"@.len() > 0 && "pensize"@[0] == 'p');
    reveal_strlit("pi");
    assert("pi"@.len() > 0 && "pi"@[0] == 'p');
    reveal_strlit("pick");
    assert("pick"@.len() > 0 && "pick"@[0] == 'p');
    reveal_strlit("pictlist");
    assert("pictlist"@.len() > 0 && "pictlist"@[0] == 'p');
    reveal_strlit("placepict");
    assert("placepict"@.len() > 0 && "placepict"@[0] == 'p');
    reveal_strlit("pos");
    assert("pos"@.len() > 0 && "pos"@[0] == 'p');
    reveal_strlit("power");
    assert("power"@.len() > 0 && "power"@[0] == 'p');
    reveal_strlit("pr");
    assert("pr"@.len() > 0 && "pr"@[0] == 'p');
    reveal_strlit("print");
    assert("print"@.len() > 0 && "print"@[0] == 'p');
    reveal_strlit("procedures");
    assert("procedures"@.len() > 0 && "procedures"@[0] == 'p');
    reveal_strlit("product");
    assert("product"@.len() > 0 && "product"@[0] == 'p');
    reveal_strlit("projectsize");
    assert("projectsize"@.len() > 0 && "projectsize"@[0] == 'p');
    reveal_strlit("pu");
    assert("pu"@.len() > 0 && "pu"@[0] == 'p');
    reveal_strlit("quotient");
    assert("quotient"@.len() > 0 && "quotient"@[0] == 'q');
    reveal_strlit("random");
    assert("random"@.len() > 0 && "random"@[0] == 'r');
    reveal_strlit("readchar");
    assert("readchar"@.len() > 0 && "readchar"@[0] == 'r');
    reveal_strlit("readclick");
    assert("readclick"@.len() > 0 && "readclick"@[0] == 'r');
    reveal_strlit("remainder");
    assert("remainder"@.len() > 0 && "remainder"@[0] == 'r');
    reveal_strlit("remove");
    assert("remove"@.len() > 0 && "remove"@[0] == 'r');
    reveal_strlit("repeat");
    assert("repeat"@.len() > 0 && "repeat"@[0] == 'r');
    reveal_strlit("resett");
    assert("resett"@.len() > 0 && "resett"@[0] == 'r');
    reveal_strlit("right");
    assert("right"@.len() > 0 && "right"@[0] == 'r');
    reveal_strlit("round");
    assert("round"@.len() > 0 && "round"@[0] == 'r');
    reveal_strlit("rt");
    assert("rt"@.len() > 0 && "rt"@[0] == 'r');
    reveal_strlit("run");
    assert("run"@.len() > 0 && "run"@[0] == 'r');
    reveal_strlit("se");
    assert("se"@.len() > 0 && "se"@[0] == 's');
    reveal_strlit("sentence");
    assert("sentence"@.len() > 0 && "sentence"@[0] == 's');
    reveal_strlit("setbg");
    assert("setbg"@.len() > 0 && "setbg"@[0] == 's');
    reveal_strlit("setc");
    assert("setc"@.len() > 0 && "setc"@[0] == 's');
    reveal_strlit("setcolor");
    assert("setcolor"@.len() > 0 && "setcolor"@[0] == 's');
    reveal_strlit("setfontsize");
    assert("setfontsize"@.len() > 0 && "setfontsize"@[0] == 's');
    reveal_strlit("seth");
    assert("seth"@.len() > 0 && "seth"@[0] == 's');
    reveal_strlit("setheading");
    assert("setheading"@.len() > 0 && "setheading"@[0] == 's');
    reveal_strlit("setpensize");
    assert("setpensize"@.len() > 0 && "setpensize"@[0] == 's');
    reveal_strlit("setpos");
    assert("setpos"@.len() > 0 && "setpos"@[0] == 's');
    reveal_strlit("setprojectsize");
    assert("setprojectsize"@.len() > 0 && "setprojectsize"@[0] == 's');
    reveal_strlit("setsh");
    assert("setsh"@.len() > 0 && "setsh"@[0] == 's');
    reveal_strlit("setshape");
    assert("setshape"@.len() > 0 && "setshape"@[0] == 's');
    reveal_strlit("setsize");
    assert("setsize"@.len() > 0 && "setsize"@[0] == 's');
    reveal_strlit("setstyle");
    assert("setstyle"@.len() > 0 && "setstyle"@[0] == 's');
    reveal_strlit("setx");
    assert("setx"@.len() > 0 && "setx"@[0] == 's');
    reveal_strlit("sety");
    assert("sety"@.len() > 0 && "sety"@[0] == 's');
    reveal_strlit("shape");
    assert("shape"@.len() > 0 && "shape"@[0] == 's');
    reveal_strlit("show");
    assert("show"@.len() > 0 && "show"@[0] == 's');
    reveal_strlit("sin");
    assert("sin"@.len() > 0 && "sin"@[0] == 's');
    reveal_strlit("size");
    assert("size"@.len() > 0 && "size"@[0] == 's');
    reveal_strlit("sqrt");
    assert("sqrt"@.len() > 0 && "sqrt"@[0] == 's');
    reveal_strlit("st");
    assert("st"@.len() > 0 && "st"@[0] == 's');
    reveal_strlit("sum");
    assert("sum"@.len() > 0 && "sum"@[0] == 's');
    reveal_strlit("talkto");
    assert("talkto"@.len() > 0 && "talkto"@[0] == 't');
    reveal_strlit("tan");
    assert("tan"@.len() > 0 && "tan"@[0] == 't');
    reveal_strlit("text");
    assert("text"@.len() > 0 && "text"@[0] == 't');
    reveal_strlit("textlist");
    assert("textlist"@.len() > 0 && "textlist"@[0] == 't');
    reveal_strlit("timer");
    assert("timer"@.len() > 0 && "timer"@[0] == 't');
    reveal_strlit("to");
    assert("to"@.len() > 0 && "to"@[0] == 't');
    reveal_strlit("touching?");
    assert("touching?"@.len() > 0 && "touching?"@[0] == 't');
    reveal_strlit("towards");
    assert("towards"@.len() > 0 && "towards"@[0] == 't');
    reveal_strlit("tto");
    assert("tto"@.len() > 0 && "tto"@[0] == 't');
    reveal_strlit("turtlesown");
    assert("turtlesown"@.len() > 0 && "turtlesown"@[0] == 't');
    reveal_strlit("unfreeze");
    assert("unfreeze"@.len() > 0 && "unfreeze"@[0] == 'u');
    reveal_strlit("visible?");
    assert("visible?"@.len() > 0 && "visible?"@[0] == 'v');
    reveal_strlit("wait");
    assert("wait"@.len() > 0 && "wait"@[0] == 'w');
    reveal_strlit("who");
    assert("who"@.len() > 0 && "who"@[0] == 'w');
    reveal_strlit("word");
    assert("word"@.len() > 0 && "word"@[0] == 'w');
    reveal_strlit("word?");
    assert("word?"@.len() > 0 && "word?"@[0] == 'w');
    reveal_strlit("xcor");
    assert("xcor"@.len() > 0 && "xcor"@[0] == 'x');
    reveal_strlit("ycor");
    assert("ycor"@.len() > 0 && "ycor"@[0] == 'y');
}

/// A command after which object names are expected is a definition or an
/// other command, never a control-flow command, and expects no variable
/// names.
pub proof fn lemma_object_commands(w: Seq<char>)
    requires
        object_definition_count(w) is Some,
    ensures
        definition_commands(w) || other_commands(w),
        !control_flow_commands(w),
        variable_definition_count(w) is None,
        definition_commands(w) ==> w != "let"@,
{
    reveal_strlit("again");
    assert("again"@.len() == 5 && "again"@[0] == 'a' && "again"@[1] == 'g' && "again"@[2] == 'a' && "again"@[3] == 'i' && "again"@[4] == 'n');
    reveal_strlit("and");
    assert("and"@.len() == 3 && "and"@[0] == 'a' && "and"@[1] == 'n' && "and"@[2] == 'd');
    reveal_strlit("ask");
    assert("ask"@.len() == 3 && "ask"@[0] == 'a' && "ask"@[1] == 's' && "ask"@[2] == 'k');
    reveal_strlit("carefully");
    assert("carefully"@.len() == 9 && "carefully"@[0] == 'c' && "carefully"@[1] == 'a' && "carefully"@[2] == 'r' && "carefully"@[3] == 'e' && "carefully"@[4] == 'f' && "carefully"@[5] == 'u' && "carefully"@[6] == 'l' && "carefully"@[7] == 'l' && "carefully"@[8] == 'y');
    reveal_strlit("clearname");
    assert("clearname"@.len() == 9 && "clearname"@[0] == 'c' && "clearname"@[1] == 'l' && "clearname"@[2] == 'e' && "clearname"@[3] == 'a' && "clearname"@[4] == 'r' && "clearname"@[5] == 'n' && "clearname"@[6] == 'a' && "clearname"@[7] == 'm' && "clearname"@[8] == 'e');
    reveal_strlit("distance");
    assert("distance"@.len() == 8 && "distance"@[0] == 'd' && "distance"@[1] == 'i' && "distance"@[2] == 's' && "distance"@[3] == 't' && "distance"@[4] == 'a' && "distance"@[5] == 'n' && "distance"@[6] == 'c' && "distance"@[7] == 'e');
    reveal_strlit("dolist");
    assert("dolist"@.len() == 6 && "dolist"@[0] == 'd' && "dolist"@[1] == 'o' && "dolist"@[2] == 'l' && "dolist"@[3] == 'i' && "dolist"@[4] == 's' && "dolist"@[5] == 't');
    reveal_strlit("dotimes");
    assert("dotimes"@.len() == 7 && "dotimes"@[0] == 'd' && "dotimes"@[1] == 'o' && "dotimes"@[2] == 't' && "dotimes"@[3] == 'i' && "dotimes"@[4] == 'm' && "dotimes"@[5] == 'e' && "dotimes"@[6] == 's');
    reveal_strlit("forever");
    assert("forever"@.len() == 7 && "forever"@[0] == 'f' && "forever"@[1] == 'o' && "forever"@[2] == 'r' && "forever"@[3] == 'e' && "forever"@[4] == 'v' && "forever"@[5] == 'e' && "forever"@[6] == 'r');
    reveal_strlit("if");
    assert("if"@.len() == 2 && "if"@[0] == 'i' && "if"@[1] == 'f');
    reveal_strlit("ifelse");
    assert("ifelse"@.len() == 6 && "ifelse"@[0] == 'i' && "ifelse"@[1] == 'f' && "ifelse"@[2] == 'e' && "ifelse"@[3] == 'l' && "ifelse"@[4] == 's' && "ifelse"@[5] == 'e');
    reveal_strlit("let");
    assert("let"@.len() == 3 && "let"@[0] == 'l' && "let"@[1] == 'e' && "let"@[2] == 't');
    reveal_strlit("local");
    assert("local"@.len() == 5 && "local"@[0] == 'l' && "local"@[1] == 'o' && "local"@[2] == 'c' && "local"@[3] == 'a' && "local"@[4] == 'l');
    reveal_strlit("make");
    assert("make"@.len() == 4 && "make"@[0] == 'm' && "make"@[1] == 'a' && "make"@[2] == 'k' && "make"@[3] == 'e');
    reveal_strlit("newtext");
    assert("newtext"@.len() == 7 && "newtext"@[0] == 'n' && "newtext"@[1] == 'e' && "newtext"@[2] == 'w' && "newtext"@[3] == 't' && "newtext"@[4] == 'e' && "newtext"@[5] == 'x' && "newtext"@[6] == 't');
    reveal_strlit("newturtle");
    assert("newturtle"@.len() == 9 && "newturtle"@[0] == 'n' && "newturtle"@[1] == 'e' && "newturtle"@[2] == 'w' && "newturtle"@[3] == 't' && "newturtle"@[4] == 'u' && "newturtle"@[5] == 'r' && "newturtle"@[6] == 't' && "newturtle"@[7] == 'l' && "newturtle"@[8] == 'e');
    reveal_strlit("not");
    assert("not"@.len() == 3 && "not"@[0] == 'n' && "not"@[1] == 'o' && "not"@[2] == 't');
    reveal_strlit("op");
    assert("op"@.len() == 2 && "op"@[0] == 'o' && "op"@[1] == 'p');
    reveal_strlit("or");
    assert("or"@.len() == 2 && "or"@[0] == 'o' && "or"@[1] == 'r');
    reveal_strlit("output");
    assert("output"@.len() == 6 && "output"@[0] == 'o' && "output"@[1] == 'u' && "output"@[2] == 't' && "output"@[3] == 'p' && "output"@[4] == 'u' && "output"@[5] == 't');
    reveal_strlit("remove");
    assert("remove"@.len() == 6 && "remove"@[0] == 'r' && "remove"@[1] == 'e' && "remove"@[2] == 'm' && "remove"@[3] == 'o' && "remove"@[4] == 'v' && "remove"@[5] == 'e');
    reveal_strlit("repeat");
    assert("repeat"@.len() == 6 && "repeat"@[0] == 'r' && "repeat"@[1] == 'e' && "repeat"@[2] == 'p' && "repeat"@[3] == 'e' && "repeat"@[4] == 'a' && "repeat"@[5] == 't');
    reveal_strlit("run");
    assert("run"@.len() == 3 && "run"@[0] == 'r' && "run"@[1] == 'u' && "run"@[2] == 'n');
    reveal_strlit("talkto");
    assert("talkto"@.len() == 6 && "talkto"@[0] == 't' && "talkto"@[1] == 'a' && "talkto"@[2] == 'l' && "talkto"@[3] == 'k' && "talkto"@[4] == 't' && "talkto"@[5] == 'o');
    reveal_strlit("touching?");
    assert("touching?"@.len() == 9 && "touching?"@[0] == 't' && "touching?"@[1] == 'o' && "touching?"@[2] == 'u' && "touching?"@[3] == 'c' && "touching?"@[4] == 'h' && "touching?"@[5] == 'i' && "touching?"@[6] == 'n' && "touching?"@[7] == 'g' && "touching?"@[8] == '?');
    reveal_strlit("towards");
    assert("towards"@.len() == 7 && "towards"@[0] == 't' && "towards"@[1] == 'o' && "towards"@[2] == 'w' && "towards"@[3] == 'a' && "towards"@[4] == 'r' && "towards"@[5] == 'd' && "towards"@[6] == 's');
    reveal_strlit("tto");
    assert("tto"@.len() == 3 && "tto"@[0] == 't' && "tto"@[1] == 't' && "tto"@[2] == 'o');
    reveal_strlit("turtlesown");
    assert("turtlesown"@.len() == 10 && "turtlesown"@[0] == 't' && "turtlesown"@[1] == 'u' && "turtlesown"@[2] == 'r' && "turtlesown"@[3] == 't' && "turtlesown"@[4] == 'l' && "turtlesown"@[5] == 'e' && "turtlesown"@[6] == 's' && "turtlesown"@[7] == 'o' && "turtlesown"@[8] == 'w' && "turtlesown"@[9] == 'n');
    reveal_strlit("wait");
    assert("wait"@.len() == 4 && "wait"@[0] == 'w' && "wait"@[1] == 'a' && "wait"@[2] == 'i' && "wait"@[3] == 't');
}

} // verus!
