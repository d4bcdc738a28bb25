use microworlds::interpreter::language::command::actions;
use microworlds::interpreter::language::token::Token;
use microworlds::interpreter::state::datastore::DataStore;
use microworlds::interpreter::state::input::InputManager;
use microworlds::interpreter::state::object::TextStyle;

fn w(s: &str) -> Token {
    Token::Word(String::from(s))
}

fn n(s: &str) -> Token {
    Token::Number(String::from(s))
}

fn l(s: &str) -> Token {
    Token::List(String::from(s))
}

fn b(v: bool) -> Token {
    Token::Boolean(v)
}

fn err(r: Result<Token, microworlds::interpreter::util::error::LogoError>) -> String {
    match r {
        Ok(t) => panic!("expected an error, got {:?}", t),
        Err(e) => e.message,
    }
}

#[test]
fn output_gives_its_input() {
    assert_eq!(actions::output("op", &vec![w("x")]).unwrap(), w("x"));
    assert_eq!(err(actions::output("op", &vec![])), "op expected an input at 0");
}

#[test]
fn equal_compares_numbers_words_booleans() {
    assert_eq!(actions::equal("equal?", &vec![n("4"), n("4")]).unwrap(), b(true));
    assert_eq!(actions::equal("equal?", &vec![w("a"), w("b")]).unwrap(), b(false));
    assert_eq!(actions::equal("equal?", &vec![l("a"), l("a")]).unwrap(), b(false));
    assert_eq!(err(actions::equal("equal?", &vec![n("4")])), "equal? expected an input at 1");
}

#[test]
fn truth_values_combine() {
    assert_eq!(actions::not("not", &vec![b(true)]).unwrap(), b(false));
    assert_eq!(err(actions::not("not", &vec![n("1")])), "not expected boolean for input 0");
    assert_eq!(actions::or("or", &vec![b(false), b(false), b(true)]).unwrap(), b(true));
    assert_eq!(actions::and("and", &vec![b(true), b(false)]).unwrap(), b(false));
    assert_eq!(actions::and("and", &vec![b(true)]).unwrap(), b(true));
    assert_eq!(err(actions::and("and", &vec![b(true), w("x")])), "and expected boolean for input 1");
    assert_eq!(err(actions::or("or", &vec![])), "or expected boolean for input 0");
}

#[test]
fn kinds_of_tokens() {
    assert_eq!(actions::isnumber("number?", &vec![n("1")]).unwrap(), b(true));
    assert_eq!(actions::isnumber("number?", &vec![w("1")]).unwrap(), b(false));
    assert_eq!(actions::isword("word?", &vec![w("1")]).unwrap(), b(true));
    assert_eq!(actions::islist("list?", &vec![l("1")]).unwrap(), b(true));
    assert_eq!(actions::islist("list?", &vec![w("1")]).unwrap(), b(false));
}

#[test]
fn empty_words_and_lists() {
    assert_eq!(actions::empty("empty?", &vec![w("")]).unwrap(), b(true));
    assert_eq!(actions::empty("empty?", &vec![l("a")]).unwrap(), b(false));
    assert_eq!(err(actions::empty("empty?", &vec![n("0")])), "empty? expected a word or list as input");
}

#[test]
fn words_and_lists_are_built() {
    assert_eq!(actions::word("word", &vec![w("ab"), w("cd"), w("e")]).unwrap(), w("abcde"));
    assert_eq!(err(actions::word("word", &vec![w("ab"), n("1")])), "word expected word for input 1");
    assert_eq!(actions::list("list", &vec![w("a"), n("2"), l("b c")]).unwrap(), l("a 2 [b c]"));
    assert_eq!(actions::fput("fput", &vec![w("z"), l("a b")]).unwrap(), l("z a b"));
    assert_eq!(actions::lput("lput", &vec![w("z"), l("a b")]).unwrap(), l("a b z"));
    assert_eq!(err(actions::fput("fput", &vec![w("z"), w("a")])), "fput expected list for input 1");
}

#[test]
fn ascii_of_keys() {
    assert_eq!(actions::ascii("ascii", &vec![w("a")]).unwrap(), n("97"));
    assert_eq!(actions::ascii("ascii", &vec![w("space")]).unwrap(), n("32"));
    assert_eq!(err(actions::ascii("ascii", &vec![w("ab")])), "key is not an ascii character");
}

#[test]
fn list_items_by_position() {
    let data = DataStore::new();
    let list = vec![l("one 2 [three four]")];
    assert_eq!(actions::first(&data, "first", &list).unwrap(), w("one"));
    assert_eq!(actions::last(&data, "last", &list).unwrap(), l("three four"));
    assert_eq!(actions::butfirst(&data, "butfirst", &list).unwrap(), l("2 [three four]"));
    assert_eq!(actions::butlast(&data, "butlast", &list).unwrap(), l("one 2"));
    let empty = vec![l("")];
    assert_eq!(err(actions::first(&data, "first", &empty)), "first cannot get from empty list");
    assert_eq!(err(actions::last(&data, "last", &empty)), "last cannot get from empty list");
    assert_eq!(err(actions::butfirst(&data, "bf", &empty)), "butfirst cannot get from empty list");
    assert_eq!(err(actions::butlast(&data, "bl", &empty)), "butlast cannot get from empty list");
}

#[test]
fn membership_in_lists() {
    let data = DataStore::new();
    assert_eq!(actions::member(&data, "member?", &vec![w("b"), l("a b c")]).unwrap(), b(true));
    assert_eq!(actions::member(&data, "member?", &vec![n("2"), l("1 2 3")]).unwrap(), b(true));
    assert_eq!(actions::member(&data, "member?", &vec![w("2"), l("1 2 3")]).unwrap(), b(false));
    assert_eq!(actions::member(&data, "member?", &vec![w("d"), l("a b c")]).unwrap(), b(false));
}

#[test]
fn make_stores_values() {
    let mut data = DataStore::new();
    assert!(matches!(actions::make(&mut data, "make", &vec![w("x"), n("3")]).unwrap(), Token::Void));
    assert_eq!(data.get_variable("x"), Some(&n("3")));
    actions::make(&mut data, "make", &vec![w("y"), l("a   b [c d]")]).unwrap();
    assert_eq!(data.get_variable("y"), Some(&l("a b [c d]")));
    assert_eq!(err(actions::make(&mut data, "make", &vec![n("1"), n("3")])), "make expected word for input 0");
    assert_eq!(err(actions::make(&mut data, "make", &vec![w("z")])), "make expected an input at 1");
    assert!(data.get_variable("z").is_none());
}

#[test]
fn local_and_let_set_local_variables() {
    let mut data = DataStore::new();
    data.push_scope();
    actions::local(&mut data, "local", &vec![w("v")]).unwrap();
    assert!(matches!(data.get_variable("v"), Some(Token::Void)));
    actions::letvar(&mut data, "let", &vec![l("a 1 b [x y] c")]).unwrap();
    assert_eq!(data.get_variable("a"), Some(&n("1")));
    assert_eq!(data.get_variable("b"), Some(&l("x y")));
    assert!(data.get_variable("c").is_none());
    data.pop_scope();
    assert!(data.get_variable("a").is_none());
}

#[test]
fn pick_chooses_a_candidate() {
    let data = DataStore::new();
    for _ in 0..20 {
        let t = actions::pick(&data, "pick", &vec![w("abc")]).unwrap();
        assert!(t == w("a") || t == w("b") || t == w("c"));
        let t = actions::pick(&data, "pick", &vec![l("1 2")]).unwrap();
        assert!(t == n("1") || t == n("2"));
    }
    assert_eq!(err(actions::pick(&data, "pick", &vec![n("1")])), "expected a word or list");
    let c = actions::candidates(&data, "pick", &vec![w("xy")]).unwrap();
    assert_eq!(c, vec![w("x"), w("y")]);
    assert_eq!(actions::pick_at(&c, 1), w("y"));
}

#[test]
fn keys_for_key_and_readchar() {
    let mut input: InputManager<(i32, i32)> = InputManager::new();
    assert_eq!(actions::key(&mut input), b(false));
    assert_eq!(actions::readchar(&mut input), w(""));
    input.add_key_to_buffer(String::from("q"));
    assert_eq!(actions::key(&mut input), b(true));
    assert_eq!(actions::readchar(&mut input), w("q"));
    assert_eq!(actions::key(&mut input), b(false));
}

#[test]
fn directory_commands() {
    let mut data = DataStore::new();
    assert_eq!(actions::currentdir(&data), w(""));
    actions::chdir(&mut data, "chdir", &vec![w("pics")]).unwrap();
    assert_eq!(actions::currentdir(&data), w("pics/"));
    assert_eq!(err(actions::chdir(&mut data, "chdir", &vec![n("1")])), "chdir expected word for input 0");
    assert_eq!(actions::file_path(&data, "loadpict", &vec![w("cat.png")], 0).unwrap(), "pics/cat.png");
}

#[test]
fn loadshape_adds_images_once() {
    let mut data = DataStore::new();
    data.set_base_directory(String::from("img"));
    let args = vec![w("cat"), w("cat.png")];
    let added = actions::loadshape(&mut data, "loadshape", &args).unwrap();
    assert_eq!(added, Some((String::from("cat"), String::from("img/cat.png"))));
    assert_eq!(
        data.get_shape("cat"),
        Some(&microworlds::interpreter::state::object::TurtleShape::Image(
            String::from("cat"),
            String::from("img/cat.png")
        ))
    );
    assert_eq!(actions::loadshape(&mut data, "loadshape", &args).unwrap(), None);
    let other = vec![w("cat"), w("dog.png")];
    assert_eq!(
        actions::loadshape(&mut data, "loadshape", &other).unwrap(),
        Some((String::from("cat"), String::from("img/dog.png")))
    );
    let builtin = vec![w("circle"), w("c.png")];
    assert_eq!(
        actions::loadshape(&mut data, "loadshape", &builtin).unwrap_err().message,
        "shape named circle already exists"
    );
}

#[test]
fn file_kinds_and_lists() {
    assert!(actions::is_picture_file(&String::from("a.png")));
    assert!(actions::is_picture_file(&String::from("b.jpg")));
    assert!(actions::is_picture_file(&String::from(".bmp")));
    assert!(!actions::is_picture_file(&String::from("png")));
    assert!(actions::is_text_file(&String::from("notes.txt")));
    assert!(!actions::is_text_file(&String::from("notes.txt~")));
    let names = vec![String::from("a"), String::from("b c"), String::from("d")];
    assert_eq!(actions::join_names(&names), "a b c d");
    assert_eq!(actions::join_names(&vec![]), "");
}

#[test]
fn texts_shown_and_printed() {
    let data = DataStore::new();
    assert_eq!(actions::show_text("show", &vec![l("a b")]).unwrap(), "[a b]");
    assert_eq!(actions::show_text("show", &vec![b(true)]).unwrap(), "true");
    assert_eq!(actions::announce_text("announce", &vec![l("a b")]).unwrap(), "a b");
    assert_eq!(actions::announce_text("announce", &vec![w("hi")]).unwrap(), "hi");
    assert_eq!(actions::print_text(&data, "print", &vec![w("hi")]).unwrap(), "hi");
    assert_eq!(actions::print_text(&data, "print", &vec![n("3")]).unwrap(), "3");
    assert_eq!(actions::print_text(&data, "print", &vec![l("a  [b c]  d")]).unwrap(), "a [b c] d");
    assert_eq!(
        actions::print_text(&data, "print", &vec![b(true)]).unwrap_err().message,
        "expected word, number or list"
    );
    assert_eq!(actions::show_text("show", &vec![]).unwrap_err().message, "show expected an input at 0");
}

#[test]
fn shapes_by_name_for_setshape() {
    let data = DataStore::new();
    assert_eq!(
        actions::shape_named(&data, "setshape", &vec![w("square")]).unwrap(),
        microworlds::interpreter::state::object::TurtleShape::Square
    );
    assert_eq!(
        actions::shape_named(&data, "setshape", &vec![w("star")]).unwrap_err().message,
        "no shape named star"
    );
}

#[test]
fn styles_named_by_words() {
    let data = DataStore::new();
    assert_eq!(actions::style_set(&data, "setstyle", &vec![w("bold")]).unwrap(), vec![TextStyle::Bold]);
    assert!(actions::style_set(&data, "setstyle", &vec![w("plain")]).unwrap().is_empty());
    assert_eq!(
        actions::style_set(&data, "setstyle", &vec![l("underline x bold underline")]).unwrap(),
        vec![TextStyle::Bold, TextStyle::Underline]
    );
    assert_eq!(
        actions::style_set(&data, "setstyle", &vec![n("1")]).unwrap_err().message,
        "setstyle expected a word or list as input"
    );
}

#[test]
fn branches_of_if_and_ifelse() {
    assert_eq!(actions::if_branch("if", &vec![b(true), l("fd 1")]).unwrap(), Some(String::from("fd 1")));
    assert_eq!(actions::if_branch("if", &vec![b(false), l("fd 1")]).unwrap(), None);
    assert_eq!(actions::if_branch("if", &vec![w("x"), l("fd 1")]).unwrap_err().message, "if expected boolean for input 0");
    assert_eq!(actions::ifelse_branch("ifelse", &vec![b(false), l("a"), l("b")]).unwrap(), "b");
    assert_eq!(actions::ifelse_branch("ifelse", &vec![b(true), l("a"), l("b")]).unwrap(), "a");
    assert_eq!(
        actions::ifelse_branch("ifelse", &vec![b(true), l("a")]).unwrap_err().message,
        "ifelse expected list for input 2"
    );
    assert_eq!(
        actions::two_lists("carefully", &vec![l("x"), l("y")]).unwrap(),
        (String::from("x"), String::from("y"))
    );
    assert_eq!(actions::paren_code("__paren", &vec![l("5 + 2")]).unwrap(), "op 5 + 2");
}

#[test]
fn loop_configurations() {
    let data = DataStore::new();
    assert_eq!(
        actions::dotimes_config(&data, "dotimes", &vec![l("i 5"), l("show :i")]).unwrap(),
        (String::from("i"), String::from("5"), String::from("show :i"))
    );
    assert_eq!(
        actions::dotimes_config(&data, "dotimes", &vec![l("i x"), l("show :i")]).unwrap_err().message,
        "dotimes expected number for input 1 in input 0"
    );
    assert_eq!(
        actions::dotimes_config(&data, "dotimes", &vec![l("5 i"), l("show :i")]).unwrap_err().message,
        "dotimes expected word for input 0 in input 0"
    );
    let (var, values, code) =
        actions::dolist_config(&data, "dolist", &vec![l("i [one 2]"), l("show :i")]).unwrap();
    assert_eq!(var, "i");
    assert_eq!(values, vec![w("one"), n("2")]);
    assert_eq!(code, "show :i");
    assert_eq!(
        actions::dolist_config(&data, "dolist", &vec![l("i one"), l("show :i")]).unwrap_err().message,
        "dolist expected list for input 1 in input 0"
    );
}
