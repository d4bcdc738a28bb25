use microworlds::interpreter::language::procedure::Procedure;
use microworlds::interpreter::language::token::{Token, TokenVec};
use microworlds::interpreter::language::util::decode;
use microworlds::interpreter::language::util::io::{KeyCode, KeyName};
use microworlds::interpreter::language::util::{
    are_tokens_equal, ascii_for_key, decode_boolean, decode_list, decode_number, decode_proc,
    decode_token, decode_word, join_to_list_string, key_for_ascii, push_decimal,
};
use microworlds::interpreter::performance::{
    PerformanceResult as OldResult, PerformanceTracker as OldTracker,
};
use microworlds::interpreter::state::object::{TextStyle, TurtleShape};
use microworlds::interpreter::util::error::{
    eof_error, interrupt_error, is_eof, is_interrupt, LogoError,
};
use microworlds::interpreter::util::performance::{PerformanceResult, PerformanceTracker};

fn word(s: &str) -> Token {
    Token::Word(String::from(s))
}

fn number(s: &str) -> Token {
    Token::Number(String::from(s))
}

#[test]
fn decimal_digits_of_numbers() {
    let mut s = String::from("n=");
    push_decimal(&mut s, 0);
    assert_eq!(s, "n=0");
    let mut s = String::new();
    push_decimal(&mut s, 1207);
    assert_eq!(s, "1207");
    let mut s = String::new();
    push_decimal(&mut s, usize::MAX);
    assert_eq!(s, usize::MAX.to_string());
}

#[test]
fn decode_inputs_of_the_right_kind() {
    let args = vec![
        number("5"),
        word("hi"),
        Token::Boolean(true),
        Token::List(String::from("a b")),
        Token::Procedure(String::from("p"), vec![String::from("x")], String::from("fd :x")),
    ];
    assert_eq!(decode_number("fd", &args, 0).unwrap(), "5");
    assert_eq!(decode_word("make", &args, 1).unwrap(), "hi");
    assert!(decode_boolean("if", &args, 2).unwrap());
    assert_eq!(decode_list("run", &args, 3).unwrap(), "a b");
    let p = decode_proc("to", &args, 4).unwrap();
    assert_eq!(p.name, "p");
    assert_eq!(p.params, vec![String::from("x")]);
    assert_eq!(p.code, "fd :x");
    assert_eq!(decode_token("show", &args, 1).unwrap(), word("hi"));
}

#[test]
fn decode_reports_the_expected_kind() {
    let args = vec![word("x")];
    assert_eq!(decode_number("fd", &args, 0).unwrap_err().message, "fd expected number for input 0");
    assert_eq!(decode_word("make", &args, 12).unwrap_err().message, "make expected word for input 12");
    assert_eq!(decode_boolean("if", &args, 0).unwrap_err().message, "if expected boolean for input 0");
    assert_eq!(decode_list("run", &args, 0).unwrap_err().message, "run expected list for input 0");
    assert_eq!(decode_proc("to", &args, 0).unwrap_err().message, "to expected code block for input 0");
    assert_eq!(decode_token("show", &args, 3).unwrap_err().message, "show expected an input at 3");
}

#[test]
fn decode_module_reports_the_expected_kind() {
    let args = vec![number("1"), word("w")];
    assert_eq!(decode::number("fd", &args, 0).unwrap(), "1");
    assert_eq!(decode::word("fd", &args, 1).unwrap(), "w");
    assert_eq!(decode::number("fd", &args, 1).unwrap_err().message, "fd expected a number for input 1");
    assert_eq!(decode::word("fd", &args, 0).unwrap_err().message, "fd expected a word for input 0");
    assert_eq!(decode::boolean("fd", &args, 0).unwrap_err().message, "fd expected a boolean for input 0");
    assert_eq!(decode::list("fd", &args, 0).unwrap_err().message, "fd expected a list for input 0");
    assert_eq!(
        decode::procedure("fd", &args, 0).unwrap_err().message,
        "fd expected a code block for input 0"
    );
    assert_eq!(decode::token("fd", &args, 2).unwrap_err().message, "fd expected an input at 2");
    assert_eq!(decode::token("fd", &args, 0).unwrap(), number("1"));
}

#[test]
fn tokens_equal_only_for_numbers_words_booleans() {
    assert!(are_tokens_equal(&number("3"), &number("3")));
    assert!(!are_tokens_equal(&number("3"), &word("3")));
    assert!(are_tokens_equal(&word("a"), &word("a")));
    assert!(are_tokens_equal(&Token::Boolean(false), &Token::Boolean(false)));
    assert!(!are_tokens_equal(&Token::List(String::from("a")), &Token::List(String::from("a"))));
    assert!(!are_tokens_equal(&Token::Void, &Token::Void));
}

#[test]
fn list_string_of_tokens() {
    let tokens = vec![
        word("a b"),
        number("1"),
        Token::List(String::from("x y")),
        Token::Boolean(true),
        Token::Void,
        word("end"),
    ];
    assert_eq!(tokens.join_to_list_string(), "|a b| 1 [x y] true end");
    assert_eq!(join_to_list_string(tokens), "|a b| 1 [x y] true end");
    assert_eq!(join_to_list_string(vec![]), "");
}

#[test]
fn token_text() {
    assert_eq!(number("2.5").to_string(), "2.5");
    assert_eq!(Token::List(String::from("a")).to_string(), "[a]");
    assert_eq!(Token::Variable(String::from("v")).to_string(), ":v");
    assert_eq!(Token::Boolean(false).to_string(), "false");
    assert_eq!(Token::Void.to_string(), "");
}

#[test]
fn key_codes_and_names() {
    assert_eq!(ascii_for_key("space").unwrap(), 32);
    assert_eq!(ascii_for_key("enter").unwrap(), 10);
    assert_eq!(ascii_for_key("left").unwrap(), 37);
    assert_eq!(ascii_for_key("A").unwrap(), 97);
    assert_eq!(ascii_for_key("ab").unwrap_err().message, "key is not an ascii character");
    assert_eq!(key_for_ascii(38).unwrap(), "up");
    assert_eq!(key_for_ascii(65).unwrap(), "A");
    assert_eq!(key_for_ascii(200).unwrap_err().message, "number does not represent an ascii key");
    assert_eq!("down".to_key_code().unwrap(), 40);
    assert_eq!(39u8.to_key_name().unwrap(), "right");
}

#[test]
fn key_round_trip() {
    for code in 0u8..128 {
        if code.is_ascii_uppercase() {
            continue;
        }
        let name = key_for_ascii(code).unwrap();
        assert_eq!(ascii_for_key(&name).unwrap(), code);
    }
}

#[test]
fn errors_mark_end_and_interrupt() {
    assert!(is_eof(&eof_error()));
    assert!(!is_interrupt(&eof_error()));
    assert!(is_interrupt(&interrupt_error()));
    assert!(!is_eof(&LogoError::from_str("oops")));
    assert_eq!(LogoError::new(String::from("x")).to_string(), "x");
    assert!(microworlds::interpreter::util::is_eof(&eof_error()));
    assert!(microworlds::interpreter::util::is_interrupt(&interrupt_error()));
}

#[test]
fn shapes_and_styles_by_name() {
    assert_eq!(TurtleShape::Triangle.to_string(), "triangle");
    assert_eq!(TurtleShape::Image(String::from("cat"), String::from("c.png")).to_string(), "image:cat");
    assert_eq!(TextStyle::from(String::from("bold")), Some(TextStyle::Bold));
    assert_eq!(TextStyle::from(String::from("italic")), Some(TextStyle::Italic));
    assert_eq!(TextStyle::from(String::from("underline")), Some(TextStyle::Underline));
    assert_eq!(TextStyle::from(String::from("Bold")), None);
    assert_eq!(microworlds::state::object::TurtleShape::Circle.to_string(), "circle");
}

#[test]
fn tracker_averages_recorded_times() {
    let mut tracker = PerformanceTracker::new();
    tracker.record("fd", 10, String::from("fd 10"));
    tracker.record("fd", 21, String::from("fd 20"));
    tracker.record("rt", 7, String::from("rt 90"));
    assert_eq!(tracker.average("fd"), 15);
    assert_eq!(tracker.average("rt"), 7);
    let wanted = vec![String::from("rt"), String::from("fd"), String::from("bk")];
    let summary = tracker.summary(&wanted);
    assert_eq!(
        summary,
        vec![(String::from("fd"), 2, 15), (String::from("rt"), 1, 7)]
    );
    let report = tracker.report(&vec![String::from("fd")]);
    assert_eq!(report.len(), 1);
    assert_eq!(report[0].0, "fd");
    let times: Vec<(u128, String)> = report[0].1.iter().map(|r| (r.time, r.tag.clone())).collect();
    assert_eq!(times, vec![(10, String::from("fd 10")), (21, String::from("fd 20"))]);
    tracker.clear();
    assert!(tracker.summary(&wanted).is_empty());
}

#[test]
fn tracker_average_is_cut_to_64_bits() {
    let mut tracker = PerformanceTracker::new();
    let big: u128 = (1u128 << 64) + 5;
    tracker.record("wait", big, String::from("wait"));
    assert_eq!(tracker.average("wait"), 5);
}

#[test]
fn result_keeps_time_and_tag() {
    let r = PerformanceResult::new(3, String::from("t"));
    assert_eq!(r.time, 3);
    assert_eq!(r.tag, "t");
    let old = OldResult::from(4, String::from("u"));
    assert_eq!(old.time, 4);
    assert_eq!(old.tag, "u");
}

#[test]
fn first_tracker_records_by_command() {
    let mut tracker = OldTracker::new();
    tracker.record_command_execution(&String::from("bk"), 4, String::from("bk 1"));
    tracker.record_command_execution(&String::from("bk"), 6, String::from("bk 2"));
    let summary = tracker.summary(&vec![String::from("bk")]);
    assert_eq!(summary, vec![(String::from("bk"), 2, 5)]);
    let report = tracker.report(&vec![String::from("bk")]);
    assert_eq!(report[0].1.len(), 2);
    assert_eq!(report[0].1[1].tag, "bk 2");
    tracker.clear();
    assert!(tracker.report(&vec![String::from("bk")]).is_empty());
}

#[test]
fn procedures_compare_by_name() {
    let a = Procedure { name: String::from("p"), params: vec![], code: String::from("fd 1") };
    let b = Procedure { name: String::from("p"), params: vec![], code: String::from("fd 2") };
    let c = Procedure { name: String::from("q"), params: vec![], code: String::from("fd 1") };
    assert!(a.same_as(&b));
    assert!(!a.same_as(&c));
}


#[test]
fn single_character_keys_round_trip_in_lower_case() {
    for key in ["a", "z", "7", "-", "A", "Q"] {
        let code = ascii_for_key(key).unwrap();
        assert_eq!(key_for_ascii(code).unwrap(), key.to_lowercase());
    }
    // A character whose code is a named key comes back as that name.
    assert_eq!(key_for_ascii(ascii_for_key("%").unwrap()).unwrap(), "left");
}

#[test]
fn whitespace_is_exactly_stds() {
    for code in 0u32..0x110000 {
        if let Some(c) = char::from_u32(code) {
            assert_eq!(microworlds::text::is_whitespace(c), c.is_whitespace(), "{:?}", c);
        }
    }
}

fn num(text: &str) -> Token {
    Token::Number(String::from(text))
}

#[test]
fn numbers_are_equal_by_value() {
    assert!(are_tokens_equal(&num("5"), &num("5.0")));
    assert!(are_tokens_equal(&num("0.50"), &num(".5")));
    assert!(are_tokens_equal(&num("1e2"), &num("100")));
    assert!(are_tokens_equal(&num("12.5e-1"), &num("1.25")));
    assert!(are_tokens_equal(&num("-0"), &num("0")));
    assert!(are_tokens_equal(&num("0.000"), &num("-0e7")));
    assert!(are_tokens_equal(&num("inf"), &num("+Infinity")));
    assert!(!are_tokens_equal(&num("-inf"), &num("inf")));
    assert!(!are_tokens_equal(&num("NaN"), &num("NaN")));
    assert!(!are_tokens_equal(&num("1"), &num("2")));
    assert!(!are_tokens_equal(&num("-1"), &num("1")));
    assert!(!are_tokens_equal(&num("10"), &num("1")));
    assert!(!are_tokens_equal(&num("5"), &Token::Word(String::from("5"))));
}

#[test]
fn token_equality_compares_numbers_by_value() {
    assert!(num("5") == num("5.0"));
    assert!(num("nan") != num("nan"));
    assert!(Token::List(String::from("1 2")) != Token::List(String::from("1.0 2")));
}
