use microworlds::interpreter::language::command::{Command, Params};
use microworlds::interpreter::language::language::Language;
use microworlds::interpreter::language::lexer::{check_number_literal, CodeBlock, Lexer};
use microworlds::interpreter::language::token::Token;

fn tokens_of(code: &str, in_paren: bool) -> Vec<Token> {
    let mut lexer = Lexer::new();
    lexer.push_block(code, in_paren);
    let mut tokens = vec![];
    while let Ok(token) = lexer.read_token() {
        tokens.push(token);
    }
    tokens
}

fn first_error(code: &str) -> String {
    let mut lexer = Lexer::new();
    lexer.push_block(code, false);
    lexer.read_token().unwrap_err().message
}

fn num(s: &str) -> Token {
    Token::Number(String::from(s))
}

fn word(s: &str) -> Token {
    Token::Word(String::from(s))
}

#[test]
fn unmatched_brackets_pipes_and_parentheses() {
    assert_eq!(first_error("[a b"), "found unmatched brackets");
    assert_eq!(first_error("\"|a b"), "found unmatched pipes");
    assert_eq!(first_error("(1 + 2"), "found unmatched parenthesis");
    assert_eq!(first_error("   "), "eof");
}

#[test]
fn failed_input_is_left_out() {
    assert_eq!(tokens_of("show [a b", false), vec![Token::Command(Command::show(), vec![])]);
}

#[test]
fn piped_word_keeps_its_spaces() {
    assert_eq!(
        tokens_of("make \"|a b| 1", false),
        vec![Token::Command(Command::make(), vec![word("a b"), num("1")])]
    );
}

#[test]
fn object_shortcuts() {
    assert_eq!(
        tokens_of("t1, fd 10", false),
        vec![
            Token::Command(Command::talkto(), vec![word("t1")]),
            Token::Command(Command::forward(), vec![num("10")]),
        ]
    );
    assert_eq!(
        tokens_of("t1's color", false),
        vec![Token::Command(
            Command::ask(),
            vec![word("t1"), Token::Command(Command::color(), vec![])]
        )]
    );
}

#[test]
fn numbers_booleans_and_undefined_words() {
    // Compared by structure: a NaN token is never equal to itself.
    assert_eq!(
        format!("{:?}", tokens_of("1e3 -2.5 inf NaN 1.5.2 true false foo", false)),
        format!("{:?}", vec![
            num("1e3"),
            num("-2.5"),
            num("inf"),
            num("NaN"),
            Token::Undefined(String::from("1.5.2")),
            Token::Boolean(true),
            Token::Boolean(false),
            Token::Undefined(String::from("foo")),
        ])
    );
}

#[test]
fn number_syntax() {
    let yes = ["0", "12", "+3", "-4.", ".5", "6.7e-8", "9E+2", "infinity", "-INF", "nan"];
    let no = ["", "+", ".", "e5", "1e", "1.2.3", "0x10", "1_000", "in", "12a"];
    for s in yes {
        assert!(check_number_literal(&s.chars().collect()), "{}", s);
        assert!(s.parse::<f32>().is_ok(), "{}", s);
    }
    for s in no {
        assert!(!check_number_literal(&s.chars().collect()), "{}", s);
        assert!(s.parse::<f32>().is_err(), "{}", s);
    }
}

#[test]
fn comments_read_as_void() {
    let tokens = tokens_of("; a comment\nfd 1", false);
    assert_eq!(tokens.len(), 2);
    assert!(matches!(tokens[0], Token::Void));
    assert_eq!(tokens[1], Token::Command(Command::forward(), vec![num("1")]));
}

#[test]
fn procedure_header_and_body() {
    let tokens = tokens_of("to sq :n :m\nfd :n\n  rt :m\nend\n", false);
    assert_eq!(tokens.len(), 1);
    match &tokens[0] {
        Token::Command(command, args) => {
            assert_eq!(command.name, "to");
            match &args[0] {
                Token::Procedure(name, params, code) => {
                    assert_eq!(name, "sq");
                    assert_eq!(params, &vec![String::from("n"), String::from("m")]);
                    assert_eq!(code, "fd :n\nrt :m\n");
                }
                other => panic!("not a procedure: {:?}", other),
            }
        }
        other => panic!("not a command: {:?}", other),
    }
}

#[test]
fn procedure_without_end_is_left_out() {
    assert_eq!(tokens_of("to f\nfd 1\nend", false), vec![Token::Command(Command::to(), vec![])]);
}

#[test]
fn defined_commands_read_their_inputs() {
    let mut lexer = Lexer::new();
    assert_eq!(lexer.define("fd", Params::Fixed(1)).unwrap_err().message, "fd is reserved");
    lexer.define("square", Params::Fixed(1)).unwrap();
    lexer.push_block("square 5 fd 1", false);
    assert_eq!(
        lexer.read_token().unwrap(),
        Token::Command(Command::user_defined("square", Params::Fixed(1)), vec![num("5")])
    );
    // A user command may be defined again.
    assert!(lexer.define("square", Params::Empty).is_ok());
}

#[test]
fn variadic_inputs_inside_parentheses() {
    assert_eq!(
        tokens_of("sum 1 2 3", true),
        vec![Token::Command(Command::sum(), vec![num("1"), num("2"), num("3")])]
    );
    assert_eq!(
        tokens_of("sum 1 2 3", false),
        vec![Token::Command(Command::sum(), vec![num("1"), num("2")]), num("3")]
    );
}

#[test]
fn blocks_are_a_stack() {
    let mut lexer = Lexer::new();
    lexer.push_block("fd 1", false);
    lexer.push_block("rt 2", false);
    assert_eq!(lexer.read_token().unwrap(), Token::Command(Command::right(), vec![num("2")]));
    assert!(!lexer.pop_block());
    assert_eq!(lexer.read_token().unwrap(), Token::Command(Command::forward(), vec![num("1")]));
    lexer.return_to_start_of_block();
    assert_eq!(lexer.read_token().unwrap(), Token::Command(Command::forward(), vec![num("1")]));
    assert!(lexer.pop_block());
    assert!(!lexer.pop_block());
    lexer.push_block("fd 1", false);
    lexer.clear_blocks();
    assert!(!lexer.pop_block());
}

#[test]
fn default_language_knows_aliases_and_infix() {
    let language = Language::default();
    assert_eq!(language.lookup("fd").unwrap().name, "forward");
    assert_eq!(language.lookup("se").unwrap().name, "list");
    assert!(language.lookup("nothing").is_none());
    assert_eq!(language.lookup_infix("+").unwrap().name, "sum");
    assert_eq!(language.lookup_infix("=").unwrap().name, "equal?");
    assert!(language.lookup_infix("fd").is_none());
    let mut empty = Language::empty();
    assert!(empty.lookup("fd").is_none());
    empty.add_alias("go", Command::forward());
    assert_eq!(empty.lookup("go").unwrap().name, "forward");
}

#[test]
fn code_block_reads_characters() {
    let mut block = CodeBlock::new("ab", false);
    assert_eq!(block.current_char(), 'a');
    block.next();
    assert_eq!(block.current_char(), 'b');
    block.next();
    assert_eq!(block.current_char(), '\0');
    block.next();
    assert_eq!(block.current_char(), '\0');
    block.rewind();
    assert_eq!(block.current_char(), 'a');
}

#[test]
fn token_equality_ignores_procedure_code() {
    let a = Token::Procedure(String::from("p"), vec![], String::from("fd 1"));
    let b = Token::Procedure(String::from("p"), vec![], String::from("fd 2"));
    assert_eq!(a, b);
    assert!(a.same_as(&b));
    assert_ne!(Token::Void, Token::Void);
    assert_ne!(num("1"), word("1"));
}
