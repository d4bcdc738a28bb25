use microworlds::interpreter::language::command::{Command, Params};
use microworlds::interpreter::language::token::Token;
use microworlds::interpreter::run::{
    evaluate_token, plan_failure, step_after_command, step_after_read, CommandStep, ReadStep,
};
use microworlds::interpreter::state::datastore::DataStore;
use microworlds::interpreter::util::error::{eof_error, interrupt_error, LogoError};

fn output_command() -> Token {
    Token::Command(Command::reserved("output", Params::Fixed(1)), vec![])
}

#[test]
fn the_end_of_the_code_finishes_the_loop() {
    assert!(matches!(step_after_read(Err(eof_error())), ReadStep::Finish));
}

#[test]
fn a_reading_error_fails_the_loop() {
    match step_after_read(Err(LogoError::from_str("[ without ]"))) {
        ReadStep::Fail(e) => assert_eq!(e.message, "[ without ]"),
        _ => panic!("expected a failure"),
    }
}

#[test]
fn output_is_run_as_a_return() {
    assert!(matches!(step_after_read(Ok(output_command())), ReadStep::Run(_, true)));
    let fd = Token::Command(Command::reserved("fd", Params::Fixed(1)), vec![]);
    assert!(matches!(step_after_read(Ok(fd)), ReadStep::Run(_, false)));
    assert!(matches!(step_after_read(Ok(Token::Void)), ReadStep::Run(Token::Void, false)));
}

#[test]
fn command_results_continue_return_or_fail() {
    assert!(matches!(step_after_command(Ok(Token::Void), false), CommandStep::Continue));
    match step_after_command(Ok(Token::Number(String::from("3"))), true) {
        CommandStep::Return(Token::Number(n)) => assert_eq!(n, "3"),
        _ => panic!("expected the returned value"),
    }
    match step_after_command(Err(LogoError::from_str("boom")), true) {
        CommandStep::Fail(e) => assert_eq!(e.message, "boom"),
        _ => panic!("expected a failure"),
    }
}

#[test]
fn failures_in_the_main_program_stop_it() {
    let plan = plan_failure(&LogoError::from_str("x has no value"), true);
    assert!(plan.terminate);
    assert!(!plan.ended);
    assert_eq!(plan.report, Some(String::from("x has no value")));

    let plan = plan_failure(&interrupt_error(), true);
    assert!(plan.terminate);
    assert!(plan.ended);
    assert_eq!(plan.report, None);

    let plan = plan_failure(&LogoError::from_str("x has no value"), false);
    assert!(!plan.terminate);
    assert!(!plan.ended);
    assert_eq!(plan.report, None);
}

#[test]
fn variables_give_their_values() {
    let mut data = DataStore::new();
    data.set_variable("x", Token::Number(String::from("5")));
    match evaluate_token(&data, Token::Variable(String::from("x"))) {
        Ok(Token::Number(n)) => assert_eq!(n, "5"),
        other => panic!("unexpected {:?}", other),
    }
    let err = evaluate_token(&data, Token::Variable(String::from("y"))).unwrap_err();
    assert_eq!(err.message, "y has no value");
}

#[test]
fn undefined_names_and_plain_tokens() {
    let data = DataStore::new();
    let err = evaluate_token(&data, Token::Undefined(String::from("jump"))).unwrap_err();
    assert_eq!(err.message, "I don't know how to jump");
    match evaluate_token(&data, Token::Word(String::from("hi"))) {
        Ok(Token::Word(w)) => assert_eq!(w, "hi"),
        other => panic!("unexpected {:?}", other),
    }
}
