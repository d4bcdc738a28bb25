//! The decisions of the interpreter's run loop: what reading a token leads
//! to, what the result of a command leads to, what is done on a failure,
//! and the value of a token that names no command. The loop itself, which
//! runs the commands, stands with the front end.
use vstd::prelude::*;

use crate::interpreter::language::token::{SToken, Token};
use crate::interpreter::state::datastore::{scope_lookup, DataStore};
use crate::interpreter::util::error::{is_eof, is_interrupt, LogoError};

verus! {

/// Whether a token is the command `output`, which ends the code it stands
/// in and gives back its input.
pub open spec fn is_output(t: SToken) -> bool {
    t matches SToken::Command(c, _) && c.name == "output"@
}

/// What reading a token leads to.
pub enum ReadStep {
    /// The code ended: its block is left and the loop stops.
    Finish,
    /// Reading failed with this error.
    Fail(LogoError),
    /// This token is run; the flag tells whether it is `output`.
    Run(Token, bool),
}

/// What the loop does with the result of reading a token: the end of the
/// code stops it, another error fails it, and a token is run.
pub fn step_after_read(read: Result<Token, LogoError>) -> (s: ReadStep)
    ensures
        match read {
            Err(e) => if e.message@ == "eof"@ {
                s is Finish
            } else {
                s == ReadStep::Fail(e)
            },
            Ok(t) => s == ReadStep::Run(t, is_output(t@)),
        },
{
    match read {
        Err(e) => {
            if is_eof(&e) {
                ReadStep::Finish
            } else {
                ReadStep::Fail(e)
            }
        },
        Ok(t) => {
            let gives_back = match &t {
                Token::Command(c, _) => c.is("output"),
                _ => false,
            };
            ReadStep::Run(t, gives_back)
        },
    }
}

/// What the result of running a token leads to.
pub enum CommandStep {
    /// Reading goes on with the next token.
    Continue,
    /// The code's block is left and this value given back.
    Return(Token),
    /// Running failed with this error.
    Fail(LogoError),
}

/// What the loop does after running a token: an error fails it, the value
/// of `output` is given back, and otherwise reading goes on.
pub fn step_after_command(result: Result<Token, LogoError>, is_return: bool) -> (s: CommandStep)
    ensures
        match result {
            Ok(t) => if is_return {
                s == CommandStep::Return(t)
            } else {
                s is Continue
            },
            Err(e) => s == CommandStep::Fail(e),
        },
{
    match result {
        Ok(t) => {
            if is_return {
                CommandStep::Return(t)
            } else {
                CommandStep::Continue
            }
        },
        Err(e) => CommandStep::Fail(e),
    }
}

/// What is done when running code fails.
pub struct FailurePlan {
    /// The whole program stops; otherwise only the failing block is left.
    pub terminate: bool,
    /// The program was interrupted on request, which ends it quietly.
    pub ended: bool,
    /// The message shown to the user, if any.
    pub report: Option<String>,
}

/// The plan for a failure: where errors are handled (the main program), the
/// program stops, quietly when it was interrupted and otherwise showing the
/// error's message; elsewhere only the failing block is left, and the error
/// goes on to the caller.
pub fn plan_failure(err: &LogoError, handle_error: bool) -> (p: FailurePlan)
    ensures
        p.terminate == handle_error,
        p.ended == (handle_error && err.message@ == "interrupt"@),
        match p.report {
            Some(m) => handle_error && err.message@ != "interrupt"@ && m@ == err.message@,
            None => !handle_error || err.message@ == "interrupt"@,
        },
{
    if !handle_error {
        FailurePlan { terminate: false, ended: false, report: None }
    } else if is_interrupt(err) {
        FailurePlan { terminate: true, ended: true, report: None }
    } else {
        FailurePlan { terminate: true, ended: false, report: Some(err.message.clone()) }
    }
}

/// The value of a token that names no command: a variable gives its value,
/// or fails when it has none; a name that is not defined fails; any other
/// token is its own value.
pub open spec fn token_value(scopes: Seq<Map<Seq<char>, SToken>>, t: SToken) -> Result<
    SToken,
    Seq<char>,
> {
    match t {
        SToken::Variable(v) => match scope_lookup(scopes, v) {
            Some(x) => Ok(x),
            None => Err(v + " has no value"@),
        },
        SToken::Undefined(u) => Err("I don't know how to "@ + u),
        _ => Ok(t),
    }
}

/// The value of a token that names no command (see `token_value`).
pub fn evaluate_token(data: &DataStore, token: Token) -> (r: Result<Token, LogoError>)
    requires
        data.wf(),
        !(token is Command),
    ensures
        match token_value(data.scopes(), token@) {
            Ok(v) => r matches Ok(x) && x@ == v,
            Err(m) => r matches Err(e) && e.message@ == m,
        },
{
    match token {
        Token::Variable(name) => match data.get_variable(name.as_str()) {
            Some(stored) => Ok(stored.duplicate()),
            None => {
                let mut message = name;
                message.append(" has no value");
                Err(LogoError::new(message))
            },
        },
        Token::Undefined(name) => {
            let mut message = String::from_str("I don't know how to ");
            message.append(name.as_str());
            Err(LogoError::new(message))
        },
        other => Ok(other),
    }
}

} // verus!
