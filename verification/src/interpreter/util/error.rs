//! The interpreter's error type.
use vstd::prelude::*;

verus! {

/// An error raised while reading or running Logo code, carrying its message.
#[derive(Debug, Clone)]
pub struct LogoError {
    pub message: String,
}

impl LogoError {
    /// An error with the given message.
    pub fn new(message: String) -> (e: Self)
        ensures
            e.message == message,
    {
        LogoError { message }
    }

    /// An error whose message is the given text.
    pub fn from_str(message: &str) -> (e: Self)
        ensures
            e.message@ == message@,
    {
        LogoError { message: String::from_str(message) }
    }

    /// The error's message.
    pub fn to_string(&self) -> (s: String)
        ensures
            s@ == self.message@,
    {
        self.message.clone()
    }
}

/// The error that marks the end of the code being read.
pub fn eof_error() -> (e: LogoError)
    ensures
        e.message@ == "eof"@,
{
    LogoError::from_str("eof")
}

/// The error that stops a running program on request.
pub fn interrupt_error() -> (e: LogoError)
    ensures
        e.message@ == "interrupt"@,
{
    LogoError::from_str("interrupt")
}

/// Whether `err` marks the end of the code being read.
pub fn is_eof(err: &LogoError) -> (b: bool)
    ensures
        b == (err.message@ == "eof"@),
{
    let eof = String::from_str("eof");
    err.message == eof
}

/// Whether `err` marks a request to stop the running program.
pub fn is_interrupt(err: &LogoError) -> (b: bool)
    ensures
        b == (err.message@ == "interrupt"@),
{
    let interrupt = String::from_str("interrupt");
    err.message == interrupt
}

} // verus!
