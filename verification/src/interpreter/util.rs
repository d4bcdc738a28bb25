//! Error classification helpers.
use vstd::prelude::*;

pub mod error;
pub mod performance;

use crate::interpreter::util::error::LogoError;

verus! {

/// Whether `err` marks the end of the code being read.
pub fn is_eof(err: &LogoError) -> (b: bool)
    ensures
        b == (err.message@ == "eof"@),
{
    crate::interpreter::util::error::is_eof(err)
}

/// Whether `err` marks a request to stop the running program.
pub fn is_interrupt(err: &LogoError) -> (b: bool)
    ensures
        b == (err.message@ == "interrupt"@),
{
    crate::interpreter::util::error::is_interrupt(err)
}

} // verus!
