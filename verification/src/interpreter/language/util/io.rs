//! Conversions between key names and key codes as methods.
use vstd::prelude::*;

use crate::interpreter::language::util::{
    ascii_for_key, key_code_of, key_for_ascii, key_name_of,
};
use crate::interpreter::util::error::LogoError;

verus! {

/// A key name that can be turned into its key code.
pub trait KeyName {
    fn to_key_code(&self) -> Result<u8, LogoError>;
}

/// A key code that can be turned into its key name.
pub trait KeyCode {
    fn to_key_name(&self) -> Result<String, LogoError>;
}

impl KeyName for str {
    /// The key code of this key name (see `ascii_for_key`).
    fn to_key_code(&self) -> (r: Result<u8, LogoError>)
        ensures
            match key_code_of(self@) {
                Some(code) => r == Ok::<u8, LogoError>(code),
                None => r matches Err(e) && e.message@ == "key is not an ascii character"@,
            },
    {
        ascii_for_key(self)
    }
}

impl KeyCode for u8 {
    /// The key name of this key code (see `key_for_ascii`).
    fn to_key_name(&self) -> (r: Result<String, LogoError>)
        ensures
            match key_name_of(*self) {
                Some(name) => r matches Ok(s) && s@ == name,
                None => r matches Err(e) && e.message@
                    == "number does not represent an ascii key"@,
            },
    {
        key_for_ascii(*self)
    }
}

} // verus!
