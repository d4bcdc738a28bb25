//! Procedures defined by Logo programs.
use vstd::prelude::*;

verus! {

/// A procedure defined with `to`: its name, parameter names and body.
#[derive(Debug, Clone)]
pub struct Procedure {
    pub name: String,
    pub params: Vec<String>,
    pub code: String,
}

impl Procedure {
    /// Whether two procedures are the same procedure: they have the same
    /// name.
    pub fn same_as(&self, other: &Procedure) -> (b: bool)
        ensures
            b == (self.name@ == other.name@),
    {
        self.name == other.name
    }
}

} // verus!
