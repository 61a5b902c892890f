//! The one way in which an operation can fail.

use vstd::prelude::*;

verus! {

/// Why an operation was refused.
#[derive(Clone, Copy, Debug, PartialEq, Eq, Structural)]
pub enum Error {
    /// The caller of a changing operation is not the owner of the ledger.
    Unauthorized,
}

impl Error {
    /// The refusal in words.
    pub fn message(&self) -> (msg: &'static str)
        ensures
            msg@ == "unauthorized caller"@,
    {
        match self {
            Error::Unauthorized => "unauthorized caller",
        }
    }
}

} // verus!
