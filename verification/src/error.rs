//! The error of the fallible conversions.

use vstd::prelude::*;

verus! {

/// Why a container could not be taken apart as requested.
#[derive(Debug, Clone, Copy, PartialEq, Eq, Structural)]
pub enum TryIntoError {
    /// The container holds another kind of data than the one asked for.
    NotConvertible,
}

impl TryIntoError {
    /// The text that describes the error.
    pub open spec fn message(self) -> Seq<char> {
        match self {
            TryIntoError::NotConvertible => "Invalid Type"@,
        }
    }

    /// The error as text.
    pub fn to_string(&self) -> (text: String)
        ensures
            text@ == self.message(),
    {
        match self {
            TryIntoError::NotConvertible => "Invalid Type".to_owned(),
        }
    }
}

} // verus!
