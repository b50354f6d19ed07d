//! Typed errors reported by the library.

use vstd::prelude::*;
use vstd::string::StringExecFns;

verus! {

/// An error of the license tool.
#[derive(Debug, Clone, PartialEq)]
pub enum Error {
    /// No license matches the identifier that was given.
    NotFound,
    /// The target file already exists; nothing was overwritten.
    AlreadyExists { file: String },
    /// A registry response did not have the expected shape.
    Malformed,
}

/// The user-facing description of an error.
pub open spec fn spec_message(e: Error) -> Seq<char> {
    match e {
        Error::NotFound => "No license found matching the ID provided."@,
        Error::AlreadyExists { file } => "The "@ + file@ + " file already exists."@,
        Error::Malformed => "The registry response is malformed."@,
    }
}

impl Error {
    /// Describes the error for the user.
    pub fn message(&self) -> (s: String)
        ensures
            s@ == spec_message(*self),
    {
        match self {
            Error::NotFound => "No license found matching the ID provided.".to_owned(),
            Error::AlreadyExists { file } => {
                let mut s = String::from_str("The ");
                s.append(file.as_str());
                s.append(" file already exists.");
                s
            },
            Error::Malformed => "The registry response is malformed.".to_owned(),
        }
    }
}

} // verus!
