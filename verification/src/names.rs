//! Errors of the interface that resolves log identifiers to package names.

use vstd::prelude::*;

verus! {

/// Why the names of packages could not be fetched.
#[derive(Clone, Debug, PartialEq, Eq)]
pub enum FetchNamesError {
    /// The log with this identifier was not found.
    LogNotFound(String),
    /// Another error, with its status code and its message.
    Message { status: u16, message: String },
}

impl FetchNamesError {
    /// The status code of the error: 404 for a log that was not found, else
    /// the code that the error carries.
    pub fn status(&self) -> (code: u16)
        ensures
            code == match *self {
                FetchNamesError::LogNotFound(_) => 404u16,
                FetchNamesError::Message { status, .. } => status,
            },
    {
        match self {
            FetchNamesError::LogNotFound(_) => 404,
            FetchNamesError::Message { status, .. } => *status,
        }
    }
}

} // verus!
