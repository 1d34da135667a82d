//! The fatal-error taxonomy of a whole fetch: transport failures, data
//! failures, and internal failures. Per-game problems are never errors;
//! they live in the skip registry instead.

use vstd::prelude::*;

verus! {

/// A fatal condition that aborts a request as a whole. Each variant
/// carries the user-facing message for it.
#[derive(Debug, Clone)]
pub enum ProcessError {
    FetchError { message: String },
    DataError { message: String },
    InternalError { message: String },
}

impl ProcessError {
    /// The user-facing message carried by this error.
    pub fn message(&self) -> (message: &String)
        ensures
            message@ == match *self {
                ProcessError::FetchError { message } => message@,
                ProcessError::DataError { message } => message@,
                ProcessError::InternalError { message } => message@,
            },
    {
        match self {
            ProcessError::FetchError { message } => message,
            ProcessError::DataError { message } => message,
            ProcessError::InternalError { message } => message,
        }
    }
}

} // verus!
