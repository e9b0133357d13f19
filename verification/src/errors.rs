//! Error taxonomy of the engine.

use vstd::prelude::*;

verus! {

/// The error taxonomy: validation failures are fatal to a task and never
/// retried; download errors carry the fetch pipeline's diagnostics;
/// provider and cache failures are absorbed before they reach a task.
#[derive(Debug, Clone, PartialEq, Eq)]
pub enum AppError {
    Download(String),
    Validation(String),
    Parse(String),
    NotFound(String),
    Encryption(String),
}

impl AppError {
    /// The human-readable text carried by the error.
    pub fn message(&self) -> (r: &String)
        ensures
            r@ == self.spec_message(),
    {
        match self {
            AppError::Download(m) => m,
            AppError::Validation(m) => m,
            AppError::Parse(m) => m,
            AppError::NotFound(m) => m,
            AppError::Encryption(m) => m,
        }
    }

    pub open spec fn spec_message(self) -> Seq<char> {
        match self {
            AppError::Download(m) => m@,
            AppError::Validation(m) => m@,
            AppError::Parse(m) => m@,
            AppError::NotFound(m) => m@,
            AppError::Encryption(m) => m@,
        }
    }
}

} // verus!
