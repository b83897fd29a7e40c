//! The kinds of failure that the state manager reports.

use vstd::prelude::*;

verus! {

/// What went wrong, by kind.
#[derive(Clone, Copy, Debug, PartialEq, Eq, Structural)]
pub enum AppError {
    /// A location that the process needs, such as the home directory, could
    /// not be determined.
    EnvironmentError,
    /// The filesystem or the relational store failed.
    StorageError,
    /// Reference data is malformed or incomplete.
    DataIntegrityError,
    /// Nothing is kept under the identifier that was asked for.
    NotFound,
    /// Room had to be made in the cache of results, and the artifact of the
    /// result that left could not be deleted.
    ResourceExhausted,
}

impl AppError {
    /// Whether a caller can carry on after this error. Only a miss is of
    /// that kind; every other error stops what was being done.
    pub fn is_recoverable(&self) -> (recoverable: bool)
        ensures
            recoverable == (*self == AppError::NotFound),
    {
        match self {
            AppError::NotFound => true,
            _ => false,
        }
    }
}

} // verus!
