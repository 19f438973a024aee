//! Collector-level error taxonomy for detection calls. Failures of the
//! database layer are surfaced uniformly as one of these, wrapping a
//! description of the underlying cause.

use vstd::prelude::*;

verus! {

/// Why a detection call failed: the pool or connection was unavailable,
/// the statement failed to execute, or a row could not be mapped to a
/// record.
pub enum CollectorError {
    ConnectionError(String),
    QueryError(String),
    DecodeError(String),
}

impl CollectorError {
    /// The description of the underlying cause.
    pub fn message(&self) -> (r: &String)
        ensures
            r@ == match self {
                CollectorError::ConnectionError(m) => m@,
                CollectorError::QueryError(m) => m@,
                CollectorError::DecodeError(m) => m@,
            },
    {
        match self {
            CollectorError::ConnectionError(m) => m,
            CollectorError::QueryError(m) => m,
            CollectorError::DecodeError(m) => m,
        }
    }
}

} // verus!
