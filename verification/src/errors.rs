//! The error taxonomy of the handle layer.

use vstd::prelude::*;

verus! {

/// Why an operation on a document handle failed.
///
/// `Frozen` marks an attempt against a superseded (or freed) cell; the caller
/// recovers by using the handle returned from its last successful mutation.
/// `Decode` marks malformed input (snapshot bytes, change bytes, or a
/// structured change description); the cell is left unchanged. `Engine`
/// carries a rejection reported by the document engine itself (for example an
/// unmet dependency); the cell is likewise left unchanged.
#[derive(Debug)]
pub enum BackendError {
    Frozen,
    Decode(String),
    Engine(String),
}

impl BackendError {
    /// True on the `Frozen` variant alone.
    pub fn is_frozen_error(&self) -> (r: bool)
        ensures
            r == (self is Frozen),
    {
        match self {
            BackendError::Frozen => true,
            _ => false,
        }
    }
}

} // verus!
