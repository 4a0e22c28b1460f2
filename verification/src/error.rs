//! Error taxonomy of the control plane.
//!
//! Every fallible operation of the library reports one of these kinds.
//! Validation failures are raised before any state is mutated; the other
//! kinds are surfaced exactly as the contracts of the operations state.

use vstd::prelude::*;

verus! {

/// The kinds of failure the control plane can report.
#[derive(Clone, Copy, Debug, PartialEq, Eq, Structural)]
pub enum VmmError {
    /// Bad display name, disallowed port mapping, or malformed compose payload.
    Validation,
    /// No free CID is left in the configured pool.
    ResourceExhausted,
    /// The instance already exists, a port is already claimed, or the
    /// instance is in a state that forbids the operation.
    Conflict,
    /// No instance (or image) with the given identifier exists.
    NotFound,
    /// The VM runtime backend reported a failure.
    BackendFailure,
    /// A durable-store operation failed.
    IoFailure,
}

impl VmmError {
    /// A short stable description of the error kind.
    pub fn as_str(&self) -> (r: &'static str)
        ensures
            r@ == self.spec_str(),
    {
        match self {
            VmmError::Validation => "validation error",
            VmmError::ResourceExhausted => "resource exhausted",
            VmmError::Conflict => "conflict",
            VmmError::NotFound => "not found",
            VmmError::BackendFailure => "backend failure",
            VmmError::IoFailure => "io failure",
        }
    }

    /// What `as_str` returns for each kind.
    pub open spec fn spec_str(self) -> Seq<char> {
        match self {
            VmmError::Validation => "validation error"@,
            VmmError::ResourceExhausted => "resource exhausted"@,
            VmmError::Conflict => "conflict"@,
            VmmError::NotFound => "not found"@,
            VmmError::BackendFailure => "backend failure"@,
            VmmError::IoFailure => "io failure"@,
        }
    }
}

} // verus!
