//! Errors of the exchange protocol. Constructor-time invariant violations
//! fail fast; protocol-level mismatches are returned to the caller as typed
//! errors; failures during implicit teardown, which cannot propagate, are
//! surfaced through the host's unraisable-error channel instead.

use vstd::prelude::*;

verus! {

/// Errors of the exchange protocol.
#[derive(Clone, Copy, Debug, PartialEq, Eq, Structural)]
pub enum Error {
    /// A required pointer was null where non-null is mandatory.
    InvalidPointer,
    /// Shape and stride arrays of different lengths were supplied together.
    ShapeStrideMismatch,
    /// A claim was attempted on a capsule not carrying the active tag:
    /// either a foreign object or an already claimed capsule.
    CapsuleTagMismatch,
}

impl Error {
    /// A short description of the error.
    pub fn description(&self) -> (r: &'static str)
        ensures
            self is InvalidPointer ==> r@ == "required pointer is null"@,
            self is ShapeStrideMismatch ==> r@ == "shape and strides should have same length"@,
            self is CapsuleTagMismatch ==> r@ == "capsule does not carry the expected tag"@,
    {
        match self {
            Error::InvalidPointer => "required pointer is null",
            Error::ShapeStrideMismatch => "shape and strides should have same length",
            Error::CapsuleTagMismatch => "capsule does not carry the expected tag",
        }
    }
}

} // verus!
