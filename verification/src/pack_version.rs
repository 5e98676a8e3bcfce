//! The version pair that producers and consumers of the exchange format
//! negotiate with: a consumer rejects triples whose major version it does not
//! understand, and may ignore unknown minor extensions.

use vstd::prelude::*;

verus! {

/// The major version of the descriptor format this library speaks.
pub const DLPACK_MAJOR_VERSION: u32 = 1;

/// The minor version of the descriptor format this library speaks.
pub const DLPACK_MINOR_VERSION: u32 = 1;

/// A `{major, minor}` version pair exchanged alongside a descriptor.
#[derive(Clone, Copy, Debug, PartialEq, Eq, Structural)]
pub struct PackVersion {
    pub major: u32,
    pub minor: u32,
}

impl PackVersion {
    /// Whether a consumer that understands `supported_major` accepts a
    /// triple carrying this version: exactly when the major versions agree.
    /// The minor version never decides acceptance.
    pub fn is_compatible_with(&self, supported_major: u32) -> (r: bool)
        ensures
            r == (self.major == supported_major),
    {
        self.major == supported_major
    }
}

impl Default for PackVersion {
    /// The version this library itself speaks.
    fn default() -> (r: Self)
        ensures
            r.major == DLPACK_MAJOR_VERSION,
            r.minor == DLPACK_MINOR_VERSION,
    {
        Self { major: DLPACK_MAJOR_VERSION, minor: DLPACK_MINOR_VERSION }
    }
}

} // verus!
