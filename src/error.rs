//! The ways a conversion can fail.

use vstd::prelude::*;

verus! {

/// Why a record could not be read or converted. Each one ends the run.
#[derive(Debug, Clone, Copy, PartialEq, Eq, Structural)]
pub enum ConvertError {
    /// A record lacks an expected field, or a field has the wrong kind of value.
    Malformed,
    /// A string identifier has no legacy numeric identifier.
    LookupMiss,
    /// A value of a kind that the conversion cannot render.
    UnsupportedPayload,
}

} // verus!
