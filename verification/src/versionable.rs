//! The versioning protocol: a type that can wrap itself in a versioned
//! envelope recording which generation of its representation produced it,
//! and rebuild itself from such an envelope, possibly written by an earlier
//! release.

use vstd::prelude::*;
use crate::error::SerializationError;

verus! {

/// A type that can produce a versioned envelope of itself.
pub trait Versionize: View {
    /// The versioned envelope encoding of a value with abstract view `v`.
    spec fn spec_versioned(v: Self::V) -> Seq<u8>;

    /// Encodes this value as a versioned envelope.
    fn versionize_bytes(&self) -> (r: Vec<u8>)
        ensures
            r@ == Self::spec_versioned(self@),
    ;
}

/// A type that can rebuild itself from a versioned envelope.
///
/// Reconstruction inverts envelope encoding and is fallible: an envelope
/// whose recorded version this release no longer knows how to upgrade is
/// rejected with a reconstruction error, distinct from a malformed payload.
pub trait Unversionize: Versionize + Sized {
    /// Rebuilds a value from a versioned envelope. The bytes must be the
    /// exact envelope of one value: nothing may precede or follow it.
    fn unversionize(bytes: &[u8]) -> (r: Result<Self, SerializationError>)
        ensures
            (r matches Ok(o) ==> bytes@ == Self::spec_versioned(o@)),
            forall|v: Self::V| bytes@ == Self::spec_versioned(v) ==> (r matches Ok(o) && o@ == v),
            (r matches Err(e) ==> e == SerializationError::PayloadDecodeError || e
                == SerializationError::ReconstructionError),
    ;
}

} // verus!
