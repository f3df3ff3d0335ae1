//! The raw-encoding protocol: a type that can turn itself into bytes and be
//! rebuilt from them, without versioning information.

use vstd::prelude::*;
use crate::error::SerializationError;

verus! {

/// A type with a raw byte encoding, determined by its abstract value.
pub trait Serialize: View {
    /// The raw encoding of a value with abstract view `v`.
    spec fn spec_raw(v: Self::V) -> Seq<u8>;

    /// Encodes this value into its raw bytes.
    fn serialize_bytes(&self) -> (r: Vec<u8>)
        ensures
            r@ == Self::spec_raw(self@),
    ;
}

/// A type that can be rebuilt from its raw byte encoding.
///
/// Decoding inverts encoding: on the exact encoding of any abstract value
/// it succeeds and returns that value, and on every other byte string it
/// fails.
pub trait Deserialize: Serialize + Sized {
    /// Decodes a value from its raw bytes. The bytes must be the exact
    /// encoding of one value: nothing may precede or follow it.
    fn deserialize_bytes(bytes: &[u8]) -> (r: Result<Self, SerializationError>)
        ensures
            (r matches Ok(o) ==> bytes@ == Self::spec_raw(o@)),
            forall|v: Self::V| bytes@ == Self::spec_raw(v) ==> (r matches Ok(o) && o@ == v),
            (r matches Err(e) ==> e == SerializationError::PayloadDecodeError),
    ;
}

} // verus!
