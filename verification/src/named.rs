//! Stable type names, used to check the identity of a serialized object.

use vstd::prelude::*;

verus! {

/// A type with a stable, unique name.
///
/// The name is embedded in every serialization header this library writes,
/// and compared on deserialization: identity is nominal, so two types with
/// identical byte layouts but different names are never confused for one
/// another.
pub trait Named {
    /// The name, as a mathematical byte string.
    spec fn spec_name() -> Seq<u8>;

    /// The stable name of this type.
    fn name() -> (r: Vec<u8>)
        ensures
            r@ == Self::spec_name(),
    ;
}

} // verus!
