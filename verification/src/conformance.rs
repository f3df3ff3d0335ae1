//! The conformance protocol: a decoded object can be checked for consistency
//! with a set of operating parameters, independently of decode success.

use vstd::prelude::*;

verus! {

/// A type whose values can be evaluated against a parameter set.
///
/// A structurally valid object may still have been produced under operating
/// parameters incompatible with the caller's: conformance checking rejects
/// such an object after it has been decoded.
pub trait ParameterSetConformant: View {
    /// The parameter set this type is evaluated against.
    type ParameterSet;

    /// What it means for a value (given by its abstract view) to be
    /// conformant with a parameter set.
    spec fn spec_conformant(v: Self::V, parameter_set: &Self::ParameterSet) -> bool;

    /// Evaluates whether this value is consistent with `parameter_set`.
    fn is_conformant(&self, parameter_set: &Self::ParameterSet) -> (r: bool)
        ensures
            r == Self::spec_conformant(self@, parameter_set),
    ;
}

} // verus!
