//! The failure taxonomy of the serialization protocol.

use vstd::prelude::*;

verus! {

/// The reasons a safe serialization or deserialization call can fail.
///
/// Every error is reported synchronously to the caller; no partially
/// reconstructed object is ever returned alongside one.
#[derive(Clone, Copy, Debug, PartialEq, Eq, Structural)]
pub enum SerializationError {
    /// A reader-side size limit too small to leave any payload budget once
    /// the fixed header budget is taken out.
    ConfigError,
    /// The encoded header does not fit the writer's header byte budget.
    HeaderSizeExceeded,
    /// The encoded payload does not fit the writer's configured size limit.
    PayloadSizeExceeded,
    /// The header bytes are malformed or run past the header byte budget.
    HeaderDecodeError,
    /// The header schema version is not the one this library supports.
    HeaderVersionMismatch,
    /// A versioned payload was written under another versioning scheme.
    VersioningVersionMismatch,
    /// An unversioned payload was written by another library release.
    CrateVersionMismatch,
    /// The header names another type than the one the caller expects.
    TypeNameMismatch,
    /// The payload bytes are malformed or run past the payload byte budget.
    PayloadDecodeError,
    /// A versioned envelope carries a version this release cannot rebuild.
    ReconstructionError,
    /// The decoded object does not satisfy the given parameter set.
    ConformanceError,
}

impl SerializationError {
    /// The description each failure carries: one fixed text per variant. The
    /// crate-version-mismatch text recommends the versioned serialization
    /// mode, since unversioned data has no compatibility contract across
    /// releases.
    pub open spec fn spec_message(&self) -> Seq<char> {
        match self {
            SerializationError::ConfigError => "the provided size limit is too small: provide a limit above the header length limit, or 0 for no limit"@,
            SerializationError::HeaderSizeExceeded => "the serialized header exceeds the header length limit"@,
            SerializationError::PayloadSizeExceeded => "the serialized data exceeds the configured size limit"@,
            SerializationError::HeaderDecodeError => "the serialization header is malformed or exceeds the header length limit"@,
            SerializationError::HeaderVersionMismatch => "on deserialization, the header was written under an unsupported serialization scheme version"@,
            SerializationError::VersioningVersionMismatch => "on deserialization, the data was versioned under an unsupported versioning scheme version"@,
            SerializationError::CrateVersionMismatch => "this data has been saved by another library release, without versioning information: please use the versioned serialization mode for backward compatibility"@,
            SerializationError::TypeNameMismatch => "on deserialization, the header names a type other than the expected one"@,
            SerializationError::PayloadDecodeError => "the payload is malformed or exceeds the configured size limit"@,
            SerializationError::ReconstructionError => "the versioned payload could not be upgraded to the current version of its type"@,
            SerializationError::ConformanceError => "the deserialized object is not conformant with the given parameter set"@,
        }
    }

    /// A short description of the failure, for reporting to a caller:
    /// exactly the text [`Self::spec_message`] fixes for this variant.
    pub fn message(&self) -> (r: &'static str)
        ensures
            r@ == self.spec_message(),
    {
        match self {
            SerializationError::ConfigError => "the provided size limit is too small: provide a limit above the header length limit, or 0 for no limit",
            SerializationError::HeaderSizeExceeded => "the serialized header exceeds the header length limit",
            SerializationError::PayloadSizeExceeded => "the serialized data exceeds the configured size limit",
            SerializationError::HeaderDecodeError => "the serialization header is malformed or exceeds the header length limit",
            SerializationError::HeaderVersionMismatch => "on deserialization, the header was written under an unsupported serialization scheme version",
            SerializationError::VersioningVersionMismatch => "on deserialization, the data was versioned under an unsupported versioning scheme version",
            SerializationError::CrateVersionMismatch => "this data has been saved by another library release, without versioning information: please use the versioned serialization mode for backward compatibility",
            SerializationError::TypeNameMismatch => "on deserialization, the header names a type other than the expected one",
            SerializationError::PayloadDecodeError => "the payload is malformed or exceeds the configured size limit",
            SerializationError::ReconstructionError => "the versioned payload could not be upgraded to the current version of its type",
            SerializationError::ConformanceError => "the deserialized object is not conformant with the given parameter set",
        }
    }
}

} // verus!
