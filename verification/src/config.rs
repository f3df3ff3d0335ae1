//! The writer-side and reader-side configurations, and the safe
//! serialization entry points built on them.
//!
//! A writer config decides whether the object is versioned and how many
//! payload bytes may be written. A reader config decides how many payload
//! bytes may be read and whether the header is validated; its two states —
//! conformance-checking and not — are distinct types, so skipping the
//! conformance gate is always an explicit, visible transition.

use vstd::prelude::*;
use vstd::slice::slice_subrange;
use crate::conformance::ParameterSetConformant;
use crate::error::SerializationError;
use crate::header::{
    decode_header, encode_header, spec_header_bytes, spec_parse_header, spec_validate,
    spec_write_header, HeaderView, SerializationHeader, SerializationVersioningMode,
    VersioningModeView, HEADER_LENGTH_LIMIT,
};
use crate::named::Named;
use crate::serializable::{Deserialize, Serialize};
use crate::versionable::{Unversionize, Versionize};
use crate::wire::spec_within;

verus! {

/// The header byte budget that goes with payload size limit `size_limit`:
/// the fixed header budget, or no budget at all when size limiting is off.
pub open spec fn spec_header_limit(size_limit: u64) -> u64 {
    if size_limit == 0 {
        0
    } else {
        HEADER_LENGTH_LIMIT
    }
}

/// Whether `size_limit` is acceptable for reading: either unbounded, or
/// large enough that a positive payload budget remains once the fixed
/// header budget is taken out.
pub open spec fn spec_read_limit_ok(size_limit: u64) -> bool {
    size_limit == 0 || size_limit > HEADER_LENGTH_LIMIT
}

/// The payload bytes a writer produces for an object with abstract value
/// `v`: its versioned envelope, or its raw encoding.
pub open spec fn spec_payload_bytes<T: Serialize + Versionize>(versioned: bool, v: T::V) -> Seq<
    u8,
> {
    if versioned {
        T::spec_versioned(v)
    } else {
        T::spec_raw(v)
    }
}

/// Everything a writer produces for an object with abstract value `v`: the
/// header for type `T`, then the payload.
pub open spec fn spec_serialized_bytes<T: Serialize + Versionize + Named>(
    versioned: bool,
    v: T::V,
) -> Seq<u8> {
    spec_header_bytes(spec_write_header(versioned, T::spec_name())) + spec_payload_bytes::<T>(
        versioned,
        v,
    )
}

/// How far the reader-side pipeline gets before the payload bytes are
/// handed to the type itself.
#[verifier::ext_equal]
pub enum ReadStep {
    /// The pipeline fails on its own: a malformed or over-budget header, a
    /// failed header validation, or a payload over budget.
    Fail {
        /// The error the pipeline reports.
        error: SerializationError,
    },
    /// The pipeline hands these payload bytes to the type for decoding.
    Proceed {
        /// Whether the header announced a versioned envelope.
        versioned: bool,
        /// The payload bytes, everything after the header.
        payload: Seq<u8>,
    },
}

/// The reader-side pipeline on `bytes`, for a reader with size limit
/// `size_limit` and header validation per `validate`, expecting type name
/// `expected_name`: the header is parsed under the fixed header budget
/// (independent of `size_limit`), optionally validated, and the remaining
/// payload is held against the remaining budget.
pub open spec fn spec_read_prelude(
    size_limit: u64,
    validate: bool,
    expected_name: Seq<u8>,
    bytes: Seq<u8>,
) -> ReadStep {
    match spec_parse_header(bytes, spec_header_limit(size_limit)) {
        None => ReadStep::Fail { error: SerializationError::HeaderDecodeError },
        Some((h, n)) => {
            let verdict = if validate {
                spec_validate(h, expected_name)
            } else {
                None
            };
            match verdict {
                Some(e) => ReadStep::Fail { error: e },
                None => {
                    let payload = bytes.subrange(n, bytes.len() as int);
                    if size_limit != 0 && payload.len() > size_limit - HEADER_LENGTH_LIMIT {
                        ReadStep::Fail { error: SerializationError::PayloadDecodeError }
                    } else {
                        ReadStep::Proceed {
                            versioned: h.versioning_mode is Versioned,
                            payload: payload,
                        }
                    }
                },
            }
        },
    }
}

/// What deserialization without a conformance gate guarantees, given the
/// reader's size limit and validation flag, the input bytes, and the
/// result: the pipeline's own verdict is final on failure, and on the
/// payload bytes of any abstract value the matching value is returned.
pub open spec fn spec_deserialize_post<T: Deserialize + Unversionize + Named>(
    size_limit: u64,
    validate: bool,
    bytes: Seq<u8>,
    r: Result<T, SerializationError>,
) -> bool {
    let step = spec_read_prelude(size_limit, validate, T::spec_name(), bytes);
    &&& (step matches ReadStep::Fail { error } ==> r matches Err(e) && e == error)
    &&& (step matches ReadStep::Proceed { versioned, payload } ==> (if versioned {
        &&& (r matches Ok(o) ==> payload == T::spec_versioned(o@))
        &&& (forall|v: T::V| payload == T::spec_versioned(v) ==> (r matches Ok(o) && o@ == v))
        &&& (r matches Err(e) ==> e == SerializationError::PayloadDecodeError || e
            == SerializationError::ReconstructionError)
    } else {
        &&& (r matches Ok(o) ==> payload == T::spec_raw(o@))
        &&& (forall|v: T::V| payload == T::spec_raw(v) ==> (r matches Ok(o) && o@ == v))
        &&& (r matches Err(e) ==> e == SerializationError::PayloadDecodeError)
    }))
}

/// What deserialization with the conformance gate guarantees: as
/// [`spec_deserialize_post`], and additionally every returned value is
/// conformant with the given parameter set, while a payload whose value is
/// not conformant is rejected with a conformance error — distinct from,
/// and after, the decode-stage errors.
pub open spec fn spec_deserialize_conformant_post<
    T: Deserialize + Unversionize + Named + ParameterSetConformant,
>(
    size_limit: u64,
    validate: bool,
    bytes: Seq<u8>,
    parameter_set: &T::ParameterSet,
    r: Result<T, SerializationError>,
) -> bool {
    let step = spec_read_prelude(size_limit, validate, T::spec_name(), bytes);
    &&& (step matches ReadStep::Fail { error } ==> r matches Err(e) && e == error)
    &&& (step matches ReadStep::Proceed { versioned, payload } ==> (if versioned {
        &&& (r matches Ok(o) ==> payload == T::spec_versioned(o@) && T::spec_conformant(
            o@,
            parameter_set,
        ))
        &&& (forall|v: T::V|
            payload == T::spec_versioned(v) && T::spec_conformant(v, parameter_set) ==> (
            r matches Ok(o) && o@ == v))
        &&& (forall|v: T::V|
            payload == T::spec_versioned(v) && !T::spec_conformant(v, parameter_set) ==> (
            r matches Err(e) && e == SerializationError::ConformanceError))
        &&& (r matches Err(e) ==> e == SerializationError::PayloadDecodeError || e
            == SerializationError::ReconstructionError || e
            == SerializationError::ConformanceError)
    } else {
        &&& (r matches Ok(o) ==> payload == T::spec_raw(o@) && T::spec_conformant(
            o@,
            parameter_set,
        ))
        &&& (forall|v: T::V|
            payload == T::spec_raw(v) && T::spec_conformant(v, parameter_set) ==> (
            r matches Ok(o) && o@ == v))
        &&& (forall|v: T::V|
            payload == T::spec_raw(v) && !T::spec_conformant(v, parameter_set) ==> (
            r matches Err(e) && e == SerializationError::ConformanceError))
        &&& (r matches Err(e) ==> e == SerializationError::PayloadDecodeError || e
            == SerializationError::ConformanceError)
    }))
}

/// A configuration used to serialize objects: whether the object is
/// versioned, and the maximum byte size of the written payload.
#[derive(Clone)]
pub struct SerializationConfig {
    versioned: SerializationVersioningMode,
    serialized_size_limit: u64,
}

impl SerializationConfig {
    /// Whether this configuration writes versioned envelopes.
    pub closed spec fn spec_versioned(&self) -> bool {
        self.versioned@ is Versioned
    }

    /// The payload size limit in bytes; `0` means unbounded.
    pub closed spec fn spec_size_limit(&self) -> u64 {
        self.serialized_size_limit
    }

    /// Creates a new serialization configuration. The object will be
    /// serialized with versioning information for backward compatibility.
    /// `serialized_size_limit` is the size limit, in bytes, of the
    /// serialized payload (the header is not counted against it).
    pub fn new(serialized_size_limit: u64) -> (r: Self)
        ensures
            r.spec_versioned(),
            r.spec_size_limit() == serialized_size_limit,
    {
        SerializationConfig {
            versioned: SerializationVersioningMode::versioned(),
            serialized_size_limit,
        }
    }

    /// Creates a new serialization configuration without any size check.
    pub fn new_with_unlimited_size() -> (r: Self)
        ensures
            r.spec_versioned(),
            r.spec_size_limit() == 0,
    {
        SerializationConfig {
            versioned: SerializationVersioningMode::versioned(),
            serialized_size_limit: 0,
        }
    }

    /// Disables the size limit for serialized objects.
    pub fn disable_size_limit(self) -> (r: Self)
        ensures
            r.spec_versioned() == self.spec_versioned(),
            r.spec_size_limit() == 0,
    {
        SerializationConfig { serialized_size_limit: 0, ..self }
    }

    /// Disables the versioning of serialized objects.
    pub fn disable_versioning(self) -> (r: Self)
        ensures
            !r.spec_versioned(),
            r.spec_size_limit() == self.spec_size_limit(),
    {
        SerializationConfig { versioned: SerializationVersioningMode::unversioned(), ..self }
    }

    /// Creates the serialization header this configuration writes for `T`.
    fn create_header<T: Named>(&self) -> (r: SerializationHeader)
        ensures
            r@ == spec_write_header(self.spec_versioned(), T::spec_name()),
    {
        match &self.versioned {
            SerializationVersioningMode::Versioned { .. } => (
                SerializationHeader::new_versioned::<T>()
            ),
            SerializationVersioningMode::Unversioned { .. } => (
                SerializationHeader::new_unversioned::<T>()
            ),
        }
    }

    /// The byte budget for the written header.
    fn header_length_limit(&self) -> (r: u64)
        ensures
            r == spec_header_limit(self.spec_size_limit()),
    {
        if self.serialized_size_limit == 0 {
            0
        } else {
            HEADER_LENGTH_LIMIT
        }
    }

    /// Serializes an object into `writer`, based on this configuration: the
    /// header, then the payload, each under its own byte budget. The bytes
    /// can be read back with `DeserializationConfig::deserialize_from`.
    ///
    /// Succeeds exactly when both records fit their budgets; on failure the
    /// writer is left untouched.
    pub fn serialize_into<T: Serialize + Versionize + Named>(
        self,
        object: &T,
        writer: &mut Vec<u8>,
    ) -> (r: Result<(), SerializationError>)
        ensures
            ({
                let header_bytes = spec_header_bytes(
                    spec_write_header(self.spec_versioned(), T::spec_name()),
                );
                let payload = spec_payload_bytes::<T>(self.spec_versioned(), object@);
                let header_fits = spec_within(
                    spec_header_limit(self.spec_size_limit()),
                    header_bytes.len() as int,
                );
                let payload_fits = spec_within(self.spec_size_limit(), payload.len() as int);
                &&& (r matches Ok(()) <==> header_fits && payload_fits)
                &&& (r matches Ok(()) ==> final(writer)@ == old(writer)@
                    + spec_serialized_bytes::<T>(self.spec_versioned(), object@))
                &&& (r matches Err(e) ==> final(writer)@ == old(writer)@ && e == (if !header_fits {
                    SerializationError::HeaderSizeExceeded
                } else {
                    SerializationError::PayloadSizeExceeded
                }))
            }),
    {
        let header = self.create_header::<T>();
        let mut header_bytes = encode_header(&header);
        let header_limit = self.header_length_limit();
        if header_limit != 0 && (header_bytes.len() as u64) > header_limit {
            return Err(SerializationError::HeaderSizeExceeded);
        }
        let mut payload = match &self.versioned {
            SerializationVersioningMode::Versioned { .. } => object.versionize_bytes(),
            SerializationVersioningMode::Unversioned { .. } => object.serialize_bytes(),
        };
        if self.serialized_size_limit != 0 && (payload.len() as u64) > self.serialized_size_limit {
            return Err(SerializationError::PayloadSizeExceeded);
        }
        writer.append(&mut header_bytes);
        writer.append(&mut payload);
        proof {
            assert(writer@ =~= old(writer)@ + spec_serialized_bytes::<T>(
                self.spec_versioned(),
                object@,
            ));
        }
        Ok(())
    }
}

/// A configuration used to deserialize objects, with the conformance gate:
/// its `deserialize_from` demands a parameter set and rejects a decoded
/// object that is not conformant with it.
#[derive(Copy, Clone)]
pub struct DeserializationConfig {
    serialized_size_limit: u64,
    validate_header: bool,
}

/// A configuration used to deserialize objects without the conformance
/// gate. It is deliberately a distinct type, reached only through
/// [`DeserializationConfig::disable_conformance`], so a caller can never
/// skip the conformance check while believing it happened.
#[derive(Copy, Clone)]
pub struct NonConformantDeserializationConfig {
    serialized_size_limit: u64,
    validate_header: bool,
}

impl NonConformantDeserializationConfig {
    /// The total size limit in bytes; `0` means unbounded.
    pub closed spec fn spec_size_limit(&self) -> u64 {
        self.serialized_size_limit
    }

    /// Whether the header is validated after parsing.
    pub closed spec fn spec_validate_header(&self) -> bool {
        self.validate_header
    }

    /// The size limit leaves a positive payload budget after the header
    /// budget. Every constructor and transition establishes this.
    pub closed spec fn wf(&self) -> bool {
        spec_read_limit_ok(self.serialized_size_limit)
    }

    /// The byte budget for the header to be read.
    fn header_length_limit(&self) -> (r: u64)
        ensures
            r == spec_header_limit(self.spec_size_limit()),
    {
        if self.serialized_size_limit == 0 {
            0
        } else {
            HEADER_LENGTH_LIMIT
        }
    }

    /// Deserializes an object serialized by
    /// `SerializationConfig::serialize_into` from `reader`, performing the
    /// configured sanity checks but skipping any conformance check: the
    /// header is read under the fixed header budget, optionally validated,
    /// and the payload is read under the remaining budget and handed to the
    /// type to decode.
    pub fn deserialize_from<T: Deserialize + Unversionize + Named>(self, reader: &[u8]) -> (r:
        Result<T, SerializationError>)
        requires
            self.wf(),
        ensures
            spec_deserialize_post::<T>(
                self.spec_size_limit(),
                self.spec_validate_header(),
                reader@,
                r,
            ),
    {
        let header_limit = self.header_length_limit();
        let (header, consumed) = match decode_header(reader, header_limit) {
            Ok(x) => x,
            Err(e) => {
                return Err(e);
            },
        };
        if self.validate_header {
            match header.validate::<T>() {
                Ok(()) => {},
                Err(e) => {
                    return Err(e);
                },
            }
        }
        let payload = slice_subrange(reader, consumed, reader.len());
        if self.serialized_size_limit != 0 {
            let budget = self.serialized_size_limit - HEADER_LENGTH_LIMIT;
            if (payload.len() as u64) > budget {
                return Err(SerializationError::PayloadDecodeError);
            }
        }
        match &header.versioning_mode {
            SerializationVersioningMode::Versioned { .. } => T::unversionize(payload),
            SerializationVersioningMode::Unversioned { .. } => T::deserialize_bytes(payload),
        }
    }

    /// Enables the conformance gate on an existing configuration.
    pub fn enable_conformance(self) -> (r: DeserializationConfig)
        ensures
            r.spec_size_limit() == self.spec_size_limit(),
            r.spec_validate_header() == self.spec_validate_header(),
            r.wf() == self.wf(),
    {
        DeserializationConfig {
            serialized_size_limit: self.serialized_size_limit,
            validate_header: self.validate_header,
        }
    }
}

impl DeserializationConfig {
    /// The total size limit in bytes; `0` means unbounded.
    pub closed spec fn spec_size_limit(&self) -> u64 {
        self.serialized_size_limit
    }

    /// Whether the header is validated after parsing.
    pub closed spec fn spec_validate_header(&self) -> bool {
        self.validate_header
    }

    /// The size limit leaves a positive payload budget after the header
    /// budget. Every constructor and transition establishes this.
    pub closed spec fn wf(&self) -> bool {
        spec_read_limit_ok(self.serialized_size_limit)
    }

    /// Creates a new deserialization configuration.
    ///
    /// By default it validates the header: the serialization scheme
    /// version, the versioning scheme version or writing release, and the
    /// name of the deserialized type. `serialized_size_limit` is the total
    /// size limit in bytes (`0` for unbounded); a nonzero limit must leave
    /// a positive payload budget once the fixed header budget is taken out,
    /// and is rejected here — immediately, before any input is read —
    /// otherwise.
    pub fn new(serialized_size_limit: u64) -> (r: Result<Self, SerializationError>)
        ensures
            (r is Ok <==> spec_read_limit_ok(serialized_size_limit)),
            (r matches Ok(c) ==> c.wf() && c.spec_size_limit() == serialized_size_limit
                && c.spec_validate_header()),
            (r matches Err(e) ==> e == SerializationError::ConfigError),
    {
        if serialized_size_limit != 0 && serialized_size_limit <= HEADER_LENGTH_LIMIT {
            return Err(SerializationError::ConfigError);
        }
        Ok(DeserializationConfig { serialized_size_limit, validate_header: true })
    }

    /// Creates a new configuration without any size limit.
    pub fn new_with_unlimited_size() -> (r: Self)
        ensures
            r.wf(),
            r.spec_size_limit() == 0,
            r.spec_validate_header(),
    {
        DeserializationConfig { serialized_size_limit: 0, validate_header: true }
    }

    /// Disables the size limit for the serialized objects.
    pub fn disable_size_limit(self) -> (r: Self)
        ensures
            r.wf(),
            r.spec_size_limit() == 0,
            r.spec_validate_header() == self.spec_validate_header(),
    {
        DeserializationConfig { serialized_size_limit: 0, ..self }
    }

    /// Disables the header validation: the serialized object is no longer
    /// checked to be the one that is supposed to be loaded, nor to be
    /// compatible with this release.
    pub fn disable_header_validation(self) -> (r: Self)
        ensures
            r.spec_size_limit() == self.spec_size_limit(),
            !r.spec_validate_header(),
            r.wf() == self.wf(),
    {
        DeserializationConfig { validate_header: false, ..self }
    }

    /// Disables the conformance gate, moving to the explicitly
    /// non-conformance-checking configuration type.
    pub fn disable_conformance(self) -> (r: NonConformantDeserializationConfig)
        ensures
            r.spec_size_limit() == self.spec_size_limit(),
            r.spec_validate_header() == self.spec_validate_header(),
            r.wf() == self.wf(),
    {
        NonConformantDeserializationConfig {
            serialized_size_limit: self.serialized_size_limit,
            validate_header: self.validate_header,
        }
    }

    /// Deserializes an object serialized by
    /// `SerializationConfig::serialize_into` from `reader`, performing the
    /// configured sanity checks and, last, the conformance gate: a decoded
    /// object that is not conformant with `parameter_set` is rejected.
    pub fn deserialize_from<T: Deserialize + Unversionize + Named + ParameterSetConformant>(
        self,
        reader: &[u8],
        parameter_set: &T::ParameterSet,
    ) -> (r: Result<T, SerializationError>)
        requires
            self.wf(),
        ensures
            spec_deserialize_conformant_post::<T>(
                self.spec_size_limit(),
                self.spec_validate_header(),
                reader@,
                parameter_set,
                r,
            ),
    {
        let deser: T = match self.disable_conformance().deserialize_from::<T>(reader) {
            Ok(o) => o,
            Err(e) => {
                return Err(e);
            },
        };
        if !deser.is_conformant(parameter_set) {
            return Err(SerializationError::ConformanceError);
        }
        Ok(deser)
    }
}

/// Serializes an object with the default configuration: versioned, with the
/// given payload size limit. An alias for
/// `SerializationConfig::new(serialized_size_limit).serialize_into`.
pub fn safe_serialize<T: Serialize + Versionize + Named>(
    object: &T,
    writer: &mut Vec<u8>,
    serialized_size_limit: u64,
) -> (r: Result<(), SerializationError>)
    ensures
        ({
            let header_bytes = spec_header_bytes(spec_write_header(true, T::spec_name()));
            let payload = T::spec_versioned(object@);
            let header_fits = spec_within(
                spec_header_limit(serialized_size_limit),
                header_bytes.len() as int,
            );
            let payload_fits = spec_within(serialized_size_limit, payload.len() as int);
            &&& (r matches Ok(()) <==> header_fits && payload_fits)
            &&& (r matches Ok(()) ==> final(writer)@ == old(writer)@ + spec_serialized_bytes::<T>(
                true,
                object@,
            ))
            &&& (r matches Err(e) ==> final(writer)@ == old(writer)@ && e == (if !header_fits {
                SerializationError::HeaderSizeExceeded
            } else {
                SerializationError::PayloadSizeExceeded
            }))
        }),
{
    SerializationConfig::new(serialized_size_limit).serialize_into(object, writer)
}

/// Deserializes an object with the default checks (size limit and header
/// validation) but no conformance gate. An alias for
/// `DeserializationConfig::new(serialized_size_limit)` followed by
/// `disable_conformance().deserialize_from`; a size limit that leaves no
/// payload budget is rejected before any input is read.
pub fn safe_deserialize<T: Deserialize + Unversionize + Named>(
    reader: &[u8],
    serialized_size_limit: u64,
) -> (r: Result<T, SerializationError>)
    ensures
        (!spec_read_limit_ok(serialized_size_limit) ==> (r matches Err(e) && e
            == SerializationError::ConfigError)),
        (spec_read_limit_ok(serialized_size_limit) ==> spec_deserialize_post::<T>(
            serialized_size_limit,
            true,
            reader@,
            r,
        )),
{
    let config = match DeserializationConfig::new(serialized_size_limit) {
        Ok(c) => c,
        Err(e) => {
            return Err(e);
        },
    };
    config.disable_conformance().deserialize_from::<T>(reader)
}

/// Deserializes an object with the default checks and the conformance
/// gate. An alias for
/// `DeserializationConfig::new(serialized_size_limit).deserialize_from`; a
/// size limit that leaves no payload budget is rejected before any input
/// is read.
pub fn safe_deserialize_conformant<
    T: Deserialize + Unversionize + Named + ParameterSetConformant,
>(reader: &[u8], serialized_size_limit: u64, parameter_set: &T::ParameterSet) -> (r: Result<
    T,
    SerializationError,
>)
    ensures
        (!spec_read_limit_ok(serialized_size_limit) ==> (r matches Err(e) && e
            == SerializationError::ConfigError)),
        (spec_read_limit_ok(serialized_size_limit) ==> spec_deserialize_conformant_post::<T>(
            serialized_size_limit,
            true,
            reader@,
            parameter_set,
            r,
        )),
{
    let config = match DeserializationConfig::new(serialized_size_limit) {
        Ok(c) => c,
        Err(e) => {
            return Err(e);
        },
    };
    config.deserialize_from::<T>(reader, parameter_set)
}

} // verus!

// What follows are the protocol-level laws, stated over the same spec
// functions the contracts above use.

use crate::header::{
    lemma_oversized_header_rejected, lemma_parse_header_of_encoding, spec_crate_version,
    spec_header_lens_valid, spec_serialization_version, spec_versioning_version,
};
use crate::wire::spec_bstr;
use vstd::bytes::{
    lemma_auto_spec_u32_to_from_le_bytes, lemma_auto_spec_u64_to_from_le_bytes,
    spec_u32_to_le_bytes,
};

verus! {

/// Round trip: the bytes `serialize_into` writes for an object of type `T`
/// with abstract value `v` are carried by the reader-side pipeline — header
/// validation included — all the way to the payload step, as exactly the
/// payload that was written, whenever the reader's size limit admits them.
/// Together with the contract of `deserialize_from`, any value
/// deserialization returns from those bytes has abstract value `v`.
pub proof fn lemma_round_trip<T: Deserialize + Unversionize + Named>(
    versioned: bool,
    read_size_limit: u64,
    v: T::V,
)
    requires
        T::spec_name().len() < 0x1_0000_0000_0000_0000,
        read_size_limit == 0 || (read_size_limit > HEADER_LENGTH_LIMIT && spec_header_bytes(
            spec_write_header(versioned, T::spec_name()),
        ).len() <= HEADER_LENGTH_LIMIT && spec_payload_bytes::<T>(versioned, v).len()
            <= read_size_limit - HEADER_LENGTH_LIMIT),
    ensures
        spec_read_prelude(
            read_size_limit,
            true,
            T::spec_name(),
            spec_serialized_bytes::<T>(versioned, v),
        ) == (ReadStep::Proceed {
            versioned,
            payload: spec_payload_bytes::<T>(versioned, v),
        }),
{
    let h = spec_write_header(versioned, T::spec_name());
    let payload = spec_payload_bytes::<T>(versioned, v);
    let bytes = spec_serialized_bytes::<T>(versioned, v);
    let hlimit = spec_header_limit(read_size_limit);
    lemma_parse_header_of_encoding(h, payload, hlimit);
    let n = spec_header_bytes(h).len() as int;
    assert(spec_parse_header(bytes, hlimit) == Some((h, n)));
    assert(spec_validate(h, T::spec_name()) is None);
    assert(bytes.subrange(n, bytes.len() as int) =~= payload);
}

/// With size limiting on, a header crafted to exceed the fixed header
/// budget is rejected by the reader pipeline with a header decode error,
/// whatever payload follows it and whatever any of its length fields
/// claims: the payload bytes are never reached.
pub proof fn lemma_oversized_header_read_rejected(
    size_limit: u64,
    validate: bool,
    expected_name: Seq<u8>,
    h: HeaderView,
    rest: Seq<u8>,
)
    requires
        size_limit != 0,
        spec_header_lens_valid(h),
        spec_header_bytes(h).len() > HEADER_LENGTH_LIMIT,
    ensures
        spec_read_prelude(size_limit, validate, expected_name, spec_header_bytes(h) + rest) == (
        ReadStep::Fail { error: SerializationError::HeaderDecodeError }),
{
    lemma_oversized_header_rejected(h, rest);
}

/// Versioned and unversioned writes differ in their bytes — already in
/// their headers, whatever the two payloads are — for any type name. Both
/// kinds of bytes round-trip under a matching configuration, by
/// `lemma_round_trip`.
pub proof fn lemma_versioned_unversioned_bytes_differ(
    name: Seq<u8>,
    versioned_payload: Seq<u8>,
    unversioned_payload: Seq<u8>,
)
    ensures
        spec_header_bytes(spec_write_header(true, name)) + versioned_payload != spec_header_bytes(
            spec_write_header(false, name),
        ) + unversioned_payload,
{
    lemma_auto_spec_u64_to_from_le_bytes();
    lemma_auto_spec_u32_to_from_le_bytes();
    let s1 = spec_header_bytes(spec_write_header(true, name)) + versioned_payload;
    let s2 = spec_header_bytes(spec_write_header(false, name)) + unversioned_payload;
    let p1 = spec_bstr(spec_serialization_version()).len() as int;
    assert(s1.subrange(p1, p1 + 4) =~= spec_u32_to_le_bytes(0u32));
    assert(s2.subrange(p1, p1 + 4) =~= spec_u32_to_le_bytes(1u32));
    if s1 == s2 {
        assert(spec_u32_to_le_bytes(0u32) == spec_u32_to_le_bytes(1u32));
        assert(false);
    }
}

/// Nominal identity: bytes written for a type named `written` are rejected
/// by a validating reader that expects a different name — with the
/// type-name-mismatch error — even when the payload would decode perfectly
/// under the expected type, as it does when two types share one byte
/// layout.
pub proof fn lemma_type_name_mismatch(
    versioned: bool,
    size_limit: u64,
    written: Seq<u8>,
    expected: Seq<u8>,
    payload: Seq<u8>,
)
    requires
        written != expected,
        written.len() < 0x1_0000_0000_0000_0000,
        spec_within(
            spec_header_limit(size_limit),
            spec_header_bytes(spec_write_header(versioned, written)).len() as int,
        ),
    ensures
        spec_read_prelude(
            size_limit,
            true,
            expected,
            spec_header_bytes(spec_write_header(versioned, written)) + payload,
        ) == (ReadStep::Fail { error: SerializationError::TypeNameMismatch }),
{
    let h = spec_write_header(versioned, written);
    lemma_parse_header_of_encoding(h, payload, spec_header_limit(size_limit));
    assert(spec_validate(h, expected) == Some(SerializationError::TypeNameMismatch));
}

/// Unversioned data has no compatibility contract across releases: a
/// validating reader rejects an unversioned header whose embedded release
/// differs from the current one, with the crate-version-mismatch error
/// (whose message recommends the versioned mode), before it looks at the
/// payload at all. A versioned header embeds no release, so a release
/// change alone can never invalidate versioned data.
pub proof fn lemma_unversioned_release_mismatch(
    size_limit: u64,
    other_release: Seq<u8>,
    name: Seq<u8>,
    payload: Seq<u8>,
)
    requires
        other_release != spec_crate_version(),
        other_release.len() < 0x1_0000_0000_0000_0000,
        name.len() < 0x1_0000_0000_0000_0000,
        spec_within(
            spec_header_limit(size_limit),
            spec_header_bytes(
                HeaderView {
                    header_version: spec_serialization_version(),
                    versioning_mode: VersioningModeView::Unversioned {
                        crate_version: other_release,
                    },
                    name: name,
                },
            ).len() as int,
        ),
    ensures
        spec_read_prelude(
            size_limit,
            true,
            name,
            spec_header_bytes(
                HeaderView {
                    header_version: spec_serialization_version(),
                    versioning_mode: VersioningModeView::Unversioned {
                        crate_version: other_release,
                    },
                    name: name,
                },
            ) + payload,
        ) == (ReadStep::Fail { error: SerializationError::CrateVersionMismatch }),
{
    let h = HeaderView {
        header_version: spec_serialization_version(),
        versioning_mode: VersioningModeView::Unversioned { crate_version: other_release },
        name: name,
    };
    lemma_parse_header_of_encoding(h, payload, spec_header_limit(size_limit));
    assert(spec_validate(h, name) == Some(SerializationError::CrateVersionMismatch));
}

/// A versioned header validates independently of any library release: its
/// verdict is fixed by the header scheme version, the versioning scheme
/// version and the type names alone.
pub proof fn lemma_versioned_header_validation(h: HeaderView, expected: Seq<u8>)
    requires
        h.versioning_mode matches VersioningModeView::Versioned { .. },
    ensures
        spec_validate(h, expected) == (if h.header_version != spec_serialization_version() {
            Some(SerializationError::HeaderVersionMismatch)
        } else if (h.versioning_mode matches VersioningModeView::Versioned { versioning_version }
            && versioning_version != spec_versioning_version()) {
            Some(SerializationError::VersioningVersionMismatch)
        } else if h.name != expected {
            Some(SerializationError::TypeNameMismatch)
        } else {
            None::<SerializationError>
        }),
{
}

} // verus!
