//! End-to-end properties of the wire protocol: round trips, nominal type
//! identity, version gating, bounded header parsing, and the conformance
//! gate, including adversarially crafted inputs.

use bincode::Options;
use safe_serialization::config::{
    safe_deserialize, safe_deserialize_conformant, safe_serialize, DeserializationConfig,
    SerializationConfig,
};
use safe_serialization::error::SerializationError;
use safe_serialization::header::{encode_header, SerializationHeader, SerializationVersioningMode};
use safe_serialization::integers::{
    FheInt, FheUint, IntegerConformanceParams, IntegerWidthId,
};
use safe_serialization::serializable::Serialize;
use safe_serialization::versionable::Versionize;

fn width(num_bits: u32) -> IntegerWidthId {
    IntegerWidthId::from_num_bits(num_bits).unwrap()
}

fn params(num_bits: u32, min_blocks: u64, max_blocks: u64) -> IntegerConformanceParams {
    IntegerConformanceParams {
        num_bits,
        min_blocks,
        max_blocks,
    }
}

/// A crafted byte stream: the given header, then the given payload.
fn craft(header: &SerializationHeader, payload: &[u8]) -> Vec<u8> {
    let mut bytes = encode_header(header);
    bytes.extend_from_slice(payload);
    bytes
}

fn unversioned_header(crate_version: &[u8], name: &[u8]) -> SerializationHeader {
    SerializationHeader {
        header_version: b"0.5".to_vec(),
        versioning_mode: SerializationVersioningMode::Unversioned {
            crate_version: crate_version.to_vec(),
        },
        name: name.to_vec(),
    }
}

fn versioned_header(versioning_version: &[u8], name: &[u8]) -> SerializationHeader {
    SerializationHeader {
        header_version: b"0.5".to_vec(),
        versioning_mode: SerializationVersioningMode::Versioned {
            versioning_version: versioning_version.to_vec(),
        },
        name: name.to_vec(),
    }
}

#[test]
fn round_trip_conformant() {
    let ct = FheInt::new(width(16), vec![1, 2, 3, 4]);
    let mut buffer = vec![];
    safe_serialize(&ct, &mut buffer, 1 << 20).unwrap();
    let ct2: FheInt =
        safe_deserialize_conformant(buffer.as_slice(), 1 << 20, &params(16, 4, 4)).unwrap();
    assert_eq!(ct2, ct);
}

#[test]
fn versioned_and_unversioned_bytes_differ_but_both_round_trip() {
    let ct = FheUint::new(width(32), vec![5, 6]);

    let mut versioned = vec![];
    SerializationConfig::new(1 << 20)
        .serialize_into(&ct, &mut versioned)
        .unwrap();

    let mut unversioned = vec![];
    SerializationConfig::new(1 << 20)
        .disable_versioning()
        .serialize_into(&ct, &mut unversioned)
        .unwrap();

    assert_ne!(versioned, unversioned);

    let a: FheUint = safe_deserialize(versioned.as_slice(), 1 << 20).unwrap();
    let b: FheUint = safe_deserialize(unversioned.as_slice(), 1 << 20).unwrap();
    assert_eq!(a, ct);
    assert_eq!(b, ct);
}

#[test]
fn oversized_header_fails_before_payload() {
    let payload = FheInt::new(width(8), vec![1]).serialize_bytes();
    // A header whose type name alone exceeds the 1000-byte header budget.
    let header = unversioned_header(b"0.1", &[65u8; 2000]);

    let with_payload = craft(&header, &payload);
    let r: Result<FheInt, _> = safe_deserialize(with_payload.as_slice(), 1 << 20);
    assert_eq!(r, Err(SerializationError::HeaderDecodeError));

    // The verdict is the same with no payload at all: nothing after the
    // header budget is ever read.
    let without_payload = craft(&header, &[]);
    let r: Result<FheInt, _> = safe_deserialize(without_payload.as_slice(), 1 << 20);
    assert_eq!(r, Err(SerializationError::HeaderDecodeError));
}

#[test]
fn huge_claimed_length_fails_immediately() {
    // The first header field claims a gigantic length: the budget check
    // fires before any content is touched or allocated.
    let mut bytes = u64::MAX.to_le_bytes().to_vec();
    bytes.extend_from_slice(&[0u8; 64]);
    let r: Result<FheInt, _> = safe_deserialize(bytes.as_slice(), 1 << 20);
    assert_eq!(r, Err(SerializationError::HeaderDecodeError));
}

#[test]
fn type_name_mismatch_despite_identical_layout() {
    let int = FheInt::new(width(8), vec![42]);
    let uint = FheUint::new(width(8), vec![42]);
    // The two containers share one byte layout...
    assert_eq!(int.serialize_bytes(), uint.serialize_bytes());

    // ...but identity is nominal: reading one as the other fails.
    let mut buffer = vec![];
    safe_serialize(&int, &mut buffer, 1 << 20).unwrap();
    let r: Result<FheUint, _> = safe_deserialize(buffer.as_slice(), 1 << 20);
    assert_eq!(r, Err(SerializationError::TypeNameMismatch));

    let r: Result<FheInt, _> = safe_deserialize(buffer.as_slice(), 1 << 20);
    assert_eq!(r.unwrap(), int);
}

#[test]
fn conformance_gate() {
    let ct = FheInt::new(width(8), vec![3, 1]);
    let mut buffer = vec![];
    safe_serialize(&ct, &mut buffer, 1 << 20).unwrap();

    let good = params(8, 2, 2);
    let bad = params(16, 2, 2);

    let ct2: FheInt =
        safe_deserialize_conformant(buffer.as_slice(), 1 << 20, &good).unwrap();
    assert_eq!(ct2, ct);

    let r: Result<FheInt, _> = safe_deserialize_conformant(buffer.as_slice(), 1 << 20, &bad);
    assert_eq!(r, Err(SerializationError::ConformanceError));
}

#[test]
fn unsupported_width_fails_conformance() {
    // A width outside the named table decodes but never conforms.
    let payload = {
        let mut raw = 7u32.to_le_bytes().to_vec();
        raw.extend_from_slice(&1u64.to_le_bytes());
        raw.extend_from_slice(&9u64.to_le_bytes());
        raw
    };
    let bytes = craft(&unversioned_header(b"0.1", b"FheInt"), &payload);
    let decoded: FheInt = safe_deserialize(bytes.as_slice(), 1 << 20).unwrap();
    assert_eq!(decoded.width().num_bits(), 7);
    let r: Result<FheInt, _> =
        safe_deserialize_conformant(bytes.as_slice(), 1 << 20, &params(7, 1, 1));
    assert_eq!(r, Err(SerializationError::ConformanceError));
}

#[test]
fn small_size_limit_rejected_at_construction() {
    for limit in [1u64, 2, 500, 999, 1000] {
        let r = DeserializationConfig::new(limit);
        assert!(matches!(r, Err(SerializationError::ConfigError)));
    }
    assert!(DeserializationConfig::new(0).is_ok());
    assert!(DeserializationConfig::new(1001).is_ok());

    // Through the entry points the same rejection comes before any input
    // byte is looked at: even bytes that would otherwise decode fail the
    // same way.
    let mut buffer = vec![];
    safe_serialize(&FheInt::new(width(2), vec![1]), &mut buffer, 1 << 20).unwrap();
    let r: Result<FheInt, _> = safe_deserialize(buffer.as_slice(), 1000);
    assert_eq!(r, Err(SerializationError::ConfigError));
    let r: Result<FheInt, _> = safe_deserialize(&[], 1000);
    assert_eq!(r, Err(SerializationError::ConfigError));
}

#[test]
fn unversioned_data_from_other_release_rejected() {
    let ct = FheInt::new(width(8), vec![1]);
    let bytes = craft(
        &unversioned_header(b"9.9", b"FheInt"),
        &ct.serialize_bytes(),
    );
    let r: Result<FheInt, _> = safe_deserialize(bytes.as_slice(), 1 << 20);
    assert_eq!(r, Err(SerializationError::CrateVersionMismatch));
    assert!(r.unwrap_err().message().contains("versioned"));

    // The same payload in versioned form carries no release at all: it is
    // read back successfully whatever release wrote it, as long as the
    // versioning scheme version matches.
    let versioned_bytes = craft(
        &versioned_header(b"0.1", b"FheInt"),
        &ct.versionize_bytes(),
    );
    let ct2: FheInt = safe_deserialize(versioned_bytes.as_slice(), 1 << 20).unwrap();
    assert_eq!(ct2, ct);
}

#[test]
fn header_scheme_version_mismatches_rejected() {
    let ct = FheInt::new(width(8), vec![1]);

    let mut header = unversioned_header(b"0.1", b"FheInt");
    header.header_version = b"0.4".to_vec();
    let bytes = craft(&header, &ct.serialize_bytes());
    let r: Result<FheInt, _> = safe_deserialize(bytes.as_slice(), 1 << 20);
    assert_eq!(r, Err(SerializationError::HeaderVersionMismatch));

    let bytes = craft(&versioned_header(b"0.2", b"FheInt"), &ct.versionize_bytes());
    let r: Result<FheInt, _> = safe_deserialize(bytes.as_slice(), 1 << 20);
    assert_eq!(r, Err(SerializationError::VersioningVersionMismatch));
}

#[test]
fn header_validation_can_be_disabled() {
    let ct = FheInt::new(width(8), vec![1]);
    let bytes = craft(
        &unversioned_header(b"9.9", b"SomethingElse"),
        &ct.serialize_bytes(),
    );

    let r: Result<FheInt, _> = DeserializationConfig::new(1 << 20)
        .unwrap()
        .disable_conformance()
        .deserialize_from(bytes.as_slice());
    assert_eq!(r, Err(SerializationError::CrateVersionMismatch));

    let ct2: FheInt = DeserializationConfig::new(1 << 20)
        .unwrap()
        .disable_header_validation()
        .disable_conformance()
        .deserialize_from(bytes.as_slice())
        .unwrap();
    assert_eq!(ct2, ct);
}

#[test]
fn unknown_envelope_version_is_a_reconstruction_error() {
    let ct = FheInt::new(width(8), vec![1]);
    let mut envelope = ct.versionize_bytes();
    envelope[0] = 7;
    let bytes = craft(&versioned_header(b"0.1", b"FheInt"), &envelope);
    let r: Result<FheInt, _> = safe_deserialize(bytes.as_slice(), 1 << 20);
    assert_eq!(r, Err(SerializationError::ReconstructionError));
}

#[test]
fn malformed_payload_is_a_decode_error() {
    // A valid header followed by a truncated payload.
    let bytes = craft(&unversioned_header(b"0.1", b"FheInt"), &[1, 2, 3]);
    let r: Result<FheInt, _> = safe_deserialize(bytes.as_slice(), 1 << 20);
    assert_eq!(r, Err(SerializationError::PayloadDecodeError));

    // Trailing garbage after a complete payload is rejected too.
    let ct = FheInt::new(width(8), vec![1]);
    let mut payload = ct.serialize_bytes();
    payload.push(0);
    let bytes = craft(&unversioned_header(b"0.1", b"FheInt"), &payload);
    let r: Result<FheInt, _> = safe_deserialize(bytes.as_slice(), 1 << 20);
    assert_eq!(r, Err(SerializationError::PayloadDecodeError));
}

#[test]
fn header_encoding_matches_fixint_length_prefixed_reference() {
    // The header record is an ordinary fixed-integer, little-endian,
    // length-prefixed binary encoding: byte for byte what a generic binary
    // serializer produces for the same fields.
    let reference = bincode::DefaultOptions::new()
        .with_fixint_encoding()
        .serialize(&(
            "0.5".to_string(),
            0u32,
            "0.1".to_string(),
            "FheInt".to_string(),
        ))
        .unwrap();
    let ours = encode_header(&versioned_header(b"0.1", b"FheInt"));
    assert_eq!(ours, reference);

    let reference = bincode::DefaultOptions::new()
        .with_fixint_encoding()
        .serialize(&(
            "0.5".to_string(),
            1u32,
            "0.1".to_string(),
            "FheUint".to_string(),
        ))
        .unwrap();
    let ours = encode_header(&unversioned_header(b"0.1", b"FheUint"));
    assert_eq!(ours, reference);
}

#[test]
fn error_messages_describe_the_failure() {
    assert!(SerializationError::ConfigError.message().contains("size limit"));
    assert!(SerializationError::CrateVersionMismatch
        .message()
        .contains("versioned serialization mode"));
    assert!(SerializationError::TypeNameMismatch.message().contains("type"));
    assert_ne!(
        SerializationError::PayloadDecodeError.message(),
        SerializationError::ReconstructionError.message()
    );
}
