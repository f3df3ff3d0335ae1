//! Serialization and deserialization of the integer containers through the
//! configurable entry points, with and without versioning.

use safe_serialization::config::{DeserializationConfig, SerializationConfig};
use safe_serialization::error::SerializationError;
use safe_serialization::integers::{FheInt, FheUint, IntegerConformanceParams, IntegerWidthId};

fn width(num_bits: u32) -> IntegerWidthId {
    IntegerWidthId::from_num_bits(num_bits).unwrap()
}

fn params(num_bits: u32, min_blocks: u64, max_blocks: u64) -> IntegerConformanceParams {
    IntegerConformanceParams {
        num_bits,
        min_blocks,
        max_blocks,
    }
}

#[test]
fn safe_deserialization_ct() {
    let msg = 2u64;
    let ct = FheInt::new(width(8), vec![msg]);

    let mut buffer = vec![];

    SerializationConfig::new(1 << 20)
        .disable_versioning()
        .serialize_into(&ct, &mut buffer)
        .unwrap();

    assert!(DeserializationConfig::new(1 << 20)
        .unwrap()
        .deserialize_from::<FheInt>(buffer.as_slice(), &params(6, 1, 1))
        .is_err());

    let ct2 = DeserializationConfig::new(1 << 20)
        .unwrap()
        .deserialize_from::<FheInt>(buffer.as_slice(), &params(8, 1, 1))
        .unwrap();

    assert_eq!(ct2, ct);
    assert_eq!(ct2.blocks()[0], msg);
}

#[test]
fn safe_deserialization_ct_versioned() {
    let msg = 2u64;
    let ct = FheInt::new(width(8), vec![msg]);

    let mut buffer = vec![];

    SerializationConfig::new(1 << 20)
        .serialize_into(&ct, &mut buffer)
        .unwrap();

    assert!(DeserializationConfig::new(1 << 20)
        .unwrap()
        .deserialize_from::<FheInt>(buffer.as_slice(), &params(6, 1, 1))
        .is_err());

    let ct2 = DeserializationConfig::new(1 << 20)
        .unwrap()
        .deserialize_from::<FheInt>(buffer.as_slice(), &params(8, 1, 1))
        .unwrap();

    assert_eq!(ct2, ct);
    assert_eq!(ct2.blocks()[0], msg);
}

#[test]
fn safe_deserialization_ct_list() {
    let msg = [27u64, 10, 3];

    let ct_list = FheUint::new(width(8), msg.to_vec());

    let mut buffer = vec![];

    SerializationConfig::new(1 << 20)
        .disable_versioning()
        .serialize_into(&ct_list, &mut buffer)
        .unwrap();

    for param_set in [
        params(6, 3, 3),
        params(8, 2, 2),
        params(8, 4, 4),
        params(8, 1, 2),
        params(8, 4, 5),
    ] {
        assert!(DeserializationConfig::new(1 << 20)
            .unwrap()
            .deserialize_from::<FheUint>(buffer.as_slice(), &param_set)
            .is_err());
    }

    for param_set in [
        params(8, 3, 3),
        params(8, 2, 3),
        params(8, 3, 4),
        params(8, 2, 4),
    ] {
        DeserializationConfig::new(1 << 20)
            .unwrap()
            .deserialize_from::<FheUint>(buffer.as_slice(), &param_set)
            .unwrap();
    }

    let ct2 = DeserializationConfig::new(1 << 20)
        .unwrap()
        .deserialize_from::<FheUint>(buffer.as_slice(), &params(8, 3, 3))
        .unwrap();

    assert_eq!(ct2, ct_list);
    assert_eq!(ct2.blocks().as_slice(), &msg[..]);
}

#[test]
fn safe_deserialization_ct_list_versioned() {
    let msg = [27u64, 10, 3];

    let ct_list = FheUint::new(width(8), msg.to_vec());

    let mut buffer = vec![];

    SerializationConfig::new(1 << 20)
        .serialize_into(&ct_list, &mut buffer)
        .unwrap();

    for param_set in [
        params(6, 3, 3),
        params(8, 2, 2),
        params(8, 4, 4),
        params(8, 1, 2),
        params(8, 4, 5),
    ] {
        assert!(DeserializationConfig::new(1 << 20)
            .unwrap()
            .deserialize_from::<FheUint>(buffer.as_slice(), &param_set)
            .is_err());
    }

    for param_set in [
        params(8, 3, 3),
        params(8, 2, 3),
        params(8, 3, 4),
        params(8, 2, 4),
    ] {
        DeserializationConfig::new(1 << 20)
            .unwrap()
            .deserialize_from::<FheUint>(buffer.as_slice(), &param_set)
            .unwrap();
    }

    let ct2 = DeserializationConfig::new(1 << 20)
        .unwrap()
        .deserialize_from::<FheUint>(buffer.as_slice(), &params(8, 3, 3))
        .unwrap();

    assert_eq!(ct2, ct_list);
    assert_eq!(ct2.blocks().as_slice(), &msg[..]);
}

#[test]
fn serialize_size_limit_exceeded() {
    let ct = FheInt::new(width(16), vec![1, 2, 3, 4, 5, 6, 7, 8]);
    let mut buffer = vec![];
    let r = SerializationConfig::new(10).serialize_into(&ct, &mut buffer);
    assert_eq!(r, Err(SerializationError::PayloadSizeExceeded));
    assert!(buffer.is_empty());

    let mut buffer = vec![];
    SerializationConfig::new(10)
        .disable_size_limit()
        .serialize_into(&ct, &mut buffer)
        .unwrap();
    assert!(!buffer.is_empty());

    let mut buffer = vec![];
    SerializationConfig::new_with_unlimited_size()
        .serialize_into(&ct, &mut buffer)
        .unwrap();
    assert!(!buffer.is_empty());
}

#[test]
fn deserialize_config_transitions() {
    let ct = FheInt::new(width(4), vec![9, 9]);
    let mut buffer = vec![];
    SerializationConfig::new_with_unlimited_size()
        .serialize_into(&ct, &mut buffer)
        .unwrap();

    // The non-conformance-checking state requires no parameter set.
    let ct2: FheInt = DeserializationConfig::new_with_unlimited_size()
        .disable_conformance()
        .deserialize_from(buffer.as_slice())
        .unwrap();
    assert_eq!(ct2, ct);

    // Going back to the conformance-checking state demands one again.
    let ct3: FheInt = DeserializationConfig::new_with_unlimited_size()
        .disable_conformance()
        .enable_conformance()
        .deserialize_from(buffer.as_slice(), &params(4, 2, 2))
        .unwrap();
    assert_eq!(ct3, ct);

    // A tiny limit is fine once size limiting is disabled.
    let ct4: FheInt = DeserializationConfig::new(1 << 20)
        .unwrap()
        .disable_size_limit()
        .disable_conformance()
        .deserialize_from(buffer.as_slice())
        .unwrap();
    assert_eq!(ct4, ct);
}

#[test]
fn deserialize_payload_budget_is_enforced() {
    let ct = FheInt::new(width(64), (0..200u64).collect());
    let mut buffer = vec![];
    SerializationConfig::new_with_unlimited_size()
        .serialize_into(&ct, &mut buffer)
        .unwrap();
    // The payload is 12 + 8 * 200 + 4 = 1616 bytes; a total limit of 2000
    // leaves a payload budget of only 1000 bytes.
    let r = DeserializationConfig::new(2000)
        .unwrap()
        .deserialize_from::<FheInt>(buffer.as_slice(), &params(64, 200, 200));
    assert_eq!(r, Err(SerializationError::PayloadDecodeError));

    let ct2 = DeserializationConfig::new(4000)
        .unwrap()
        .deserialize_from::<FheInt>(buffer.as_slice(), &params(64, 200, 200))
        .unwrap();
    assert_eq!(ct2, ct);

    // The smallest accepted limit leaves a payload budget of one byte: an
    // ordinary decode-size error, never an arithmetic fault.
    let r = DeserializationConfig::new(1001)
        .unwrap()
        .deserialize_from::<FheInt>(buffer.as_slice(), &params(64, 200, 200));
    assert_eq!(r, Err(SerializationError::PayloadDecodeError));
}

#[test]
fn width_lookup() {
    for bits in [2u32, 4, 6, 8, 10, 12, 14, 16, 32, 64, 128, 160, 256] {
        assert_eq!(IntegerWidthId::from_num_bits(bits).unwrap().num_bits(), bits);
    }
    for bits in [0u32, 1, 3, 7, 24, 100, 512] {
        assert!(IntegerWidthId::from_num_bits(bits).is_none());
    }
}
