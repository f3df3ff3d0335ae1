//! A safe serialization protocol for persisting and exchanging large
//! cryptographic objects.
//!
//! Every payload is prefixed with a self-describing header that records the
//! header schema version, whether the payload carries a versioned envelope,
//! and the stable name of the serialized type. Reading back is defensive:
//! the header is parsed under a fixed byte budget before any payload-sized
//! work happens, the payload is parsed under a caller-chosen budget, and a
//! decoded object can additionally be gated on conformance with a set of
//! operating parameters.

pub mod config;
pub mod conformance;
pub mod error;
pub mod header;
pub mod integers;
pub mod named;
pub mod serializable;
pub mod versionable;
pub mod wire;
