//! The self-describing header written before every payload, and its wire
//! encoding: a fixed-integer, length-prefixed binary record.

use vstd::prelude::*;
use vstd::bytes::*;
use vstd::slice::*;
use crate::error::SerializationError;
use crate::named::Named;
use crate::wire::{
    bytes_eq, lemma_parse_bstr_local, lemma_parse_bstr_of_encoding, lemma_parse_bstr_relax,
    lemma_parse_bstr_sound, read_bstr_at, read_u32_at, spec_bstr, spec_parse_bstr, spec_parse_u32,
    spec_within, write_bstr, write_u32,
};

verus! {

/// The maximum number of header bytes a reader will consume (when size
/// limiting is enabled) before giving up. It is independent of the
/// caller-chosen payload budget, so an oversized header is rejected before
/// any payload-sized work happens.
pub const HEADER_LENGTH_LIMIT: u64 = 1000;

/// The version of the serialization scheme itself ("0.5" in ASCII). It
/// changes when the header layout changes.
pub open spec fn spec_serialization_version() -> Seq<u8> {
    seq![48u8, 46u8, 53u8]
}

/// The version of the serialization scheme itself, as bytes.
pub fn serialization_version() -> (r: Vec<u8>)
    ensures
        r@ == spec_serialization_version(),
{
    let mut v: Vec<u8> = Vec::new();
    v.push(48u8);
    v.push(46u8);
    v.push(53u8);
    proof {
        assert(v@ =~= spec_serialization_version());
    }
    v
}

/// The version of the versioning scheme used for backward-compatible
/// envelopes ("0.1" in ASCII). It changes when the envelope scheme changes.
pub open spec fn spec_versioning_version() -> Seq<u8> {
    seq![48u8, 46u8, 49u8]
}

/// The version of the versioning scheme, as bytes.
pub fn versioning_version() -> (r: Vec<u8>)
    ensures
        r@ == spec_versioning_version(),
{
    let mut v: Vec<u8> = Vec::new();
    v.push(48u8);
    v.push(46u8);
    v.push(49u8);
    proof {
        assert(v@ =~= spec_versioning_version());
    }
    v
}

/// The major.minor version of this library ("0.1" in ASCII), used to reject
/// unversioned data that was written by another release.
pub open spec fn spec_crate_version() -> Seq<u8> {
    seq![48u8, 46u8, 49u8]
}

/// The major.minor version of this library, as bytes.
pub fn crate_version() -> (r: Vec<u8>)
    ensures
        r@ == spec_crate_version(),
{
    let mut v: Vec<u8> = Vec::new();
    v.push(48u8);
    v.push(46u8);
    v.push(49u8);
    proof {
        assert(v@ =~= spec_crate_version());
    }
    v
}

/// Tells whether a serialized object carries a versioned envelope or its
/// raw encoding.
#[derive(Clone)]
pub enum SerializationVersioningMode {
    /// The payload is a versioned envelope, for backward compatibility.
    Versioned {
        /// The version of the versioning scheme in use.
        versioning_version: Vec<u8>,
    },
    /// The payload is the raw encoding of the type, pinned to one release.
    Unversioned {
        /// The library release that wrote the data.
        crate_version: Vec<u8>,
    },
}

/// The abstract value of a [`SerializationVersioningMode`].
#[verifier::ext_equal]
pub enum VersioningModeView {
    /// The payload is a versioned envelope.
    Versioned { versioning_version: Seq<u8> },
    /// The payload is a raw encoding pinned to one release.
    Unversioned { crate_version: Seq<u8> },
}

impl View for SerializationVersioningMode {
    type V = VersioningModeView;

    open spec fn view(&self) -> VersioningModeView {
        match self {
            SerializationVersioningMode::Versioned { versioning_version } => (
                VersioningModeView::Versioned { versioning_version: versioning_version@ }
            ),
            SerializationVersioningMode::Unversioned { crate_version } => (
                VersioningModeView::Unversioned { crate_version: crate_version@ }
            ),
        }
    }
}

impl SerializationVersioningMode {
    /// The versioned mode, under the current versioning scheme.
    pub fn versioned() -> (r: Self)
        ensures
            r@ == (VersioningModeView::Versioned { versioning_version: spec_versioning_version() }),
    {
        SerializationVersioningMode::Versioned { versioning_version: versioning_version() }
    }

    /// The unversioned mode, pinned to the current release.
    pub fn unversioned() -> (r: Self)
        ensures
            r@ == (VersioningModeView::Unversioned { crate_version: spec_crate_version() }),
    {
        SerializationVersioningMode::Unversioned { crate_version: crate_version() }
    }
}

/// The wire tag of a versioning mode.
pub open spec fn spec_mode_tag(m: VersioningModeView) -> u32 {
    match m {
        VersioningModeView::Versioned { .. } => 0u32,
        VersioningModeView::Unversioned { .. } => 1u32,
    }
}

/// The version string a versioning mode carries.
pub open spec fn spec_mode_version(m: VersioningModeView) -> Seq<u8> {
    match m {
        VersioningModeView::Versioned { versioning_version } => versioning_version,
        VersioningModeView::Unversioned { crate_version } => crate_version,
    }
}

/// The header written before every payload: global metadata that lets a
/// reader check it can handle the data before it reads any of it.
pub struct SerializationHeader {
    /// The version of the serialization scheme that wrote this header.
    pub header_version: Vec<u8>,
    /// Whether the payload is versioned, and under which scheme or release.
    pub versioning_mode: SerializationVersioningMode,
    /// The stable name of the serialized type.
    pub name: Vec<u8>,
}

/// The abstract value of a [`SerializationHeader`].
#[verifier::ext_equal]
pub struct HeaderView {
    /// The version of the serialization scheme that wrote this header.
    pub header_version: Seq<u8>,
    /// Whether the payload is versioned, and under which scheme or release.
    pub versioning_mode: VersioningModeView,
    /// The stable name of the serialized type.
    pub name: Seq<u8>,
}

impl View for SerializationHeader {
    type V = HeaderView;

    open spec fn view(&self) -> HeaderView {
        HeaderView {
            header_version: self.header_version@,
            versioning_mode: self.versioning_mode@,
            name: self.name@,
        }
    }
}

/// The header this library writes for type name `name`: current scheme
/// versions throughout, versioned or unversioned per `versioned`.
pub open spec fn spec_write_header(versioned: bool, name: Seq<u8>) -> HeaderView {
    HeaderView {
        header_version: spec_serialization_version(),
        versioning_mode: if versioned {
            VersioningModeView::Versioned { versioning_version: spec_versioning_version() }
        } else {
            VersioningModeView::Unversioned { crate_version: spec_crate_version() }
        },
        name: name,
    }
}

/// The wire encoding of a header: its fields in order, strings as
/// length-prefixed records and the mode as a 32-bit tag plus its version.
pub open spec fn spec_header_bytes(h: HeaderView) -> Seq<u8> {
    spec_bstr(h.header_version) + spec_u32_to_le_bytes(spec_mode_tag(h.versioning_mode))
        + spec_bstr(spec_mode_version(h.versioning_mode)) + spec_bstr(h.name)
}

impl SerializationHeader {
    /// Creates the header for a versioned message of type `T`.
    pub fn new_versioned<T: Named>() -> (r: Self)
        ensures
            r@ == spec_write_header(true, T::spec_name()),
    {
        SerializationHeader {
            header_version: serialization_version(),
            versioning_mode: SerializationVersioningMode::versioned(),
            name: T::name(),
        }
    }

    /// Creates the header for an unversioned message of type `T`.
    pub fn new_unversioned<T: Named>() -> (r: Self)
        ensures
            r@ == spec_write_header(false, T::spec_name()),
    {
        SerializationHeader {
            header_version: serialization_version(),
            versioning_mode: SerializationVersioningMode::unversioned(),
            name: T::name(),
        }
    }
}

/// Encodes a header into its wire bytes.
pub fn encode_header(h: &SerializationHeader) -> (r: Vec<u8>)
    ensures
        r@ == spec_header_bytes(h@),
{
    let mut out: Vec<u8> = Vec::new();
    write_bstr(&mut out, h.header_version.as_slice());
    match &h.versioning_mode {
        SerializationVersioningMode::Versioned { versioning_version } => {
            write_u32(&mut out, 0);
            write_bstr(&mut out, versioning_version.as_slice());
        },
        SerializationVersioningMode::Unversioned { crate_version } => {
            write_u32(&mut out, 1);
            write_bstr(&mut out, crate_version.as_slice());
        },
    }
    write_bstr(&mut out, h.name.as_slice());
    proof {
        assert(out@ =~= spec_header_bytes(h@));
    }
    out
}

/// Parses a header from the front of `bytes` under budget `limit`: the
/// header and the offset where the payload starts, or `None` when the bytes
/// are malformed or the budget is exceeded.
pub open spec fn spec_parse_header(bytes: Seq<u8>, limit: u64) -> Option<(HeaderView, int)> {
    match spec_parse_bstr(bytes, 0, limit) {
        Some((header_version, p1)) => match spec_parse_u32(bytes, p1, limit) {
            Some((tag, p2)) => {
                if tag == 0 || tag == 1 {
                    match spec_parse_bstr(bytes, p2, limit) {
                        Some((mode_version, p3)) => match spec_parse_bstr(bytes, p3, limit) {
                            Some((name, p4)) => Some(
                                (
                                    HeaderView {
                                        header_version: header_version,
                                        versioning_mode: if tag == 0 {
                                            VersioningModeView::Versioned {
                                                versioning_version: mode_version,
                                            }
                                        } else {
                                            VersioningModeView::Unversioned {
                                                crate_version: mode_version,
                                            }
                                        },
                                        name: name,
                                    },
                                    p4,
                                ),
                            ),
                            None => None,
                        },
                        None => None,
                    }
                } else {
                    None
                }
            },
            None => None,
        },
        None => None,
    }
}

/// Decodes a header from the front of `bytes` under budget `limit`,
/// faithfully to [`spec_parse_header`]: the header and the offset where the
/// payload starts.
pub fn decode_header(bytes: &[u8], limit: u64) -> (r: Result<
    (SerializationHeader, usize),
    SerializationError,
>)
    ensures
        (r matches Ok(p) ==> spec_parse_header(bytes@, limit) == Some((p.0@, p.1 as int))
            && p.1 <= bytes@.len()),
        (r matches Err(e) ==> e == SerializationError::HeaderDecodeError && spec_parse_header(
            bytes@,
            limit,
        ) is None),
{
    let (header_version, p1) = match read_bstr_at(bytes, 0, limit) {
        Some(x) => x,
        None => {
            return Err(SerializationError::HeaderDecodeError);
        },
    };
    let (tag, p2) = match read_u32_at(bytes, p1, limit) {
        Some(x) => x,
        None => {
            return Err(SerializationError::HeaderDecodeError);
        },
    };
    if !(tag == 0 || tag == 1) {
        return Err(SerializationError::HeaderDecodeError);
    }
    let (mode_version, p3) = match read_bstr_at(bytes, p2, limit) {
        Some(x) => x,
        None => {
            return Err(SerializationError::HeaderDecodeError);
        },
    };
    let (name, p4) = match read_bstr_at(bytes, p3, limit) {
        Some(x) => x,
        None => {
            return Err(SerializationError::HeaderDecodeError);
        },
    };
    let versioning_mode = if tag == 0 {
        SerializationVersioningMode::Versioned { versioning_version: mode_version }
    } else {
        SerializationVersioningMode::Unversioned { crate_version: mode_version }
    };
    Ok((SerializationHeader { header_version, versioning_mode, name }, p4))
}

/// Whether every variable-length field of a header fits a 64-bit length
/// prefix. Headers held in [`SerializationHeader`] values always do.
pub open spec fn spec_header_lens_valid(h: HeaderView) -> bool {
    &&& h.header_version.len() < 0x1_0000_0000_0000_0000
    &&& spec_mode_version(h.versioning_mode).len() < 0x1_0000_0000_0000_0000
    &&& h.name.len() < 0x1_0000_0000_0000_0000
}

/// Parsing a header back out of its own encoding succeeds and returns
/// exactly that header, whatever bytes follow it, as long as the whole
/// encoding lies within the budget.
pub proof fn lemma_parse_header_of_encoding(h: HeaderView, rest: Seq<u8>, limit: u64)
    requires
        spec_header_lens_valid(h),
        spec_within(limit, spec_header_bytes(h).len() as int),
    ensures
        spec_header_bytes(h).len() == 28 + h.header_version.len() + spec_mode_version(
            h.versioning_mode,
        ).len() + h.name.len(),
        spec_parse_header(spec_header_bytes(h) + rest, limit) == Some(
            (h, spec_header_bytes(h).len() as int),
        ),
{
    lemma_auto_spec_u64_to_from_le_bytes();
    lemma_auto_spec_u32_to_from_le_bytes();
    let bytes = spec_header_bytes(h) + rest;
    let b1 = spec_bstr(h.header_version);
    let b2 = spec_u32_to_le_bytes(spec_mode_tag(h.versioning_mode));
    let b3 = spec_bstr(spec_mode_version(h.versioning_mode));
    let b4 = spec_bstr(h.name);
    let p1 = b1.len() as int;
    let p2 = p1 + 4;
    let p3 = p2 + b3.len();
    let p4 = p3 + b4.len();
    assert(bytes.subrange(0, p1) =~= b1);
    lemma_parse_bstr_of_encoding(bytes, 0, limit, h.header_version);
    assert(bytes.subrange(p1, p2) =~= b2);
    assert(spec_parse_u32(bytes, p1, limit) == Some((spec_mode_tag(h.versioning_mode), p2)));
    assert(bytes.subrange(p2, p3) =~= b3);
    lemma_parse_bstr_of_encoding(bytes, p2, limit, spec_mode_version(h.versioning_mode));
    assert(bytes.subrange(p3, p4) =~= b4);
    lemma_parse_bstr_of_encoding(bytes, p3, limit, h.name);
    match spec_parse_header(bytes, limit) {
        Some((h2, n)) => {
            assert(h2 =~= h);
            assert(n == p4);
        },
        None => {
            assert(false);
        },
    }
}

/// Whenever a header parses, what parsed is exactly the encoding of the
/// returned header: it sits at the very front of the bytes, and it ends
/// within the budget. In particular, under the standard header budget, no
/// accepted header is ever longer than [`HEADER_LENGTH_LIMIT`] bytes.
pub proof fn lemma_parse_header_sound(bytes: Seq<u8>, limit: u64)
    ensures
        spec_parse_header(bytes, limit) matches Some((h, n)) ==> {
            &&& 28 <= n <= bytes.len()
            &&& spec_within(limit, n)
            &&& spec_header_lens_valid(h)
            &&& n == spec_header_bytes(h).len()
            &&& bytes.subrange(0, n) == spec_header_bytes(h)
        },
{
    if spec_parse_header(bytes, limit) is Some {
        lemma_auto_spec_u64_to_from_le_bytes();
        lemma_auto_spec_u32_to_from_le_bytes();
        lemma_parse_bstr_sound(bytes, 0, limit);
        let (hv, p1) = spec_parse_bstr(bytes, 0, limit)->Some_0;
        let (tag, p2) = spec_parse_u32(bytes, p1, limit)->Some_0;
        lemma_parse_bstr_sound(bytes, p2, limit);
        let (mv, p3) = spec_parse_bstr(bytes, p2, limit)->Some_0;
        lemma_parse_bstr_sound(bytes, p3, limit);
        let (nm, p4) = spec_parse_bstr(bytes, p3, limit)->Some_0;
        let (h, n) = spec_parse_header(bytes, limit)->Some_0;
        assert(spec_u32_to_le_bytes(tag) == bytes.subrange(p1, p2));
        assert(bytes.subrange(0, n) =~= spec_header_bytes(h));
    }
}

/// A header parse that succeeds under some budget returns the same result
/// with the budget turned off.
pub proof fn lemma_parse_header_relax(bytes: Seq<u8>, limit: u64)
    ensures
        spec_parse_header(bytes, limit) matches Some(p) ==> spec_parse_header(bytes, 0) == Some(
            p,
        ),
{
    if spec_parse_header(bytes, limit) is Some {
        lemma_parse_bstr_relax(bytes, 0, limit);
        let (hv, p1) = spec_parse_bstr(bytes, 0, limit)->Some_0;
        let (tag, p2) = spec_parse_u32(bytes, p1, limit)->Some_0;
        lemma_parse_bstr_relax(bytes, p2, limit);
        let (mv, p3) = spec_parse_bstr(bytes, p2, limit)->Some_0;
        lemma_parse_bstr_relax(bytes, p3, limit);
    }
}

/// Under a nonzero budget no larger than the bytes at hand, parsing a
/// header looks only at the first `limit` bytes: truncating there changes
/// nothing. Bytes past the budget — in particular payload bytes — are never
/// read, whatever any length field claims.
pub proof fn lemma_parse_header_local(bytes: Seq<u8>, limit: u64)
    requires
        1 <= limit <= bytes.len(),
    ensures
        spec_parse_header(bytes, limit) == spec_parse_header(bytes.take(limit as int), limit),
{
    let t = bytes.take(limit as int);
    lemma_parse_bstr_local(bytes, 0, limit);
    match spec_parse_bstr(bytes, 0, limit) {
        Some((hv, p1)) => {
            lemma_parse_bstr_sound(bytes, 0, limit);
            if spec_within(limit, p1 + 4) {
                assert(bytes.subrange(p1, p1 + 4) =~= t.subrange(p1, p1 + 4));
            }
            match spec_parse_u32(bytes, p1, limit) {
                Some((tag, p2)) => {
                    lemma_parse_bstr_local(bytes, p2, limit);
                    match spec_parse_bstr(bytes, p2, limit) {
                        Some((mv, p3)) => {
                            lemma_parse_bstr_sound(bytes, p2, limit);
                            lemma_parse_bstr_local(bytes, p3, limit);
                        },
                        None => {},
                    }
                },
                None => {},
            }
        },
        None => {},
    }
}

/// A header crafted to exceed the header byte budget is rejected: parsing
/// under [`HEADER_LENGTH_LIMIT`] fails on any byte stream that begins with
/// the encoding of a header longer than that budget, whatever payload
/// follows it.
pub proof fn lemma_oversized_header_rejected(h: HeaderView, rest: Seq<u8>)
    requires
        spec_header_lens_valid(h),
        spec_header_bytes(h).len() > HEADER_LENGTH_LIMIT,
    ensures
        spec_parse_header(spec_header_bytes(h) + rest, HEADER_LENGTH_LIMIT) is None,
{
    let bytes = spec_header_bytes(h) + rest;
    if spec_parse_header(bytes, HEADER_LENGTH_LIMIT) is Some {
        let (h2, n) = spec_parse_header(bytes, HEADER_LENGTH_LIMIT)->Some_0;
        lemma_parse_header_sound(bytes, HEADER_LENGTH_LIMIT);
        lemma_parse_header_relax(bytes, HEADER_LENGTH_LIMIT);
        lemma_parse_header_of_encoding(h, rest, 0);
        assert(n == spec_header_bytes(h).len());
        assert(false);
    }
}

/// The validation verdict on a parsed header, for a reader expecting type
/// name `expected_name`: `None` when the header is acceptable, otherwise
/// the error. The header scheme version must be the current one; a
/// versioned header must carry the current versioning scheme version; an
/// unversioned header must carry the current library release, since
/// unversioned data has no compatibility guarantee across releases; and the
/// embedded type name must equal the expected one.
pub open spec fn spec_validate(h: HeaderView, expected_name: Seq<u8>) -> Option<
    SerializationError,
> {
    if h.header_version != spec_serialization_version() {
        Some(SerializationError::HeaderVersionMismatch)
    } else {
        match h.versioning_mode {
            VersioningModeView::Versioned { versioning_version } => {
                if versioning_version != spec_versioning_version() {
                    Some(SerializationError::VersioningVersionMismatch)
                } else if h.name != expected_name {
                    Some(SerializationError::TypeNameMismatch)
                } else {
                    None
                }
            },
            VersioningModeView::Unversioned { crate_version } => {
                if crate_version != spec_crate_version() {
                    Some(SerializationError::CrateVersionMismatch)
                } else if h.name != expected_name {
                    Some(SerializationError::TypeNameMismatch)
                } else {
                    None
                }
            },
        }
    }
}

impl SerializationHeader {
    /// Checks the validity of this header for a reader expecting type `T`.
    pub fn validate<T: Named>(&self) -> (r: Result<(), SerializationError>)
        ensures
            (r matches Ok(()) ==> spec_validate(self@, T::spec_name()) is None),
            (r matches Err(e) ==> spec_validate(self@, T::spec_name()) == Some(e)),
    {
        let current_header_version = serialization_version();
        if !bytes_eq(self.header_version.as_slice(), current_header_version.as_slice()) {
            return Err(SerializationError::HeaderVersionMismatch);
        }
        match &self.versioning_mode {
            SerializationVersioningMode::Versioned { versioning_version: embedded } => {
                let current = versioning_version();
                if !bytes_eq(embedded.as_slice(), current.as_slice()) {
                    return Err(SerializationError::VersioningVersionMismatch);
                }
            },
            SerializationVersioningMode::Unversioned { crate_version: embedded } => {
                let current = crate_version();
                if !bytes_eq(embedded.as_slice(), current.as_slice()) {
                    return Err(SerializationError::CrateVersionMismatch);
                }
            },
        }
        let expected_name = T::name();
        if !bytes_eq(self.name.as_slice(), expected_name.as_slice()) {
            return Err(SerializationError::TypeNameMismatch);
        }
        Ok(())
    }
}

} // verus!
