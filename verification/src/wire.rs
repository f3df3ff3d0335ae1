//! Byte-level framing primitives: little-endian integers and
//! length-prefixed byte strings, written and parsed under a byte budget.
//!
//! Parsing is budgeted: before any group of bytes is read, its end offset is
//! checked against the budget, so a crafted length field can never cause
//! more than the budget to be touched. A budget of `0` means "unbounded".

use vstd::prelude::*;
use vstd::bytes::*;
use vstd::slice::*;

verus! {

/// A length-prefixed byte string: the length as a little-endian 64-bit
/// integer, followed by the bytes themselves.
pub open spec fn spec_bstr(s: Seq<u8>) -> Seq<u8> {
    spec_u64_to_le_bytes(s.len() as u64) + s
}

/// Whether reading up to offset `end` stays within the byte budget `limit`
/// (`limit == 0` means the budget is unbounded).
pub open spec fn spec_within(limit: u64, end: int) -> bool {
    limit == 0 || end <= limit
}

/// Parses a little-endian 64-bit integer at `pos` under budget `limit`:
/// the value and the offset after it, or `None` past the budget or the end.
pub open spec fn spec_parse_u64(bytes: Seq<u8>, pos: int, limit: u64) -> Option<(u64, int)> {
    if spec_within(limit, pos + 8) && pos + 8 <= bytes.len() {
        Some((spec_u64_from_le_bytes(bytes.subrange(pos, pos + 8)), pos + 8))
    } else {
        None
    }
}

/// Parses a little-endian 32-bit integer at `pos` under budget `limit`.
pub open spec fn spec_parse_u32(bytes: Seq<u8>, pos: int, limit: u64) -> Option<(u32, int)> {
    if spec_within(limit, pos + 4) && pos + 4 <= bytes.len() {
        Some((spec_u32_from_le_bytes(bytes.subrange(pos, pos + 4)), pos + 4))
    } else {
        None
    }
}

/// Parses a length-prefixed byte string at `pos` under budget `limit`. The
/// declared length is held against the budget before the content is read,
/// so an oversized length field fails without the content being touched.
pub open spec fn spec_parse_bstr(bytes: Seq<u8>, pos: int, limit: u64) -> Option<(Seq<u8>, int)> {
    match spec_parse_u64(bytes, pos, limit) {
        Some((len, p)) => {
            if spec_within(limit, p + len) && p + len <= bytes.len() {
                Some((bytes.subrange(p, p + len), p + len))
            } else {
                None
            }
        },
        None => None,
    }
}

/// Appends a little-endian 64-bit integer to `out`.
pub(crate) fn write_u64(out: &mut Vec<u8>, v: u64)
    ensures
        final(out)@ == old(out)@ + spec_u64_to_le_bytes(v),
{
    let mut b = u64_to_le_bytes(v);
    out.append(&mut b);
}

/// Appends a little-endian 32-bit integer to `out`.
pub(crate) fn write_u32(out: &mut Vec<u8>, v: u32)
    ensures
        final(out)@ == old(out)@ + spec_u32_to_le_bytes(v),
{
    let mut b = u32_to_le_bytes(v);
    out.append(&mut b);
}

/// Appends a length-prefixed byte string to `out`.
pub(crate) fn write_bstr(out: &mut Vec<u8>, s: &[u8])
    ensures
        final(out)@ == old(out)@ + spec_bstr(s@),
{
    write_u64(out, s.len() as u64);
    let mut content = slice_to_vec(s);
    out.append(&mut content);
    proof {
        assert(out@ =~= old(out)@ + spec_bstr(s@));
    }
}

/// Reads a little-endian 64-bit integer at `pos`, enforcing budget `limit`.
pub(crate) fn read_u64_at(bytes: &[u8], pos: usize, limit: u64) -> (r: Option<(u64, usize)>)
    requires
        pos <= bytes@.len(),
    ensures
        (r matches Some(p) ==> spec_parse_u64(bytes@, pos as int, limit) == Some((p.0, p.1 as int))
            && p.1 <= bytes@.len()),
        (r is None ==> spec_parse_u64(bytes@, pos as int, limit) is None),
{
    if limit != 0 && (pos as u128) + 8 > limit as u128 {
        return None;
    }
    if bytes.len() - pos < 8 {
        return None;
    }
    let end = pos + 8;
    let v = u64_from_le_bytes(slice_subrange(bytes, pos, end));
    Some((v, end))
}

/// Reads a little-endian 32-bit integer at `pos`, enforcing budget `limit`.
pub(crate) fn read_u32_at(bytes: &[u8], pos: usize, limit: u64) -> (r: Option<(u32, usize)>)
    requires
        pos <= bytes@.len(),
    ensures
        (r matches Some(p) ==> spec_parse_u32(bytes@, pos as int, limit) == Some((p.0, p.1 as int))
            && p.1 <= bytes@.len()),
        (r is None ==> spec_parse_u32(bytes@, pos as int, limit) is None),
{
    if limit != 0 && (pos as u128) + 4 > limit as u128 {
        return None;
    }
    if bytes.len() - pos < 4 {
        return None;
    }
    let end = pos + 4;
    let v = u32_from_le_bytes(slice_subrange(bytes, pos, end));
    Some((v, end))
}

/// Reads a length-prefixed byte string at `pos`, enforcing budget `limit`.
/// The declared length is checked against the budget and against the bytes
/// that are actually there before any content is copied.
pub(crate) fn read_bstr_at(bytes: &[u8], pos: usize, limit: u64) -> (r: Option<(Vec<u8>, usize)>)
    requires
        pos <= bytes@.len(),
    ensures
        (r matches Some(p) ==> spec_parse_bstr(bytes@, pos as int, limit) == Some((p.0@, p.1 as int))
            && p.1 <= bytes@.len()),
        (r is None ==> spec_parse_bstr(bytes@, pos as int, limit) is None),
{
    let (len, p) = match read_u64_at(bytes, pos, limit) {
        Some(x) => x,
        None => {
            return None;
        },
    };
    if limit != 0 && (p as u128) + (len as u128) > limit as u128 {
        return None;
    }
    if (len as u128) > (bytes.len() - p) as u128 {
        return None;
    }
    let end = p + (len as usize);
    let content = slice_to_vec(slice_subrange(bytes, p, end));
    Some((content, end))
}

/// Parsing a length-prefixed byte string back out of its own encoding
/// succeeds and returns exactly the string, whatever follows it, as long as
/// the whole record lies within the budget.
pub proof fn lemma_parse_bstr_of_encoding(bytes: Seq<u8>, pos: int, limit: u64, s: Seq<u8>)
    requires
        0 <= pos,
        s.len() < 0x1_0000_0000_0000_0000,
        pos + spec_bstr(s).len() <= bytes.len(),
        bytes.subrange(pos, pos + spec_bstr(s).len()) == spec_bstr(s),
        spec_within(limit, pos + spec_bstr(s).len()),
    ensures
        spec_bstr(s).len() == 8 + s.len(),
        spec_parse_bstr(bytes, pos, limit) == Some((s, pos + spec_bstr(s).len())),
{
    lemma_auto_spec_u64_to_from_le_bytes();
    let lb = spec_u64_to_le_bytes(s.len() as u64);
    let e = pos + spec_bstr(s).len();
    assert(bytes.subrange(pos, pos + 8) =~= lb);
    assert(spec_u64_from_le_bytes(lb) == s.len() as u64);
    assert(spec_parse_u64(bytes, pos, limit) == Some((s.len() as u64, pos + 8)));
    let sub = bytes.subrange(pos, e);
    assert forall|i: int| 0 <= i < s.len() implies bytes.subrange(pos + 8, e)[i] == s[i] by {
        assert(bytes.subrange(pos + 8, e)[i] == bytes[pos + 8 + i]);
        assert(sub[8 + i] == bytes[pos + 8 + i]);
        assert(spec_bstr(s)[8 + i] == s[i]);
    }
    assert(bytes.subrange(pos + 8, e) =~= s);
}

/// Whenever a length-prefixed byte string parses, what parsed is exactly
/// the encoding of the returned string, it sits where the parse started,
/// and it ends within the budget.
pub proof fn lemma_parse_bstr_sound(bytes: Seq<u8>, pos: int, limit: u64)
    requires
        0 <= pos,
    ensures
        spec_parse_bstr(bytes, pos, limit) matches Some((s, end)) ==> {
            &&& pos + 8 <= end <= bytes.len()
            &&& spec_within(limit, end)
            &&& s.len() == end - (pos + 8)
            &&& s.len() < 0x1_0000_0000_0000_0000
            &&& bytes.subrange(pos, end) == spec_bstr(s)
        },
{
    if spec_parse_bstr(bytes, pos, limit) is Some {
        lemma_auto_spec_u64_to_from_le_bytes();
        let lenv = spec_u64_from_le_bytes(bytes.subrange(pos, pos + 8));
        let p = pos + 8;
        let end = p + lenv;
        let s = bytes.subrange(p, end);
        assert(s.len() == lenv);
        assert(spec_u64_to_le_bytes(s.len() as u64) == bytes.subrange(pos, p));
        assert(bytes.subrange(pos, end) =~= spec_bstr(s));
    }
}

/// A parse that succeeds under some budget returns the same result with the
/// budget turned off.
pub proof fn lemma_parse_bstr_relax(bytes: Seq<u8>, pos: int, limit: u64)
    ensures
        spec_parse_bstr(bytes, pos, limit) matches Some(p) ==> spec_parse_bstr(bytes, pos, 0)
            == Some(p),
{
}

/// Under a nonzero budget no smaller than the bytes at hand, a parse only
/// ever looks at the first `limit` bytes: truncating there changes nothing.
/// In particular, what lies past the budget is never read.
pub proof fn lemma_parse_bstr_local(bytes: Seq<u8>, pos: int, limit: u64)
    requires
        0 <= pos,
        1 <= limit <= bytes.len(),
    ensures
        spec_parse_bstr(bytes, pos, limit) == spec_parse_bstr(
            bytes.take(limit as int),
            pos,
            limit,
        ),
{
    let t = bytes.take(limit as int);
    if spec_within(limit, pos + 8) && pos + 8 <= bytes.len() {
        assert(bytes.subrange(pos, pos + 8) =~= t.subrange(pos, pos + 8));
        let len = spec_u64_from_le_bytes(bytes.subrange(pos, pos + 8));
        let p = pos + 8;
        if spec_within(limit, p + len) {
            assert(p + len <= bytes.len());
            assert(p + len <= t.len());
            assert(bytes.subrange(p, p + len) =~= t.subrange(p, p + len));
        }
    }
}

/// Compares two byte slices for equality of their contents.
pub(crate) fn bytes_eq(a: &[u8], b: &[u8]) -> (r: bool)
    ensures
        r == (a@ == b@),
{
    if a.len() != b.len() {
        return false;
    }
    let n = a.len();
    let mut i: usize = 0;
    while i < n
        invariant
            n == a@.len(),
            n == b@.len(),
            i <= n,
            forall|j: int| 0 <= j < i ==> a@[j] == b@[j],
        decreases n - i,
    {
        if *slice_index_get(a, i) != *slice_index_get(b, i) {
            return false;
        }
        i += 1;
    }
    proof {
        assert(a@ =~= b@);
    }
    true
}

} // verus!
