//! The fixed-width integer containers: the concrete payload family of this
//! library.
//!
//! Instead of one hand-written alias per bit width, a single container type
//! is parameterized by a width value object, and the named widths are
//! obtained from a lookup. The numeric payload itself is opaque to this
//! subsystem — it is carried as radix blocks and only its bytes are moved.

use vstd::prelude::*;
use vstd::bytes::{
    lemma_auto_spec_u32_to_from_le_bytes, lemma_auto_spec_u64_to_from_le_bytes,
    spec_u32_to_le_bytes, spec_u64_from_le_bytes, spec_u64_to_le_bytes, u32_from_le_bytes,
    u64_from_le_bytes,
};
use vstd::slice::slice_subrange;
use crate::conformance::ParameterSetConformant;
use crate::error::SerializationError;
use crate::named::Named;
use crate::serializable::{Deserialize, Serialize};
use crate::versionable::{Unversionize, Versionize};
use crate::wire::{write_u32, write_u64};

verus! {

/// Whether `num_bits` is one of the widths this library names.
pub open spec fn spec_supported_width(num_bits: u32) -> bool {
    num_bits == 2 || num_bits == 4 || num_bits == 6 || num_bits == 8 || num_bits == 10
        || num_bits == 12 || num_bits == 14 || num_bits == 16 || num_bits == 32 || num_bits == 64
        || num_bits == 128 || num_bits == 160 || num_bits == 256
}

/// Whether `num_bits` is one of the widths this library names.
pub fn supported_width(num_bits: u32) -> (r: bool)
    ensures
        r == spec_supported_width(num_bits),
{
    num_bits == 2 || num_bits == 4 || num_bits == 6 || num_bits == 8 || num_bits == 10
        || num_bits == 12 || num_bits == 14 || num_bits == 16 || num_bits == 32 || num_bits == 64
        || num_bits == 128 || num_bits == 160 || num_bits == 256
}

/// The width identity of an integer container: a small value object naming
/// the number of bits of the integer type it stands for.
#[derive(Clone, Copy, Debug, PartialEq, Eq, Structural)]
pub struct IntegerWidthId {
    /// The number of bits.
    pub num_bits: u32,
}

impl IntegerWidthId {
    /// Looks `num_bits` up among the named widths: its id, or `None` for a
    /// width this library does not name.
    pub fn from_num_bits(num_bits: u32) -> (r: Option<IntegerWidthId>)
        ensures
            (r matches Some(id) ==> id.num_bits == num_bits),
            (r is Some <==> spec_supported_width(num_bits)),
    {
        if supported_width(num_bits) {
            Some(IntegerWidthId { num_bits })
        } else {
            None
        }
    }

    /// The number of bits this id stands for.
    pub fn num_bits(&self) -> (r: u32)
        ensures
            r == self.num_bits,
    {
        self.num_bits
    }
}

/// The abstract value of an integer container: its width in bits and the
/// radix blocks that carry its opaque numeric payload.
#[verifier::ext_equal]
pub struct RadixView {
    /// The width in bits.
    pub num_bits: u32,
    /// The radix blocks.
    pub blocks: Seq<u64>,
}

/// The encoding of a sequence of radix blocks: each block as a
/// little-endian 64-bit integer, in order.
pub open spec fn spec_blocks_bytes(blocks: Seq<u64>) -> Seq<u8>
    decreases blocks.len(),
{
    if blocks.len() == 0 {
        Seq::empty()
    } else {
        spec_u64_to_le_bytes(blocks[0]) + spec_blocks_bytes(blocks.drop_first())
    }
}

/// The raw encoding of an integer container: its width, then the number of
/// blocks, then the blocks, all as little-endian fixed-size integers.
pub open spec fn spec_radix_bytes(v: RadixView) -> Seq<u8> {
    spec_u32_to_le_bytes(v.num_bits) + spec_u64_to_le_bytes(v.blocks.len() as u64)
        + spec_blocks_bytes(v.blocks)
}

/// Block encodings have eight bytes per block.
pub proof fn lemma_blocks_bytes_len(blocks: Seq<u64>)
    ensures
        spec_blocks_bytes(blocks).len() == 8 * blocks.len(),
    decreases blocks.len(),
{
    lemma_auto_spec_u64_to_from_le_bytes();
    if blocks.len() != 0 {
        lemma_blocks_bytes_len(blocks.drop_first());
    }
}

/// Appending one block appends its eight bytes.
pub proof fn lemma_blocks_bytes_push(blocks: Seq<u64>, x: u64)
    ensures
        spec_blocks_bytes(blocks.push(x)) == spec_blocks_bytes(blocks) + spec_u64_to_le_bytes(x),
    decreases blocks.len(),
{
    lemma_auto_spec_u64_to_from_le_bytes();
    let pushed = blocks.push(x);
    assert(pushed.len() == blocks.len() + 1);
    assert(pushed[0] == if blocks.len() == 0 {
        x
    } else {
        blocks[0]
    });
    if blocks.len() == 0 {
        assert(pushed.drop_first() =~= Seq::<u64>::empty());
        assert(spec_blocks_bytes(pushed) == spec_u64_to_le_bytes(x) + spec_blocks_bytes(
            Seq::<u64>::empty(),
        ));
        assert(spec_blocks_bytes(pushed) =~= spec_blocks_bytes(blocks) + spec_u64_to_le_bytes(x));
    } else {
        assert(pushed.drop_first() =~= blocks.drop_first().push(x));
        lemma_blocks_bytes_push(blocks.drop_first(), x);
        assert(spec_blocks_bytes(pushed) == spec_u64_to_le_bytes(blocks[0]) + (spec_blocks_bytes(
            blocks.drop_first(),
        ) + spec_u64_to_le_bytes(x)));
        assert(spec_blocks_bytes(pushed) =~= spec_blocks_bytes(blocks) + spec_u64_to_le_bytes(x));
    }
}

/// A byte string that holds the encoding of each block of `blocks` in its
/// eight-byte chunks, and nothing else, is the encoding of `blocks`.
pub proof fn lemma_blocks_bytes_eq(blocks: Seq<u64>, bs: Seq<u8>)
    requires
        bs.len() == 8 * blocks.len(),
        forall|j: int|
            0 <= j < blocks.len() ==> bs.subrange(8 * j, 8 * j + 8) == spec_u64_to_le_bytes(
                #[trigger] blocks[j],
            ),
    ensures
        spec_blocks_bytes(blocks) == bs,
    decreases blocks.len(),
{
    lemma_auto_spec_u64_to_from_le_bytes();
    if blocks.len() == 0 {
        assert(spec_blocks_bytes(blocks) =~= bs);
    } else {
        let rest = bs.subrange(8, bs.len() as int);
        assert forall|j: int| 0 <= j < blocks.drop_first().len() implies rest.subrange(
            8 * j,
            8 * j + 8,
        ) == spec_u64_to_le_bytes(#[trigger] blocks.drop_first()[j]) by {
            assert(rest.subrange(8 * j, 8 * j + 8) =~= bs.subrange(
                8 * (j + 1),
                8 * (j + 1) + 8,
            ));
            assert(blocks.drop_first()[j] == blocks[j + 1]);
        }
        lemma_blocks_bytes_eq(blocks.drop_first(), rest);
        assert(bs.subrange(0, 8) == spec_u64_to_le_bytes(blocks[0]));
        assert(spec_blocks_bytes(blocks) =~= bs);
    }
}

/// Encodes a width and its blocks into the raw container bytes.
fn encode_radix(num_bits: u32, blocks: &Vec<u64>) -> (r: Vec<u8>)
    ensures
        r@ == spec_radix_bytes(RadixView { num_bits, blocks: blocks@ }),
{
    let mut out: Vec<u8> = Vec::new();
    write_u32(&mut out, num_bits);
    write_u64(&mut out, blocks.len() as u64);
    let n = blocks.len();
    let mut i: usize = 0;
    proof {
        assert(blocks@.take(0) =~= Seq::<u64>::empty());
    }
    while i < n
        invariant
            n == blocks@.len(),
            i <= n,
            out@ == spec_u32_to_le_bytes(num_bits) + spec_u64_to_le_bytes(n as u64)
                + spec_blocks_bytes(blocks@.take(i as int)),
        decreases n - i,
    {
        write_u64(&mut out, blocks[i]);
        proof {
            lemma_blocks_bytes_push(blocks@.take(i as int), blocks@[i as int]);
            assert(blocks@.take(i + 1) =~= blocks@.take(i as int).push(blocks@[i as int]));
            assert(out@ =~= spec_u32_to_le_bytes(num_bits) + spec_u64_to_le_bytes(n as u64)
                + spec_blocks_bytes(blocks@.take(i + 1)));
        }
        i += 1;
    }
    proof {
        assert(blocks@.take(n as int) =~= blocks@);
    }
    out
}

/// Decodes raw container bytes back into a width and its blocks. Inverts
/// [`encode_radix`]: on the exact encoding of any width and block sequence
/// it returns them, and on every other byte string it fails.
fn decode_radix(bytes: &[u8]) -> (r: Result<(u32, Vec<u64>), SerializationError>)
    ensures
        (r matches Ok(p) ==> bytes@ == spec_radix_bytes(
            RadixView { num_bits: p.0, blocks: p.1@ },
        )),
        forall|v: RadixView|
            bytes@ == spec_radix_bytes(v) ==> (r matches Ok(p) && p.0 == v.num_bits && p.1@
                == v.blocks),
        (r matches Err(e) ==> e == SerializationError::PayloadDecodeError),
{
    proof {
        lemma_auto_spec_u64_to_from_le_bytes();
        lemma_auto_spec_u32_to_from_le_bytes();
    }
    if bytes.len() < 12 {
        proof {
            assert forall|v: RadixView| bytes@ != spec_radix_bytes(v) by {
                lemma_blocks_bytes_len(v.blocks);
            }
        }
        return Err(SerializationError::PayloadDecodeError);
    }
    let num_bits = u32_from_le_bytes(slice_subrange(bytes, 0, 4));
    let count = u64_from_le_bytes(slice_subrange(bytes, 4, 12));
    if (bytes.len() as u128) != 12 + 8 * (count as u128) {
        proof {
            assert forall|v: RadixView| bytes@ != spec_radix_bytes(v) by {
                if bytes@ == spec_radix_bytes(v) {
                    lemma_blocks_bytes_len(v.blocks);
                    assert(bytes@.subrange(4, 12) =~= spec_u64_to_le_bytes(
                        v.blocks.len() as u64,
                    ));
                }
            }
        }
        return Err(SerializationError::PayloadDecodeError);
    }
    proof {
        assert(8 * (count as int) == bytes@.len() - 12);
        assert(count as int <= usize::MAX as int);
    }
    let count_us = count as usize;
    let mut blocks: Vec<u64> = Vec::new();
    let mut i: usize = 0;
    proof {
        assert(bytes@.len() <= usize::MAX);
    }
    while i < count_us
        invariant
            bytes@.len() == 12 + 8 * count_us,
            bytes@.len() <= usize::MAX,
            i <= count_us,
            blocks@.len() == i,
            forall|j: int|
                0 <= j < i ==> #[trigger] blocks@[j] == spec_u64_from_le_bytes(
                    bytes@.subrange(12 + 8 * j, 12 + 8 * j + 8),
                ),
        decreases count_us - i,
    {
        let start = 12 + 8 * i;
        let b = u64_from_le_bytes(slice_subrange(bytes, start, start + 8));
        blocks.push(b);
        i += 1;
    }
    proof {
        lemma_auto_spec_u64_to_from_le_bytes();
        lemma_auto_spec_u32_to_from_le_bytes();
        let rv = RadixView { num_bits, blocks: blocks@ };
        let content = bytes@.subrange(12, bytes@.len() as int);
        assert forall|j: int| 0 <= j < blocks@.len() implies content.subrange(8 * j, 8 * j + 8)
            == spec_u64_to_le_bytes(#[trigger] blocks@[j]) by {
            assert(content.subrange(8 * j, 8 * j + 8) =~= bytes@.subrange(
                12 + 8 * j,
                12 + 8 * j + 8,
            ));
        }
        lemma_blocks_bytes_eq(blocks@, content);
        assert(bytes@.subrange(0, 4) =~= spec_u32_to_le_bytes(num_bits));
        assert(bytes@.subrange(4, 12) =~= spec_u64_to_le_bytes(count));
        assert(bytes@ =~= spec_radix_bytes(rv));
        assert forall|v: RadixView| bytes@ == spec_radix_bytes(v) implies num_bits == v.num_bits
            && blocks@ == v.blocks by {
            lemma_blocks_bytes_len(v.blocks);
            assert(spec_radix_bytes(v).subrange(0, 4) =~= spec_u32_to_le_bytes(v.num_bits));
            assert(spec_radix_bytes(v).subrange(4, 12) =~= spec_u64_to_le_bytes(
                v.blocks.len() as u64,
            ));
            assert(v.blocks.len() == count_us);
            let vcontent = spec_radix_bytes(v).subrange(12, spec_radix_bytes(v).len() as int);
            assert(vcontent =~= spec_blocks_bytes(v.blocks));
            assert forall|j: int| 0 <= j < v.blocks.len() implies blocks@[j] == v.blocks[j] by {
                lemma_blocks_bytes_index(v.blocks, j);
                assert(bytes@.subrange(12 + 8 * j, 12 + 8 * j + 8) =~= spec_blocks_bytes(
                    v.blocks,
                ).subrange(8 * j, 8 * j + 8));
            }
            assert(blocks@ =~= v.blocks);
        }
    }
    Ok((num_bits, blocks))
}

/// The encoding of block `i` sits in the `i`-th eight-byte chunk.
pub proof fn lemma_blocks_bytes_index(blocks: Seq<u64>, i: int)
    requires
        0 <= i < blocks.len(),
    ensures
        spec_blocks_bytes(blocks).subrange(8 * i, 8 * i + 8) == spec_u64_to_le_bytes(blocks[i]),
    decreases i,
{
    lemma_auto_spec_u64_to_from_le_bytes();
    lemma_blocks_bytes_len(blocks);
    if i == 0 {
        lemma_blocks_bytes_len(blocks.drop_first());
        assert(spec_blocks_bytes(blocks).subrange(0, 8) =~= spec_u64_to_le_bytes(blocks[0]));
    } else {
        lemma_blocks_bytes_index(blocks.drop_first(), i - 1);
        lemma_blocks_bytes_len(blocks.drop_first());
        assert(spec_blocks_bytes(blocks).subrange(8 * i, 8 * i + 8) =~= spec_blocks_bytes(
            blocks.drop_first(),
        ).subrange(8 * (i - 1), 8 * (i - 1) + 8));
    }
}

} // verus!

verus! {

/// The envelope version of the integer containers that this release writes
/// and knows how to rebuild.
pub const RADIX_ENVELOPE_VERSION: u32 = 0;

/// Compares two block vectors for equality of their contents.
fn blocks_eq(a: &Vec<u64>, b: &Vec<u64>) -> (r: bool)
    ensures
        r == (a@ == b@),
{
    if a.len() != b.len() {
        return false;
    }
    let n = a.len();
    let mut i: usize = 0;
    while i < n
        invariant
            n == a@.len(),
            n == b@.len(),
            i <= n,
            forall|j: int| 0 <= j < i ==> a@[j] == b@[j],
        decreases n - i,
    {
        if a[i] != b[i] {
            return false;
        }
        i += 1;
    }
    proof {
        assert(a@ =~= b@);
    }
    true
}

/// The parameter set an integer container is checked against: the width it
/// must announce and the acceptable range of radix block counts.
#[derive(Clone, Copy, Debug, PartialEq, Eq, Structural)]
pub struct IntegerConformanceParams {
    /// The width, in bits, the container must announce.
    pub num_bits: u32,
    /// The smallest acceptable number of radix blocks.
    pub min_blocks: u64,
    /// The largest acceptable number of radix blocks.
    pub max_blocks: u64,
}

/// Whether an integer container value is consistent with a parameter set:
/// it announces the expected, supported width, and its block count lies in
/// the accepted range.
pub open spec fn spec_radix_conformant(v: RadixView, p: IntegerConformanceParams) -> bool {
    &&& v.num_bits == p.num_bits
    &&& spec_supported_width(v.num_bits)
    &&& p.min_blocks <= v.blocks.len() <= p.max_blocks
}

/// Checks an integer container value against a parameter set.
fn radix_conformant(width: IntegerWidthId, blocks: &Vec<u64>, p: &IntegerConformanceParams) -> (r:
    bool)
    ensures
        r == spec_radix_conformant(
            RadixView { num_bits: width.num_bits, blocks: blocks@ },
            *p,
        ),
{
    width.num_bits == p.num_bits && supported_width(width.num_bits) && p.min_blocks <= (
    blocks.len() as u64) && (blocks.len() as u64) <= p.max_blocks
}

/// A signed integer container of some width: the single generic form of
/// the per-width signed integer types. It carries its numeric payload as
/// opaque radix blocks; this subsystem only moves their bytes.
#[derive(Debug, Clone)]
pub struct FheInt {
    width: IntegerWidthId,
    blocks: Vec<u64>,
}

impl View for FheInt {
    type V = RadixView;

    closed spec fn view(&self) -> RadixView {
        RadixView { num_bits: self.width.num_bits, blocks: self.blocks@ }
    }
}

impl FheInt {
    /// Creates a signed container of width `width` over `blocks`.
    pub fn new(width: IntegerWidthId, blocks: Vec<u64>) -> (r: Self)
        ensures
            r@ == (RadixView { num_bits: width.num_bits, blocks: blocks@ }),
    {
        FheInt { width, blocks }
    }

    /// The width identity of this container.
    pub fn width(&self) -> (r: IntegerWidthId)
        ensures
            r.num_bits == self@.num_bits,
    {
        self.width
    }

    /// The radix blocks of this container.
    pub fn blocks(&self) -> (r: &Vec<u64>)
        ensures
            r@ == self@.blocks,
    {
        &self.blocks
    }
}

impl PartialEq for FheInt {
    fn eq(&self, other: &FheInt) -> (r: bool) {
        let r = self.width.num_bits == other.width.num_bits && blocks_eq(
            &self.blocks,
            &other.blocks,
        );
        proof {
            if r {
                assert(self@ =~= other@);
            }
        }
        r
    }
}

impl vstd::std_specs::cmp::PartialEqSpecImpl for FheInt {
    open spec fn obeys_eq_spec() -> bool {
        true
    }

    open spec fn eq_spec(&self, other: &FheInt) -> bool {
        self@ == other@
    }
}

impl Named for FheInt {
    open spec fn spec_name() -> Seq<u8> {
        seq![70u8, 104u8, 101u8, 73u8, 110u8, 116u8]
    }

    fn name() -> (r: Vec<u8>) {
        let mut v: Vec<u8> = Vec::new();
        v.push(70u8);
        v.push(104u8);
        v.push(101u8);
        v.push(73u8);
        v.push(110u8);
        v.push(116u8);
        proof {
            assert(v@ =~= Self::spec_name());
        }
        v
    }
}

impl Serialize for FheInt {
    open spec fn spec_raw(v: RadixView) -> Seq<u8> {
        spec_radix_bytes(v)
    }

    fn serialize_bytes(&self) -> (r: Vec<u8>) {
        encode_radix(self.width.num_bits, &self.blocks)
    }
}

impl Deserialize for FheInt {
    fn deserialize_bytes(bytes: &[u8]) -> (r: Result<Self, SerializationError>) {
        match decode_radix(bytes) {
            Ok((num_bits, blocks)) => {
                let r = FheInt { width: IntegerWidthId { num_bits }, blocks };
                proof {
                    assert forall|v: RadixView| bytes@ == spec_radix_bytes(v) implies r@ == v by {
                        assert(r@ =~= v);
                    }
                }
                Ok(r)
            },
            Err(e) => Err(e),
        }
    }
}

impl Versionize for FheInt {
    open spec fn spec_versioned(v: RadixView) -> Seq<u8> {
        spec_u32_to_le_bytes(RADIX_ENVELOPE_VERSION) + spec_radix_bytes(v)
    }

    fn versionize_bytes(&self) -> (r: Vec<u8>) {
        let mut out: Vec<u8> = Vec::new();
        write_u32(&mut out, RADIX_ENVELOPE_VERSION);
        let mut raw = encode_radix(self.width.num_bits, &self.blocks);
        out.append(&mut raw);
        out
    }
}

impl Unversionize for FheInt {
    fn unversionize(bytes: &[u8]) -> (r: Result<Self, SerializationError>) {
        proof {
            lemma_auto_spec_u32_to_from_le_bytes();
        }
        if bytes.len() < 4 {
            proof {
                assert forall|v: RadixView| bytes@ != Self::spec_versioned(v) by {
                    lemma_blocks_bytes_len(v.blocks);
                }
            }
            return Err(SerializationError::PayloadDecodeError);
        }
        let tag = u32_from_le_bytes(slice_subrange(bytes, 0, 4));
        proof {
            assert forall|v: RadixView| bytes@ == Self::spec_versioned(v) implies tag
                == RADIX_ENVELOPE_VERSION by {
                assert(bytes@.subrange(0, 4) =~= spec_u32_to_le_bytes(RADIX_ENVELOPE_VERSION));
            }
        }
        if tag != RADIX_ENVELOPE_VERSION {
            return Err(SerializationError::ReconstructionError);
        }
        let rest = slice_subrange(bytes, 4, bytes.len());
        proof {
            assert forall|v: RadixView| bytes@ == Self::spec_versioned(v) implies rest@
                == spec_radix_bytes(v) by {
                assert(bytes@.subrange(4, bytes@.len() as int) =~= spec_radix_bytes(v));
            }
        }
        match decode_radix(rest) {
            Ok((num_bits, blocks)) => {
                let r = FheInt { width: IntegerWidthId { num_bits }, blocks };
                proof {
                    assert(bytes@ =~= spec_u32_to_le_bytes(RADIX_ENVELOPE_VERSION) + rest@);
                    assert forall|v: RadixView| bytes@ == Self::spec_versioned(v) implies r@
                        == v by {
                        assert(rest@ == spec_radix_bytes(v));
                        assert(r@ =~= v);
                    }
                }
                Ok(r)
            },
            Err(e) => Err(e),
        }
    }
}

impl ParameterSetConformant for FheInt {
    type ParameterSet = IntegerConformanceParams;

    open spec fn spec_conformant(v: RadixView, parameter_set: &IntegerConformanceParams) -> bool {
        spec_radix_conformant(v, *parameter_set)
    }

    fn is_conformant(&self, parameter_set: &IntegerConformanceParams) -> (r: bool) {
        radix_conformant(self.width, &self.blocks, parameter_set)
    }
}

} // verus!

verus! {

/// An unsigned integer container of some width: the single generic form of
/// the per-width unsigned integer types. Its byte layout is identical to
/// [`FheInt`]'s — only its stable name differs, and that name alone keeps
/// the two apart on deserialization.
#[derive(Debug, Clone)]
pub struct FheUint {
    width: IntegerWidthId,
    blocks: Vec<u64>,
}

impl View for FheUint {
    type V = RadixView;

    closed spec fn view(&self) -> RadixView {
        RadixView { num_bits: self.width.num_bits, blocks: self.blocks@ }
    }
}

impl FheUint {
    /// Creates an unsigned container of width `width` over `blocks`.
    pub fn new(width: IntegerWidthId, blocks: Vec<u64>) -> (r: Self)
        ensures
            r@ == (RadixView { num_bits: width.num_bits, blocks: blocks@ }),
    {
        FheUint { width, blocks }
    }

    /// The width identity of this container.
    pub fn width(&self) -> (r: IntegerWidthId)
        ensures
            r.num_bits == self@.num_bits,
    {
        self.width
    }

    /// The radix blocks of this container.
    pub fn blocks(&self) -> (r: &Vec<u64>)
        ensures
            r@ == self@.blocks,
    {
        &self.blocks
    }
}

impl PartialEq for FheUint {
    fn eq(&self, other: &FheUint) -> (r: bool) {
        let r = self.width.num_bits == other.width.num_bits && blocks_eq(
            &self.blocks,
            &other.blocks,
        );
        proof {
            if r {
                assert(self@ =~= other@);
            }
        }
        r
    }
}

impl vstd::std_specs::cmp::PartialEqSpecImpl for FheUint {
    open spec fn obeys_eq_spec() -> bool {
        true
    }

    open spec fn eq_spec(&self, other: &FheUint) -> bool {
        self@ == other@
    }
}

impl Named for FheUint {
    open spec fn spec_name() -> Seq<u8> {
        seq![70u8, 104u8, 101u8, 85u8, 105u8, 110u8, 116u8]
    }

    fn name() -> (r: Vec<u8>) {
        let mut v: Vec<u8> = Vec::new();
        v.push(70u8);
        v.push(104u8);
        v.push(101u8);
        v.push(85u8);
        v.push(105u8);
        v.push(110u8);
        v.push(116u8);
        proof {
            assert(v@ =~= Self::spec_name());
        }
        v
    }
}

impl Serialize for FheUint {
    open spec fn spec_raw(v: RadixView) -> Seq<u8> {
        spec_radix_bytes(v)
    }

    fn serialize_bytes(&self) -> (r: Vec<u8>) {
        encode_radix(self.width.num_bits, &self.blocks)
    }
}

impl Deserialize for FheUint {
    fn deserialize_bytes(bytes: &[u8]) -> (r: Result<Self, SerializationError>) {
        match decode_radix(bytes) {
            Ok((num_bits, blocks)) => {
                let r = FheUint { width: IntegerWidthId { num_bits }, blocks };
                proof {
                    assert forall|v: RadixView| bytes@ == spec_radix_bytes(v) implies r@ == v by {
                        assert(r@ =~= v);
                    }
                }
                Ok(r)
            },
            Err(e) => Err(e),
        }
    }
}

impl Versionize for FheUint {
    open spec fn spec_versioned(v: RadixView) -> Seq<u8> {
        spec_u32_to_le_bytes(RADIX_ENVELOPE_VERSION) + spec_radix_bytes(v)
    }

    fn versionize_bytes(&self) -> (r: Vec<u8>) {
        let mut out: Vec<u8> = Vec::new();
        write_u32(&mut out, RADIX_ENVELOPE_VERSION);
        let mut raw = encode_radix(self.width.num_bits, &self.blocks);
        out.append(&mut raw);
        out
    }
}

impl Unversionize for FheUint {
    fn unversionize(bytes: &[u8]) -> (r: Result<Self, SerializationError>) {
        proof {
            lemma_auto_spec_u32_to_from_le_bytes();
        }
        if bytes.len() < 4 {
            proof {
                assert forall|v: RadixView| bytes@ != Self::spec_versioned(v) by {
                    lemma_blocks_bytes_len(v.blocks);
                }
            }
            return Err(SerializationError::PayloadDecodeError);
        }
        let tag = u32_from_le_bytes(slice_subrange(bytes, 0, 4));
        proof {
            assert forall|v: RadixView| bytes@ == Self::spec_versioned(v) implies tag
                == RADIX_ENVELOPE_VERSION by {
                assert(bytes@.subrange(0, 4) =~= spec_u32_to_le_bytes(RADIX_ENVELOPE_VERSION));
            }
        }
        if tag != RADIX_ENVELOPE_VERSION {
            return Err(SerializationError::ReconstructionError);
        }
        let rest = slice_subrange(bytes, 4, bytes.len());
        proof {
            assert forall|v: RadixView| bytes@ == Self::spec_versioned(v) implies rest@
                == spec_radix_bytes(v) by {
                assert(bytes@.subrange(4, bytes@.len() as int) =~= spec_radix_bytes(v));
            }
        }
        match decode_radix(rest) {
            Ok((num_bits, blocks)) => {
                let r = FheUint { width: IntegerWidthId { num_bits }, blocks };
                proof {
                    assert(bytes@ =~= spec_u32_to_le_bytes(RADIX_ENVELOPE_VERSION) + rest@);
                    assert forall|v: RadixView| bytes@ == Self::spec_versioned(v) implies r@
                        == v by {
                        assert(rest@ == spec_radix_bytes(v));
                        assert(r@ =~= v);
                    }
                }
                Ok(r)
            },
            Err(e) => Err(e),
        }
    }
}

impl ParameterSetConformant for FheUint {
    type ParameterSet = IntegerConformanceParams;

    open spec fn spec_conformant(v: RadixView, parameter_set: &IntegerConformanceParams) -> bool {
        spec_radix_conformant(v, *parameter_set)
    }

    fn is_conformant(&self, parameter_set: &IntegerConformanceParams) -> (r: bool) {
        radix_conformant(self.width, &self.blocks, parameter_set)
    }
}

/// The names of the two container families differ: nominal identity keeps
/// them apart even though their byte layouts coincide.
pub proof fn lemma_container_names_differ()
    ensures
        <FheInt as Named>::spec_name() != <FheUint as Named>::spec_name(),
{
    assert(<FheInt as Named>::spec_name()[3] == 73u8);
    assert(<FheUint as Named>::spec_name()[3] == 85u8);
    assert(<FheInt as Named>::spec_name().len() != <FheUint as Named>::spec_name().len());
}

} // verus!
