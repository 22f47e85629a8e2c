//! A minimal binary codec for one fixed-shape record.
//!
//! A [`Record`] holds two unsigned 32-bit fields. [`encode`] writes them as
//! exactly 8 bytes, each field little-endian, `field_a` first; [`decode`]
//! reads such a buffer back, rejecting any buffer whose length is not 8.

use vstd::bytes::lemma_auto_spec_u32_to_from_le_bytes;
use vstd::bytes::spec_u32_from_le_bytes;
use vstd::bytes::spec_u32_to_le_bytes;
use vstd::bytes::u32_from_le_bytes;
use vstd::bytes::u32_to_le_bytes;
use vstd::prelude::*;
use vstd::slice::slice_subrange;

verus! {

/// The number of bytes in every encoded record: two 4-byte fields.
pub const RECORD_LEN: usize = 8;

/// A record of exactly two unsigned 32-bit fields. Every pair of `u32`
/// values is a valid record; it has no identity beyond its field values.
#[derive(Clone, Copy, Debug, PartialEq, Eq, Structural)]
pub struct Record {
    pub field_a: u32,
    pub field_b: u32,
}

/// The one way this codec fails: the buffer handed to [`decode`] does not
/// hold exactly [`RECORD_LEN`] bytes.
#[derive(Clone, Copy, Debug, PartialEq, Eq, Structural)]
pub enum CodecError {
    MalformedRecord,
}

/// The byte sequence that encodes a record: bytes 0..4 are `field_a`
/// little-endian, bytes 4..8 are `field_b` little-endian.
pub open spec fn spec_encode(r: Record) -> Seq<u8> {
    spec_u32_to_le_bytes(r.field_a) + spec_u32_to_le_bytes(r.field_b)
}

/// The record that an 8-byte sequence decodes to: `field_a` from bytes 0..4,
/// `field_b` from bytes 4..8, each read little-endian.
pub open spec fn spec_decode(b: Seq<u8>) -> Record
    recommends
        b.len() == RECORD_LEN,
{
    Record {
        field_a: spec_u32_from_le_bytes(b.subrange(0, 4)),
        field_b: spec_u32_from_le_bytes(b.subrange(4, 8)),
    }
}

/// Encodes a record into a fresh buffer of exactly 8 bytes: `field_a` as 4
/// little-endian bytes, then `field_b` as 4 little-endian bytes. Total: every
/// record encodes, and to exactly the bytes `spec_encode` gives.
pub fn encode(r: &Record) -> (v: Vec<u8>)
    ensures
        v@ == spec_encode(*r),
        v@.len() == RECORD_LEN,
{
    let mut v = u32_to_le_bytes(r.field_a);
    let mut tail = u32_to_le_bytes(r.field_b);
    v.append(&mut tail);
    v
}

/// Decodes a buffer into a record. Succeeds on exactly the buffers of length
/// 8 (every 8-byte pattern is a valid record) and returns the record whose
/// fields are the two little-endian 32-bit values; fails with
/// `MalformedRecord` on every other length, leaving the buffer untouched.
pub fn decode(buffer: &[u8]) -> (r: Result<Record, CodecError>)
    ensures
        buffer@.len() == RECORD_LEN ==> r == Ok::<Record, CodecError>(spec_decode(buffer@)),
        buffer@.len() != RECORD_LEN ==> r == Err::<Record, CodecError>(CodecError::MalformedRecord),
{
    if buffer.len() != RECORD_LEN {
        return Err(CodecError::MalformedRecord);
    }
    let field_a = u32_from_le_bytes(slice_subrange(buffer, 0, 4));
    let field_b = u32_from_le_bytes(slice_subrange(buffer, 4, 8));
    Ok(Record { field_a, field_b })
}

/// Round-trip law: decoding what a record encodes to gives the record back,
/// for every record.
pub proof fn lemma_encode_decode_round_trip(r: Record)
    ensures
        spec_encode(r).len() == RECORD_LEN,
        spec_decode(spec_encode(r)) == r,
{
    lemma_auto_spec_u32_to_from_le_bytes();
    let b = spec_encode(r);
    assert(b.subrange(0, 4) =~= spec_u32_to_le_bytes(r.field_a));
    assert(b.subrange(4, 8) =~= spec_u32_to_le_bytes(r.field_b));
}

/// Inverse round-trip law: every 8-byte buffer decodes to a record that
/// encodes back to the very same bytes — the format has no padding or
/// redundant bits.
pub proof fn lemma_decode_encode_round_trip(b: Seq<u8>)
    requires
        b.len() == RECORD_LEN,
    ensures
        spec_encode(spec_decode(b)) == b,
{
    lemma_auto_spec_u32_to_from_le_bytes();
    assert(spec_encode(spec_decode(b)) =~= b);
}

/// Determinism law: the encoded bytes are a function of the record's field
/// values alone, so equal records yield byte-identical buffers.
pub proof fn lemma_encode_deterministic(r1: Record, r2: Record)
    requires
        r1 == r2,
    ensures
        spec_encode(r1) == spec_encode(r2),
{
}

} // verus!
