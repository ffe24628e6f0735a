use vstd::prelude::*;
use vstd::bytes::{
    lemma_auto_spec_u64_to_from_le_bytes, spec_u64_from_le_bytes, spec_u64_to_le_bytes,
    u64_from_le_bytes, u64_to_le_bytes,
};

verus! {

/// Little-endian bytes of a signed 64-bit integer (two's complement).
pub open spec fn i64_le(v: i64) -> Seq<u8> {
    spec_u64_to_le_bytes(#[verifier::truncate] (v as u64))
}

/// The signed 64-bit integer that eight little-endian bytes encode.
pub open spec fn i64_of_le(s: Seq<u8>) -> i64 {
    #[verifier::truncate] (spec_u64_from_le_bytes(s) as i64)
}

pub proof fn lemma_i64_le(v: i64)
    ensures
        i64_le(v).len() == 8,
        i64_of_le(i64_le(v)) == v,
{
    lemma_auto_spec_u64_to_from_le_bytes();
    assert((#[verifier::truncate] ((#[verifier::truncate] (v as u64)) as i64)) == v) by (bit_vector);
}

/// Eight bytes are the encoding of the integer that they decode to.
pub proof fn lemma_le_i64(s: Seq<u8>)
    requires
        s.len() == 8,
    ensures
        i64_le(i64_of_le(s)) == s,
{
    lemma_auto_spec_u64_to_from_le_bytes();
    let u = spec_u64_from_le_bytes(s);
    assert((#[verifier::truncate] ((#[verifier::truncate] (u as i64)) as u64)) == u) by (bit_vector);
}

pub fn le_bytes_to_u64(slice: &[u8]) -> (r: u64)
    requires
        slice@.len() == 8,
    ensures
        r == spec_u64_from_le_bytes(slice@),
{
    u64_from_le_bytes(slice)
}

pub fn le_bytes_to_i64(slice: &[u8]) -> (r: i64)
    requires
        slice@.len() == 8,
    ensures
        r == i64_of_le(slice@),
{
    u64_from_le_bytes(slice) as i64
}

/// Appends the little-endian bytes of `v`.
pub fn push_i64_le(out: &mut Vec<u8>, v: i64)
    ensures
        final(out)@ == old(out)@ + i64_le(v),
{
    let b: Vec<u8> = u64_to_le_bytes(v as u64);
    proof {
        lemma_auto_spec_u64_to_from_le_bytes();
    }
    let ghost start = out@;
    let mut i: usize = 0;
    while i < b.len()
        invariant
            b@ == i64_le(v),
            b@.len() == 8,
            i <= 8,
            out@ == start + b@.take(i as int),
        decreases 8 - i,
    {
        out.push(b[i]);
        i = i + 1;
        assert(out@ =~= start + b@.take(i as int));
    }
    assert(b@.take(8) =~= b@);
}

/// A frame on the planner link: the body's length as a little-endian `u64`,
/// then the body.
pub open spec fn framed(body: Seq<u8>) -> Seq<u8> {
    spec_u64_to_le_bytes(body.len() as u64) + body
}

pub fn frame(body: &[u8]) -> (r: Vec<u8>)
    ensures
        r@ == framed(body@),
{
    let mut out: Vec<u8> = u64_to_le_bytes(body.len() as u64);
    let ghost start = out@;
    let mut i: usize = 0;
    while i < body.len()
        invariant
            i <= body@.len(),
            out@ == start + body@.take(i as int),
        decreases body@.len() - i,
    {
        out.push(body[i]);
        i = i + 1;
        assert(out@ =~= start + body@.take(i as int));
    }
    assert(body@.take(body@.len() as int) =~= body@);
    out
}

/// The body length that a frame's eight-byte prefix announces.
pub fn frame_length(prefix: &[u8]) -> (r: u64)
    requires
        prefix@.len() == 8,
    ensures
        r == spec_u64_from_le_bytes(prefix@),
{
    le_bytes_to_u64(prefix)
}

/// Reading the prefix of a frame gives back its body's length.
pub proof fn lemma_frame_length(body: Seq<u8>)
    requires
        body.len() <= u64::MAX,
    ensures
        framed(body).len() == 8 + body.len(),
        spec_u64_from_le_bytes(framed(body).take(8)) == body.len(),
        framed(body).skip(8) == body,
{
    lemma_auto_spec_u64_to_from_le_bytes();
    let p = spec_u64_to_le_bytes(body.len() as u64);
    assert(framed(body).take(8) =~= p);
    assert(framed(body).skip(8) =~= body);
}

} // verus!
