//! Canonical binary encoding primitives.
//!
//! Integers are fixed-width little-endian; byte sequences are prefixed
//! with their 64-bit length. Structures encode their fields in declaration
//! order with no padding, so framing is implicit in the structure sizes.

use vstd::prelude::*;

verus! {

/// The value of an 8-byte little-endian sequence.
pub open spec fn le_u64(s: Seq<u8>) -> u64 {
    (s[0] as u64) | (s[1] as u64) << 8 | (s[2] as u64) << 16 | (s[3] as u64) << 24
        | (s[4] as u64) << 32 | (s[5] as u64) << 40 | (s[6] as u64) << 48 | (s[7] as u64) << 56
}

/// The 8-byte little-endian encoding of a 64-bit value.
pub open spec fn u64_le_bytes(v: u64) -> Seq<u8> {
    seq![
        (v & 0xff) as u8,
        ((v >> 8) & 0xff) as u8,
        ((v >> 16) & 0xff) as u8,
        ((v >> 24) & 0xff) as u8,
        ((v >> 32) & 0xff) as u8,
        ((v >> 40) & 0xff) as u8,
        ((v >> 48) & 0xff) as u8,
        ((v >> 56) & 0xff) as u8,
    ]
}

/// The value of a 4-byte little-endian sequence.
pub open spec fn le_u32(s: Seq<u8>) -> u32 {
    (s[0] as u32) | (s[1] as u32) << 8 | (s[2] as u32) << 16 | (s[3] as u32) << 24
}

/// The 4-byte little-endian encoding of a 32-bit value.
pub open spec fn u32_le_bytes(v: u32) -> Seq<u8> {
    seq![(v & 0xff) as u8, ((v >> 8) & 0xff) as u8, ((v >> 16) & 0xff) as u8, ((v >> 24) & 0xff) as u8]
}

/// A length-prefixed byte sequence: the 64-bit length, then the bytes.
pub open spec fn enc_bytes(s: Seq<u8>) -> Seq<u8> {
    u64_le_bytes(s.len() as u64) + s
}

/// Decoding inverts the 64-bit little-endian encoding.
pub proof fn lemma_u64_round_trip(v: u64)
    ensures
        le_u64(u64_le_bytes(v)) == v,
{
    let s = u64_le_bytes(v);
    assert(((v & 0xff) as u8 as u64) | (((v >> 8) & 0xff) as u8 as u64) << 8
        | (((v >> 16) & 0xff) as u8 as u64) << 16 | (((v >> 24) & 0xff) as u8 as u64) << 24
        | (((v >> 32) & 0xff) as u8 as u64) << 32 | (((v >> 40) & 0xff) as u8 as u64) << 40
        | (((v >> 48) & 0xff) as u8 as u64) << 48 | (((v >> 56) & 0xff) as u8 as u64) << 56
        == v) by (bit_vector);
    assert(le_u64(s) == v);
}

/// Decoding inverts the 32-bit little-endian encoding.
pub proof fn lemma_u32_round_trip(v: u32)
    ensures
        le_u32(u32_le_bytes(v)) == v,
{
    let s = u32_le_bytes(v);
    assert(((v & 0xff) as u8 as u32) | (((v >> 8) & 0xff) as u8 as u32) << 8
        | (((v >> 16) & 0xff) as u8 as u32) << 16 | (((v >> 24) & 0xff) as u8 as u32) << 24
        == v) by (bit_vector);
    assert(le_u32(s) == v);
}

/// Appends the 8-byte little-endian encoding of `v`.
pub fn push_u64_le(out: &mut Vec<u8>, v: u64)
    ensures
        final(out)@ == old(out)@ + u64_le_bytes(v),
{
    out.push((v & 0xff) as u8);
    out.push(((v >> 8) & 0xff) as u8);
    out.push(((v >> 16) & 0xff) as u8);
    out.push(((v >> 24) & 0xff) as u8);
    out.push(((v >> 32) & 0xff) as u8);
    out.push(((v >> 40) & 0xff) as u8);
    out.push(((v >> 48) & 0xff) as u8);
    out.push(((v >> 56) & 0xff) as u8);
    assert(out@ =~= old(out)@ + u64_le_bytes(v));
}

/// Appends the 4-byte little-endian encoding of `v`.
pub fn push_u32_le(out: &mut Vec<u8>, v: u32)
    ensures
        final(out)@ == old(out)@ + u32_le_bytes(v),
{
    out.push((v & 0xff) as u8);
    out.push(((v >> 8) & 0xff) as u8);
    out.push(((v >> 16) & 0xff) as u8);
    out.push(((v >> 24) & 0xff) as u8);
    assert(out@ =~= old(out)@ + u32_le_bytes(v));
}

/// Reads the 64-bit little-endian value at `at`.
pub fn read_u64_le(buf: &Vec<u8>, at: usize) -> (v: u64)
    requires
        at + 8 <= buf@.len(),
    ensures
        v == le_u64(buf@.subrange(at as int, at as int + 8)),
{
    let n = buf.len();
    assert(at + 8 <= n);
    let v = (buf[at] as u64) | (buf[at + 1] as u64) << 8 | (buf[at + 2] as u64) << 16
        | (buf[at + 3] as u64) << 24 | (buf[at + 4] as u64) << 32 | (buf[at + 5] as u64) << 40
        | (buf[at + 6] as u64) << 48 | (buf[at + 7] as u64) << 56;
    proof {
        let s = buf@.subrange(at as int, at as int + 8);
        assert(forall|i: int| 0 <= i < 8 ==> s[i] == buf@[at + i]);
    }
    v
}

/// Reads the 32-bit little-endian value at `at`.
pub fn read_u32_le(buf: &Vec<u8>, at: usize) -> (v: u32)
    requires
        at + 4 <= buf@.len(),
    ensures
        v == le_u32(buf@.subrange(at as int, at as int + 4)),
{
    let n = buf.len();
    assert(at + 4 <= n);
    let v = (buf[at] as u32) | (buf[at + 1] as u32) << 8 | (buf[at + 2] as u32) << 16
        | (buf[at + 3] as u32) << 24;
    proof {
        let s = buf@.subrange(at as int, at as int + 4);
        assert(forall|i: int| 0 <= i < 4 ==> s[i] == buf@[at + i]);
    }
    v
}

/// Appends a copy of `data` to `out`.
pub fn push_slice(out: &mut Vec<u8>, data: &Vec<u8>)
    ensures
        final(out)@ == old(out)@ + data@,
{
    out.extend_from_slice(data.as_slice());
}

/// Appends the length-prefixed encoding of `data`.
pub fn push_bytes(out: &mut Vec<u8>, data: &Vec<u8>)
    ensures
        final(out)@ == old(out)@ + enc_bytes(data@),
{
    push_u64_le(out, data.len() as u64);
    push_slice(out, data);
    assert(out@ =~= old(out)@ + enc_bytes(data@));
}

/// Compares two byte vectors for equal contents.
pub fn bytes_eq(a: &Vec<u8>, b: &Vec<u8>) -> (r: bool)
    ensures
        r <==> a@ == b@,
{
    if a.len() != b.len() {
        return false;
    }
    let mut i: usize = 0;
    while i < a.len()
        invariant
            a@.len() == b@.len(),
            i <= a@.len(),
            forall|j: int| 0 <= j < i ==> a@[j] == b@[j],
        decreases a@.len() - i,
    {
        if a[i] != b[i] {
            return false;
        }
        i = i + 1;
    }
    assert(a@ =~= b@);
    true
}

/// A copy of `src[from..to]`.
pub fn copy_range(src: &Vec<u8>, from: usize, to: usize) -> (r: Vec<u8>)
    requires
        from <= to <= src@.len(),
    ensures
        r@ == src@.subrange(from as int, to as int),
{
    let mut r: Vec<u8> = Vec::new();
    let mut i: usize = from;
    while i < to
        invariant
            from <= i <= to <= src@.len(),
            r@ == src@.subrange(from as int, i as int),
        decreases to - i,
    {
        r.push(src[i]);
        i = i + 1;
        assert(r@ =~= src@.subrange(from as int, i as int));
    }
    r
}

} // verus!
