//! Little-endian integer fields inside byte buffers.

use vstd::prelude::*;
use vstd::bytes::*;
use vstd::slice::slice_subrange;

verus! {

/// The `u64` stored little-endian in the eight bytes of `s` starting at `off`.
pub open spec fn le_u64_at(s: Seq<u8>, off: int) -> u64 {
    spec_u64_from_le_bytes(s.subrange(off, off + 8))
}

/// The `u16` stored little-endian in the two bytes of `s` starting at `off`.
pub open spec fn le_u16_at(s: Seq<u8>, off: int) -> u16 {
    spec_u16_from_le_bytes(s.subrange(off, off + 2))
}

/// The `i64` stored little-endian (two's complement) at `off`.
pub open spec fn le_i64_at(s: Seq<u8>, off: int) -> i64 {
    le_u64_at(s, off) as i64
}

/// The little-endian bytes of a `u64`.
pub open spec fn u64_le(v: u64) -> Seq<u8> {
    spec_u64_to_le_bytes(v)
}

/// The big-endian bytes of a `u64`: its little-endian bytes reversed.
pub open spec fn u64_be(v: u64) -> Seq<u8> {
    spec_u64_to_le_bytes(v).reverse()
}

/// The little-endian bytes of an `i64` (those of its two's complement `u64`).
pub open spec fn i64_le(v: i64) -> Seq<u8> {
    spec_u64_to_le_bytes(v as u64)
}

/// The little-endian bytes of a `u16`.
pub open spec fn u16_le(v: u16) -> Seq<u8> {
    spec_u16_to_le_bytes(v)
}

/// Decoding the encoding of a `u64` gives it back, and the encoding has
/// eight bytes.
pub proof fn lemma_u64_le_roundtrip(v: u64)
    ensures
        u64_le(v).len() == 8,
        spec_u64_from_le_bytes(u64_le(v)) == v,
{
    lemma_auto_spec_u64_to_from_le_bytes();
}

/// Encoding the value decoded from eight bytes gives the bytes back.
pub proof fn lemma_u64_le_bytes_roundtrip(s: Seq<u8>)
    requires
        s.len() == 8,
    ensures
        u64_le(spec_u64_from_le_bytes(s)) == s,
{
    lemma_auto_spec_u64_to_from_le_bytes();
}

/// Decoding the encoding of a `u16` gives it back.
pub proof fn lemma_u16_le_roundtrip(v: u16)
    ensures
        u16_le(v).len() == 2,
        spec_u16_from_le_bytes(u16_le(v)) == v,
{
    lemma_auto_spec_u16_to_from_le_bytes();
    assert(spec_u16_to_le_bytes(v).len() == 2);
}

/// Reads the little-endian `u64` at `off`.
pub fn read_u64_le(data: &[u8], off: usize) -> (r: u64)
    requires
        off + 8 <= data@.len(),
    ensures
        r == le_u64_at(data@, off as int),
{
    let _n = data.len();
    let s = slice_subrange(data, off, off + 8);
    u64_from_le_bytes(s)
}

/// Reads the little-endian `i64` at `off`.
pub fn read_i64_le(data: &[u8], off: usize) -> (r: i64)
    requires
        off + 8 <= data@.len(),
    ensures
        r == le_i64_at(data@, off as int),
{
    let v = read_u64_le(data, off);
    v as i64
}

/// Reads the little-endian `u16` at `off`.
pub fn read_u16_le(data: &[u8], off: usize) -> (r: u16)
    requires
        off + 2 <= data@.len(),
    ensures
        r == le_u16_at(data@, off as int),
{
    let _n = data.len();
    let s = slice_subrange(data, off, off + 2);
    u16_from_le_bytes(s)
}

/// Copies `N` bytes starting at `off` into an array.
pub fn read_array<const N: usize>(data: &[u8], off: usize) -> (r: [u8; N])
    requires
        off + N <= data@.len(),
    ensures
        r@ == data@.subrange(off as int, off + N),
{
    let n = data.len();
    let mut a = [0u8; N];
    let mut i: usize = 0;
    while i < N
        invariant
            i <= N,
            n == data@.len(),
            off + N <= n,
            a@.len() == N,
            forall|j: int| 0 <= j < i ==> a@[j] == data@[off + j],
        decreases N - i,
    {
        a[i] = data[off + i];
        i = i + 1;
    }
    assert(a@ =~= data@.subrange(off as int, off + N));
    a
}

/// Appends the bytes of `src` to `out`.
pub fn push_bytes(out: &mut Vec<u8>, src: &[u8])
    ensures
        final(out)@ == old(out)@ + src@,
{
    let n = src.len();
    let mut i: usize = 0;
    while i < n
        invariant
            i <= n,
            n == src@.len(),
            out@ == old(out)@ + src@.subrange(0, i as int),
        decreases n - i,
    {
        out.push(src[i]);
        i = i + 1;
        assert(out@ =~= old(out)@ + src@.subrange(0, i as int));
    }
    assert(src@.subrange(0, n as int) =~= src@);
}

/// Appends the little-endian bytes of `v` to `out`.
pub fn push_u64_le(out: &mut Vec<u8>, v: u64)
    ensures
        final(out)@ == old(out)@ + u64_le(v),
{
    let b = u64_to_le_bytes(v);
    push_bytes(out, b.as_slice());
}

/// Appends the little-endian bytes of `v` to `out`.
pub fn push_i64_le(out: &mut Vec<u8>, v: i64)
    ensures
        final(out)@ == old(out)@ + i64_le(v),
{
    push_u64_le(out, v as u64);
}

/// Appends the little-endian bytes of `v` to `out`.
pub fn push_u16_le(out: &mut Vec<u8>, v: u16)
    ensures
        final(out)@ == old(out)@ + u16_le(v),
{
    let b = u16_to_le_bytes(v);
    push_bytes(out, b.as_slice());
}

/// The little-endian bytes of `v` as an array.
pub fn u64_to_le_array(v: u64) -> (r: [u8; 8])
    ensures
        r@ == u64_le(v),
{
    proof { lemma_u64_le_roundtrip(v); }
    let b = u64_to_le_bytes(v);
    read_array::<8>(b.as_slice(), 0)
}

/// The big-endian bytes of `v` as an array.
pub fn u64_to_be_array(v: u64) -> (r: [u8; 8])
    ensures
        r@ == u64_be(v),
{
    let le = u64_to_le_array(v);
    proof { lemma_u64_le_roundtrip(v); }
    let mut a = [0u8; 8];
    let mut i: usize = 0;
    while i < 8
        invariant
            i <= 8,
            le@ == u64_le(v),
            le@.len() == 8,
            a@.len() == 8,
            forall|j: int| 0 <= j < i ==> a@[j] == le@[7 - j],
        decreases 8 - i,
    {
        a[i] = le[7 - i];
        i = i + 1;
    }
    assert(a@ =~= u64_be(v));
    a
}

/// Whether two byte strings are equal.
pub fn bytes_eq(a: &[u8], b: &[u8]) -> (r: bool)
    ensures
        r == (a@ == b@),
{
    let n = a.len();
    if n != b.len() {
        return false;
    }
    let mut i: usize = 0;
    while i < n
        invariant
            i <= n,
            n == a@.len(),
            n == b@.len(),
            forall|j: int| 0 <= j < i ==> a@[j] == b@[j],
        decreases n - i,
    {
        if a[i] != b[i] {
            return false;
        }
        i = i + 1;
    }
    assert(a@ =~= b@);
    true
}

} // verus!
