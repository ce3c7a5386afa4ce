//! Big-endian encodings of the fixed-width integers that appear in the
//! container header and footer, with their decoders and round-trip proofs.

use vstd::prelude::*;

verus! {

/// The two big-endian bytes of a 16-bit integer.
pub open spec fn be2_seq(x: u16) -> Seq<u8> {
    seq![((x >> 8) & 0xff) as u8, (x & 0xff) as u8]
}

/// The four big-endian bytes of a 32-bit integer.
pub open spec fn be4_seq(x: u32) -> Seq<u8> {
    seq![
        ((x >> 24) & 0xff) as u8,
        ((x >> 16) & 0xff) as u8,
        ((x >> 8) & 0xff) as u8,
        (x & 0xff) as u8,
    ]
}

/// The eight big-endian bytes of a 64-bit integer.
pub open spec fn be8_seq(x: u64) -> Seq<u8> {
    seq![
        ((x >> 56) & 0xff) as u8,
        ((x >> 48) & 0xff) as u8,
        ((x >> 40) & 0xff) as u8,
        ((x >> 32) & 0xff) as u8,
        ((x >> 24) & 0xff) as u8,
        ((x >> 16) & 0xff) as u8,
        ((x >> 8) & 0xff) as u8,
        (x & 0xff) as u8,
    ]
}

/// The 16-bit integer written big-endian in a two-byte sequence.
pub open spec fn be2_val(s: Seq<u8>) -> u16
    recommends
        s.len() == 2,
{
    ((s[0] as u16) << 8) | (s[1] as u16)
}

/// The 32-bit integer written big-endian in a four-byte sequence.
pub open spec fn be4_val(s: Seq<u8>) -> u32
    recommends
        s.len() == 4,
{
    ((s[0] as u32) << 24) | ((s[1] as u32) << 16) | ((s[2] as u32) << 8) | (s[3] as u32)
}

/// The 64-bit integer written big-endian in an eight-byte sequence.
pub open spec fn be8_val(s: Seq<u8>) -> u64
    recommends
        s.len() == 8,
{
    ((s[0] as u64) << 56) | ((s[1] as u64) << 48) | ((s[2] as u64) << 40)
        | ((s[3] as u64) << 32) | ((s[4] as u64) << 24) | ((s[5] as u64) << 16)
        | ((s[6] as u64) << 8) | (s[7] as u64)
}

/// Decoding the big-endian bytes of a 16-bit integer gives the integer back.
pub proof fn lemma_be2_roundtrip(x: u16)
    ensures
        be2_val(be2_seq(x)) == x,
{
    let b0 = ((x >> 8) & 0xff) as u8;
    let b1 = (x & 0xff) as u8;
    assert((((b0 as u16) << 8) | (b1 as u16)) == x) by (bit_vector)
        requires
            b0 == ((x >> 8) & 0xff) as u8,
            b1 == (x & 0xff) as u8,
    ;
}

/// Decoding the big-endian bytes of a 32-bit integer gives the integer back.
pub proof fn lemma_be4_roundtrip(x: u32)
    ensures
        be4_val(be4_seq(x)) == x,
{
    let b0 = ((x >> 24) & 0xff) as u8;
    let b1 = ((x >> 16) & 0xff) as u8;
    let b2 = ((x >> 8) & 0xff) as u8;
    let b3 = (x & 0xff) as u8;
    assert((((b0 as u32) << 24) | ((b1 as u32) << 16) | ((b2 as u32) << 8) | (b3 as u32)) == x)
        by (bit_vector)
        requires
            b0 == ((x >> 24) & 0xff) as u8,
            b1 == ((x >> 16) & 0xff) as u8,
            b2 == ((x >> 8) & 0xff) as u8,
            b3 == (x & 0xff) as u8,
    ;
}

/// Decoding the big-endian bytes of a 64-bit integer gives the integer back.
pub proof fn lemma_be8_roundtrip(x: u64)
    ensures
        be8_val(be8_seq(x)) == x,
{
    let b0 = ((x >> 56) & 0xff) as u8;
    let b1 = ((x >> 48) & 0xff) as u8;
    let b2 = ((x >> 40) & 0xff) as u8;
    let b3 = ((x >> 32) & 0xff) as u8;
    let b4 = ((x >> 24) & 0xff) as u8;
    let b5 = ((x >> 16) & 0xff) as u8;
    let b6 = ((x >> 8) & 0xff) as u8;
    let b7 = (x & 0xff) as u8;
    assert((((b0 as u64) << 56) | ((b1 as u64) << 48) | ((b2 as u64) << 40)
        | ((b3 as u64) << 32) | ((b4 as u64) << 24) | ((b5 as u64) << 16)
        | ((b6 as u64) << 8) | (b7 as u64)) == x)
        by (bit_vector)
        requires
            b0 == ((x >> 56) & 0xff) as u8,
            b1 == ((x >> 48) & 0xff) as u8,
            b2 == ((x >> 40) & 0xff) as u8,
            b3 == ((x >> 32) & 0xff) as u8,
            b4 == ((x >> 24) & 0xff) as u8,
            b5 == ((x >> 16) & 0xff) as u8,
            b6 == ((x >> 8) & 0xff) as u8,
            b7 == (x & 0xff) as u8,
    ;
}

/// Appends the two big-endian bytes of `x` to `v`.
pub fn push_be2(v: &mut Vec<u8>, x: u16)
    ensures
        final(v)@ == old(v)@ + be2_seq(x),
{
    assert(((x >> 8) & 0xff) < 256 && (x & 0xff) < 256) by (bit_vector);
    v.push(((x >> 8) & 0xff) as u8);
    v.push((x & 0xff) as u8);
    assert(v@ =~= old(v)@ + be2_seq(x));
}

/// Appends the four big-endian bytes of `x` to `v`.
pub fn push_be4(v: &mut Vec<u8>, x: u32)
    ensures
        final(v)@ == old(v)@ + be4_seq(x),
{
    assert(((x >> 24) & 0xff) < 256 && ((x >> 16) & 0xff) < 256 && ((x >> 8) & 0xff) < 256
        && (x & 0xff) < 256) by (bit_vector);
    v.push(((x >> 24) & 0xff) as u8);
    v.push(((x >> 16) & 0xff) as u8);
    v.push(((x >> 8) & 0xff) as u8);
    v.push((x & 0xff) as u8);
    assert(v@ =~= old(v)@ + be4_seq(x));
}

/// Appends the eight big-endian bytes of `x` to `v`.
pub fn push_be8(v: &mut Vec<u8>, x: u64)
    ensures
        final(v)@ == old(v)@ + be8_seq(x),
{
    assert(((x >> 56) & 0xff) < 256 && ((x >> 48) & 0xff) < 256 && ((x >> 40) & 0xff) < 256
        && ((x >> 32) & 0xff) < 256 && ((x >> 24) & 0xff) < 256 && ((x >> 16) & 0xff) < 256
        && ((x >> 8) & 0xff) < 256 && (x & 0xff) < 256) by (bit_vector);
    v.push(((x >> 56) & 0xff) as u8);
    v.push(((x >> 48) & 0xff) as u8);
    v.push(((x >> 40) & 0xff) as u8);
    v.push(((x >> 32) & 0xff) as u8);
    v.push(((x >> 24) & 0xff) as u8);
    v.push(((x >> 16) & 0xff) as u8);
    v.push(((x >> 8) & 0xff) as u8);
    v.push((x & 0xff) as u8);
    assert(v@ =~= old(v)@ + be8_seq(x));
}

/// Reads the 16-bit big-endian integer stored at `off`.
pub fn read_be2(b: &Vec<u8>, off: usize) -> (r: u16)
    requires
        off + 2 <= b@.len(),
    ensures
        r == be2_val(b@.subrange(off as int, off as int + 2)),
{
    // the call bounds b@.len() by usize::MAX, which the offset arithmetic needs
    let _len: usize = b.len();
    let r = ((b[off] as u16) << 8) | (b[off + 1] as u16);
    proof {
        let s = b@.subrange(off as int, off as int + 2);
        assert(s[0] == b@[off as int] && s[1] == b@[off as int + 1]);
    }
    r
}

/// Reads the 32-bit big-endian integer stored at `off`.
pub fn read_be4(b: &Vec<u8>, off: usize) -> (r: u32)
    requires
        off + 4 <= b@.len(),
    ensures
        r == be4_val(b@.subrange(off as int, off as int + 4)),
{
    // the call bounds b@.len() by usize::MAX, which the offset arithmetic needs
    let _len: usize = b.len();
    let r = ((b[off] as u32) << 24) | ((b[off + 1] as u32) << 16) | ((b[off + 2] as u32) << 8)
        | (b[off + 3] as u32);
    proof {
        let s = b@.subrange(off as int, off as int + 4);
        assert(s[0] == b@[off as int] && s[1] == b@[off as int + 1] && s[2] == b@[off as int + 2]
            && s[3] == b@[off as int + 3]);
    }
    r
}

/// Reads the 64-bit big-endian integer stored at `off`.
pub fn read_be8(b: &Vec<u8>, off: usize) -> (r: u64)
    requires
        off + 8 <= b@.len(),
    ensures
        r == be8_val(b@.subrange(off as int, off as int + 8)),
{
    // the call bounds b@.len() by usize::MAX, which the offset arithmetic needs
    let _len: usize = b.len();
    let r = ((b[off] as u64) << 56) | ((b[off + 1] as u64) << 48) | ((b[off + 2] as u64) << 40)
        | ((b[off + 3] as u64) << 32) | ((b[off + 4] as u64) << 24) | ((b[off + 5] as u64) << 16)
        | ((b[off + 6] as u64) << 8) | (b[off + 7] as u64);
    proof {
        let s = b@.subrange(off as int, off as int + 8);
        assert(s[0] == b@[off as int] && s[1] == b@[off as int + 1] && s[2] == b@[off as int + 2]
            && s[3] == b@[off as int + 3] && s[4] == b@[off as int + 4]
            && s[5] == b@[off as int + 5] && s[6] == b@[off as int + 6]
            && s[7] == b@[off as int + 7]);
    }
    r
}

/// Appends a copy of `src` to `v`.
pub fn push_all(v: &mut Vec<u8>, src: &Vec<u8>)
    ensures
        final(v)@ == old(v)@ + src@,
{
    let mut i: usize = 0;
    while i < src.len()
        invariant
            i <= src@.len(),
            v@ == old(v)@ + src@.subrange(0, i as int),
        decreases src@.len() - i,
    {
        v.push(src[i]);
        i = i + 1;
        assert(v@ =~= old(v)@ + src@.subrange(0, i as int));
    }
    assert(src@.subrange(0, src@.len() as int) =~= src@);
}

/// Copies the `n` bytes of `b` that start at `start`.
pub fn copy_range(b: &Vec<u8>, start: usize, n: usize) -> (r: Vec<u8>)
    requires
        start + n <= b@.len(),
    ensures
        r@ == b@.subrange(start as int, start as int + n as int),
{
    // the call bounds b@.len() by usize::MAX, which the offset arithmetic needs
    let _len: usize = b.len();
    let mut r: Vec<u8> = Vec::new();
    let mut i: usize = 0;
    while i < n
        invariant
            i <= n,
            start + n <= b@.len(),
            b@.len() <= usize::MAX,
            r@ == b@.subrange(start as int, start as int + i as int),
        decreases n - i,
    {
        r.push(b[start + i]);
        i = i + 1;
        assert(r@ =~= b@.subrange(start as int, start as int + i as int));
    }
    r
}

/// A sequence of `n` zero bytes.
pub open spec fn zeros(n: nat) -> Seq<u8> {
    Seq::new(n, |i: int| 0u8)
}

/// A vector of `n` zero bytes.
pub fn zero_vec(n: usize) -> (r: Vec<u8>)
    ensures
        r@ == zeros(n as nat),
{
    let mut r: Vec<u8> = Vec::new();
    let mut i: usize = 0;
    while i < n
        invariant
            i <= n,
            r@ == zeros(i as nat),
        decreases n - i,
    {
        r.push(0);
        i = i + 1;
        assert(r@ =~= zeros(i as nat));
    }
    r
}

/// A copy of `v`.
pub fn clone_bytes(v: &Vec<u8>) -> (r: Vec<u8>)
    ensures
        r@ == v@,
{
    let r = copy_range(v, 0, v.len());
    assert(v@.subrange(0, v@.len() as int) =~= v@);
    r
}

} // verus!
