//! Byte-level building blocks shared by every wire format of the crate:
//! big-endian integer framing, slice copies and comparisons.
use vstd::prelude::*;

verus! {

// ── big-endian integers ─────────────────────────────────────────────────────

/// Two big-endian bytes of `x`.
pub open spec fn u16_be(x: u16) -> Seq<u8> {
    seq![(x >> 8u16) as u8, x as u8]
}

/// The `u16` whose big-endian bytes are `b[0], b[1]`.
pub open spec fn u16_from_be(b0: u8, b1: u8) -> u16 {
    ((b0 as u16) << 8u16) | (b1 as u16)
}

/// Four big-endian bytes of `x`.
pub open spec fn u32_be(x: u32) -> Seq<u8> {
    seq![(x >> 24u32) as u8, (x >> 16u32) as u8, (x >> 8u32) as u8, x as u8]
}

/// The `u32` whose big-endian bytes are `b0..b3`.
pub open spec fn u32_from_be(b0: u8, b1: u8, b2: u8, b3: u8) -> u32 {
    ((b0 as u32) << 24u32) | ((b1 as u32) << 16u32) | ((b2 as u32) << 8u32) | (b3 as u32)
}

/// Eight big-endian bytes of `x`.
pub open spec fn u64_be(x: u64) -> Seq<u8> {
    seq![
        (x >> 56u64) as u8,
        (x >> 48u64) as u8,
        (x >> 40u64) as u8,
        (x >> 32u64) as u8,
        (x >> 24u64) as u8,
        (x >> 16u64) as u8,
        (x >> 8u64) as u8,
        x as u8,
    ]
}

/// The `u64` whose big-endian bytes are the first eight of `b`.
pub open spec fn u64_from_be(b: Seq<u8>) -> u64
    recommends
        b.len() >= 8,
{
    ((b[0] as u64) << 56u64) | ((b[1] as u64) << 48u64) | ((b[2] as u64) << 40u64) | ((
    b[3] as u64) << 32u64) | ((b[4] as u64) << 24u64) | ((b[5] as u64) << 16u64) | ((b[6] as u64)
        << 8u64) | (b[7] as u64)
}

/// Eight big-endian two's-complement bytes of `x` (what `i64::to_be_bytes` gives).
pub open spec fn i64_be(x: i64) -> Seq<u8> {
    u64_be(x as u64)
}

/// The `i64` whose big-endian two's-complement bytes are the first eight of `b`.
pub open spec fn i64_from_be(b: Seq<u8>) -> i64
    recommends
        b.len() >= 8,
{
    u64_from_be(b) as i64
}

pub proof fn lemma_u16_round_trip(x: u16)
    ensures
        u16_from_be(u16_be(x)[0], u16_be(x)[1]) == x,
{
    assert((((x >> 8u16) as u8 as u16) << 8u16) | (x as u8 as u16) == x) by (bit_vector);
}

pub proof fn lemma_u32_round_trip(x: u32)
    ensures
        u32_from_be(u32_be(x)[0], u32_be(x)[1], u32_be(x)[2], u32_be(x)[3]) == x,
{
    assert((((x >> 24u32) as u8 as u32) << 24u32) | (((x >> 16u32) as u8 as u32) << 16u32) | (((x
        >> 8u32) as u8 as u32) << 8u32) | (x as u8 as u32) == x) by (bit_vector);
}

pub proof fn lemma_u64_round_trip(x: u64)
    ensures
        u64_from_be(u64_be(x)) == x,
{
    let b = u64_be(x);
    assert((((x >> 56u64) as u8 as u64) << 56u64) | (((x >> 48u64) as u8 as u64) << 48u64) | (((x
        >> 40u64) as u8 as u64) << 40u64) | (((x >> 32u64) as u8 as u64) << 32u64) | (((x
        >> 24u64) as u8 as u64) << 24u64) | (((x >> 16u64) as u8 as u64) << 16u64) | (((x
        >> 8u64) as u8 as u64) << 8u64) | (x as u8 as u64) == x) by (bit_vector);
}

pub proof fn lemma_i64_round_trip(x: i64)
    ensures
        i64_from_be(i64_be(x)) == x,
{
    lemma_u64_round_trip(x as u64);
    assert((x as u64) as i64 == x) by (bit_vector);
}

/// Appends the two big-endian bytes of `x`.
pub fn push_u16_be(v: &mut Vec<u8>, x: u16)
    ensures
        final(v)@ == old(v)@ + u16_be(x),
{
    v.push((x >> 8u16) as u8);
    v.push(x as u8);
    assert(final(v)@ =~= old(v)@ + u16_be(x));
}

/// Appends the four big-endian bytes of `x`.
pub fn push_u32_be(v: &mut Vec<u8>, x: u32)
    ensures
        final(v)@ == old(v)@ + u32_be(x),
{
    v.push((x >> 24u32) as u8);
    v.push((x >> 16u32) as u8);
    v.push((x >> 8u32) as u8);
    v.push(x as u8);
    assert(final(v)@ =~= old(v)@ + u32_be(x));
}

/// Appends the eight big-endian bytes of `x`.
pub fn push_u64_be(v: &mut Vec<u8>, x: u64)
    ensures
        final(v)@ == old(v)@ + u64_be(x),
{
    v.push((x >> 56u64) as u8);
    v.push((x >> 48u64) as u8);
    v.push((x >> 40u64) as u8);
    v.push((x >> 32u64) as u8);
    v.push((x >> 24u64) as u8);
    v.push((x >> 16u64) as u8);
    v.push((x >> 8u64) as u8);
    v.push(x as u8);
    assert(final(v)@ =~= old(v)@ + u64_be(x));
}

/// Appends the eight big-endian two's-complement bytes of `x`.
pub fn push_i64_be(v: &mut Vec<u8>, x: i64)
    ensures
        final(v)@ == old(v)@ + i64_be(x),
{
    push_u64_be(v, x as u64);
}

/// Reads a big-endian `u16` from `b[at..at + 2]`.
pub fn read_u16_be(b: &[u8], at: usize) -> (r: u16)
    requires
        at + 2 <= b@.len(),
    ensures
        r == u16_from_be(b@[at as int], b@[at + 1]),
{
    ((b[at] as u16) << 8u16) | (b[at + 1] as u16)
}

/// Reads a big-endian `u32` from `b[at..at + 4]`.
pub fn read_u32_be(b: &[u8], at: usize) -> (r: u32)
    requires
        at + 4 <= b@.len(),
    ensures
        r == u32_from_be(b@[at as int], b@[at + 1], b@[at + 2], b@[at + 3]),
{
    ((b[at] as u32) << 24u32) | ((b[at + 1] as u32) << 16u32) | ((b[at + 2] as u32) << 8u32) | (
    b[at + 3] as u32)
}

/// Reads a big-endian `u64` from `b[at..at + 8]`.
pub fn read_u64_be(b: &[u8], at: usize) -> (r: u64)
    requires
        at + 8 <= b@.len(),
    ensures
        r == u64_from_be(b@.subrange(at as int, at + 8)),
{
    let r = ((b[at] as u64) << 56u64) | ((b[at + 1] as u64) << 48u64) | ((b[at + 2] as u64)
        << 40u64) | ((b[at + 3] as u64) << 32u64) | ((b[at + 4] as u64) << 24u64) | ((b[at
        + 5] as u64) << 16u64) | ((b[at + 6] as u64) << 8u64) | (b[at + 7] as u64);
    r
}

/// Reads a big-endian two's-complement `i64` from `b[at..at + 8]`.
pub fn read_i64_be(b: &[u8], at: usize) -> (r: i64)
    requires
        at + 8 <= b@.len(),
    ensures
        r == i64_from_be(b@.subrange(at as int, at + 8)),
{
    read_u64_be(b, at) as i64
}

// ── slices ──────────────────────────────────────────────────────────────────

/// Appends every byte of `s` to `v`.
pub fn append_bytes(v: &mut Vec<u8>, s: &[u8])
    ensures
        final(v)@ == old(v)@ + s@,
{
    let ghost start = v@;
    let mut i: usize = 0;
    while i < s.len()
        invariant
            i <= s@.len(),
            v@ == start + s@.subrange(0, i as int),
        decreases s@.len() - i,
    {
        v.push(s[i]);
        i = i + 1;
        assert(v@ =~= start + s@.subrange(0, i as int));
    }
    assert(s@.subrange(0, s@.len() as int) =~= s@);
}

/// A fresh vector holding `s[from..to]`.
pub fn copy_range(s: &[u8], from: usize, to: usize) -> (r: Vec<u8>)
    requires
        from <= to <= s@.len(),
    ensures
        r@ == s@.subrange(from as int, to as int),
{
    let mut r: Vec<u8> = Vec::new();
    let mut i: usize = from;
    while i < to
        invariant
            from <= i <= to <= s@.len(),
            r@ == s@.subrange(from as int, i as int),
        decreases to - i,
    {
        r.push(s[i]);
        i = i + 1;
        assert(r@ =~= s@.subrange(from as int, i as int));
    }
    r
}

/// A fresh vector with the same bytes as `s`.
pub fn copy_all(s: &[u8]) -> (r: Vec<u8>)
    ensures
        r@ == s@,
{
    let r = copy_range(s, 0, s.len());
    assert(s@.subrange(0, s@.len() as int) =~= s@);
    r
}

/// Plain byte-wise equality of two slices.
pub fn bytes_eq(a: &[u8], b: &[u8]) -> (r: bool)
    ensures
        r == (a@ == b@),
{
    if a.len() != b.len() {
        return false;
    }
    let mut i: usize = 0;
    while i < a.len()
        invariant
            i <= a@.len(),
            a@.len() == b@.len(),
            forall|j: int| 0 <= j < i ==> a@[j] == b@[j],
        decreases a@.len() - i,
    {
        if a[i] != b[i] {
            return false;
        }
        i = i + 1;
    }
    assert(a@ =~= b@);
    true
}

/// Copies exactly 32 bytes `s[from..from + 32]` into an array.
pub fn array32_from(s: &[u8], from: usize) -> (r: [u8; 32])
    requires
        from + 32 <= s@.len(),
    ensures
        r@ == s@.subrange(from as int, from + 32),
{
    let mut r = [0u8; 32];
    let n = s.len();
    let mut i: usize = 0;
    while i < 32
        invariant
            i <= 32,
            n == s@.len(),
            from + 32 <= s@.len(),
            r@.len() == 32,
            forall|j: int| 0 <= j < i ==> r@[j] == s@[from + j],
        decreases 32 - i,
    {
        r[i] = s[from + i];
        i = i + 1;
    }
    assert(r@ =~= s@.subrange(from as int, from + 32));
    r
}

} // verus!
