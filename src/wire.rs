//! Little-endian encoding of the integers that make up the FUSE wire structures.
use vstd::prelude::*;

verus! {

/// The two bytes of `v`, least significant first.
pub open spec fn le16(v: u16) -> Seq<u8> {
    seq![(v & 0xff) as u8, ((v >> 8u16) & 0xff) as u8]
}

/// The four bytes of `v`, least significant first.
pub open spec fn le32(v: u32) -> Seq<u8> {
    seq![
        (v & 0xff) as u8,
        ((v >> 8u32) & 0xff) as u8,
        ((v >> 16u32) & 0xff) as u8,
        ((v >> 24u32) & 0xff) as u8,
    ]
}

/// The eight bytes of `v`, least significant first.
pub open spec fn le64(v: u64) -> Seq<u8> {
    seq![
        (v & 0xff) as u8,
        ((v >> 8u64) & 0xff) as u8,
        ((v >> 16u64) & 0xff) as u8,
        ((v >> 24u64) & 0xff) as u8,
        ((v >> 32u64) & 0xff) as u8,
        ((v >> 40u64) & 0xff) as u8,
        ((v >> 48u64) & 0xff) as u8,
        ((v >> 56u64) & 0xff) as u8,
    ]
}

/// The integer whose little-endian bytes start `s`.
pub open spec fn dec16(s: Seq<u8>) -> u16 {
    (s[0] as u16) | ((s[1] as u16) << 8u16)
}

/// The integer whose little-endian bytes start `s`.
pub open spec fn dec32(s: Seq<u8>) -> u32 {
    (s[0] as u32) | ((s[1] as u32) << 8u32) | ((s[2] as u32) << 16u32) | ((s[3] as u32) << 24u32)
}

/// The integer whose little-endian bytes start `s`.
pub open spec fn dec64(s: Seq<u8>) -> u64 {
    (s[0] as u64) | ((s[1] as u64) << 8u64) | ((s[2] as u64) << 16u64) | ((s[3] as u64) << 24u64)
        | ((s[4] as u64) << 32u64) | ((s[5] as u64) << 40u64) | ((s[6] as u64) << 48u64) | ((
    s[7] as u64) << 56u64)
}

pub proof fn lemma_le16_round_trip(v: u16)
    ensures
        le16(v).len() == 2,
        dec16(le16(v)) == v,
{
    assert((((v & 0xff) as u8) as u16) | ((((v >> 8u16) & 0xff) as u8) as u16) << 8u16 == v)
        by (bit_vector);
}

pub proof fn lemma_le32_round_trip(v: u32)
    ensures
        le32(v).len() == 4,
        dec32(le32(v)) == v,
{
    assert((((v & 0xff) as u8) as u32) | ((((v >> 8u32) & 0xff) as u8) as u32) << 8u32 | ((((v
        >> 16u32) & 0xff) as u8) as u32) << 16u32 | ((((v >> 24u32) & 0xff) as u8) as u32)
        << 24u32 == v) by (bit_vector);
}

pub proof fn lemma_le64_round_trip(v: u64)
    ensures
        le64(v).len() == 8,
        dec64(le64(v)) == v,
{
    assert((((v & 0xff) as u8) as u64) | ((((v >> 8u64) & 0xff) as u8) as u64) << 8u64 | ((((v
        >> 16u64) & 0xff) as u8) as u64) << 16u64 | ((((v >> 24u64) & 0xff) as u8) as u64)
        << 24u64 | ((((v >> 32u64) & 0xff) as u8) as u64) << 32u64 | ((((v >> 40u64) & 0xff)
        as u8) as u64) << 40u64 | ((((v >> 48u64) & 0xff) as u8) as u64) << 48u64 | ((((v
        >> 56u64) & 0xff) as u8) as u64) << 56u64 == v) by (bit_vector);
}

pub proof fn lemma_i32_cast_round_trip(v: i32)
    ensures
        (v as u32) as i32 == v,
{
    assert((v as u32) as i32 == v) by (bit_vector);
}

pub proof fn lemma_i64_cast_round_trip(v: i64)
    ensures
        (v as u64) as i64 == v,
{
    assert((v as u64) as i64 == v) by (bit_vector);
}

pub fn push_u16(buf: &mut Vec<u8>, v: u16)
    ensures
        final(buf)@ == old(buf)@ + le16(v),
{
    buf.push((v & 0xff) as u8);
    buf.push(((v >> 8u16) & 0xff) as u8);
    assert(buf@ =~= old(buf)@ + le16(v));
}

pub fn push_u32(buf: &mut Vec<u8>, v: u32)
    ensures
        final(buf)@ == old(buf)@ + le32(v),
{
    buf.push((v & 0xff) as u8);
    buf.push(((v >> 8u32) & 0xff) as u8);
    buf.push(((v >> 16u32) & 0xff) as u8);
    buf.push(((v >> 24u32) & 0xff) as u8);
    assert(buf@ =~= old(buf)@ + le32(v));
}

pub fn push_u64(buf: &mut Vec<u8>, v: u64)
    ensures
        final(buf)@ == old(buf)@ + le64(v),
{
    push_u32(buf, (v & 0xffff_ffff) as u32);
    push_u32(buf, (v >> 32u64) as u32);
    let ghost lo = (v & 0xffff_ffff) as u32;
    let ghost hi = (v >> 32u64) as u32;
    assert((lo & 0xff) as u8 == (v & 0xff) as u8) by (bit_vector)
        requires
            lo == (v & 0xffff_ffff) as u32,
    ;
    assert(((lo >> 8u32) & 0xff) as u8 == ((v >> 8u64) & 0xff) as u8) by (bit_vector)
        requires
            lo == (v & 0xffff_ffff) as u32,
    ;
    assert(((lo >> 16u32) & 0xff) as u8 == ((v >> 16u64) & 0xff) as u8) by (bit_vector)
        requires
            lo == (v & 0xffff_ffff) as u32,
    ;
    assert(((lo >> 24u32) & 0xff) as u8 == ((v >> 24u64) & 0xff) as u8) by (bit_vector)
        requires
            lo == (v & 0xffff_ffff) as u32,
    ;
    assert((hi & 0xff) as u8 == ((v >> 32u64) & 0xff) as u8) by (bit_vector)
        requires
            hi == (v >> 32u64) as u32,
    ;
    assert(((hi >> 8u32) & 0xff) as u8 == ((v >> 40u64) & 0xff) as u8) by (bit_vector)
        requires
            hi == (v >> 32u64) as u32,
    ;
    assert(((hi >> 16u32) & 0xff) as u8 == ((v >> 48u64) & 0xff) as u8) by (bit_vector)
        requires
            hi == (v >> 32u64) as u32,
    ;
    assert(((hi >> 24u32) & 0xff) as u8 == ((v >> 56u64) & 0xff) as u8) by (bit_vector)
        requires
            hi == (v >> 32u64) as u32,
    ;
    assert(buf@ =~= old(buf)@ + le64(v));
}

/// Appends `n` zero bytes to `buf`.
pub fn push_zeros(buf: &mut Vec<u8>, n: usize)
    ensures
        final(buf)@ == old(buf)@ + Seq::new(n as nat, |i: int| 0u8),
{
    let mut i: usize = 0;
    while i < n
        invariant
            i <= n,
            buf@ == old(buf)@ + Seq::new(i as nat, |j: int| 0u8),
        decreases n - i,
    {
        buf.push(0u8);
        i = i + 1;
        assert(buf@ =~= old(buf)@ + Seq::new(i as nat, |j: int| 0u8));
    }
}

pub fn get_u16(b: &[u8], off: usize) -> (r: u16)
    requires
        off + 2 <= b@.len(),
    ensures
        r == dec16(b@.subrange(off as int, off + 2)),
{
    (b[off] as u16) | ((b[off + 1] as u16) << 8u16)
}

pub fn get_u32(b: &[u8], off: usize) -> (r: u32)
    requires
        off + 4 <= b@.len(),
    ensures
        r == dec32(b@.subrange(off as int, off + 4)),
{
    (b[off] as u32) | ((b[off + 1] as u32) << 8u32) | ((b[off + 2] as u32) << 16u32) | ((b[off
        + 3] as u32) << 24u32)
}

pub fn get_u64(b: &[u8], off: usize) -> (r: u64)
    requires
        off + 8 <= b@.len(),
    ensures
        r == dec64(b@.subrange(off as int, off + 8)),
{
    (b[off] as u64) | ((b[off + 1] as u64) << 8u64) | ((b[off + 2] as u64) << 16u64) | ((b[off
        + 3] as u64) << 24u64) | ((b[off + 4] as u64) << 32u64) | ((b[off + 5] as u64) << 40u64)
        | ((b[off + 6] as u64) << 48u64) | ((b[off + 7] as u64) << 56u64)
}

} // verus!
