use vstd::prelude::*;

verus! {

/// The value of the big-endian 16-bit word made of `hi` and `lo`.
pub open spec fn be_u16(hi: u8, lo: u8) -> u16 {
    (hi as int * 256 + lo as int) as u16
}

/// The most significant byte of `v`.
pub open spec fn hi_byte(v: u16) -> u8 {
    (v as int / 256) as u8
}

/// The least significant byte of `v`.
pub open spec fn lo_byte(v: u16) -> u8 {
    (v as int % 256) as u8
}

/// The big-endian encoding of `v` as two bytes.
pub open spec fn be_bytes(v: u16) -> Seq<u8> {
    seq![hi_byte(v), lo_byte(v)]
}

/// The little-endian encoding of `v` as two bytes.
pub open spec fn le_bytes(v: u16) -> Seq<u8> {
    seq![lo_byte(v), hi_byte(v)]
}

/// The value of the big-endian word stored at `i` and `i + 1` of `s`.
pub open spec fn be_u16_at(s: Seq<u8>, i: int) -> u16 {
    be_u16(s[i], s[i + 1])
}

/// Splitting a word into bytes and joining them again gives the word back.
pub proof fn lemma_be_u16_roundtrip(v: u16)
    ensures
        be_u16(hi_byte(v), lo_byte(v)) == v,
{
}

/// A big-endian word is its first byte times 256 plus its second byte, and a
/// word splits into the bytes it is made of that way.
pub proof fn lemma_big_endian_arithmetic(hi: u8, lo: u8, v: u16, s: Seq<u8>, i: int)
    ensures
        be_u16(hi, lo) == hi * 256 + lo,
        hi_byte(v) * 256 + lo_byte(v) == v,
        lo_byte(v) < 256,
        0 <= i && i + 1 < s.len() ==> be_u16_at(s, i) == s[i] * 256 + s[i + 1],
        be_bytes(v) == seq![hi_byte(v), lo_byte(v)],
        le_bytes(v) == seq![lo_byte(v), hi_byte(v)],
{
}

/// Joining two bytes into a word and splitting it again gives the bytes back.
pub proof fn lemma_be_bytes_roundtrip(hi: u8, lo: u8)
    ensures
        hi_byte(be_u16(hi, lo)) == hi,
        lo_byte(be_u16(hi, lo)) == lo,
{
}

/// Joins two bytes, most significant first, into a word.
pub fn u16_from_be(hi: u8, lo: u8) -> (r: u16)
    ensures
        r == be_u16(hi, lo),
{
    (hi as u16) * 256 + (lo as u16)
}

/// The most significant byte of `v`.
pub fn u16_hi(v: u16) -> (r: u8)
    ensures
        r == hi_byte(v),
{
    (v / 256) as u8
}

/// The least significant byte of `v`.
pub fn u16_lo(v: u16) -> (r: u8)
    ensures
        r == lo_byte(v),
{
    (v % 256) as u8
}

} // verus!
