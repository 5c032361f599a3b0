use vstd::prelude::*;

verus! {

// ── Values as register words, most significant word first ──

/// The word of a `bool`: all bits set for `true`, none for `false`.
pub open spec fn bool_word(v: bool) -> u16 {
    if v {
        0xFFFF
    } else {
        0
    }
}

/// The two words of a 32-bit value.
pub open spec fn u32_words(v: u32) -> Seq<u16> {
    seq![(v as int / 0x1_0000) as u16, (v as int % 0x1_0000) as u16]
}

/// The 32-bit value of two words.
pub open spec fn u32_of_words(w: Seq<u16>) -> u32 {
    (w[0] as int * 0x1_0000 + w[1] as int) as u32
}

/// The four words of a 64-bit value.
pub open spec fn u64_words(v: u64) -> Seq<u16> {
    seq![
        (v as int / 0x1_0000_0000_0000) as u16,
        (v as int / 0x1_0000_0000 % 0x1_0000) as u16,
        (v as int / 0x1_0000 % 0x1_0000) as u16,
        (v as int % 0x1_0000) as u16,
    ]
}

/// The 64-bit value of four words.
pub open spec fn u64_of_words(w: Seq<u16>) -> u64 {
    (w[0] as int * 0x1_0000_0000_0000 + w[1] as int * 0x1_0000_0000 + w[2] as int * 0x1_0000
        + w[3] as int) as u64
}

// ── Two's complement bit patterns ──

/// The bit pattern of an `i8`.
pub open spec fn i8_bits(v: i8) -> u8 {
    if v < 0 {
        (v + 0x100) as u8
    } else {
        v as u8
    }
}

/// The `i8` of a bit pattern.
pub open spec fn i8_of_bits(b: u8) -> i8 {
    if b < 0x80 {
        b as i8
    } else {
        (b - 0x100) as i8
    }
}

/// The bit pattern of an `i16`.
pub open spec fn i16_bits(v: i16) -> u16 {
    if v < 0 {
        (v + 0x1_0000) as u16
    } else {
        v as u16
    }
}

/// The `i16` of a bit pattern.
pub open spec fn i16_of_bits(b: u16) -> i16 {
    if b < 0x8000 {
        b as i16
    } else {
        (b - 0x1_0000) as i16
    }
}

/// The bit pattern of an `i32`.
pub open spec fn i32_bits(v: i32) -> u32 {
    if v < 0 {
        (v + 0x1_0000_0000) as u32
    } else {
        v as u32
    }
}

/// The `i32` of a bit pattern.
pub open spec fn i32_of_bits(b: u32) -> i32 {
    if b < 0x8000_0000 {
        b as i32
    } else {
        (b - 0x1_0000_0000) as i32
    }
}

/// The bit pattern of an `i64`.
pub open spec fn i64_bits(v: i64) -> u64 {
    if v < 0 {
        (v + 0x1_0000_0000_0000_0000) as u64
    } else {
        v as u64
    }
}

/// The `i64` of a bit pattern.
pub open spec fn i64_of_bits(b: u64) -> i64 {
    if b < 0x8000_0000_0000_0000 {
        b as i64
    } else {
        (b - 0x1_0000_0000_0000_0000) as i64
    }
}

// ── Laws: each conversion is undone by its inverse ──

/// Splitting a 32-bit value into words and joining them gives it back.
pub proof fn lemma_u32_words_roundtrip(v: u32)
    ensures
        u32_of_words(u32_words(v)) == v,
{
}

/// Joining two words into a 32-bit value and splitting it gives them back.
pub proof fn lemma_u32_of_words_roundtrip(w: Seq<u16>)
    requires
        w.len() == 2,
    ensures
        u32_words(u32_of_words(w)) == w,
{
    assert(u32_words(u32_of_words(w)) =~= w);
}

/// Splitting a 64-bit value into words and joining them gives it back.
pub proof fn lemma_u64_words_roundtrip(v: u64)
    ensures
        u64_of_words(u64_words(v)) == v,
{
    let x = v as int;
    assert(x == (x / 0x1_0000_0000_0000) * 0x1_0000_0000_0000 + (x / 0x1_0000_0000 % 0x1_0000)
        * 0x1_0000_0000 + (x / 0x1_0000 % 0x1_0000) * 0x1_0000 + x % 0x1_0000) by (nonlinear_arith)
        requires
            0 <= x,
    ;
}

/// Joining four words into a 64-bit value and splitting it gives them back.
pub proof fn lemma_u64_of_words_roundtrip(w: Seq<u16>)
    requires
        w.len() == 4,
    ensures
        u64_words(u64_of_words(w)) == w,
{
    let a = w[0] as int;
    let b = w[1] as int;
    let c = w[2] as int;
    let d = w[3] as int;
    let x = a * 0x1_0000_0000_0000 + b * 0x1_0000_0000 + c * 0x1_0000 + d;
    assert(x / 0x1_0000_0000_0000 == a && x / 0x1_0000_0000 % 0x1_0000 == b && x / 0x1_0000
        % 0x1_0000 == c && x % 0x1_0000 == d) by (nonlinear_arith)
        requires
            0 <= a < 0x1_0000,
            0 <= b < 0x1_0000,
            0 <= c < 0x1_0000,
            0 <= d < 0x1_0000,
            x == a * 0x1_0000_0000_0000 + b * 0x1_0000_0000 + c * 0x1_0000 + d,
    ;
    assert(u64_words(u64_of_words(w)) =~= w);
}

/// The bit pattern of an `i8` gives the value back, and every pattern is one.
pub proof fn lemma_i8_bits_roundtrip(v: i8, b: u8)
    ensures
        i8_of_bits(i8_bits(v)) == v,
        i8_bits(i8_of_bits(b)) == b,
{
}

/// The bit pattern of an `i16` gives the value back, and every pattern is one.
pub proof fn lemma_i16_bits_roundtrip(v: i16, b: u16)
    ensures
        i16_of_bits(i16_bits(v)) == v,
        i16_bits(i16_of_bits(b)) == b,
{
}

/// The bit pattern of an `i32` gives the value back, and every pattern is one.
pub proof fn lemma_i32_bits_roundtrip(v: i32, b: u32)
    ensures
        i32_of_bits(i32_bits(v)) == v,
        i32_bits(i32_of_bits(b)) == b,
{
}

/// The bit pattern of an `i64` gives the value back, and every pattern is one.
pub proof fn lemma_i64_bits_roundtrip(v: i64, b: u64)
    ensures
        i64_of_bits(i64_bits(v)) == v,
        i64_bits(i64_of_bits(b)) == b,
{
}

// ── Executable conversions ──

/// The two words of a 32-bit value.
pub fn split_u32(v: u32) -> (r: [u16; 2])
    ensures
        r@ == u32_words(v),
{
    let r = [(v / 0x1_0000) as u16, (v % 0x1_0000) as u16];
    assert(r@ =~= u32_words(v));
    r
}

/// The 32-bit value of two words.
pub fn join_u32(hi: u16, lo: u16) -> (r: u32)
    ensures
        r == u32_of_words(seq![hi, lo]),
{
    (hi as u32) * 0x1_0000 + lo as u32
}

/// The four words of a 64-bit value.
pub fn split_u64(v: u64) -> (r: [u16; 4])
    ensures
        r@ == u64_words(v),
{
    let r = [
        (v / 0x1_0000_0000_0000) as u16,
        (v / 0x1_0000_0000 % 0x1_0000) as u16,
        (v / 0x1_0000 % 0x1_0000) as u16,
        (v % 0x1_0000) as u16,
    ];
    assert(r@ =~= u64_words(v));
    r
}

/// The 64-bit value of four words.
pub fn join_u64(w0: u16, w1: u16, w2: u16, w3: u16) -> (r: u64)
    ensures
        r == u64_of_words(seq![w0, w1, w2, w3]),
{
    (w0 as u64) * 0x1_0000_0000_0000 + (w1 as u64) * 0x1_0000_0000 + (w2 as u64) * 0x1_0000
        + w3 as u64
}

/// The bit pattern of an `i8`.
pub fn i8_to_bits(v: i8) -> (r: u8)
    ensures
        r == i8_bits(v),
{
    if v < 0 {
        (v as i16 + 0x100) as u8
    } else {
        v as u8
    }
}

/// The `i8` of a bit pattern.
pub fn i8_from_bits(b: u8) -> (r: i8)
    ensures
        r == i8_of_bits(b),
{
    if b < 0x80 {
        b as i8
    } else {
        (b as i16 - 0x100) as i8
    }
}

/// The bit pattern of an `i16`.
pub fn i16_to_bits(v: i16) -> (r: u16)
    ensures
        r == i16_bits(v),
{
    if v < 0 {
        (v as i32 + 0x1_0000) as u16
    } else {
        v as u16
    }
}

/// The `i16` of a bit pattern.
pub fn i16_from_bits(b: u16) -> (r: i16)
    ensures
        r == i16_of_bits(b),
{
    if b < 0x8000 {
        b as i16
    } else {
        (b as i32 - 0x1_0000) as i16
    }
}

/// The bit pattern of an `i32`.
pub fn i32_to_bits(v: i32) -> (r: u32)
    ensures
        r == i32_bits(v),
{
    if v < 0 {
        (v as i64 + 0x1_0000_0000) as u32
    } else {
        v as u32
    }
}

/// The `i32` of a bit pattern.
pub fn i32_from_bits(b: u32) -> (r: i32)
    ensures
        r == i32_of_bits(b),
{
    if b < 0x8000_0000 {
        b as i32
    } else {
        (b as i64 - 0x1_0000_0000) as i32
    }
}

/// The bit pattern of an `i64`.
pub fn i64_to_bits(v: i64) -> (r: u64)
    ensures
        r == i64_bits(v),
{
    if v < 0 {
        (v as i128 + 0x1_0000_0000_0000_0000) as u64
    } else {
        v as u64
    }
}

/// The `i64` of a bit pattern.
pub fn i64_from_bits(b: u64) -> (r: i64)
    ensures
        r == i64_of_bits(b),
{
    if b < 0x8000_0000_0000_0000 {
        b as i64
    } else {
        (b as i128 - 0x1_0000_0000_0000_0000) as i64
    }
}

} // verus!
