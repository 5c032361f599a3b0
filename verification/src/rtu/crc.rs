use vstd::prelude::*;
use crate::wire::{hi_byte, lo_byte, u16_hi, u16_lo};

verus! {

/// One shift of the CRC-16/Modbus register (reflected polynomial 0xA001).
pub open spec fn crc_shift(crc: u16) -> u16 {
    if crc & 0x0001 != 0 {
        (crc >> 1) ^ 0xA001
    } else {
        crc >> 1
    }
}

/// `n` shifts of the CRC register.
pub open spec fn crc_shift_n(crc: u16, n: nat) -> u16
    decreases n,
{
    if n == 0 {
        crc
    } else {
        crc_shift(crc_shift_n(crc, (n - 1) as nat))
    }
}

/// The CRC register after taking in one more byte.
pub open spec fn crc_update(crc: u16, byte: u8) -> u16 {
    crc_shift_n(crc ^ (byte as u16), 8)
}

/// The CRC-16/Modbus checksum of `data`: the register starts at 0xFFFF and
/// takes in the bytes in order.
pub open spec fn crc16(data: Seq<u8>) -> u16
    decreases data.len(),
{
    if data.len() == 0 {
        0xFFFF
    } else {
        crc_update(crc16(data.drop_last()), data.last())
    }
}

/// Whether `crc_low`, `crc_high` are the checksum of `data`, low byte first,
/// as a Modbus/RTU frame transmits it.
pub open spec fn crc_matches(data: Seq<u8>, crc_low: u8, crc_high: u8) -> bool {
    lo_byte(crc16(data)) == crc_low && hi_byte(crc16(data)) == crc_high
}

/// Compute checksum to verify the validity of Modbus/RTU frames.
pub fn rtu_crc(data: &[u8]) -> (r: u16)
    ensures
        r == crc16(data@),
{
    let mut crc: u16 = 0xFFFF;
    let mut i: usize = 0;
    while i < data.len()
        invariant
            i <= data.len(),
            crc == crc16(data@.take(i as int)),
        decreases data.len() - i,
    {
        let byte = data[i];
        crc = crc ^ (byte as u16);
        let ghost start = crc;
        let mut k: u8 = 0;
        while k < 8
            invariant
                k <= 8,
                crc == crc_shift_n(start, k as nat),
            decreases 8 - k,
        {
            if crc & 0x0001 != 0 {
                crc = crc >> 1;
                crc = crc ^ 0xA001;
            } else {
                crc = crc >> 1;
            }
            k += 1;
        }
        proof {
            assert(data@.take(i + 1).drop_last() =~= data@.take(i as int));
        }
        i += 1;
    }
    proof {
        assert(data@.take(data.len() as int) =~= data@);
    }
    crc
}

/// Check the computed checksum against the transmitted/received checksum.
pub fn check_rtu_crc(data: &[u8], crc_low: u8, crc_high: u8) -> (r: bool)
    ensures
        r == crc_matches(data@, crc_low, crc_high),
{
    let computed_crc = rtu_crc(data);
    let low = u16_lo(computed_crc);
    let high = u16_hi(computed_crc);

    if low == crc_low && high == crc_high {
        true
    } else {
        false
    }
}

/// The checksum bytes that `rtu_crc` computes for some data are accepted
/// for that data, and no other pair of bytes is.
pub proof fn lemma_crc_check_accepts_own_checksum(data: Seq<u8>, crc_low: u8, crc_high: u8)
    ensures
        crc_matches(data, lo_byte(crc16(data)), hi_byte(crc16(data))),
        crc_matches(data, crc_low, crc_high) <==> (crc_low == lo_byte(crc16(data)) && crc_high
            == hi_byte(crc16(data))),
{
}

/// Shifting a register whose low byte is zero shifts in no polynomial.
proof fn lemma_crc_shift_low_byte_zero(x: u16, k: nat)
    requires
        x & 0xFF == 0,
        k <= 8,
    ensures
        crc_shift_n(x, k) == x >> (k as u16),
    decreases k,
{
    if k == 0 {
        assert(x >> 0u16 == x) by (bit_vector);
    } else {
        lemma_crc_shift_low_byte_zero(x, (k - 1) as nat);
        let j = (k - 1) as u16;
        let kk = k as u16;
        let y = x >> j;
        assert(y & 0x0001 == 0 && y >> 1u16 == x >> kk) by (bit_vector)
            requires
                x & 0xFF == 0,
                j < 8,
                kk == j + 1,
                y == x >> j,
        ;
        assert(crc_shift(y) == y >> 1u16);
    }
}

/// A zero register stays zero.
proof fn lemma_crc_shift_zero(k: nat)
    ensures
        crc_shift_n(0, k) == 0,
    decreases k,
{
    if k > 0 {
        lemma_crc_shift_zero((k - 1) as nat);
        assert(0u16 & 0x0001 == 0 && (0u16 >> 1u16) == 0u16) by (bit_vector);
        assert(crc_shift(0) == 0);
    }
}

/// Data followed by its own checksum, low byte first as a Modbus/RTU frame
/// carries it, has checksum zero.
pub proof fn lemma_crc_residue(data: Seq<u8>)
    ensures
        crc16(data.push(lo_byte(crc16(data))).push(hi_byte(crc16(data)))) == 0,
{
    let c = crc16(data);
    let lo = lo_byte(c);
    let hi = hi_byte(c);
    let d1 = data.push(lo);
    let d2 = d1.push(hi);
    assert(d1.drop_last() =~= data);
    assert(d2.drop_last() =~= d1);
    assert(lo as u16 == c % 256);
    assert(hi as u16 == c / 256);
    let a = c ^ (lo as u16);
    assert((c ^ (c % 256)) & 0xFF == 0 && (c ^ (c % 256)) >> 8 == c / 256) by (bit_vector);
    lemma_crc_shift_low_byte_zero(a, 8);
    assert(crc16(d1) == hi as u16);
    assert((hi as u16) ^ (hi as u16) == 0) by (bit_vector);
    lemma_crc_shift_zero(8);
}

/// Eight shifts of the CRC register, written out.
pub open spec fn crc_eight_shifts(crc: u16) -> u16 {
    crc_shift(crc_shift(crc_shift(crc_shift(crc_shift(crc_shift(crc_shift(crc_shift(crc))))))))
}

/// Taking in a byte is eight shifts of the register with the byte mixed in.
proof fn lemma_crc_update_unrolled(crc: u16, byte: u8)
    ensures
        crc_update(crc, byte) == crc_eight_shifts(crc ^ (byte as u16)),
{
    reveal_with_fuel(crc_shift_n, 9);
}

/// The checksum of `data` followed by `byte` is that of `data` taking in `byte`.
proof fn lemma_crc16_push(data: Seq<u8>, byte: u8)
    ensures
        crc16(data.push(byte)) == crc_update(crc16(data), byte),
{
    assert(data.push(byte).drop_last() =~= data);
}

/// The CRC-16/Modbus check values: no bytes give 0xFFFF, the ASCII digits
/// "123456789" give 0x4B37 (the catalogued check value of CRC-16/Modbus,
/// which fixes its polynomial 0xA001 reflected, its start value 0xFFFF and
/// no final XOR), and the read holding registers request 01 03 00 00 00 02
/// gives 0x0BC4 (sent as C4 0B).
pub proof fn lemma_crc_check_values()
    ensures
        crc16(Seq::<u8>::empty()) == 0xFFFF,
        crc16(seq![0x31u8, 0x32, 0x33, 0x34, 0x35, 0x36, 0x37, 0x38, 0x39]) == 0x4B37,
        crc16(seq![0x01u8, 0x03, 0x00, 0x00, 0x00, 0x02]) == 0x0BC4,
{
    let d0 = Seq::<u8>::empty();
    let d1 = d0.push(0x31u8);
    lemma_crc16_push(d0, 0x31u8);
    lemma_crc_update_unrolled(0xFFFFu16, 0x31u8);
    assert(crc_eight_shifts(0xFFFFu16 ^ 0x31u16) == 0x947Eu16) by (bit_vector);
    assert(crc16(d1) == 0x947E);
    let d2 = d1.push(0x32u8);
    lemma_crc16_push(d1, 0x32u8);
    lemma_crc_update_unrolled(0x947Eu16, 0x32u8);
    assert(crc_eight_shifts(0x947Eu16 ^ 0x32u16) == 0xF595u16) by (bit_vector);
    assert(crc16(d2) == 0xF595);
    let d3 = d2.push(0x33u8);
    lemma_crc16_push(d2, 0x33u8);
    lemma_crc_update_unrolled(0xF595u16, 0x33u8);
    assert(crc_eight_shifts(0xF595u16 ^ 0x33u16) == 0x7A75u16) by (bit_vector);
    assert(crc16(d3) == 0x7A75);
    let d4 = d3.push(0x34u8);
    lemma_crc16_push(d3, 0x34u8);
    lemma_crc_update_unrolled(0x7A75u16, 0x34u8);
    assert(crc_eight_shifts(0x7A75u16 ^ 0x34u16) == 0x30BAu16) by (bit_vector);
    assert(crc16(d4) == 0x30BA);
    let d5 = d4.push(0x35u8);
    lemma_crc16_push(d4, 0x35u8);
    lemma_crc_update_unrolled(0x30BAu16, 0x35u8);
    assert(crc_eight_shifts(0x30BAu16 ^ 0x35u16) == 0xA471u16) by (bit_vector);
    assert(crc16(d5) == 0xA471);
    let d6 = d5.push(0x36u8);
    lemma_crc16_push(d5, 0x36u8);
    lemma_crc_update_unrolled(0xA471u16, 0x36u8);
    assert(crc_eight_shifts(0xA471u16 ^ 0x36u16) == 0x32E4u16) by (bit_vector);
    assert(crc16(d6) == 0x32E4);
    let d7 = d6.push(0x37u8);
    lemma_crc16_push(d6, 0x37u8);
    lemma_crc_update_unrolled(0x32E4u16, 0x37u8);
    assert(crc_eight_shifts(0x32E4u16 ^ 0x37u16) == 0x9D73u16) by (bit_vector);
    assert(crc16(d7) == 0x9D73);
    let d8 = d7.push(0x38u8);
    lemma_crc16_push(d7, 0x38u8);
    lemma_crc_update_unrolled(0x9D73u16, 0x38u8);
    assert(crc_eight_shifts(0x9D73u16 ^ 0x38u16) == 0x37DDu16) by (bit_vector);
    assert(crc16(d8) == 0x37DD);
    let d9 = d8.push(0x39u8);
    lemma_crc16_push(d8, 0x39u8);
    lemma_crc_update_unrolled(0x37DDu16, 0x39u8);
    assert(crc_eight_shifts(0x37DDu16 ^ 0x39u16) == 0x4B37u16) by (bit_vector);
    assert(crc16(d9) == 0x4B37);
    assert(d9 =~= seq![0x31u8, 0x32, 0x33, 0x34, 0x35, 0x36, 0x37, 0x38, 0x39]);
    let m0 = Seq::<u8>::empty();
    let m1 = m0.push(0x01u8);
    lemma_crc16_push(m0, 0x01u8);
    lemma_crc_update_unrolled(0xFFFFu16, 0x01u8);
    assert(crc_eight_shifts(0xFFFFu16 ^ 0x01u16) == 0x807Eu16) by (bit_vector);
    assert(crc16(m1) == 0x807E);
    let m2 = m1.push(0x03u8);
    lemma_crc16_push(m1, 0x03u8);
    lemma_crc_update_unrolled(0x807Eu16, 0x03u8);
    assert(crc_eight_shifts(0x807Eu16 ^ 0x03u16) == 0x2140u16) by (bit_vector);
    assert(crc16(m2) == 0x2140);
    let m3 = m2.push(0x00u8);
    lemma_crc16_push(m2, 0x00u8);
    lemma_crc_update_unrolled(0x2140u16, 0x00u8);
    assert(crc_eight_shifts(0x2140u16 ^ 0x00u16) == 0xF020u16) by (bit_vector);
    assert(crc16(m3) == 0xF020);
    let m4 = m3.push(0x00u8);
    lemma_crc16_push(m3, 0x00u8);
    lemma_crc_update_unrolled(0xF020u16, 0x00u8);
    assert(crc_eight_shifts(0xF020u16 ^ 0x00u16) == 0xD8F1u16) by (bit_vector);
    assert(crc16(m4) == 0xD8F1);
    let m5 = m4.push(0x00u8);
    lemma_crc16_push(m4, 0x00u8);
    lemma_crc_update_unrolled(0xD8F1u16, 0x00u8);
    assert(crc_eight_shifts(0xD8F1u16 ^ 0x00u16) == 0x8419u16) by (bit_vector);
    assert(crc16(m5) == 0x8419);
    let m6 = m5.push(0x02u8);
    lemma_crc16_push(m5, 0x02u8);
    lemma_crc_update_unrolled(0x8419u16, 0x02u8);
    assert(crc_eight_shifts(0x8419u16 ^ 0x02u16) == 0x0BC4u16) by (bit_vector);
    assert(crc16(m6) == 0x0BC4);
    assert(m6 =~= seq![0x01u8, 0x03, 0x00, 0x00, 0x00, 0x02]);
}

} // verus!
