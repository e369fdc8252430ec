//! Readings as they travel: unsigned numbers in the byte order of the meter.

use vstd::prelude::*;

use crate::meter::MercuryMeter;

verus! {

/// A measured value: the fraction `raw / factor` of its unit.
#[derive(Debug, Clone, Copy, PartialEq, Eq, Structural)]
pub struct Reading {
    pub raw: u32,
    pub factor: u32,
}

/// The number in three bytes. The first holds the highest six bits, below two
/// flags that do not count; the second the lowest eight; the third those between.
pub open spec fn three_byte_number(b: Seq<u8>) -> int {
    (b[0] as int % 64) * 0x10000 + b[2] * 0x100 + b[1]
}

/// The number in four bytes: two 16-bit words, the upper first, each with its low
/// byte first.
pub open spec fn four_byte_number(b: Seq<u8>) -> int {
    b[1] * 0x1000000 + b[0] * 0x10000 + b[3] * 0x100 + b[2]
}

/// The three bytes that carry a number below `2^22`, with the flags given.
pub open spec fn three_bytes(n: int, flags: int) -> Seq<u8> {
    seq![(flags * 64 + n / 0x10000) as u8, (n % 0x100) as u8, (n / 0x100 % 0x100) as u8]
}

/// The four bytes that carry a number below `2^32`.
pub open spec fn four_bytes(n: int) -> Seq<u8> {
    seq![
        (n / 0x10000 % 0x100) as u8,
        (n / 0x1000000) as u8,
        (n % 0x100) as u8,
        (n / 0x100 % 0x100) as u8,
    ]
}

/// The reading that [`MercuryMeter::decode_b3f_u`] makes of bytes.
pub open spec fn reading3(b: Seq<u8>, factor: u32) -> Reading {
    if b.len() < 3 {
        Reading { raw: 0, factor: 1 }
    } else {
        Reading { raw: three_byte_number(b) as u32, factor }
    }
}

/// The reading that [`MercuryMeter::decode_b4f_u`] makes of bytes.
pub open spec fn reading4(b: Seq<u8>, factor: u32) -> Reading {
    if b.len() < 4 {
        Reading { raw: 0, factor: 1 }
    } else {
        Reading { raw: four_byte_number(b) as u32, factor }
    }
}

impl MercuryMeter {
    /// Decodes the number in the first three bytes, in parts of `factor`. Fewer
    /// bytes are read as zero.
    pub fn decode_b3f_u(b: &[u8], factor: u32) -> (reading: Reading)
        ensures
            reading == reading3(b@, factor),
            b@.len() >= 3 ==> reading.factor == factor && reading.raw == (b@[0] as int % 64)
                * 0x10000 + b@[2] * 0x100 + b@[1],
            b@.len() < 3 ==> reading.raw == 0 && reading.factor == 1,
    {
        if b.len() < 3 {
            return Reading { raw: 0, factor: 1 };
        }
        let high: u32 = b[0] as u32;
        let low: u32 = b[1] as u32;
        let middle: u32 = b[2] as u32;
        let raw: u32 = (high & 0x3f) << 16 | (middle << 8) | low;
        proof {
            assert(raw == (high % 64) * 0x10000 + middle * 0x100 + low) by (bit_vector)
                requires
                    raw == (high & 0x3f) << 16 | (middle << 8) | low,
                    high < 256,
                    low < 256,
                    middle < 256,
            ;
        }
        Reading { raw, factor }
    }

    /// Decodes the number in the first four bytes, in parts of `factor`. Fewer
    /// bytes are read as zero.
    pub fn decode_b4f_u(b: &[u8], factor: u32) -> (reading: Reading)
        ensures
            reading == reading4(b@, factor),
            b@.len() >= 4 ==> reading.factor == factor && reading.raw == b@[1] * 0x1000000 + b@[0]
                * 0x10000 + b@[3] * 0x100 + b@[2],
            b@.len() < 4 ==> reading.raw == 0 && reading.factor == 1,
    {
        if b.len() < 4 {
            return Reading { raw: 0, factor: 1 };
        }
        let b0: u32 = b[0] as u32;
        let b1: u32 = b[1] as u32;
        let b2: u32 = b[2] as u32;
        let b3: u32 = b[3] as u32;
        let raw: u32 = b2 | (b3 << 8) | (b0 << 16) | (b1 << 24);
        proof {
            assert(raw == b1 * 0x1000000 + b0 * 0x10000 + b3 * 0x100 + b2) by (bit_vector)
                requires
                    raw == b2 | (b3 << 8) | (b0 << 16) | (b1 << 24),
                    b0 < 256,
                    b1 < 256,
                    b2 < 256,
                    b3 < 256,
            ;
        }
        Reading { raw, factor }
    }
}

/// A number below `2^22` that is sent as its upper six bits, its lower byte and the
/// byte between, with any two flags above, is read as that number, in the parts asked
/// for, whatever comes behind it. Bytes that are missing make it zero.
pub proof fn law_three_bytes_sent_are_read(n: int, flags: int, tail: Seq<u8>, factor: u32)
    requires
        0 <= n < 0x400000,
        0 <= flags < 4,
    ensures
        reading3(
            seq![
                (flags * 64 + n / 0x10000) as u8,
                (n % 0x100) as u8,
                (n / 0x100 % 0x100) as u8,
            ] + tail,
            factor,
        ) == (Reading { raw: n as u32, factor }),
        tail.len() < 3 ==> reading3(tail, factor).raw == 0,
{
    let b0 = flags * 64 + n / 0x10000;
    assert(0 <= n / 0x10000 < 64);
    assert(b0 % 64 == n / 0x10000);
}

/// A number below `2^32` that is sent as its upper and its lower 16 bits, each with the
/// low byte first, is read as that number, in the parts asked for, whatever comes
/// behind it. Bytes that are missing make it zero.
pub proof fn law_four_bytes_sent_are_read(n: int, tail: Seq<u8>, factor: u32)
    requires
        0 <= n < 0x100000000,
    ensures
        reading4(
            seq![
                (n / 0x10000 % 0x100) as u8,
                (n / 0x1000000) as u8,
                (n % 0x100) as u8,
                (n / 0x100 % 0x100) as u8,
            ] + tail,
            factor,
        ) == (Reading { raw: n as u32, factor }),
        tail.len() < 4 ==> reading4(tail, factor).raw == 0,
{
}

/// Every number below `2^22` is read back from the three bytes that carry it,
/// whatever the two flags above it are.
pub proof fn law_three_bytes_read_back(n: int, flags: int)
    requires
        0 <= n < 0x400000,
        0 <= flags < 4,
    ensures
        three_byte_number(three_bytes(n, flags)) == n,
{
    let b0 = flags * 64 + n / 0x10000;
    assert(0 <= n / 0x10000 < 64);
    assert(b0 % 64 == n / 0x10000);
}

/// Every number below `2^32` is read back from the four bytes that carry it.
pub proof fn law_four_bytes_read_back(n: int)
    requires
        0 <= n < 0x100000000,
    ensures
        four_byte_number(four_bytes(n)) == n,
{
}

/// Three bytes are what their number and the two flags of the first make up.
pub proof fn law_three_bytes_spelled(b: Seq<u8>)
    requires
        b.len() == 3,
    ensures
        0 <= three_byte_number(b) < 0x400000,
        three_bytes(three_byte_number(b), b[0] as int / 64) == b,
{
    let n = three_byte_number(b);
    assert(n / 0x10000 == b[0] as int % 64);
    assert(three_bytes(n, b[0] as int / 64) =~= b);
}

/// Four bytes are spelled by their number alone, so different bytes never give
/// the same number.
pub proof fn law_four_bytes_spelled(b: Seq<u8>)
    requires
        b.len() == 4,
    ensures
        0 <= four_byte_number(b) < 0x100000000,
        four_bytes(four_byte_number(b)) == b,
{
    let n = four_byte_number(b);
    assert(n / 0x1000000 == b[1]);
    assert(n / 0x10000 == b[1] * 0x100 + b[0]);
    assert(n / 0x100 == b[1] * 0x10000 + b[0] * 0x100 + b[3]);
    assert(four_bytes(n) =~= b);
}

} // verus!
