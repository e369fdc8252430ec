//! What the checksum is in algebra: the remainder of a division of polynomials
//! with coefficients modulo two.

use vstd::prelude::*;

use crate::crc::{crc16, crc_from, shift_out, shift_out_many, CRC_INIT};
use crate::frame::lemma_shift_out_upper;

verus! {

/// A polynomial modulo two: whether the power of `x` with that exponent is in it.
pub type Polynomial = spec_fn(int) -> bool;

/// The polynomial without terms.
pub open spec fn zero() -> Polynomial {
    |i: int| false
}

/// The sum of two polynomials, which is their difference as well.
pub open spec fn plus(a: Polynomial, b: Polynomial) -> Polynomial {
    |i: int| a(i) != b(i)
}

/// A polynomial multiplied by `x`.
pub open spec fn times_x(a: Polynomial) -> Polynomial {
    |i: int| i > 0 && a(i - 1)
}

/// The single term `x^n`, or nothing.
pub open spec fn term(n: int, present: bool) -> Polynomial {
    |i: int| present && i == n
}

/// The generator `x^16 + x^15 + x^2 + 1`.
pub open spec fn generator() -> Polynomial {
    |i: int| i == 16 || i == 15 || i == 2 || i == 0
}

/// Bit `k` of a 16-bit word.
pub open spec fn bit(w: u16, k: int) -> bool {
    (w >> (k as u16)) & 1 == 1
}

/// The polynomial of degree below sixteen that a register stands for: its lowest
/// bit is the coefficient of the highest power.
pub open spec fn register(crc: u16) -> Polynomial {
    |i: int| 0 <= i < 16 && bit(crc, 15 - i)
}

/// A multiple of the generator, by a factor given from its highest power down.
pub open spec fn times_generator(factor: Seq<bool>) -> Polynomial
    decreases factor.len(),
{
    if factor.len() == 0 {
        zero()
    } else {
        let shifted = times_x(times_generator(factor.drop_last()));
        if factor.last() {
            plus(shifted, generator())
        } else {
            shifted
        }
    }
}

/// The bits of `data` in the order in which they are sent: the bytes one after the
/// other, the lowest bit of each first.
pub open spec fn message_bits(data: Seq<u8>) -> Seq<bool>
    decreases data.len(),
{
    if data.len() == 0 {
        Seq::empty()
    } else {
        message_bits(data.drop_last()) + byte_bits(data.last(), 8)
    }
}

/// The lowest `n` bits of a byte, the lowest first.
pub open spec fn byte_bits(byte: u8, n: nat) -> Seq<bool> {
    Seq::new(n, |k: int| bit(byte as u16, k))
}

/// The polynomial that is divided: the message `m`, given from its highest power
/// down, as `m * x^16 + initial * x^(number of bits)`.
pub open spec fn dividend(initial: u16, bits: Seq<bool>) -> Polynomial
    decreases bits.len(),
{
    if bits.len() == 0 {
        register(initial)
    } else {
        plus(times_x(dividend(initial, bits.drop_last())), term(16, bits.last()))
    }
}

/// The register after single bits.
spec fn crc_bits(crc: u16, bits: Seq<bool>) -> u16
    decreases bits.len(),
{
    if bits.len() == 0 {
        crc
    } else {
        shift_out(crc_bits(crc, bits.drop_last()) ^ unit(bits.last()))
    }
}

spec fn unit(b: bool) -> u16 {
    if b {
        1
    } else {
        0
    }
}

/// One bit of the register is one step of the division.
proof fn lemma_division_step(crc: u16, b: bool)
    ensures
        ({
            let met = crc ^ unit(b);
            let next = register(shift_out(met));
            plus(times_x(register(crc)), term(16, b)) == if met & 1 == 1 {
                plus(generator(), next)
            } else {
                next
            }
        }),
{
    let met = crc ^ unit(b);
    let out = shift_out(met);
    let left = plus(times_x(register(crc)), term(16, b));
    let right = if met & 1 == 1 {
        plus(generator(), register(out))
    } else {
        register(out)
    };
    let u = unit(b);
    assert forall|i: int| #[trigger] left(i) == right(i) by {
        if i == 16 {
            assert((crc >> 0) & 1 == 1 <==> ((met & 1 == 1) != (u == 1))) by (bit_vector)
                requires
                    met == crc ^ u,
                    u == 0 || u == 1,
            ;
        } else if i == 0 {
            assert(((out >> 15) & 1 == 1) <==> (met & 1 == 1)) by (bit_vector)
                requires
                    out == (if met & 1 == 1 { (met >> 1) ^ 0xA001 } else { met >> 1 }),
            ;
        } else if 0 < i < 16 {
            let from = (16 - i) as u16;
            let to = (15 - i) as u16;
            assert(((out >> to) & 1 == 1) <==> (((crc >> from) & 1 == 1) != (met & 1 == 1 && (to
                == 13 || to == 0)))) by (bit_vector)
                requires
                    out == (if met & 1 == 1 { (met >> 1) ^ 0xA001 } else { met >> 1 }),
                    met == crc ^ u,
                    u == 0 || u == 1,
                    to < 15,
                    from == to + 1,
            ;
            assert(15 - (i - 1) == 16 - i);
        }
    }
    assert(left =~= right);
}

/// The register after `bits` is the remainder of the division.
proof fn lemma_bits_remainder(initial: u16, bits: Seq<bool>) -> (factor: Seq<bool>)
    ensures
        factor.len() == bits.len(),
        dividend(initial, bits) == plus(
            times_generator(factor),
            register(crc_bits(initial, bits)),
        ),
    decreases bits.len(),
{
    if bits.len() == 0 {
        let factor = Seq::<bool>::empty();
        assert(register(initial) =~= plus(zero(), register(initial)));
        factor
    } else {
        let front = bits.drop_last();
        let b = bits.last();
        let before = lemma_bits_remainder(initial, front);
        let crc = crc_bits(initial, front);
        let met = crc ^ unit(b);
        let factor = before.push(met & 1 == 1);
        assert(factor.drop_last() =~= before);
        lemma_division_step(crc, b);
        let quotient = times_generator(before);
        let next = register(shift_out(met));
        assert forall|i: int|
            #[trigger] dividend(initial, bits)(i) == plus(times_generator(factor), next)(i) by {
            let stepped = plus(times_x(register(crc)), term(16, b));
            assert(dividend(initial, bits)(i) == (times_x(quotient)(i) != stepped(i)));
        }
        assert(dividend(initial, bits) =~= plus(times_generator(factor), next));
        factor
    }
}

/// Some of the bits of a byte, fed one at a time, against all of it met at once.
proof fn lemma_byte_as_bits(crc: u16, byte: u8, n: nat)
    requires
        n <= 8,
    ensures
        shift_out_many(crc ^ (byte as u16), n) == crc_bits(crc, byte_bits(byte, n)) ^ ((byte as u16)
            >> (n as u16)),
    decreases n,
{
    let w = byte as u16;
    if n == 0 {
        assert(w >> 0u16 == w) by (bit_vector);
    } else {
        let m = (n - 1) as nat;
        lemma_byte_as_bits(crc, byte, m);
        assert(byte_bits(byte, n).drop_last() =~= byte_bits(byte, m));
        let s = crc_bits(crc, byte_bits(byte, m));
        let k = m as u16;
        let k1 = n as u16;
        let u = unit(bit(w, m as int));
        let z = (w >> k) ^ u;
        assert(s ^ (w >> k) == (s ^ u) ^ z && z & 1 == 0 && z >> 1 == w >> k1) by (bit_vector)
            requires
                u == (if (w >> k) & 1 == 1 { 1u16 } else { 0u16 }),
                z == (w >> k) ^ u,
                k < 8,
                k1 == k + 1,
        ;
        lemma_shift_out_upper(s ^ u, z);
    }
}

proof fn lemma_crc_bits_concatenation(crc: u16, first: Seq<bool>, second: Seq<bool>)
    ensures
        crc_bits(crc, first + second) == crc_bits(crc_bits(crc, first), second),
    decreases second.len(),
{
    let whole = first + second;
    if second.len() == 0 {
        assert(whole =~= first);
    } else {
        assert(whole.drop_last() =~= first + second.drop_last());
        lemma_crc_bits_concatenation(crc, first, second.drop_last());
    }
}

proof fn lemma_bytes_as_bits(crc: u16, data: Seq<u8>)
    ensures
        crc_from(crc, data) == crc_bits(crc, message_bits(data)),
    decreases data.len(),
{
    if data.len() > 0 {
        let front = data.drop_last();
        let byte = data.last();
        lemma_bytes_as_bits(crc, front);
        let c = crc_from(crc, front);
        lemma_byte_as_bits(c, byte, 8);
        let w = byte as u16;
        let r = crc_bits(c, byte_bits(byte, 8));
        assert(r ^ (w >> 8) == r) by (bit_vector)
            requires
                w < 256,
        ;
        lemma_crc_bits_concatenation(crc, message_bits(front), byte_bits(byte, 8));
    }
}

/// The checksum of a message is the remainder that its polynomial, with sixteen
/// places added and the initial register put in front, leaves on division by the
/// generator.
pub proof fn law_checksum_is_remainder(data: Seq<u8>)
    ensures
        exists|factor: Seq<bool>|
            dividend(CRC_INIT, message_bits(data)) == plus(
                #[trigger] times_generator(factor),
                register(crc16(data)),
            ),
{
    let factor = lemma_bits_remainder(CRC_INIT, message_bits(data));
    lemma_bytes_as_bits(CRC_INIT, data);
    assert(dividend(CRC_INIT, message_bits(data)) == plus(
        times_generator(factor),
        register(crc16(data)),
    ));
}

} // verus!
