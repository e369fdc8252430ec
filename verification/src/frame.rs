//! Frames on the serial line: a body followed by its checksum, low byte first.

use vstd::prelude::*;

use crate::crc::{absorb, crc16, crc_from, shift_out, shift_out_many, CRC_INIT};
use crate::meter::MercuryMeter;

verus! {

/// The lower byte of a 16-bit word.
pub open spec fn low_byte(word: u16) -> u8 {
    (word % 256) as u8
}

/// The upper byte of a 16-bit word.
pub open spec fn high_byte(word: u16) -> u8 {
    (word / 256) as u8
}

/// The 16-bit word that travels as `low` and then `high`.
pub open spec fn word(low: u8, high: u8) -> u16 {
    (low + 256 * high) as u16
}

/// `body` with its checksum behind it.
pub open spec fn framed(body: Seq<u8>) -> Seq<u8> {
    body.push(low_byte(crc16(body))).push(high_byte(crc16(body)))
}

/// The checksum that the last two bytes of `frame` carry.
pub open spec fn carried_crc(frame: Seq<u8>) -> u16 {
    word(frame[frame.len() - 2], frame[frame.len() - 1])
}

/// The checksum of everything in `frame` but its last two bytes.
pub open spec fn body_crc(frame: Seq<u8>) -> u16 {
    crc16(frame.take(frame.len() - 2))
}

/// Whether the last two bytes of `frame` are the checksum of those before them.
pub open spec fn intact(frame: Seq<u8>) -> bool {
    frame.len() >= 2 && body_crc(frame) == carried_crc(frame)
}

/// Appends the checksum of `body` to it.
pub fn seal(body: Vec<u8>) -> (frame: Vec<u8>)
    ensures
        frame@ == framed(body@),
        frame@.len() == body@.len() + 2,
        frame@.take(body@.len() as int) == body@,
        frame@[body@.len() as int] + 256 * frame@[body@.len() as int + 1] == crc16(body@),
        crc16(frame@) == 0,
{
    let crc: u16 = MercuryMeter::compute_crc(body.as_slice());
    let mut frame: Vec<u8> = body;
    proof {
        assert((crc & 0xFF) as u8 == (crc % 256) as u8) by (bit_vector);
        assert(((crc >> 8) & 0xFF) as u8 == (crc / 256) as u8) by (bit_vector);
    }
    frame.push((crc & 0xFF) as u8);
    frame.push(((crc >> 8) & 0xFF) as u8);
    proof {
        law_sealed_layout(body@);
    }
    frame
}

/// Splits a word in two bytes and joins them again.
proof fn lemma_word_of_bytes(w: u16)
    ensures
        word(low_byte(w), high_byte(w)) == w,
{
}

/// A shift of the register loses nothing: different registers stay different.
proof fn lemma_shift_out_injective(x: u16, y: u16)
    requires
        shift_out(x) == shift_out(y),
    ensures
        x == y,
{
    let sx = shift_out(x);
    let sy = shift_out(y);
    assert(x == y) by (bit_vector)
        requires
            sx == (if x & 1 == 1 { (x >> 1) ^ 0xA001 } else { x >> 1 }),
            sy == (if y & 1 == 1 { (y >> 1) ^ 0xA001 } else { y >> 1 }),
            sx == sy,
    ;
}

proof fn lemma_shift_out_many_injective(x: u16, y: u16, n: nat)
    requires
        shift_out_many(x, n) == shift_out_many(y, n),
    ensures
        x == y,
    decreases n,
{
    if n > 0 {
        let m = (n - 1) as nat;
        lemma_shift_out_injective(shift_out_many(x, m), shift_out_many(y, m));
        lemma_shift_out_many_injective(x, y, m);
    }
}

proof fn lemma_absorb_injective(x: u16, y: u16, byte: u8)
    requires
        absorb(x, byte) == absorb(y, byte),
    ensures
        x == y,
{
    let b = byte as u16;
    lemma_shift_out_many_injective(x ^ b, y ^ b, 8);
    assert(x == y) by (bit_vector)
        requires
            x ^ b == y ^ b,
    ;
}

/// Bits above the lowest only move down when the register is shifted.
pub(crate) proof fn lemma_shift_out_upper(x: u16, z: u16)
    requires
        z & 1 == 0,
    ensures
        shift_out(x ^ z) == shift_out(x) ^ (z >> 1),
{
    assert((if (x ^ z) & 1 == 1 { ((x ^ z) >> 1) ^ 0xA001u16 } else { (x ^ z) >> 1 }) == (if x & 1
        == 1 { (x >> 1) ^ 0xA001u16 } else { x >> 1 }) ^ (z >> 1)) by (bit_vector)
        requires
            z & 1 == 0,
    ;
}

/// The upper byte of the register, once eight bits have been shifted out, is what
/// the next byte of the message meets.
proof fn lemma_shift_out_upper_byte(x: u16, z: u16)
    requires
        z & 0xFF == 0,
    ensures
        shift_out_many(x ^ z, 8) == shift_out_many(x, 8) ^ (z >> 8),
{
    reveal_with_fuel(shift_out_many, 9);
    assert(z & 1 == 0 && (z >> 1) & 1 == 0 && (z >> 2) & 1 == 0 && (z >> 3) & 1 == 0 && (z >> 4)
        & 1 == 0 && (z >> 5) & 1 == 0 && (z >> 6) & 1 == 0 && (z >> 7) & 1 == 0) by (bit_vector)
        requires
            z & 0xFF == 0,
    ;
    assert((z >> 1) >> 1 == z >> 2 && (z >> 2) >> 1 == z >> 3 && (z >> 3) >> 1 == z >> 4 && (z >> 4)
        >> 1 == z >> 5 && (z >> 5) >> 1 == z >> 6 && (z >> 6) >> 1 == z >> 7 && (z >> 7) >> 1 == z
        >> 8) by (bit_vector);
    lemma_shift_out_upper(x, z);
    lemma_shift_out_upper(shift_out_many(x, 1), z >> 1);
    lemma_shift_out_upper(shift_out_many(x, 2), z >> 2);
    lemma_shift_out_upper(shift_out_many(x, 3), z >> 3);
    lemma_shift_out_upper(shift_out_many(x, 4), z >> 4);
    lemma_shift_out_upper(shift_out_many(x, 5), z >> 5);
    lemma_shift_out_upper(shift_out_many(x, 6), z >> 6);
    lemma_shift_out_upper(shift_out_many(x, 7), z >> 7);
}

/// Two bytes act on the register as the word that they make up.
proof fn lemma_absorb_two(x: u16, a: u8, b: u8)
    ensures
        absorb(absorb(x, a), b) == shift_out_many(shift_out_many(x ^ word(a, b), 8), 8),
{
    let w = word(a, b);
    let low = a as u16;
    let high = b as u16;
    assert(w == low + 256 * high);
    let z = (high << 8) as u16;
    assert(x ^ w == (x ^ low) ^ z && z & 0xFF == 0 && z >> 8 == high) by (bit_vector)
        requires
            w == low + 256 * high,
            low < 256,
            high < 256,
            z == high << 8,
    ;
    lemma_shift_out_upper_byte(x ^ low, z);
}

proof fn lemma_shift_out_zero(n: nat)
    ensures
        shift_out_many(0, n) == 0,
    decreases n,
{
    if n > 0 {
        lemma_shift_out_zero((n - 1) as nat);
        assert((if 0u16 & 1 == 1 { (0u16 >> 1) ^ 0xA001u16 } else { 0u16 >> 1 }) == 0u16)
            by (bit_vector);
    }
}

/// Two bytes bring the register to zero exactly when they spell it out.
proof fn lemma_absorb_two_zero(x: u16, a: u8, b: u8)
    ensures
        absorb(absorb(x, a), b) == 0 <==> x == word(a, b),
{
    let w = word(a, b);
    lemma_absorb_two(x, a, b);
    lemma_shift_out_zero(8);
    if absorb(absorb(x, a), b) == 0 {
        lemma_shift_out_many_injective(shift_out_many(x ^ w, 8), 0, 8);
        lemma_shift_out_many_injective(x ^ w, 0, 8);
        assert(x == w) by (bit_vector)
            requires
                x ^ w == 0,
        ;
    }
    assert(x ^ x == 0) by (bit_vector);
}

/// The register after two stretches of a message, one after the other.
pub proof fn law_crc_concatenation(crc: u16, first: Seq<u8>, second: Seq<u8>)
    ensures
        crc_from(crc, first + second) == crc_from(crc_from(crc, first), second),
    decreases second.len(),
{
    let whole = first + second;
    if second.len() == 0 {
        assert(whole =~= first);
    } else {
        assert(whole.drop_last() =~= first + second.drop_last());
        law_crc_concatenation(crc, first, second.drop_last());
    }
}

/// A frame is intact exactly when the checksum over all of it, its own checksum
/// included, is zero.
pub proof fn law_intact_iff_no_residue(frame: Seq<u8>)
    requires
        frame.len() >= 2,
    ensures
        intact(frame) <==> crc16(frame) == 0,
{
    let n = frame.len();
    let front = frame.drop_last();
    assert(front.drop_last() =~= frame.take(n - 2));
    assert(front.last() == frame[n - 2]);
    reveal_with_fuel(crc_from, 3);
    lemma_absorb_two_zero(body_crc(frame), frame[n - 2], frame[n - 1]);
}

/// Every sealed body is an intact frame, and the body can be read back from it.
pub proof fn law_sealed_is_intact(body: Seq<u8>)
    ensures
        intact(framed(body)),
        framed(body).take(framed(body).len() - 2) == body,
        carried_crc(framed(body)) == crc16(body),
{
    assert(framed(body).take(framed(body).len() - 2) =~= body);
    lemma_word_of_bytes(crc16(body));
}

/// A sealed body is sent first and unchanged; behind it come the lower and then the
/// upper byte of its checksum. The checksum over all of it is zero.
pub proof fn law_sealed_layout(body: Seq<u8>)
    ensures
        framed(body).len() == body.len() + 2,
        framed(body).take(body.len() as int) == body,
        framed(body)[body.len() as int] + 256 * framed(body)[body.len() as int + 1] == crc16(body),
        crc16(framed(body)) == 0,
{
    assert(framed(body).take(body.len() as int) =~= body);
    law_sealed_is_intact(body);
    law_intact_iff_no_residue(framed(body));
}

/// A frame passes for intact exactly when the number in its last two bytes, the lower
/// one first, is the checksum of the bytes before them.
pub proof fn law_intact_by_its_last_bytes(frame: Seq<u8>)
    requires
        frame.len() >= 2,
    ensures
        intact(frame) <==> frame[frame.len() - 2] + 256 * frame[frame.len() - 1] == crc16(
            frame.take(frame.len() - 2),
        ),
        carried_crc(frame) == frame[frame.len() - 2] + 256 * frame[frame.len() - 1],
        body_crc(frame) == crc16(frame.take(frame.len() - 2)),
{
}

/// The checksum of nothing is all ones, and every byte makes a difference: messages of
/// which only the last byte differs have different checksums.
pub proof fn law_checksum_of_bytes(data: Seq<u8>, a: u8, b: u8)
    ensures
        crc16(Seq::<u8>::empty()) == 0xFFFF,
        a != b ==> crc16(data.push(a)) != crc16(data.push(b)),
{
    assert(data.push(a).drop_last() =~= data);
    assert(data.push(b).drop_last() =~= data);
    if a != b && crc16(data.push(a)) == crc16(data.push(b)) {
        let c = crc16(data);
        let x = a as u16;
        let y = b as u16;
        lemma_shift_out_many_injective(c ^ x, c ^ y, 8);
        assert(x == y) by (bit_vector)
            requires
                c ^ x == c ^ y,
        ;
    }
}

/// An intact frame is the sealed form of its body: there is no other way to
/// close that body.
pub proof fn law_intact_is_sealed(frame: Seq<u8>)
    requires
        intact(frame),
    ensures
        framed(frame.take(frame.len() - 2)) == frame,
{
    let n = frame.len();
    let low = frame[n - 2];
    let high = frame[n - 1];
    assert(word(low, high) == low + 256 * high);
    assert(framed(frame.take(n - 2)) =~= frame);
}

/// Damage to an intact frame that is confined to two neighbouring bytes, one of
/// them or both, never leaves it intact.
pub proof fn law_damage_is_detected(frame: Seq<u8>, i: int, a: u8, b: u8)
    requires
        intact(frame),
        0 <= i < frame.len() - 1,
        a != frame[i] || b != frame[i + 1],
    ensures
        !intact(frame.update(i, a).update(i + 1, b)),
{
    let n = frame.len();
    let hurt = frame.update(i, a).update(i + 1, b);
    let front = frame.take(i);
    let rest = frame.skip(i + 2);
    let x = crc16(front);
    let good = seq![frame[i], frame[i + 1]];
    let bad = seq![a, b];
    assert(frame =~= (front + good) + rest);
    assert(hurt =~= (front + bad) + rest);
    law_crc_concatenation(CRC_INIT, front + good, rest);
    law_crc_concatenation(CRC_INIT, front + bad, rest);
    law_crc_concatenation(CRC_INIT, front, good);
    law_crc_concatenation(CRC_INIT, front, bad);
    lemma_crc_from_two(x, frame[i], frame[i + 1]);
    lemma_crc_from_two(x, a, b);
    law_intact_iff_no_residue(frame);
    law_intact_iff_no_residue(hurt);
    if crc16(hurt) == 0 {
        lemma_crc_from_injective(crc_from(x, good), crc_from(x, bad), rest);
        let v = word(frame[i], frame[i + 1]);
        let w = word(a, b);
        lemma_absorb_two(x, frame[i], frame[i + 1]);
        lemma_absorb_two(x, a, b);
        lemma_shift_out_many_injective(shift_out_many(x ^ v, 8), shift_out_many(x ^ w, 8), 8);
        lemma_shift_out_many_injective(x ^ v, x ^ w, 8);
        assert(v == w) by (bit_vector)
            requires
                x ^ v == x ^ w,
        ;
        assert(v == frame[i] + 256 * frame[i + 1]);
        assert(w == a + 256 * b);
    }
}

proof fn lemma_crc_from_two(crc: u16, a: u8, b: u8)
    ensures
        crc_from(crc, seq![a, b]) == absorb(absorb(crc, a), b),
{
    let both = seq![a, b];
    assert(both.drop_last() =~= seq![a]);
    assert(both.drop_last().drop_last() =~= Seq::<u8>::empty());
    reveal_with_fuel(crc_from, 3);
}

/// Messages that go on alike from different registers end in different registers.
proof fn lemma_crc_from_injective(x: u16, y: u16, data: Seq<u8>)
    requires
        crc_from(x, data) == crc_from(y, data),
    ensures
        x == y,
    decreases data.len(),
{
    if data.len() > 0 {
        let front = data.drop_last();
        lemma_absorb_injective(crc_from(x, front), crc_from(y, front), data.last());
        lemma_crc_from_injective(x, y, front);
    }
}

} // verus!
