//! Numbers and bytes as text.

use vstd::prelude::*;

verus! {

/// The upper-case hexadecimal digit for a number below sixteen.
pub open spec fn hex_char(n: int) -> char {
    if n < 10 {
        ('0' as int + n) as char
    } else {
        ('A' as int + n - 10) as char
    }
}

/// A byte as two hexadecimal digits.
pub open spec fn hex_byte(byte: u8) -> Seq<char> {
    seq![hex_char(byte as int / 16), hex_char(byte as int % 16)]
}

/// A 16-bit word as four hexadecimal digits.
pub open spec fn hex_word(word: u16) -> Seq<char> {
    hex_byte((word / 256) as u8) + hex_byte((word % 256) as u8)
}

/// Bytes as two hexadecimal digits each, with a comma and a space between them.
pub open spec fn hex_run(bytes: Seq<u8>) -> Seq<char>
    decreases bytes.len(),
{
    if bytes.len() == 0 {
        Seq::empty()
    } else if bytes.len() == 1 {
        hex_byte(bytes[0])
    } else {
        hex_run(bytes.drop_last()) + ", "@ + hex_byte(bytes.last())
    }
}

/// Bytes as a list in square brackets.
pub open spec fn hex_list(bytes: Seq<u8>) -> Seq<char> {
    "["@ + hex_run(bytes) + "]"@
}

/// A number in decimal digits.
pub open spec fn decimal(n: nat) -> Seq<char>
    decreases n,
{
    let last = seq![('0' as int + n % 10) as char];
    if n < 10 {
        last
    } else {
        decimal(n / 10) + last
    }
}

/// The text of a hexadecimal digit.
fn hex_digit(n: u8) -> (digit: &'static str)
    requires
        n < 16,
    ensures
        digit@ == seq![hex_char(n as int)],
{
    proof {
        reveal_strlit("0");
        reveal_strlit("1");
        reveal_strlit("2");
        reveal_strlit("3");
        reveal_strlit("4");
        reveal_strlit("5");
        reveal_strlit("6");
        reveal_strlit("7");
        reveal_strlit("8");
        reveal_strlit("9");
        reveal_strlit("A");
        reveal_strlit("B");
        reveal_strlit("C");
        reveal_strlit("D");
        reveal_strlit("E");
        reveal_strlit("F");
    }
    match n {
        0 => "0",
        1 => "1",
        2 => "2",
        3 => "3",
        4 => "4",
        5 => "5",
        6 => "6",
        7 => "7",
        8 => "8",
        9 => "9",
        10 => "A",
        11 => "B",
        12 => "C",
        13 => "D",
        14 => "E",
        _ => "F",
    }
}

/// Appends a byte in hexadecimal.
pub fn push_hex_byte(out: &mut String, byte: u8)
    ensures
        final(out)@ == old(out)@ + hex_byte(byte),
{
    out.append(hex_digit(byte / 16));
    out.append(hex_digit(byte % 16));
    proof {
        assert(out@ =~= old(out)@ + hex_byte(byte));
    }
}

/// Appends a 16-bit word in hexadecimal.
pub fn push_hex_word(out: &mut String, word: u16)
    ensures
        final(out)@ == old(out)@ + hex_word(word),
{
    push_hex_byte(out, (word / 256) as u8);
    push_hex_byte(out, (word % 256) as u8);
    proof {
        assert(out@ =~= old(out)@ + hex_word(word));
    }
}

/// Appends bytes as a list in hexadecimal.
pub fn push_hex_list(out: &mut String, bytes: &[u8])
    ensures
        final(out)@ == old(out)@ + hex_list(bytes@),
{
    let ghost before = out@;
    out.append("[");
    for i in 0..bytes.len()
        invariant
            out@ == before + ("["@ + hex_run(bytes@.take(i as int))),
    {
        proof {
            assert(bytes@.take(i + 1).drop_last() =~= bytes@.take(i as int));
        }
        if i > 0 {
            out.append(", ");
        }
        push_hex_byte(out, bytes[i]);
        proof {
            assert(out@ =~= before + ("["@ + hex_run(bytes@.take(i + 1))));
        }
    }
    out.append("]");
    proof {
        assert(bytes@.take(bytes@.len() as int) =~= bytes@);
        assert(out@ =~= before + hex_list(bytes@));
    }
}

/// Appends a byte in decimal.
pub fn push_decimal(out: &mut String, n: u8)
    ensures
        final(out)@ == old(out)@ + decimal(n as nat),
{
    let ghost before = out@;
    if n >= 100 {
        out.append(hex_digit(n / 100));
    }
    if n >= 10 {
        out.append(hex_digit(n / 10 % 10));
    }
    out.append(hex_digit(n % 10));
    proof {
        reveal_with_fuel(decimal, 4);
        assert(out@ =~= before + decimal(n as nat));
    }
}

/// A byte is written as two digits out of sixteen, the upper one first.
pub proof fn law_byte_in_hex(byte: u8)
    ensures
        hex_byte(byte).len() == 2,
        hex_byte(byte)[0] == "0123456789ABCDEF"@[byte as int / 16],
        hex_byte(byte)[1] == "0123456789ABCDEF"@[byte as int % 16],
{
    reveal_strlit("0123456789ABCDEF");
}

/// A word is written as four digits out of sixteen, the upper ones first.
pub proof fn law_word_in_hex(word: u16)
    ensures
        hex_word(word).len() == 4,
        hex_word(word)[0] == "0123456789ABCDEF"@[word as int / 0x1000],
        hex_word(word)[1] == "0123456789ABCDEF"@[word as int / 0x100 % 16],
        hex_word(word)[2] == "0123456789ABCDEF"@[word as int / 0x10 % 16],
        hex_word(word)[3] == "0123456789ABCDEF"@[word as int % 16],
{
    let high = (word / 256) as u8;
    let low = (word % 256) as u8;
    assert(word as int / 0x1000 == high as int / 16);
    assert(word as int / 0x100 % 16 == high as int % 16);
    assert(word as int / 0x10 % 16 == low as int / 16);
    assert(word as int % 16 == low as int % 16);
    law_byte_in_hex(high);
    law_byte_in_hex(low);
}

proof fn lemma_hex_run_places(bytes: Seq<u8>)
    ensures
        hex_run(bytes).len() == if bytes.len() == 0 {
            0
        } else {
            4 * bytes.len() - 2
        },
        forall|i: int|
            0 <= i < bytes.len() ==> {
                &&& hex_run(bytes)[4 * i] == hex_byte(#[trigger] bytes[i])[0]
                &&& hex_run(bytes)[4 * i + 1] == hex_byte(bytes[i])[1]
                &&& i > 0 ==> hex_run(bytes)[4 * i - 2] == ',' && hex_run(bytes)[4 * i - 1] == ' '
            },
    decreases bytes.len(),
{
    reveal_strlit(", ");
    if bytes.len() > 1 {
        let before = bytes.drop_last();
        lemma_hex_run_places(before);
        assert(hex_run(bytes) == hex_run(before) + ", "@ + hex_byte(bytes.last()));
        assert forall|i: int| 0 <= i < bytes.len() implies {
            &&& hex_run(bytes)[4 * i] == hex_byte(#[trigger] bytes[i])[0]
            &&& hex_run(bytes)[4 * i + 1] == hex_byte(bytes[i])[1]
            &&& i > 0 ==> hex_run(bytes)[4 * i - 2] == ',' && hex_run(bytes)[4 * i - 1] == ' '
        } by {
            if i < before.len() {
                assert(before[i] == bytes[i]);
            }
        }
    }
}

/// Bytes are listed in brackets, two digits each: the digits of the byte at place `i`
/// stand at `1 + 4 * i`, a comma and a space follow unless it is the last.
pub proof fn law_list_in_hex(bytes: Seq<u8>, i: int)
    requires
        0 <= i < bytes.len(),
    ensures
        hex_list(bytes).len() == 4 * bytes.len(),
        hex_list(bytes)[0] == '[',
        hex_list(bytes).last() == ']',
        hex_list(bytes)[1 + 4 * i] == "0123456789ABCDEF"@[bytes[i] as int / 16],
        hex_list(bytes)[2 + 4 * i] == "0123456789ABCDEF"@[bytes[i] as int % 16],
        i + 1 < bytes.len() ==> hex_list(bytes)[3 + 4 * i] == ',' && hex_list(bytes)[4 + 4 * i]
            == ' ',
{
    reveal_strlit("[");
    reveal_strlit("]");
    lemma_hex_run_places(bytes);
    law_byte_in_hex(bytes[i]);
    let run = hex_run(bytes);
    assert(hex_list(bytes)[1 + 4 * i] == run[4 * i]);
    assert(hex_list(bytes)[2 + 4 * i] == run[4 * i + 1]);
    if i + 1 < bytes.len() {
        let next = bytes[i + 1];
        assert(run[4 * (i + 1) - 1] == ' ');
        assert(hex_list(bytes)[3 + 4 * i] == run[4 * (i + 1) - 2]);
        assert(hex_list(bytes)[4 + 4 * i] == run[4 * (i + 1) - 1]);
    }
}

/// No bytes are listed as a pair of brackets.
pub proof fn law_empty_list_in_hex()
    ensures
        hex_list(Seq::empty()) == "[]"@,
{
    reveal_strlit("[");
    reveal_strlit("]");
    reveal_strlit("[]");
    assert(hex_list(Seq::empty()) =~= "[]"@);
}

/// A number in decimal ends with the digit of its units; what stands before, if anything,
/// is the number of its tens. It does not begin with a zero, unless it is zero.
pub proof fn law_decimal_digit_by_digit(n: nat)
    ensures
        decimal(n).len() > 0,
        decimal(n).last() == "0123456789"@[n as int % 10],
        n < 10 ==> decimal(n).len() == 1,
        n >= 10 ==> decimal(n).drop_last() == decimal(n / 10),
        n > 0 ==> decimal(n)[0] != '0',
    decreases n,
{
    reveal_strlit("0123456789");
    if n >= 10 {
        law_decimal_digit_by_digit(n / 10);
        assert(decimal(n).drop_last() =~= decimal(n / 10));
        assert(decimal(n)[0] == decimal(n / 10)[0]);
    }
}

/// Two texts that begin alike and are followed by different texts differ.
pub proof fn lemma_same_start(start: Seq<char>, a: Seq<char>, b: Seq<char>)
    requires
        start + a == start + b,
    ensures
        a == b,
{
    assert(a =~= (start + a).skip(start.len() as int));
    assert(b =~= (start + b).skip(start.len() as int));
}

} // verus!
