//! Unsigned numbers written in decimal.

use vstd::prelude::*;

use crate::text::decimal;

verus! {

/// Why a text is not a number in range.
#[derive(Debug, Clone, Copy, PartialEq, Eq, Structural)]
pub enum NumberError {
    /// There is no text.
    Empty,
    /// There is something else than digits behind an optional plus sign, or nothing.
    InvalidDigit,
    /// The number is too large.
    PosOverflow,
}

/// Whether a character is a decimal digit.
pub open spec fn is_digit(c: char) -> bool {
    '0' <= c <= '9'
}

/// The value of a decimal digit.
pub open spec fn digit(c: char) -> nat {
    (c as int - '0' as int) as nat
}

/// The value of digits, read from left to right.
pub open spec fn value(digits: Seq<char>) -> nat
    decreases digits.len(),
{
    if digits.len() == 0 {
        0
    } else {
        value(digits.drop_last()) * 10 + digit(digits.last())
    }
}

/// Whether there are digits and nothing else.
pub open spec fn all_digits(s: Seq<char>) -> bool {
    s.len() > 0 && forall|i: int| 0 <= i < s.len() ==> is_digit(#[trigger] s[i])
}

/// A text without its plus sign, if it has one and something behind it.
pub open spec fn unsigned_part(s: Seq<char>) -> Seq<char> {
    if s.len() > 1 && s[0] == '+' {
        s.skip(1)
    } else {
        s
    }
}

/// How the first `n` of the characters are read, from left to right, until one is
/// no digit or the number exceeds `max`.
pub open spec fn scan(s: Seq<char>, n: nat, max: nat) -> Result<nat, NumberError>
    decreases n,
{
    if n == 0 {
        Ok(0)
    } else {
        match scan(s, (n - 1) as nat, max) {
            Err(error) => Err(error),
            Ok(before) => if !is_digit(s[n - 1]) {
                Err(NumberError::InvalidDigit)
            } else if before * 10 + digit(s[n - 1]) > max {
                Err(NumberError::PosOverflow)
            } else {
                Ok(before * 10 + digit(s[n - 1]))
            },
        }
    }
}

/// The number up to `max` that a text stands for.
pub open spec fn number(s: Seq<char>, max: nat) -> Result<nat, NumberError> {
    if s.len() == 0 {
        Err(NumberError::Empty)
    } else {
        scan(unsigned_part(s), unsigned_part(s).len(), max)
    }
}

/// The message for an error.
pub open spec fn number_error_text(error: NumberError) -> Seq<char> {
    match error {
        NumberError::Empty => "cannot parse integer from empty string"@,
        NumberError::InvalidDigit => "invalid digit found in string"@,
        NumberError::PosOverflow => "number too large to fit in target type"@,
    }
}

impl NumberError {
    /// The error as a line for the log.
    pub fn message(&self) -> (line: String)
        ensures
            line@ == number_error_text(*self),
            match *self {
                NumberError::Empty => line@ == "cannot parse integer from empty string"@,
                NumberError::InvalidDigit => line@ == "invalid digit found in string"@,
                NumberError::PosOverflow => line@ == "number too large to fit in target type"@,
            },
    {
        match self {
            NumberError::Empty => "cannot parse integer from empty string".to_owned(),
            NumberError::InvalidDigit => "invalid digit found in string".to_owned(),
            NumberError::PosOverflow => "number too large to fit in target type".to_owned(),
        }
    }
}

proof fn lemma_scan_error_stays(s: Seq<char>, n: nat, m: nat, max: nat)
    requires
        n <= m,
        scan(s, n, max) is Err,
    ensures
        scan(s, m, max) == scan(s, n, max),
    decreases m,
{
    if n < m {
        lemma_scan_error_stays(s, n, (m - 1) as nat, max);
    }
}

/// Reads a number up to `max`.
pub fn parse_number(s: &str, max: u64) -> (parsed: Result<u64, NumberError>)
    ensures
        match parsed {
            Ok(n) => number(s@, max as nat) == Ok::<nat, NumberError>(n as nat),
            Err(error) => number(s@, max as nat) == Err::<nat, NumberError>(error),
        },
        s@.len() == 0 <==> parsed == Err::<u64, NumberError>(NumberError::Empty),
        parsed matches Ok(n) ==> n <= max,
{
    proof {
        lemma_scan_is_value(unsigned_part(s@), unsigned_part(s@).len(), max as nat);
        lemma_scan_is_not_empty(unsigned_part(s@), unsigned_part(s@).len(), max as nat);
    }
    let len: usize = s.unicode_len();
    if len == 0 {
        return Err(NumberError::Empty);
    }
    let mut start: usize = 0;
    if len > 1 {
        if s.get_char(0) == '+' {
            start = 1;
        }
    }
    let ghost part = unsigned_part(s@);
    let mut n: u64 = 0;
    let mut i: usize = start;
    while i < len
        invariant
            len == s@.len(),
            start <= i <= len,
            part == s@.skip(start as int),
            n <= max,
            scan(part, (i - start) as nat, max as nat) == Ok::<nat, NumberError>(n as nat),
            number(s@, max as nat) == scan(part, part.len(), max as nat),
        decreases len - i,
    {
        let c: char = s.get_char(i);
        let ghost k = (i - start) as nat;
        proof {
            assert(part[k as int] == c);
        }
        if c < '0' || c > '9' {
            proof {
                lemma_scan_error_stays(part, k + 1, part.len(), max as nat);
            }
            return Err(NumberError::InvalidDigit);
        }
        let d: u64 = (c as u32 - '0' as u32) as u64;
        if d > max || n > (max - d) / 10 {
            proof {
                lemma_scan_error_stays(part, k + 1, part.len(), max as nat);
            }
            return Err(NumberError::PosOverflow);
        }
        n = n * 10 + d;
        i = i + 1;
    }
    Ok(n)
}

proof fn lemma_value_step(s: Seq<char>, n: nat)
    requires
        0 < n <= s.len(),
    ensures
        value(s.take(n as int)) == value(s.take(n - 1)) * 10 + digit(s[n - 1]),
{
    assert(s.take(n as int).drop_last() =~= s.take(n - 1));
}

proof fn lemma_scan_is_value(s: Seq<char>, n: nat, max: nat)
    requires
        n <= s.len(),
    ensures
        scan(s, n, max) matches Ok(v) ==> v == value(s.take(n as int)) && (n > 0 ==> v <= max)
            && forall|i: int| 0 <= i < n ==> is_digit(#[trigger] s[i]),
        (forall|i: int| 0 <= i < n ==> is_digit(#[trigger] s[i])) && value(s.take(n as int)) <= max
            ==> scan(s, n, max) == Ok::<nat, NumberError>(value(s.take(n as int))),
    decreases n,
{
    if n > 0 {
        lemma_scan_is_value(s, (n - 1) as nat, max);
        lemma_value_step(s, n);
    }
}

/// A text is read as a number exactly when it consists of digits, behind a plus
/// sign or not, and their value is in range.
pub proof fn law_number_is_value(s: Seq<char>, max: nat, n: nat)
    ensures
        number(s, max) == Ok::<nat, NumberError>(n) <==> all_digits(unsigned_part(s)) && value(
            unsigned_part(s),
        ) == n && n <= max,
{
    let part = unsigned_part(s);
    lemma_scan_is_value(part, part.len(), max);
    assert(part.take(part.len() as int) =~= part);
}

proof fn lemma_scan_is_not_empty(s: Seq<char>, n: nat, max: nat)
    ensures
        scan(s, n, max) != Err::<nat, NumberError>(NumberError::Empty),
    decreases n,
{
    if n > 0 {
        lemma_scan_is_not_empty(s, (n - 1) as nat, max);
    }
}

proof fn lemma_scan_looks_at_front(s: Seq<char>, t: Seq<char>, n: nat, max: nat)
    requires
        n <= s.len(),
        n <= t.len(),
        s.take(n as int) == t.take(n as int),
    ensures
        scan(s, n, max) == scan(t, n, max),
    decreases n,
{
    if n > 0 {
        assert(s[n - 1] == s.take(n as int)[n - 1]);
        assert(t[n - 1] == t.take(n as int)[n - 1]);
        assert(s.take(n - 1) =~= s.take(n as int).take(n - 1));
        assert(t.take(n - 1) =~= t.take(n as int).take(n - 1));
        lemma_scan_looks_at_front(s, t, (n - 1) as nat, max);
    }
}

/// How a text of one character is read, and one of none.
pub proof fn law_single_character(c: char, max: nat)
    ensures
        number(Seq::empty(), max) == Err::<nat, NumberError>(NumberError::Empty),
        number(seq![c], max) == if c < '0' || c > '9' {
            Err::<nat, NumberError>(NumberError::InvalidDigit)
        } else if c as int - 48 > max {
            Err(NumberError::PosOverflow)
        } else {
            Ok((c as int - 48) as nat)
        },
{
    reveal_with_fuel(scan, 2);
}

/// One character more: a digit makes the number ten times as large and is added to it, as
/// long as it stays in range; anything else spoils it; and what was spoilt before stays
/// as it was.
pub proof fn law_one_character_more(s: Seq<char>, c: char, max: nat)
    requires
        s.len() > 0,
        s != seq!['+'],
    ensures
        number(s.push(c), max) == match number(s, max) {
            Err(error) => Err::<nat, NumberError>(error),
            Ok(n) => if c < '0' || c > '9' {
                Err(NumberError::InvalidDigit)
            } else if n * 10 + (c as int - 48) > max {
                Err(NumberError::PosOverflow)
            } else {
                Ok((n * 10 + (c as int - 48)) as nat)
            },
        },
{
    let part = unsigned_part(s);
    if s.len() == 1 {
        assert(s =~= seq![s[0]]);
    }
    assert(unsigned_part(s.push(c)) =~= part.push(c));
    assert(part.push(c).take(part.len() as int) =~= part.take(part.len() as int));
    lemma_scan_looks_at_front(part.push(c), part, part.len(), max);
}

/// A plus sign in front of a text changes nothing, unless the text begins with one; with
/// two of them it is no number.
pub proof fn law_plus_sign(s: Seq<char>, max: nat)
    requires
        s.len() > 0,
    ensures
        number(seq!['+'] + s, max) == if s[0] == '+' {
            Err::<nat, NumberError>(NumberError::InvalidDigit)
        } else {
            number(s, max)
        },
{
    assert((seq!['+'] + s).skip(1) =~= s);
    if s[0] == '+' {
        reveal_with_fuel(scan, 2);
        lemma_scan_error_stays(s, 1, s.len(), max);
    }
}

proof fn lemma_decimal_digits(n: nat)
    ensures
        all_digits(decimal(n)),
        value(decimal(n)) == n,
    decreases n,
{
    let last = seq![('0' as int + n % 10) as char];
    if n < 10 {
        assert(last.drop_last() =~= Seq::<char>::empty());
        reveal_with_fuel(value, 2);
    } else {
        lemma_decimal_digits(n / 10);
        assert(decimal(n).drop_last() =~= decimal(n / 10));
        assert forall|i: int| 0 <= i < decimal(n).len() implies is_digit(
            #[trigger] decimal(n)[i],
        ) by {
            if i < decimal(n / 10).len() {
                assert(decimal(n)[i] == decimal(n / 10)[i]);
            }
        }
    }
}

/// A number in range, written in decimal, is read back.
pub proof fn law_written_number_is_read(n: nat, max: nat)
    requires
        n <= max,
    ensures
        number(decimal(n), max) == Ok::<nat, NumberError>(n),
{
    lemma_decimal_digits(n);
    let s = decimal(n);
    assert(is_digit(s[0]));
    assert(unsigned_part(s) == s);
    law_number_is_value(s, max, n);
}

} // verus!
