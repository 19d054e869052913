//! Decimal notation of signed integers: an optional sign followed by at
//! least one ASCII digit, and nothing else.

use vstd::prelude::*;

verus! {

/// Whether `c` is one of the ASCII digits `0` to `9`.
pub open spec fn is_digit(c: char) -> bool {
    '0' <= c <= '9'
}

/// The number that the digit `c` stands for.
pub open spec fn digit_value(c: char) -> int {
    c as int - '0' as int
}

/// Whether every character of `s` is a digit.
pub open spec fn all_digits(s: Seq<char>) -> bool {
    forall|i: int| 0 <= i < s.len() ==> is_digit(#[trigger] s[i])
}

/// The number written by the digits `s`, most significant first. The empty
/// sequence writes zero.
pub open spec fn digits_value(s: Seq<char>) -> int
    decreases s.len(),
{
    if s.len() == 0 {
        0
    } else {
        10 * digits_value(s.drop_last()) + digit_value(s.last())
    }
}

/// Whether `s` begins with a sign.
pub open spec fn has_sign(s: Seq<char>) -> bool {
    s.len() > 0 && (s[0] == '+' || s[0] == '-')
}

/// What remains of `s` once a leading sign, if any, is taken off.
pub open spec fn unsigned_part(s: Seq<char>) -> Seq<char> {
    if has_sign(s) {
        s.drop_first()
    } else {
        s
    }
}

/// Whether `s` is the decimal notation of an integer: an optional `+` or
/// `-`, then one or more digits. Leading zeros are allowed; blanks,
/// separators and a sign alone are not.
pub open spec fn is_decimal(s: Seq<char>) -> bool {
    unsigned_part(s).len() > 0 && all_digits(unsigned_part(s))
}

/// The integer that the decimal notation `s` denotes.
pub open spec fn decimal_value(s: Seq<char>) -> int {
    if s.len() > 0 && s[0] == '-' {
        -digits_value(unsigned_part(s))
    } else {
        digits_value(unsigned_part(s))
    }
}

/// What reading a text as the decimal notation of an `i32` gives.
#[derive(Clone, Copy, Debug, PartialEq, Eq, Structural)]
pub enum Parsed {
    /// The text is not decimal notation.
    Malformed,
    /// The text is the decimal notation of an integer that no `i32` holds.
    Overflow,
    /// The text is the decimal notation of this integer.
    Number(i32),
}

/// What reading `s` gives: whether it is decimal notation at all, and the
/// integer it denotes when an `i32` holds it.
pub open spec fn decimal_reading(s: Seq<char>) -> Parsed {
    if !is_decimal(s) {
        Parsed::Malformed
    } else if i32::MIN <= decimal_value(s) <= i32::MAX {
        Parsed::Number(decimal_value(s) as i32)
    } else {
        Parsed::Overflow
    }
}

/// Digits never write a negative number.
pub proof fn lemma_digits_value_nonnegative(s: Seq<char>)
    requires
        all_digits(s),
    ensures
        digits_value(s) >= 0,
    decreases s.len(),
{
    if s.len() > 0 {
        lemma_digits_value_nonnegative(s.drop_last());
    }
}

/// Appending digits never makes the number smaller: a prefix of a digit
/// string writes at most what the whole string writes.
pub proof fn lemma_digits_value_prefix(s: Seq<char>, k: int)
    requires
        all_digits(s),
        0 <= k <= s.len(),
    ensures
        0 <= digits_value(s.take(k)) <= digits_value(s),
    decreases s.len(),
{
    if k == s.len() {
        assert(s.take(k) =~= s);
        lemma_digits_value_nonnegative(s);
    } else {
        assert(s.drop_last().take(k) =~= s.take(k));
        lemma_digits_value_prefix(s.drop_last(), k);
    }
}

/// Reads `text` as the decimal notation of an `i32`. The whole text is
/// examined: digits that follow an overflow still have to be digits.
pub fn parse_decimal(text: &[char]) -> (parsed: Parsed)
    ensures
        parsed == decimal_reading(text@),
{
    let n: usize = text.len();
    if n == 0 {
        return Parsed::Malformed;
    }
    let negative: bool = text[0] == '-';
    let start: usize = if text[0] == '-' || text[0] == '+' { 1 } else { 0 };
    if start == n {
        return Parsed::Malformed;
    }
    let ghost digits = unsigned_part(text@);

    let mut acc: i64 = 0;
    let mut overflow: bool = false;
    let mut i: usize = start;
    while i < n
        invariant
            start <= i <= n,
            n == text.len(),
            digits == unsigned_part(text@),
            digits == text@.subrange(start as int, n as int),
            all_digits(digits.take(i - start)),
            0 <= acc <= 0x8000_0000,
            !overflow ==> acc == digits_value(digits.take(i - start)),
            overflow && all_digits(digits) ==> digits_value(digits) > 0x8000_0000,
        decreases n - i,
    {
        let c: char = text[i];
        assert(digits[i - start] == c);
        if !(c >= '0' && c <= '9') {
            return Parsed::Malformed;
        }
        if !overflow {
            let ghost shorter = digits.take(i - start);
            let ghost longer = digits.take(i - start + 1);
            assert(longer.drop_last() =~= shorter);
            let next: i64 = acc * 10 + ((c as u32 - '0' as u32) as i64);
            if next > 0x8000_0000 {
                proof {
                    if all_digits(digits) {
                        lemma_digits_value_prefix(digits, i - start + 1);
                    }
                }
                overflow = true;
            } else {
                acc = next;
            }
        }
        i += 1;
    }
    assert(digits.take(n - start) =~= digits);
    if overflow {
        Parsed::Overflow
    } else if negative {
        Parsed::Number((-acc) as i32)
    } else if acc == 0x8000_0000 {
        Parsed::Overflow
    } else {
        Parsed::Number(acc as i32)
    }
}

/// The digit that stands for `d`, for `d` from 0 to 9.
pub open spec fn digit_char(d: int) -> char {
    ('0' as int + d) as char
}

/// The digits of the natural number `v`, most significant first and without
/// leading zeros; zero is written as the single digit `0`.
pub open spec fn digits_text(v: nat) -> Seq<char>
    decreases v,
{
    if v < 10 {
        seq![digit_char(v as int)]
    } else {
        digits_text(v / 10).push(digit_char(v as int % 10))
    }
}

/// The plain decimal notation of `v`: its digits, after a `-` when `v` is
/// negative.
pub open spec fn decimal_text(v: int) -> Seq<char> {
    if v < 0 {
        seq!['-'] + digits_text((-v) as nat)
    } else {
        digits_text(v as nat)
    }
}

/// The digits of a natural number are digits, at least one of them, and
/// they write that number.
pub proof fn lemma_digits_text_round_trip(v: nat)
    ensures
        digits_text(v).len() > 0,
        all_digits(digits_text(v)),
        digits_value(digits_text(v)) == v,
    decreases v,
{
    if v < 10 {
        assert(digits_value(digits_text(v).drop_last()) == 0);
    } else {
        let shorter = digits_text(v / 10);
        let text = digits_text(v);
        lemma_digits_text_round_trip(v / 10);
        assert(text.drop_last() =~= shorter);
    }
}

/// Reading the plain notation of an integer gives the integer back.
pub proof fn lemma_decimal_text_round_trip(v: int)
    ensures
        is_decimal(decimal_text(v)),
        decimal_value(decimal_text(v)) == v,
{
    let text = decimal_text(v);
    if v < 0 {
        lemma_digits_text_round_trip((-v) as nat);
        assert(text.drop_first() =~= digits_text((-v) as nat));
    } else {
        lemma_digits_text_round_trip(v as nat);
    }
}

} // verus!
