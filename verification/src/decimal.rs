//! Unsigned decimal numbers as ASCII text: reading them and writing them.

use vstd::prelude::*;
use vstd::string::StringExecFns;

verus! {

/// The byte `+`.
pub const PLUS: u8 = 43;

/// The byte `0`.
pub const ZERO: u8 = 48;

/// The byte `9`.
pub const NINE: u8 = 57;

/// `b` is one of the ASCII digits `0` to `9`.
pub open spec fn is_digit(b: u8) -> bool {
    ZERO <= b <= NINE
}

/// Every byte of `s` is an ASCII digit.
pub open spec fn all_digits(s: Seq<u8>) -> bool {
    forall|i: int| 0 <= i < s.len() ==> is_digit(#[trigger] s[i])
}

/// The number that the digits of `s` write in base ten, most significant
/// digit first. The empty sequence writes zero.
pub open spec fn digits_value(s: Seq<u8>) -> nat
    decreases s.len(),
{
    if s.len() == 0 {
        0
    } else {
        digits_value(s.drop_last()) * 10 + (s.last() - ZERO) as nat
    }
}

/// `s` without a leading `+` sign, if it has one.
pub open spec fn unsigned_part(s: Seq<u8>) -> Seq<u8> {
    if s.len() > 0 && s[0] == PLUS {
        s.drop_first()
    } else {
        s
    }
}

/// The number that `s` denotes, if it is an optional `+` followed by one or
/// more ASCII digits whose value is at most `max`; `None` for anything else
/// (an empty text, a lone sign, a minus sign, white space, a value over `max`).
pub open spec fn parse_unsigned_spec(s: Seq<u8>, max: nat) -> Option<nat> {
    let digits = unsigned_part(s);
    if digits.len() > 0 && all_digits(digits) && digits_value(digits) <= max {
        Some(digits_value(digits))
    } else {
        None
    }
}

/// The `usize` that `s` denotes in decimal, if any.
pub open spec fn parse_usize_spec(s: Seq<u8>) -> Option<usize> {
    match parse_unsigned_spec(s, usize::MAX as nat) {
        Some(n) => Some(n as usize),
        None => None,
    }
}

/// The `u32` that `s` denotes in decimal, if any.
pub open spec fn parse_u32_spec(s: Seq<u8>) -> Option<u32> {
    match parse_unsigned_spec(s, u32::MAX as nat) {
        Some(n) => Some(n as u32),
        None => None,
    }
}

/// A sequence of digits is worth at least as much as any of its prefixes.
pub proof fn lemma_value_monotonic(s: Seq<u8>, k: int)
    requires
        0 <= k <= s.len(),
        all_digits(s),
    ensures
        digits_value(s.take(k)) <= digits_value(s),
    decreases s.len() - k,
{
    if k == s.len() {
        assert(s.take(k) =~= s);
    } else {
        lemma_value_monotonic(s, k + 1);
        assert(s.take(k + 1).drop_last() =~= s.take(k));
        assert(is_digit(s[k]));
        assert(s.take(k + 1).last() == s[k]);
    }
}

/// Reads an unsigned decimal number of at most `max` from `s`.
pub fn parse_unsigned(s: &[u8], max: u64) -> (r: Option<u64>)
    ensures
        r.is_some() == parse_unsigned_spec(s@, max as nat).is_some(),
        r matches Some(n) ==> parse_unsigned_spec(s@, max as nat) == Some(n as nat),
{
    let start: usize = if s.len() > 0 && s[0] == PLUS {
        1
    } else {
        0
    };
    let ghost digits = unsigned_part(s@);
    assert(digits =~= s@.skip(start as int));
    if start == s.len() {
        return None;
    }
    let mut value: u64 = 0;
    let mut i: usize = start;
    assert(digits.take(0) =~= Seq::<u8>::empty());
    while i < s.len()
        invariant
            start <= i <= s.len(),
            digits == s@.skip(start as int),
            digits == unsigned_part(s@),
            all_digits(digits.take(i - start)),
            value == digits_value(digits.take(i - start)),
            value <= max,
        decreases s.len() - i,
    {
        let b = s[i];
        let ghost k = i - start;
        proof {
            assert(digits[k] == b);
            assert(digits.take(k + 1).drop_last() =~= digits.take(k));
            assert(digits.take(k + 1).last() == b);
        }
        if b < ZERO || b > NINE {
            assert(!is_digit(digits[k]));
            return None;
        }
        let d: u64 = (b - ZERO) as u64;
        proof {
            assert forall|j: int| 0 <= j < k + 1 implies is_digit(#[trigger] digits.take(k + 1)[j]) by {
                if j < k {
                    assert(digits.take(k + 1)[j] == digits.take(k)[j]);
                }
            }
            if all_digits(digits) {
                lemma_value_monotonic(digits, k + 1);
            }
        }
        let next: u128 = value as u128 * 10 + d as u128;
        if next > max as u128 {
            return None;
        }
        value = next as u64;
        i = i + 1;
    }
    assert(digits.take(i - start) =~= digits);
    Some(value)
}

/// Reads a `usize` written in decimal: an optional `+`, then digits only.
pub fn parse_usize(s: &[u8]) -> (r: Option<usize>)
    ensures
        r == parse_usize_spec(s@),
{
    match parse_unsigned(s, usize::MAX as u64) {
        Some(n) => Some(n as usize),
        None => None,
    }
}

/// Reads a `u32` written in decimal: an optional `+`, then digits only.
pub fn parse_u32(s: &[u8]) -> (r: Option<u32>)
    ensures
        r == parse_u32_spec(s@),
{
    match parse_unsigned(s, u32::MAX as u64) {
        Some(n) => Some(n as u32),
        None => None,
    }
}

/// The decimal digits of `n`, most significant first, without leading zeros
/// (zero itself is the single digit `0`).
pub open spec fn decimal_digits(n: nat) -> Seq<u8>
    decreases n,
{
    if n < 10 {
        seq![(ZERO + n) as u8]
    } else {
        decimal_digits(n / 10).push((ZERO + n % 10) as u8)
    }
}

/// The digits of `n` are digits, there is at least one, and they are worth `n`.
pub proof fn lemma_decimal_digits(n: nat)
    ensures
        decimal_digits(n).len() > 0,
        all_digits(decimal_digits(n)),
        digits_value(decimal_digits(n)) == n,
    decreases n,
{
    let s = decimal_digits(n);
    if n < 10 {
        assert(s.drop_last() =~= Seq::<u8>::empty());
        assert(digits_value(s.drop_last()) == 0);
    } else {
        lemma_decimal_digits(n / 10);
        assert(s.drop_last() =~= decimal_digits(n / 10));
        assert forall|i: int| 0 <= i < s.len() implies is_digit(#[trigger] s[i]) by {
            if i < s.len() - 1 {
                assert(s[i] == decimal_digits(n / 10)[i]);
            }
        }
    }
}

/// Writing a number and reading it back gives the number: what
/// `parse_usize` makes of the digits that `to_decimal` wrote for `n` is `n`.
pub proof fn lemma_parse_decimal_roundtrip(n: usize)
    ensures
        parse_usize_spec(decimal_digits(n as nat)) == Some(n),
{
    lemma_decimal_digits(n as nat);
    let s = decimal_digits(n as nat);
    assert(is_digit(s[0]));
    assert(unsigned_part(s) == s);
}

/// The decimal digits of `n` as characters.
pub open spec fn decimal_chars(n: nat) -> Seq<char> {
    decimal_digits(n).map_values(|b: u8| b as char)
}

/// The digits of a number are ASCII, so that in UTF-8 each is one byte:
/// what `to_decimal` writes for `n`, taken as bytes, reads back as `n`.
pub proof fn lemma_decimal_text_roundtrip(n: usize)
    ensures
        vstd::utf8::encode_utf8(decimal_chars(n as nat)) == decimal_digits(n as nat),
        parse_usize_spec(vstd::utf8::encode_utf8(decimal_chars(n as nat))) == Some(n),
{
    let digits = decimal_digits(n as nat);
    let chars = decimal_chars(n as nat);
    lemma_decimal_digits(n as nat);
    assert forall|i: int| 0 <= i < chars.len() implies '\0' <= #[trigger] chars[i] <= '\u{7f}' by {
        assert(is_digit(digits[i]));
    }
    vstd::utf8::is_ascii_chars_encode_utf8(chars);
    assert(vstd::utf8::encode_utf8(chars) =~= digits) by {
        assert forall|i: int| 0 <= i < digits.len() implies vstd::utf8::encode_utf8(chars)[i]
            == digits[i] by {
            assert(is_digit(digits[i]));
            assert(chars[i] as u8 == digits[i]);
        }
    }
    lemma_parse_decimal_roundtrip(n);
}

/// The one-character text of the digit `d`.
fn digit_str(d: u8) -> (r: &'static str)
    requires
        d < 10,
    ensures
        r@ == seq![(ZERO + d) as u8 as char],
{
    proof {
        reveal_strlit("0");
        reveal_strlit("1");
        reveal_strlit("2");
        reveal_strlit("3");
        reveal_strlit("4");
        reveal_strlit("5");
        reveal_strlit("6");
        reveal_strlit("7");
        reveal_strlit("8");
        reveal_strlit("9");
    }
    let r = if d == 0 {
        "0"
    } else if d == 1 {
        "1"
    } else if d == 2 {
        "2"
    } else if d == 3 {
        "3"
    } else if d == 4 {
        "4"
    } else if d == 5 {
        "5"
    } else if d == 6 {
        "6"
    } else if d == 7 {
        "7"
    } else if d == 8 {
        "8"
    } else {
        "9"
    };
    assert(r@ =~= seq![(ZERO + d) as u8 as char]);
    r
}

/// Writes `n` in decimal.
pub fn to_decimal(n: usize) -> (r: String)
    ensures
        r@ == decimal_chars(n as nat),
    decreases n,
{
    if n < 10 {
        let text = String::from_str(digit_str(n as u8));
        assert(text@ =~= decimal_chars(n as nat));
        text
    } else {
        let mut text = to_decimal(n / 10);
        text.append(digit_str((n % 10) as u8));
        assert(text@ =~= decimal_chars(n as nat));
        text
    }
}

} // verus!
