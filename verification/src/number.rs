//! Decimal integers as they arrive in a query string.
//!
//! A parameter is accepted as an integer when it consists of an optional
//! sign, `+` or `-`, followed by one or more of the ASCII digits `0` to `9`,
//! and the number written fits in an `i64`. Nothing is trimmed and no other
//! notation is understood.

use vstd::prelude::*;
use vstd::string::*;

verus! {

/// One of the ten ASCII digits.
pub open spec fn is_digit(c: char) -> bool {
    '0' <= c && c <= '9'
}

/// Every character of `text` is a digit.
pub open spec fn all_digits(text: Seq<char>) -> bool {
    forall|i: int| 0 <= i < text.len() ==> is_digit(#[trigger] text[i])
}

/// The number a digit stands for.
pub open spec fn digit_value(c: char) -> int {
    c as int - '0' as int
}

/// The number that a sequence of digits writes in base ten; the empty
/// sequence writes zero.
pub open spec fn decimal_value(digits: Seq<char>) -> int
    decreases digits.len(),
{
    if digits.len() == 0 {
        0
    } else {
        10 * decimal_value(digits.drop_last()) + digit_value(digits.last())
    }
}

/// `text` begins with a sign.
pub open spec fn has_sign(text: Seq<char>) -> bool {
    text.len() > 0 && (text[0] == '-' || text[0] == '+')
}

/// `text` begins with a minus sign.
pub open spec fn is_negative(text: Seq<char>) -> bool {
    text.len() > 0 && text[0] == '-'
}

/// `text` without its sign, if it has one.
pub open spec fn unsigned_part(text: Seq<char>) -> Seq<char> {
    if has_sign(text) {
        text.skip(1)
    } else {
        text
    }
}

/// `text` is an optional sign followed by at least one digit.
pub open spec fn is_decimal(text: Seq<char>) -> bool {
    unsigned_part(text).len() > 0 && all_digits(unsigned_part(text))
}

/// The number that `text` writes, where `text` is a decimal.
pub open spec fn signed_value(text: Seq<char>) -> int {
    if is_negative(text) {
        -decimal_value(unsigned_part(text))
    } else {
        decimal_value(unsigned_part(text))
    }
}

/// The integer that `text` is read as: the number it writes if it is a
/// decimal whose value fits in an `i64`, and nothing otherwise.
pub open spec fn parse_i64_spec(text: Seq<char>) -> Option<i64> {
    if is_decimal(text) && i64::MIN <= signed_value(text) <= i64::MAX {
        Some(signed_value(text) as i64)
    } else {
        None
    }
}

/// A sequence of digits writes a number that is not negative.
proof fn lemma_decimal_value_nonnegative(digits: Seq<char>)
    requires
        all_digits(digits),
    ensures
        decimal_value(digits) >= 0,
    decreases digits.len(),
{
    if digits.len() > 0 {
        lemma_decimal_value_nonnegative(digits.drop_last());
    }
}

/// Digits written after a number never make it smaller.
proof fn lemma_decimal_value_prefix(digits: Seq<char>, k: int)
    requires
        all_digits(digits),
        0 <= k <= digits.len(),
    ensures
        decimal_value(digits.take(k)) <= decimal_value(digits),
    decreases digits.len(),
{
    if k == digits.len() {
        assert(digits.take(k) =~= digits);
    } else {
        let shorter = digits.drop_last();
        assert(shorter.take(k) =~= digits.take(k));
        lemma_decimal_value_prefix(shorter, k);
        lemma_decimal_value_nonnegative(shorter);
    }
}

/// A text with a character outside ASCII is no decimal.
proof fn lemma_not_ascii_not_decimal(text: Seq<char>)
    requires
        !vstd::utf8::is_ascii_chars(text),
    ensures
        !is_decimal(text),
{
    let i = choose|i: int| 0 <= i < text.len() && !('\0' <= #[trigger] text[i] <= '\u{7f}');
    assert(!is_digit(text[i]));
    if has_sign(text) {
        assert(i > 0);
        assert(unsigned_part(text)[i - 1] == text[i]);
    }
}

/// Reads `text` as a decimal integer.
pub fn parse_i64(text: &str) -> (parsed: Option<i64>)
    ensures
        parsed == parse_i64_spec(text@),
{
    if !text.is_ascii() {
        proof {
            lemma_not_ascii_not_decimal(text@);
        }
        return None;
    }
    let bytes = text.as_bytes();
    let n = bytes.len();
    proof {
        is_ascii_spec_bytes(text);
        assert(n == text@.len());
        assert(forall|j: int| 0 <= j < n ==> bytes@[j] == #[trigger] text@[j] as u8);
    }
    if n == 0 {
        return None;
    }
    let negative = bytes[0] == 45u8;
    let start: usize = if negative || bytes[0] == 43u8 {
        1
    } else {
        0
    };
    assert(negative == is_negative(text@));
    assert((start == 1) == has_sign(text@));
    assert(unsigned_part(text@) =~= text@.subrange(start as int, n as int));
    if start == n {
        return None;
    }
    let ghost digits = unsigned_part(text@);
    let limit: u128 = 0x8000_0000_0000_0000u128;
    let mut magnitude: u128 = 0;
    let mut i: usize = start;
    while i < n
        invariant
            start <= i <= n,
            n == bytes@.len(),
            n == text@.len(),
            limit == 0x8000_0000_0000_0000u128,
            digits == unsigned_part(text@),
            digits == text@.subrange(start as int, n as int),
            vstd::utf8::is_ascii_chars(text@),
            forall|j: int| 0 <= j < n ==> bytes@[j] == #[trigger] text@[j] as u8,
            all_digits(digits.take(i - start)),
            magnitude == decimal_value(digits.take(i - start)),
            magnitude <= limit,
        decreases n - i,
    {
        let byte = bytes[i];
        let ghost c = text@[i as int];
        assert(c == digits[i - start]);
        assert(byte == c as u8);
        assert('\0' <= c <= '\u{7f}');
        if byte < 48u8 || byte > 57u8 {
            assert(!is_digit(c));
            return None;
        }
        assert(is_digit(c));
        let ghost longer = digits.take(i - start + 1);
        assert(longer.drop_last() =~= digits.take(i - start));
        assert(longer.last() == c);
        assert(all_digits(longer));
        magnitude = 10 * magnitude + (byte - 48u8) as u128;
        assert(magnitude == decimal_value(longer));
        if magnitude > limit {
            proof {
                if all_digits(digits) {
                    lemma_decimal_value_prefix(digits, i - start + 1);
                }
            }
            return None;
        }
        i += 1;
    }
    assert(digits.take(n - start) =~= digits);
    if negative {
        Some((-(magnitude as i128)) as i64)
    } else if magnitude == limit {
        None
    } else {
        Some(magnitude as i64)
    }
}

} // verus!
