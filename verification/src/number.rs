//! Numbers as text: decimal rendering, and unsigned parsing in a given radix.

use crate::text::{chars_of, push_char};
use vstd::prelude::*;

verus! {

/// The character of a decimal digit.
pub open spec fn digit_char(digit: nat) -> char {
    (('0' as u32) + digit) as char
}

/// The decimal digits of a number, without leading zeros.
pub open spec fn decimal(value: nat) -> Seq<char>
    decreases value,
{
    if value < 10 {
        seq![digit_char(value)]
    } else {
        decimal(value / 10).push(digit_char(value % 10))
    }
}

/// The decimal text of a signed number: a minus sign stands before the digits
/// of a negative one.
pub open spec fn signed_decimal(value: int) -> Seq<char> {
    if value < 0 {
        seq!['-'] + decimal((-value) as nat)
    } else {
        decimal(value as nat)
    }
}

/// What a character stands for as a digit in the given radix.
pub open spec fn digit_value(c: char, radix: nat) -> Option<nat> {
    let value: int = if '0' <= c <= '9' {
        c as int - '0' as int
    } else if 'a' <= c <= 'z' {
        c as int - 'a' as int + 10
    } else if 'A' <= c <= 'Z' {
        c as int - 'A' as int + 10
    } else {
        radix as int
    };
    if value < radix {
        Some(value as nat)
    } else {
        None
    }
}

/// Whether every character is a digit in the given radix.
pub open spec fn all_digits(text: Seq<char>, radix: nat) -> bool {
    forall|i: int| 0 <= i < text.len() ==> (#[trigger] digit_value(text[i], radix)) is Some
}

/// The number that a sequence of digits stands for, most significant first.
pub open spec fn digits_value(text: Seq<char>, radix: nat) -> nat
    decreases text.len(),
{
    if text.len() == 0 {
        0
    } else {
        digits_value(text.drop_last(), radix) * radix + digit_value(text.last(), radix).unwrap_or(0)
    }
}

/// The digits of an unsigned number: a single leading plus sign is dropped.
pub open spec fn without_plus(text: Seq<char>) -> Seq<char> {
    if text.len() > 0 && text[0] == '+' {
        text.skip(1)
    } else {
        text
    }
}

/// The unsigned number that a text stands for: an optional plus sign, then one
/// or more digits, with a value of at most `max`.
pub open spec fn unsigned(text: Seq<char>, radix: nat, max: nat) -> Option<nat> {
    let digits = without_plus(text);
    if digits.len() > 0 && all_digits(digits, radix) && digits_value(digits, radix) <= max {
        Some(digits_value(digits, radix))
    } else {
        None
    }
}

/// The decimal text of a number.
pub fn to_decimal(value: u64) -> (text: String)
    ensures
        text@ == decimal(value as nat),
    decreases value,
{
    let mut text = if value < 10 {
        String::new()
    } else {
        to_decimal(value / 10)
    };
    let digit: u8 = (value % 10) as u8;
    let c: char = (48u8 + digit) as char;
    assert(c == digit_char((value % 10) as nat));
    push_char(&mut text, c);
    assert(text@ =~= decimal(value as nat));
    text
}

/// The decimal text of a signed number.
pub fn to_signed_decimal(value: i64) -> (text: String)
    ensures
        text@ == signed_decimal(value as int),
{
    if value < 0 {
        let mut text = String::new();
        push_char(&mut text, '-');
        let wide: i128 = value as i128;
        let digits = to_decimal((-wide) as u64);
        text.append(digits.as_str());
        assert(text@ =~= signed_decimal(value as int));
        text
    } else {
        to_decimal(value as u64)
    }
}

fn digit_of(c: char, radix: u32) -> (digit: Option<u32>)
    requires
        2 <= radix <= 36,
    ensures
        digit matches Some(d) ==> digit_value(c, radix as nat) == Some(d as nat),
        digit is None ==> digit_value(c, radix as nat) is None,
{
    let value: u32 = if '0' <= c && c <= '9' {
        c as u32 - '0' as u32
    } else if 'a' <= c && c <= 'z' {
        c as u32 - 'a' as u32 + 10
    } else if 'A' <= c && c <= 'Z' {
        c as u32 - 'A' as u32 + 10
    } else {
        radix
    };
    if value < radix {
        Some(value)
    } else {
        None
    }
}

proof fn digits_value_grows(text: Seq<char>, radix: nat, i: int)
    requires
        0 <= i <= text.len(),
        radix >= 1,
    ensures
        digits_value(text.take(i), radix) <= digits_value(text, radix),
    decreases text.len() - i,
{
    if i < text.len() {
        let next = text.take(i + 1);
        assert(next.drop_last() =~= text.take(i));
        assert(digits_value(text.take(i), radix) <= digits_value(text.take(i), radix) * radix)
            by (nonlinear_arith)
            requires
                radix >= 1,
        ;
        digits_value_grows(text, radix, i + 1);
    } else {
        assert(text.take(i) =~= text);
    }
}

/// Reads an unsigned number of at most `max` in the given radix.
pub fn parse_unsigned(text: &str, radix: u32, max: u64) -> (value: Option<u64>)
    requires
        2 <= radix <= 36,
    ensures
        value matches Some(v) ==> unsigned(text@, radix as nat, max as nat) == Some(v as nat),
        value is None ==> unsigned(text@, radix as nat, max as nat) is None,
{
    let chars = chars_of(text);
    let start: usize = if chars.len() > 0 && chars[0] == '+' {
        1
    } else {
        0
    };
    let ghost digits = without_plus(text@);
    assert(digits =~= text@.skip(start as int));
    if start >= chars.len() {
        return None;
    }
    let mut value: u64 = 0;
    let mut i: usize = start;
    while i < chars.len()
        invariant
            2 <= radix <= 36,
            start <= 1,
            start <= i <= chars.len(),
            chars@ == text@,
            digits == text@.skip(start as int),
            digits == without_plus(text@),
            all_digits(digits.take(i - start), radix as nat),
            value == digits_value(digits.take(i - start), radix as nat),
            value <= max,
        decreases chars.len() - i,
    {
        let ghost seen = digits.take(i - start);
        let ghost next = digits.take(i + 1 - start);
        assert(next.drop_last() =~= seen);
        assert(next.last() == chars@[i as int]);
        assert(digits[i - start] == chars@[i as int]);
        match digit_of(chars[i], radix) {
            None => {
                return None;
            },
            Some(digit) => {
                assert(value * radix <= u64::MAX * 36) by (nonlinear_arith)
                    requires
                        value <= u64::MAX,
                        radix <= 36,
                ;
                let wide: u128 = (value as u128) * (radix as u128) + digit as u128;
                proof {
                    digits_value_grows(digits, radix as nat, i + 1 - start);
                    assert forall|k: int| 0 <= k < next.len() implies (#[trigger] digit_value(
                        next[k],
                        radix as nat,
                    )) is Some by {
                        if k < seen.len() {
                            assert(next[k] == seen[k]);
                        }
                    }
                }
                if wide > max as u128 {
                    return None;
                }
                value = wide as u64;
            },
        }
        i += 1;
    }
    assert(digits.take(i - start) =~= digits);
    Some(value)
}

pub proof fn decimal_digits(value: nat)
    ensures
        decimal(value).len() > 0,
        all_digits(decimal(value), 10),
        digits_value(decimal(value), 10) == value,
        forall|i: int| 0 <= i < decimal(value).len() ==> '0' <= #[trigger] decimal(value)[i] <= '9',
    decreases value,
{
    reveal_with_fuel(digits_value, 2);
    if value < 10 {
        assert(decimal(value).drop_last().len() == 0);
        assert(decimal(value)[0] == digit_char(value));
    } else {
        decimal_digits(value / 10);
        let head = decimal(value / 10);
        let all = decimal(value);
        assert(all.drop_last() =~= head);
        assert(all.last() == digit_char(value % 10));
        assert forall|i: int| 0 <= i < all.len() implies '0' <= #[trigger] all[i] <= '9'
            && digit_value(all[i], 10) is Some by {
            if i < head.len() {
                assert(all[i] == head[i]);
            }
        }
        assert(digit_value(all.last(), 10) == Some((value % 10) as nat));
    }
}

/// Reading the decimal text of a number gives the number back.
pub proof fn decimal_reads_back(value: nat, max: nat)
    requires
        value <= max,
    ensures
        unsigned(decimal(value), 10, max) == Some(value),
{
    decimal_digits(value);
    assert(decimal(value)[0] != '+');
}

/// Different numbers have different decimal texts.
pub proof fn decimal_injective(left: nat, right: nat)
    requires
        decimal(left) == decimal(right),
    ensures
        left == right,
{
    decimal_digits(left);
    decimal_digits(right);
}

/// What is said of a text that is no number of 16 bits in this radix.
pub uninterp spec fn number_refusal(text: Seq<char>, radix: u32) -> Seq<char>;

/// Reads a number of 16 bits by `u16::from_str_radix`, which takes digits with an
/// optional plus sign before them, and nothing else. What its error says of any other
/// text, and of a number that does not fit, is a function of the text and the radix.
#[verifier::external_body]
pub(crate) fn read_u16(text: &str, radix: u32) -> (value: Result<u16, String>)
    requires
        2 <= radix <= 36,
    ensures
        match unsigned(text@, radix as nat, u16::MAX as nat) {
            Some(number) => value == Ok::<u16, String>(number as u16),
            None => value matches Err(message) && message@ == number_refusal(text@, radix),
        },
{
    u16::from_str_radix(text, radix).map_err(|error| error.to_string())
}

/// Different numbers have different signed texts, and only those below zero have a minus
/// sign before the digits of their opposite.
pub proof fn signed_decimal_injective(left: int, right: int)
    ensures
        signed_decimal(left) == signed_decimal(right) ==> left == right,
        signed_decimal(left)[0] == '-' <==> left < 0,
        left > 0 ==> signed_decimal(-left) == seq!['-'] + signed_decimal(left),
{
    let a = if left < 0 {
        (-left) as nat
    } else {
        left as nat
    };
    let b = if right < 0 {
        (-right) as nat
    } else {
        right as nat
    };
    decimal_digits(a);
    decimal_digits(b);
    assert('0' <= decimal(a)[0] <= '9');
    assert('0' <= decimal(b)[0] <= '9');
    if signed_decimal(left) == signed_decimal(right) {
        assert(signed_decimal(left)[0] == signed_decimal(right)[0]);
        if left < 0 {
            assert(signed_decimal(left).skip(1) =~= decimal(a));
            assert(signed_decimal(right).skip(1) =~= decimal(b));
        }
        decimal_injective(a, b);
    }
}

/// A number that is read lies within its bound and is made of digits; another sign, a
/// gap or an empty text is no number.
pub proof fn only_digits_are_numbers(text: Seq<char>, radix: nat, max: nat)
    requires
        radix <= 36,
    ensures
        unsigned(text, radix, max) matches Some(value) ==> value <= max && text.len() > 0,
        text.len() == 0 ==> unsigned(text, radix, max) is None,
        text.contains('-') || text.contains(' ') || text.contains('.') ==> unsigned(
            text,
            radix,
            max,
        ) is None,
        text.len() == 1 && text[0] == '+' ==> unsigned(text, radix, max) is None,
{
    let digits = without_plus(text);
    if unsigned(text, radix, max) is Some {
        assert forall|i: int| 0 <= i < text.len() implies text[i] != '-' && text[i] != ' ' && text[i]
            != '.' by {
            if text[0] == '+' {
                if i > 0 {
                    assert(digits[i - 1] == text[i]);
                    assert(digit_value(digits[i - 1], radix) is Some);
                }
            } else {
                assert(digit_value(digits[i], radix) is Some);
            }
        }
    }
}

} // verus!
