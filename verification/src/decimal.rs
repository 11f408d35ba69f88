//! Unsigned integers as decimal text.

use vstd::prelude::*;
use vstd::utf8::is_ascii_chars;

verus! {

/// `String::push` appends one character.
pub assume_specification[ String::push ](text: &mut String, c: char)
    ensures
        final(text)@ == old(text)@.push(c),
;

/// Whether `c` is one of the ten decimal digits.
pub open spec fn is_digit(c: char) -> bool {
    '0' <= c <= '9'
}

/// The value of a decimal digit.
pub open spec fn digit_value(c: char) -> nat {
    (c as u32 - '0' as u32) as nat
}

/// The decimal digit of a value below ten.
pub open spec fn digit_char(value: nat) -> char {
    (value + '0' as u32) as u8 as char
}

/// Whether every character is a decimal digit.
pub open spec fn all_digits(text: Seq<char>) -> bool {
    forall|i: int| 0 <= i < text.len() ==> is_digit(#[trigger] text[i])
}

/// The number that a string of digits denotes.
pub open spec fn digits_value(digits: Seq<char>) -> nat
    decreases digits.len(),
{
    if digits.len() == 0 {
        0
    } else {
        digits_value(digits.drop_last()) * 10 + digit_value(digits.last())
    }
}

/// The text without a leading plus sign.
pub open spec fn without_plus(text: Seq<char>) -> Seq<char> {
    if text.len() > 0 && text[0] == '+' {
        text.subrange(1, text.len() as int)
    } else {
        text
    }
}

/// The `u64` that a text denotes: an optional plus sign, then one or more
/// decimal digits whose value fits. Any other text denotes nothing.
pub open spec fn decimal_u64(text: Seq<char>) -> Option<u64> {
    let digits = without_plus(text);
    if digits.len() > 0 && all_digits(digits) && digits_value(digits) <= u64::MAX {
        Some(digits_value(digits) as u64)
    } else {
        None
    }
}

/// The decimal digits of a number, without leading zeros.
pub open spec fn decimal_digits(value: nat) -> Seq<char>
    decreases value,
{
    if value < 10 {
        seq![digit_char(value)]
    } else {
        decimal_digits(value / 10).push(digit_char(value % 10))
    }
}

/// `count` zeros.
pub open spec fn zeros(count: nat) -> Seq<char> {
    Seq::new(count, |i: int| '0')
}

/// The number of zeros that fill `used` characters up to `width`.
pub open spec fn padding(width: nat, used: nat) -> nat {
    if used < width {
        (width - used) as nat
    } else {
        0
    }
}

/// A number written in at least `width` characters: the minus sign of a
/// negative number first, then zeros as far as sign and digits leave room,
/// then the digits.
pub open spec fn padded_decimal(value: int, width: nat) -> Seq<char> {
    if value < 0 {
        let digits = decimal_digits((-value) as nat);
        seq!['-'] + zeros(padding(width, digits.len() + 1)) + digits
    } else {
        let digits = decimal_digits(value as nat);
        zeros(padding(width, digits.len())) + digits
    }
}

/// The value of a string of digits does not shrink when digits follow.
pub proof fn lemma_digits_value_grows(digits: Seq<char>, cut: int)
    requires
        0 <= cut <= digits.len(),
    ensures
        digits_value(digits.subrange(0, cut)) <= digits_value(digits),
    decreases digits.len() - cut,
{
    if cut < digits.len() {
        lemma_digits_value_grows(digits.drop_last(), cut);
        assert(digits.drop_last().subrange(0, cut) =~= digits.subrange(0, cut));
    } else {
        assert(digits.subrange(0, cut) =~= digits);
    }
}

/// The digits of a number are digits, and denote the number.
pub proof fn lemma_decimal_digits_denote(value: nat)
    ensures
        decimal_digits(value).len() > 0,
        all_digits(decimal_digits(value)),
        digits_value(decimal_digits(value)) == value,
        decimal_digits(value)[0] != '+',
    decreases value,
{
    if value < 10 {
        let digits = decimal_digits(value);
        assert(digits_value(digits.drop_last()) == 0);
    } else {
        lemma_decimal_digits_denote(value / 10);
        let digits = decimal_digits(value);
        assert(digits.drop_last() =~= decimal_digits(value / 10));
    }
}

/// A `u64` that is written in decimal and read back is the same number.
pub proof fn lemma_decimal_round_trip(value: u64)
    ensures
        decimal_u64(decimal_digits(value as nat)) == Some(value),
{
    lemma_decimal_digits_denote(value as nat);
}

/// Reads a `u64` from decimal text.
pub fn parse_u64(text: &str) -> (value: Option<u64>)
    ensures
        value == decimal_u64(text@),
{
    broadcast use vstd::string::is_ascii_spec_bytes;

    let ghost digits = without_plus(text@);
    if !text.is_ascii() {
        proof {
            let i = choose|i: int|
                0 <= i < text@.len() && !('\0' <= #[trigger] text@[i] <= '\u{7f}');
            if digits.len() != text@.len() {
                assert(!is_digit(digits[i - 1]));
            }
        }
        return None;
    }
    let bytes = text.as_bytes();
    let n: usize = bytes.len();
    let start: usize = if n > 0 && bytes[0] == 0x2b {
        1
    } else {
        0
    };
    if start == n {
        return None;
    }
    let mut value: u64 = 0;
    let mut i: usize = start;
    while i < n
        invariant
            start <= i <= n,
            n == bytes@.len(),
            n == text@.len(),
            digits == without_plus(text@),
            digits.len() == n - start,
            is_ascii_chars(text@),
            forall|j: int| 0 <= j < n ==> bytes@[j] == text@[j] as u8,
            forall|j: int| 0 <= j < digits.len() ==> digits[j] == text@[start + j],
            all_digits(digits.subrange(0, i - start)),
            value == digits_value(digits.subrange(0, i - start)),
        decreases n - i,
    {
        let byte: u8 = bytes[i];
        let ghost c: char = text@[i as int];
        assert(digits[i - start] == c);
        if byte < 0x30 || byte > 0x39 {
            return None;
        }
        let digit: u64 = (byte - 0x30) as u64;
        proof {
            let read = digits.subrange(0, i - start + 1);
            assert(read.drop_last() =~= digits.subrange(0, i - start));
            lemma_digits_value_grows(digits, i - start + 1);
        }
        if value > (u64::MAX - digit) / 10 {
            return None;
        }
        value = value * 10 + digit;
        i = i + 1;
    }
    assert(digits.subrange(0, i - start) =~= digits);
    Some(value)
}

/// The decimal digit of a value below ten.
pub fn digit(value: u64) -> (c: char)
    requires
        value < 10,
    ensures
        c == digit_char(value as nat),
        is_digit(c),
        digit_value(c) == value,
{
    (value as u8 + 0x30) as char
}

/// Appends the decimal digits of `value`.
pub fn push_decimal(text: &mut String, value: u64)
    ensures
        final(text)@ == old(text)@ + decimal_digits(value as nat),
    decreases value,
{
    if value >= 10 {
        push_decimal(text, value / 10);
    }
    text.push(digit(value % 10));
}

/// The number of decimal digits of `value`.
pub fn digit_count(value: u64) -> (count: usize)
    ensures
        count == decimal_digits(value as nat).len(),
        1 <= count <= 20,
{
    let mut count: usize = 1;
    let mut rest: u64 = value;
    proof {
        lemma_digit_count_bound(value as nat);
    }
    while rest >= 10
        invariant
            count + decimal_digits(rest as nat).len() == decimal_digits(value as nat).len() + 1,
            decimal_digits(value as nat).len() <= 20,
            count >= 1,
        decreases rest,
    {
        rest = rest / 10;
        count = count + 1;
    }
    count
}

/// A `u64` has at most twenty decimal digits.
pub proof fn lemma_digit_count_bound(value: nat)
    requires
        value <= u64::MAX,
    ensures
        1 <= decimal_digits(value).len() <= 20,
{
    reveal_with_fuel(decimal_digits, 21);
}

/// Appends `value` in at least `width` characters, padded with zeros
/// after the sign.
pub fn push_padded(text: &mut String, value: i64, width: usize)
    ensures
        final(text)@ == old(text)@ + padded_decimal(value as int, width as nat),
{
    let magnitude: u64 = if value < 0 {
        (-(value as i128)) as u64
    } else {
        value as u64
    };
    let mut used: usize = digit_count(magnitude);
    if value < 0 {
        text.push('-');
        used = used + 1;
    }
    let ghost signed = text@;
    let mut filled: usize = used;
    while filled < width
        invariant
            used <= filled,
            filled <= width || filled == used,
            text@ == signed + zeros((filled - used) as nat),
        decreases width - filled,
    {
        text.push('0');
        filled = filled + 1;
    }
    push_decimal(text, magnitude);
}

} // verus!
