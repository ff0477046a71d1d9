//! Numbers as hexadecimal text with the prefix `0x`, and back.

use vstd::prelude::*;
use vstd::string::{StrSliceExecFns, StringExecFns};

verus! {

/// The lower-case hexadecimal digit for a value below sixteen.
pub open spec fn hex_digit_char(digit: int) -> char {
    if digit == 0 {
        '0'
    } else if digit == 1 {
        '1'
    } else if digit == 2 {
        '2'
    } else if digit == 3 {
        '3'
    } else if digit == 4 {
        '4'
    } else if digit == 5 {
        '5'
    } else if digit == 6 {
        '6'
    } else if digit == 7 {
        '7'
    } else if digit == 8 {
        '8'
    } else if digit == 9 {
        '9'
    } else if digit == 10 {
        'a'
    } else if digit == 11 {
        'b'
    } else if digit == 12 {
        'c'
    } else if digit == 13 {
        'd'
    } else if digit == 14 {
        'e'
    } else {
        'f'
    }
}

/// The lower-case hexadecimal digits of a number, without leading zeros;
/// zero is the single digit `0`.
pub open spec fn lower_hex(value: nat) -> Seq<char>
    decreases value,
{
    if value < 16 {
        seq![hex_digit_char(value as int)]
    } else {
        lower_hex(value / 16) + seq![hex_digit_char(value as int % 16)]
    }
}

/// The text that stands for a number: `0x` and its hexadecimal digits.
pub open spec fn hex_text(value: nat) -> Seq<char> {
    seq!['0', 'x'] + lower_hex(value)
}

/// The value of a hexadecimal digit of either case, if the character is
/// one.
pub open spec fn hex_digit_value(c: char) -> Option<int> {
    if '0' <= c <= '9' {
        Some(c as int - '0' as int)
    } else if 'a' <= c <= 'f' {
        Some(c as int - 'a' as int + 10)
    } else if 'A' <= c <= 'F' {
        Some(c as int - 'A' as int + 10)
    } else {
        None
    }
}

/// The value of a run of hexadecimal digits, if it is not empty and every
/// character of it is a digit.
pub open spec fn hex_digits_value(digits: Seq<char>) -> Option<int>
    decreases digits.len(),
{
    if digits.len() == 0 {
        None
    } else {
        match hex_digit_value(digits.last()) {
            Some(digit) => if digits.len() == 1 {
                Some(digit)
            } else {
                match hex_digits_value(digits.drop_last()) {
                    Some(value) => Some(16 * value + digit),
                    None => None,
                }
            },
            None => None,
        }
    }
}

/// The number that a text stands for in base sixteen, if it stands for one
/// that is not above `max`: the text is a run of hexadecimal digits, which
/// a plus sign may precede.
pub open spec fn parsed_hex(text: Seq<char>, max: int) -> Option<int> {
    let digits = if text.len() > 0 && text[0] == '+' {
        text.skip(1)
    } else {
        text
    };
    match hex_digits_value(digits) {
        Some(value) => if value <= max {
            Some(value)
        } else {
            None
        },
        None => None,
    }
}

/// The text of one hexadecimal digit.
pub fn hex_digit_text(digit: u8) -> (text: &'static str)
    requires
        digit < 16,
    ensures
        text@ == seq![hex_digit_char(digit as int)],
{
    proof {
        reveal_strlit("0");
        reveal_strlit("1");
        reveal_strlit("2");
        reveal_strlit("3");
        reveal_strlit("4");
        reveal_strlit("5");
        reveal_strlit("6");
        reveal_strlit("7");
        reveal_strlit("8");
        reveal_strlit("9");
        reveal_strlit("a");
        reveal_strlit("b");
        reveal_strlit("c");
        reveal_strlit("d");
        reveal_strlit("e");
        reveal_strlit("f");
    }
    let text = if digit == 0 {
        "0"
    } else if digit == 1 {
        "1"
    } else if digit == 2 {
        "2"
    } else if digit == 3 {
        "3"
    } else if digit == 4 {
        "4"
    } else if digit == 5 {
        "5"
    } else if digit == 6 {
        "6"
    } else if digit == 7 {
        "7"
    } else if digit == 8 {
        "8"
    } else if digit == 9 {
        "9"
    } else if digit == 10 {
        "a"
    } else if digit == 11 {
        "b"
    } else if digit == 12 {
        "c"
    } else if digit == 13 {
        "d"
    } else if digit == 14 {
        "e"
    } else {
        "f"
    };
    assert(text@ =~= seq![hex_digit_char(digit as int)]);
    text
}

/// Appends the hexadecimal digits of `value` to `text`.
pub fn push_lower_hex(text: &mut String, value: u64)
    ensures
        final(text)@ == old(text)@ + lower_hex(value as nat),
    decreases value,
{
    if value >= 16 {
        push_lower_hex(text, value / 16);
    }
    text.append(hex_digit_text((value % 16) as u8));
    assert(text@ =~= old(text)@ + lower_hex(value as nat));
}

/// Writes a number as hexadecimal text with the prefix `0x`.
pub fn to_hex(value: u64) -> (text: String)
    ensures
        text@ == hex_text(value as nat),
{
    proof {
        reveal_strlit("0x");
    }
    let mut text = String::from_str("0x");
    assert(text@ =~= seq!['0', 'x']);
    push_lower_hex(&mut text, value);
    text
}

/// Parses `u8::from_str_radix(src, 16)`: the result is the number that the
/// text stands for in base sixteen, and nothing if the text is empty, holds
/// anything but digits behind an optional plus sign, or stands for a
/// number above the type's range.
#[verifier::external_body]
fn u8_from_hex(src: &str) -> (value: Option<u8>)
    ensures
        match value {
            Some(v) => parsed_hex(src@, u8::MAX as int) == Some(v as int),
            None => parsed_hex(src@, u8::MAX as int) is None,
        },
{
    u8::from_str_radix(src, 16).ok()
}

/// Parses `u16::from_str_radix(src, 16)`; see [`u8_from_hex`].
#[verifier::external_body]
fn u16_from_hex(src: &str) -> (value: Option<u16>)
    ensures
        match value {
            Some(v) => parsed_hex(src@, u16::MAX as int) == Some(v as int),
            None => parsed_hex(src@, u16::MAX as int) is None,
        },
{
    u16::from_str_radix(src, 16).ok()
}

/// Parses `u32::from_str_radix(src, 16)`; see [`u8_from_hex`].
#[verifier::external_body]
fn u32_from_hex(src: &str) -> (value: Option<u32>)
    ensures
        match value {
            Some(v) => parsed_hex(src@, u32::MAX as int) == Some(v as int),
            None => parsed_hex(src@, u32::MAX as int) is None,
        },
{
    u32::from_str_radix(src, 16).ok()
}

/// Parses `u64::from_str_radix(src, 16)`; see [`u8_from_hex`].
#[verifier::external_body]
fn u64_from_hex(src: &str) -> (value: Option<u64>)
    ensures
        match value {
            Some(v) => parsed_hex(src@, u64::MAX as int) == Some(v as int),
            None => parsed_hex(src@, u64::MAX as int) is None,
        },
{
    u64::from_str_radix(src, 16).ok()
}

/// Parses `usize::from_str_radix(src, 16)`; see [`u8_from_hex`].
#[verifier::external_body]
fn usize_from_hex(src: &str) -> (value: Option<usize>)
    ensures
        match value {
            Some(v) => parsed_hex(src@, usize::MAX as int) == Some(v as int),
            None => parsed_hex(src@, usize::MAX as int) is None,
        },
{
    usize::from_str_radix(src, 16).ok()
}

/// A number type that can be read from hexadecimal text.
pub trait FromStrRadix: Sized {
    /// The greatest number of the type.
    spec fn spec_max() -> int;

    /// The number as a mathematical integer.
    spec fn spec_value(&self) -> int;

    /// What is said of a text that stands for no number of the type.
    spec fn spec_error() -> Seq<char>;

    /// Parses hexadecimal text without a prefix.
    fn from_str_radix_16(src: &str) -> (result: Result<Self, &'static str>)
        ensures
            match result {
                Ok(value) => parsed_hex(src@, Self::spec_max()) == Some(value.spec_value()),
                Err(message) => parsed_hex(src@, Self::spec_max()) is None && message@
                    == Self::spec_error(),
            },
    ;
}

impl FromStrRadix for u8 {
    open spec fn spec_max() -> int {
        u8::MAX as int
    }

    open spec fn spec_value(&self) -> int {
        *self as int
    }

    open spec fn spec_error() -> Seq<char> {
        "Invalid hex u8"@
    }

    fn from_str_radix_16(src: &str) -> (result: Result<Self, &'static str>) {
        match u8_from_hex(src) {
            Some(value) => Ok(value),
            None => Err("Invalid hex u8"),
        }
    }
}

impl FromStrRadix for u16 {
    open spec fn spec_max() -> int {
        u16::MAX as int
    }

    open spec fn spec_value(&self) -> int {
        *self as int
    }

    open spec fn spec_error() -> Seq<char> {
        "Invalid hex u16"@
    }

    fn from_str_radix_16(src: &str) -> (result: Result<Self, &'static str>) {
        match u16_from_hex(src) {
            Some(value) => Ok(value),
            None => Err("Invalid hex u16"),
        }
    }
}

impl FromStrRadix for u32 {
    open spec fn spec_max() -> int {
        u32::MAX as int
    }

    open spec fn spec_value(&self) -> int {
        *self as int
    }

    open spec fn spec_error() -> Seq<char> {
        "Invalid hex u32"@
    }

    fn from_str_radix_16(src: &str) -> (result: Result<Self, &'static str>) {
        match u32_from_hex(src) {
            Some(value) => Ok(value),
            None => Err("Invalid hex u32"),
        }
    }
}

impl FromStrRadix for u64 {
    open spec fn spec_max() -> int {
        u64::MAX as int
    }

    open spec fn spec_value(&self) -> int {
        *self as int
    }

    open spec fn spec_error() -> Seq<char> {
        "Invalid hex u64"@
    }

    fn from_str_radix_16(src: &str) -> (result: Result<Self, &'static str>) {
        match u64_from_hex(src) {
            Some(value) => Ok(value),
            None => Err("Invalid hex u64"),
        }
    }
}

impl FromStrRadix for usize {
    open spec fn spec_max() -> int {
        usize::MAX as int
    }

    open spec fn spec_value(&self) -> int {
        *self as int
    }

    open spec fn spec_error() -> Seq<char> {
        "Invalid hex usize"@
    }

    fn from_str_radix_16(src: &str) -> (result: Result<Self, &'static str>) {
        match usize_from_hex(src) {
            Some(value) => Ok(value),
            None => Err("Invalid hex usize"),
        }
    }
}

/// The text starts with `0x`.
pub open spec fn has_hex_prefix(text: Seq<char>) -> bool {
    text.len() >= 2 && text[0] == '0' && text[1] == 'x'
}

/// Reads a number from hexadecimal text with the prefix `0x`. A text
/// without the prefix is refused with the message `Missing '0x' prefix`;
/// what follows the prefix is read by the number type.
pub fn from_hex<T: FromStrRadix>(text: &str) -> (result: Result<T, &'static str>)
    ensures
        match result {
            Ok(value) => has_hex_prefix(text@) && parsed_hex(text@.skip(2), T::spec_max())
                == Some(value.spec_value()),
            Err(message) => if has_hex_prefix(text@) {
                parsed_hex(text@.skip(2), T::spec_max()) is None && message@ == T::spec_error()
            } else {
                message@ == "Missing '0x' prefix"@
            },
        },
{
    let length: usize = text.unicode_len();
    if length < 2 || text.get_char(0) != '0' || text.get_char(1) != 'x' {
        return Err("Missing '0x' prefix");
    }
    let digits = text.substring_char(2, length);
    assert(digits@ =~= text@.skip(2));
    T::from_str_radix_16(digits)
}

} // verus!
