//! Text forms of hand-off block data.
//!
//! Numbers are written in hexadecimal with the prefix `0x`, GUIDs in the
//! usual form of five groups, and memory ranges can be merged into the
//! fewest ranges that cover the same addresses.

use crate::efi::Guid;
use crate::serializable::hex_format::{hex_digit_char, hex_digit_text};
use vstd::prelude::*;
use vstd::string::StringExecFns;

pub mod hex_format;
pub mod interval;
pub mod serializable_hob;

pub use interval::{merge_intervals, Interval};

verus! {

/// The two lower-case hexadecimal digits of a byte.
pub open spec fn byte_text(byte: u8) -> Seq<char> {
    seq![hex_digit_char(byte as int / 16), hex_digit_char(byte as int % 16)]
}

/// The text of a GUID given by its bytes: the first three fields as
/// numbers, most significant digit first, then the remaining bytes in
/// their order, in groups of 8, 4, 4, 4 and 12 digits.
pub open spec fn guid_text(bytes: Seq<u8>) -> Seq<char> {
    byte_text(bytes[3]) + byte_text(bytes[2]) + byte_text(bytes[1]) + byte_text(bytes[0])
        + seq!['-'] + byte_text(bytes[5]) + byte_text(bytes[4]) + seq!['-'] + byte_text(bytes[7])
        + byte_text(bytes[6]) + seq!['-'] + byte_text(bytes[8]) + byte_text(bytes[9]) + seq!['-']
        + byte_text(bytes[10]) + byte_text(bytes[11]) + byte_text(bytes[12]) + byte_text(
        bytes[13],
    ) + byte_text(bytes[14]) + byte_text(bytes[15])
}

/// Appends the two hexadecimal digits of `byte` to `text`.
fn push_byte(text: &mut String, byte: u8)
    ensures
        final(text)@ == old(text)@ + byte_text(byte),
{
    text.append(hex_digit_text(byte / 16));
    text.append(hex_digit_text(byte % 16));
    assert(text@ =~= old(text)@ + byte_text(byte));
}

/// Appends a hyphen to `text`.
fn push_hyphen(text: &mut String)
    ensures
        final(text)@ == old(text)@ + seq!['-'],
{
    proof {
        reveal_strlit("-");
    }
    text.append("-");
    assert(text@ =~= old(text)@ + seq!['-']);
}

/// Formats a GUID in the form `xxxxxxxx-xxxx-xxxx-xxxx-xxxxxxxxxxxx`, with
/// lower-case digits.
pub fn format_guid(guid: Guid) -> (text: String)
    ensures
        text@ == guid_text(guid@),
        text@.len() == 36,
{
    let bytes = guid.as_bytes();
    let mut text = String::new();
    push_byte(&mut text, bytes[3]);
    push_byte(&mut text, bytes[2]);
    push_byte(&mut text, bytes[1]);
    push_byte(&mut text, bytes[0]);
    push_hyphen(&mut text);
    push_byte(&mut text, bytes[5]);
    push_byte(&mut text, bytes[4]);
    push_hyphen(&mut text);
    push_byte(&mut text, bytes[7]);
    push_byte(&mut text, bytes[6]);
    push_hyphen(&mut text);
    push_byte(&mut text, bytes[8]);
    push_byte(&mut text, bytes[9]);
    push_hyphen(&mut text);
    push_byte(&mut text, bytes[10]);
    push_byte(&mut text, bytes[11]);
    push_byte(&mut text, bytes[12]);
    push_byte(&mut text, bytes[13]);
    push_byte(&mut text, bytes[14]);
    push_byte(&mut text, bytes[15]);
    assert(text@ =~= guid_text(guid@));
    text
}

} // verus!
