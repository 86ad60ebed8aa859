//! Text encodings of bytes: hexadecimal and base 64.

use base64::Engine;
use vstd::prelude::*;
use vstd::string::StringExecFns;

verus! {

/// Longest input that [`base64_encode`] takes: its encoding must fit a
/// buffer on every machine.
pub const BASE64_MAX_INPUT_LEN: usize = 0x2000_0000;

/// The value of the ASCII hexadecimal digit `c`, of either case.
pub open spec fn hex_digit_value(c: u8) -> Option<int> {
    if 0x30 <= c <= 0x39 {
        Some(c - 0x30)
    } else if 0x41 <= c <= 0x46 {
        Some(c - 0x41 + 10)
    } else if 0x61 <= c <= 0x66 {
        Some(c - 0x61 + 10)
    } else {
        None
    }
}

/// Whether `text` is an even number of hexadecimal digits.
pub open spec fn is_hex(text: Seq<u8>) -> bool {
    text.len() % 2 == 0 && forall|i: int| 0 <= i < text.len() ==> hex_digit_value(text[i]) is Some
}

/// The bytes that the hexadecimal `text` denotes, two digits to a byte, or
/// `None` where it is not hexadecimal.
pub open spec fn hex_decoded(text: Seq<u8>) -> Option<Seq<u8>> {
    if is_hex(text) {
        Some(
            Seq::new(
                text.len() / 2,
                |i: int|
                    (hex_digit_value(text[2 * i])->0 * 16 + hex_digit_value(
                        text[2 * i + 1],
                    )->0) as u8,
            ),
        )
    } else {
        None
    }
}

/// The lower-case hexadecimal digit of a value below 16.
pub open spec fn hex_digit(value: int) -> Seq<char> {
    if value == 0 {
        "0"@
    } else if value == 1 {
        "1"@
    } else if value == 2 {
        "2"@
    } else if value == 3 {
        "3"@
    } else if value == 4 {
        "4"@
    } else if value == 5 {
        "5"@
    } else if value == 6 {
        "6"@
    } else if value == 7 {
        "7"@
    } else if value == 8 {
        "8"@
    } else if value == 9 {
        "9"@
    } else if value == 10 {
        "a"@
    } else if value == 11 {
        "b"@
    } else if value == 12 {
        "c"@
    } else if value == 13 {
        "d"@
    } else if value == 14 {
        "e"@
    } else {
        "f"@
    }
}

/// `bytes` in lower-case hexadecimal, two digits to a byte.
pub open spec fn hex_lower(bytes: Seq<u8>) -> Seq<char>
    decreases bytes.len(),
{
    if bytes.len() == 0 {
        Seq::empty()
    } else {
        hex_lower(bytes.drop_last()) + hex_digit(bytes.last() as int / 16) + hex_digit(
            bytes.last() as int % 16,
        )
    }
}

/// `bytes` in base 64 with the standard alphabet and padding.
pub uninterp spec fn base64_standard(bytes: Seq<u8>) -> Seq<char>;

/// The value of the hexadecimal digit `c`, if it is one.
fn hex_digit_value_of(c: u8) -> (value: Option<u8>)
    ensures
        match value {
            Some(v) => hex_digit_value(c) == Some(v as int) && v < 16,
            None => hex_digit_value(c) is None,
        },
{
    if 0x30 <= c && c <= 0x39 {
        Some(c - 0x30)
    } else if 0x41 <= c && c <= 0x46 {
        Some(c - 0x41 + 10)
    } else if 0x61 <= c && c <= 0x66 {
        Some(c - 0x61 + 10)
    } else {
        None
    }
}

/// Reads hexadecimal text, of either case, two digits to a byte.
///
/// Fails on an odd length and on any character that is no digit.
pub fn hex_decode(text: &[u8]) -> (bytes: Option<Vec<u8>>)
    ensures
        match bytes {
            Some(decoded) => hex_decoded(text@) == Some(decoded@),
            None => hex_decoded(text@) is None,
        },
{
    if text.len() % 2 != 0 {
        return None;
    }
    let count = text.len() / 2;
    let mut decoded: Vec<u8> = Vec::new();
    let mut i: usize = 0;
    while i < count
        invariant
            text@.len() == 2 * count,
            2 * count <= usize::MAX,
            i <= count,
            decoded@.len() == i,
            forall|j: int| 0 <= j < 2 * i ==> hex_digit_value(text@[j]) is Some,
            forall|k: int|
                0 <= k < i ==> decoded@[k] == (hex_digit_value(text@[2 * k])->0 * 16
                    + hex_digit_value(text@[2 * k + 1])->0) as u8,
        decreases count - i,
    {
        let high = match hex_digit_value_of(text[2 * i]) {
            Some(value) => value,
            None => {
                return None;
            },
        };
        let low = match hex_digit_value_of(text[2 * i + 1]) {
            Some(value) => value,
            None => {
                return None;
            },
        };
        decoded.push(high * 16 + low);
        i += 1;
    }
    assert(is_hex(text@));
    assert(decoded@ =~= hex_decoded(text@)->0);
    Some(decoded)
}

/// `Engine::encode` of `base64::engine::general_purpose::STANDARD`. Trusted:
/// the call yields the text named by [`base64_standard`].
#[verifier::external_body]
pub(crate) fn base64_encode(bytes: &[u8]) -> (text: String)
    requires
        bytes@.len() <= BASE64_MAX_INPUT_LEN,
    ensures
        text@ == base64_standard(bytes@),
{
    base64::engine::general_purpose::STANDARD.encode(bytes)
}

/// The lower-case hexadecimal digit of `value`.
fn hex_digit_of(value: u8) -> (digit: &'static str)
    requires
        value < 16,
    ensures
        digit@ == hex_digit(value as int),
{
    match value {
        0 => "0",
        1 => "1",
        2 => "2",
        3 => "3",
        4 => "4",
        5 => "5",
        6 => "6",
        7 => "7",
        8 => "8",
        9 => "9",
        10 => "a",
        11 => "b",
        12 => "c",
        13 => "d",
        14 => "e",
        _ => "f",
    }
}

/// Writes `bytes` in lower-case hexadecimal.
pub fn to_hex(bytes: &[u8]) -> (text: String)
    ensures
        text@ == hex_lower(bytes@),
{
    let mut text = String::new();
    let mut i: usize = 0;
    while i < bytes.len()
        invariant
            i <= bytes@.len(),
            text@ == hex_lower(bytes@.subrange(0, i as int)),
        decreases bytes@.len() - i,
    {
        let byte = bytes[i];
        text.append(hex_digit_of(byte / 16));
        text.append(hex_digit_of(byte % 16));
        i += 1;
        proof {
            let prefix = bytes@.subrange(0, i as int);
            assert(prefix.drop_last() =~= bytes@.subrange(0, i - 1));
            assert(prefix.last() == byte);
        }
    }
    assert(bytes@.subrange(0, bytes@.len() as int) =~= bytes@);
    text
}

} // verus!
