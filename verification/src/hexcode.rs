//! Hexadecimal text, decoded by the `hex` crate.

use vstd::prelude::*;
use vstd::string::*;
use hex::FromHexError;
use crate::text::decimal_text;

verus! {

/// The error of the `hex` crate, with its three cases in view.
#[verifier::external_type_specification]
pub struct ExFromHexError(FromHexError);

/// Whether `b` is the ASCII code of a hexadecimal digit, in either case.
pub open spec fn is_hex_digit(b: u8) -> bool {
    (0x30 <= b <= 0x39) || (0x41 <= b <= 0x46) || (0x61 <= b <= 0x66)
}

/// The number that the hexadecimal digit `b` stands for.
pub open spec fn hex_digit_value(b: u8) -> int {
    if 0x30 <= b <= 0x39 {
        b - 0x30
    } else if 0x41 <= b <= 0x46 {
        b - 0x41 + 10
    } else {
        b - 0x61 + 10
    }
}

/// Whether every byte of `text` before position `end` is a hexadecimal
/// digit.
pub open spec fn all_hex_digits(text: Seq<u8>, end: int) -> bool {
    forall|i: int| 0 <= i < end ==> is_hex_digit(#[trigger] text[i])
}

/// The first position of `text` that holds no hexadecimal digit, or the
/// length of `text` if every byte is one.
pub open spec fn first_bad_digit(text: Seq<u8>) -> int
    decreases text.len(),
{
    if text.len() == 0 {
        0
    } else if !is_hex_digit(text[0]) {
        0
    } else {
        1 + first_bad_digit(text.drop_first())
    }
}

/// The bytes that well-formed hexadecimal text of even length stands for:
/// one byte for each pair of digits, the first digit being the upper half.
pub open spec fn hex_bytes(text: Seq<u8>) -> Seq<u8> {
    Seq::new(
        text.len() / 2,
        |i: int| (16 * hex_digit_value(text[2 * i]) + hex_digit_value(text[2 * i + 1])) as u8,
    )
}

/// What decoding the bytes of a hexadecimal text gives: an odd length is
/// refused first, then the first byte that is no digit, with its position;
/// otherwise the text decodes.
pub open spec fn hex_decoded(text: Seq<u8>) -> Result<Seq<u8>, FromHexError> {
    if text.len() % 2 != 0 {
        Err(FromHexError::OddLength)
    } else if first_bad_digit(text) < text.len() {
        Err(
            FromHexError::InvalidHexCharacter {
                c: text[first_bad_digit(text)] as char,
                index: first_bad_digit(text) as usize,
            },
        )
    } else {
        Ok(hex_bytes(text))
    }
}

/// The first bad position is the least one that holds no digit: all bytes
/// before it are digits, and the byte at it, if there is one, is none.
pub proof fn lemma_first_bad_digit(text: Seq<u8>)
    ensures
        0 <= first_bad_digit(text) <= text.len(),
        all_hex_digits(text, first_bad_digit(text)),
        first_bad_digit(text) < text.len() ==> !is_hex_digit(text[first_bad_digit(text)]),
    decreases text.len(),
{
    if text.len() > 0 && is_hex_digit(text[0]) {
        let rest = text.drop_first();
        lemma_first_bad_digit(rest);
        assert forall|i: int| 0 <= i < first_bad_digit(text) implies is_hex_digit(
            #[trigger] text[i],
        ) by {
            if i > 0 {
                assert(text[i] == rest[i - 1]);
            }
        }
        if first_bad_digit(text) < text.len() {
            assert(text[first_bad_digit(text)] == rest[first_bad_digit(rest)]);
        }
    }
}

/// A text decodes exactly when its length is even and all its bytes are
/// hexadecimal digits; it then gives half as many bytes.
pub proof fn lemma_hex_decoded(text: Seq<u8>)
    ensures
        hex_decoded(text) is Ok <==> text.len() % 2 == 0 && all_hex_digits(text, text.len() as int),
        hex_decoded(text) is Ok ==> hex_decoded(text)->Ok_0.len() == text.len() / 2,
{
    lemma_first_bad_digit(text);
    if all_hex_digits(text, text.len() as int) && first_bad_digit(text) < text.len() {
        assert(is_hex_digit(text[first_bad_digit(text)]));
    }
}

/// How `char`'s `Debug` form writes a character: between single quotes,
/// escaped where it is not printable.
pub uninterp spec fn quoted_char(c: char) -> Seq<char>;

/// The text with which the `hex` crate describes its error.
pub open spec fn hex_error_text(e: FromHexError) -> Seq<char> {
    match e {
        FromHexError::InvalidHexCharacter { c, index } => "Invalid character "@ + quoted_char(c)
            + " at position "@ + decimal_text(index as nat),
        FromHexError::OddLength => "Odd number of digits"@,
        FromHexError::InvalidStringLength => "Invalid string length"@,
    }
}

/// Calls `hex::decode` on the UTF-8 bytes of `text`. The crate refuses text
/// of odd length, then reports the first byte that is not a digit `0-9`,
/// `a-f` or `A-F`; otherwise it returns one byte for each pair of digits.
#[verifier::external_body]
pub(crate) fn decode_hex(text: &str) -> (r: Result<Vec<u8>, FromHexError>)
    ensures
        match r {
            Ok(bytes) => hex_decoded(text.spec_bytes()) == Ok::<Seq<u8>, FromHexError>(bytes@),
            Err(e) => hex_decoded(text.spec_bytes()) == Err::<Seq<u8>, FromHexError>(e),
        },
{
    hex::decode(text)
}

/// Formats an error of the `hex` crate through its `Display` impl, which
/// writes one fixed sentence for each case, with the character and its
/// position for a character that is no digit.
#[verifier::external_body]
pub(crate) fn describe_hex_error(e: &FromHexError) -> (s: String)
    ensures
        s@ == match *e {
            FromHexError::InvalidHexCharacter { c, index } => "Invalid character "@ + quoted_char(c)
                + " at position "@ + decimal_text(index as nat),
            FromHexError::OddLength => "Odd number of digits"@,
            FromHexError::InvalidStringLength => "Invalid string length"@,
        },
{
    e.to_string()
}

} // verus!
