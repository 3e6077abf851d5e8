//! Base64 text, written and read by the `base64` crate.

use vstd::prelude::*;
use vstd::string::*;
use base64::DecodeError;
use crate::text::decimal_text;

verus! {

/// The error of the `base64` crate, with its three cases in view.
#[verifier::external_type_specification]
pub struct ExDecodeError(DecodeError);

/// The base64 text of a sequence of bytes, in the standard alphabet and
/// padded.
pub uninterp spec fn base64_text(bytes: Seq<u8>) -> Seq<char>;

/// What decoding a text as base64 gives: the bytes, or the reason for which
/// the text is refused.
pub uninterp spec fn base64_decoded(text: Seq<char>) -> Result<Seq<u8>, DecodeError>;

/// The sentence with which the `base64` crate describes its error.
pub open spec fn base64_error_text(e: DecodeError) -> Seq<char> {
    match e {
        DecodeError::InvalidByte(index, byte) => "Invalid byte "@ + decimal_text(byte as nat)
            + ", offset "@ + decimal_text(index as nat) + "."@,
        DecodeError::InvalidLength => "Encoded text cannot have a 6-bit remainder."@,
        DecodeError::InvalidLastSymbol(index, byte) => "Invalid last symbol "@ + decimal_text(
            byte as nat,
        ) + ", offset "@ + decimal_text(index as nat) + "."@,
    }
}

/// Calls `base64::encode`. The text depends on the bytes alone; nothing more
/// is claimed of it.
#[verifier::external_body]
pub(crate) fn encode_base64(bytes: &Vec<u8>) -> (s: String)
    ensures
        s@ == base64_text(bytes@),
{
    base64::encode(bytes)
}

/// Calls `base64::decode`. The outcome depends on the text alone; nothing
/// more is claimed of it.
#[verifier::external_body]
pub(crate) fn decode_base64(text: &str) -> (r: Result<Vec<u8>, DecodeError>)
    ensures
        match r {
            Ok(bytes) => base64_decoded(text@) == Ok::<Seq<u8>, DecodeError>(bytes@),
            Err(e) => base64_decoded(text@) == Err::<Seq<u8>, DecodeError>(e),
        },
{
    base64::decode(text)
}

/// Formats an error of the `base64` crate through its `Display` impl, which
/// writes one fixed sentence for each case, with the byte and its offset
/// where the case has them.
#[verifier::external_body]
pub(crate) fn describe_base64_error(e: &DecodeError) -> (s: String)
    ensures
        s@ == base64_error_text(*e),
{
    e.to_string()
}

} // verus!
