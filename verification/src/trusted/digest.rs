//! Digests and their hexadecimal spellings, from `sha2` and `hex`.

use vstd::prelude::*;
#[allow(unused_imports)]
use vstd::utf8::encode_utf8;

#[allow(unused_imports)]
use crate::text::decimal;

verus! {

/// `hex::FromHexError`: why a text is no hexadecimal spelling.
#[verifier::external_type_specification]
#[verifier::external_body]
pub struct ExFromHexError(hex::FromHexError);

/// A hexadecimal digit, in either case.
pub open spec fn is_hex_digit(c: char) -> bool {
    '0' <= c <= '9' || 'a' <= c <= 'f' || 'A' <= c <= 'F'
}

/// The value of a hexadecimal digit.
pub open spec fn hex_value(c: char) -> int {
    if c <= '9' {
        c as int - '0' as int
    } else if c <= 'F' {
        c as int - 'A' as int + 10
    } else {
        c as int - 'a' as int + 10
    }
}

/// A hexadecimal spelling: an even number of digits.
pub open spec fn is_hex(text: Seq<char>) -> bool {
    text.len() % 2 == 0 && forall|i: int| 0 <= i < text.len() ==> is_hex_digit(#[trigger] text[i])
}

/// The bytes that a hexadecimal spelling stands for, two digits each.
pub open spec fn hex_bytes(text: Seq<char>) -> Seq<u8> {
    Seq::new(
        text.len() / 2,
        |i: int| (16 * hex_value(text[2 * i]) + hex_value(text[2 * i + 1])) as u8,
    )
}

/// The message of a decoding error.
pub uninterp spec fn hex_error_text(error: hex::FromHexError) -> Seq<char>;

/// The message of the error that decoding a text gives where it shows a byte with an escape.
pub uninterp spec fn hex_failure(text: Seq<char>) -> Seq<char>;

/// The place of the first byte that is no hexadecimal digit; behind the last where all are.
pub open spec fn first_bad(bytes: Seq<u8>) -> int
    decreases bytes.len(),
{
    if bytes.len() == 0 || !is_hex_digit(bytes[0] as char) {
        0
    } else {
        1 + first_bad(bytes.drop_first())
    }
}

/// The message on a text that is no hexadecimal spelling: its bytes are odd in number, or one of
/// them is no digit, and then the first such is shown with its place. `other` is the message where
/// that byte is shown with an escape.
pub open spec fn hex_report(text: Seq<char>, other: Seq<char>) -> Seq<char> {
    let bytes = encode_utf8(text);
    let bad = first_bad(bytes);
    let c = bytes[bad] as char;
    if bytes.len() % 2 == 1 {
        "Odd number of digits"@
    } else if bad < bytes.len() && ' ' <= c <= '~' && c != '\'' && c != '\\' {
        "Invalid character '"@ + seq![c] + "' at position "@ + decimal(bad)
    } else {
        other
    }
}

/// The SHA-256 digest of some bytes.
pub uninterp spec fn sha256(bytes: Seq<u8>) -> Seq<u8>;

/// The text in quotes, with escapes, as a debug report shows it.
pub uninterp spec fn quoted(text: Seq<char>) -> Seq<char>;

/// `hex::decode`: the bytes of a hexadecimal spelling, and an error for any other text, with a
/// message that names an odd length or else the first byte that is no digit and its place.
#[verifier::external_body]
pub(crate) fn decode_hex(text: &str) -> (result: Result<Vec<u8>, hex::FromHexError>)
    ensures
        match result {
            Ok(bytes) => is_hex(text@) && bytes@ == hex_bytes(text@),
            Err(error) => !is_hex(text@) && hex_error_text(error) == hex_report(
                text@,
                hex_failure(text@),
            ),
        },
{
    hex::decode(text)
}

/// The `Display` text of a `hex::FromHexError`.
#[verifier::external_body]
pub(crate) fn hex_message(error: &hex::FromHexError) -> (text: String)
    ensures
        text@ == hex_error_text(*error),
{
    error.to_string()
}

/// `sha2::Sha256::digest`: the digest of the bytes, 32 bytes long.
#[verifier::external_body]
pub(crate) fn digest_sha256(bytes: &Vec<u8>) -> (digest: Vec<u8>)
    ensures
        digest@ == sha256(bytes@),
        digest@.len() == 32,
{
    <sha2::Sha256 as sha2::Digest>::digest(bytes).to_vec()
}

/// The `Debug` text of a `str`.
#[verifier::external_body]
pub(crate) fn quote(text: &str) -> (quote: String)
    ensures
        quote@ == quoted(text@),
{
    format!("{text:?}")
}

} // verus!
