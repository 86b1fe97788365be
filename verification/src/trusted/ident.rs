//! Random identifiers, drawn by `uuid`.

use vstd::prelude::*;

verus! {

/// A lowercase hexadecimal digit.
pub open spec fn is_lower_hex(c: char) -> bool {
    '0' <= c <= '9' || 'a' <= c <= 'f'
}

/// The digit that marks the variant of a random identifier.
pub open spec fn is_variant_digit(c: char) -> bool {
    c == '8' || c == '9' || c == 'a' || c == 'b'
}

/// The spelling of a random identifier without hyphens: 32 digits.
pub open spec fn simple_form(text: Seq<char>) -> bool {
    &&& text.len() == 32
    &&& forall|i: int| 0 <= i < 32 ==> is_lower_hex(#[trigger] text[i])
    &&& text[12] == '4'
    &&& is_variant_digit(text[16])
}

/// The spelling of a random identifier with hyphens: groups of 8, 4, 4, 4 and 12 digits.
pub open spec fn hyphenated_form(text: Seq<char>) -> bool {
    &&& text.len() == 36
    &&& forall|i: int|
        0 <= i < 36 ==> if i == 8 || i == 13 || i == 18 || i == 23 {
            #[trigger] text[i] == '-'
        } else {
            is_lower_hex(text[i])
        }
    &&& text[14] == '4'
    &&& is_variant_digit(text[19])
}

/// `uuid::Uuid::new_v4`, spelled with hyphens as `Display` does: a fresh random identifier, of
/// which only the form is certain. It rests on the system's source of randomness, without which
/// it does not return.
#[verifier::external_body]
pub(crate) fn new_uuid() -> (text: String)
    ensures
        hyphenated_form(text@),
{
    uuid::Uuid::new_v4().to_string()
}

/// `uuid::Uuid::new_v4`, spelled without hyphens by `uuid::Uuid::simple`: a fresh random
/// identifier, of which only the form is certain. It rests on the system's source of randomness,
/// without which it does not return.
#[verifier::external_body]
pub(crate) fn new_simple_uuid() -> (text: String)
    ensures
        simple_form(text@),
{
    uuid::Uuid::new_v4().simple().to_string()
}

} // verus!
