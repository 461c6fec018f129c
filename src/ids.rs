use vstd::prelude::*;
use crate::recipe::opt_view;

verus! {

/// Whether the character is a lowercase hexadecimal digit.
pub open spec fn is_lower_hex(c: char) -> bool {
    ('0' <= c <= '9') || ('a' <= c <= 'f')
}

/// Whether the text is a UUID in hyphenated form: 32 lowercase hexadecimal
/// digits in groups of 8, 4, 4, 4 and 12.
pub open spec fn is_hyphenated_uuid(s: Seq<char>) -> bool {
    &&& s.len() == 36
    &&& forall|i: int|
        0 <= i < 36 ==> if i == 8 || i == 13 || i == 18 || i == 23 {
            s[i] == '-'
        } else {
            is_lower_hex(#[trigger] s[i])
        }
}

/// Relies on uuid::Uuid::new_v4 and its hyphenated form, which writes the
/// 16 random bytes as lowercase hexadecimal digits in groups 8-4-4-4-12.
#[verifier::external_body]
pub fn new_id() -> (r: String)
    ensures
        is_hyphenated_uuid(r@),
{
    uuid::Uuid::new_v4().to_hyphenated().to_string()
}

/// The hyphenated form of the UUID that uuid::Uuid::parse_str reads in a text.
pub uninterp spec fn uuid_in(s: Seq<char>) -> Option<Seq<char>>;

/// Relies on uuid::Uuid::parse_str, written back in hyphenated form; fails
/// where the text holds no UUID. A text already in lowercase hyphenated form
/// reads back as itself: its 32 digits are parsed and written out again in
/// lowercase, with the hyphens at the same places.
#[verifier::external_body]
pub fn parse_id(s: &str) -> (r: Option<String>)
    ensures
        opt_view(r) == uuid_in(s@),
        r matches Some(t) ==> is_hyphenated_uuid(t@),
        is_hyphenated_uuid(s@) ==> opt_view(r) == Some(s@),
{
    uuid::Uuid::parse_str(s).ok().map(|u| u.to_hyphenated().to_string())
}

} // verus!
