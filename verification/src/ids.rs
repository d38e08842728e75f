use vstd::prelude::*;

verus! {

/// What `uuid::Uuid::parse_str` makes of `text`: the identifier's 128-bit value,
/// or `None` where the text is not a UUID in one of the accepted spellings.
pub uninterp spec fn uuid_parse_result(text: Seq<char>) -> Option<u128>;

/// Canonical text of a 128-bit identifier as `uuid::Uuid` displays it.
pub uninterp spec fn uuid_display(id: u128) -> Seq<char>;

/// Parses a UUID, giving its 128-bit value.
///
/// Calls `uuid::Uuid::parse_str` and keeps the value of a successful parse
/// (`Uuid::as_u128`). Which spellings the crate accepts is left to the name
/// `uuid_parse_result`: the contract only ties the result to the input text.
#[verifier::external_body]
pub(crate) fn parse_uuid(text: &str) -> (r: Option<u128>)
    ensures
        r == uuid_parse_result(text@),
{
    uuid::Uuid::parse_str(text).ok().map(|u| u.as_u128())
}

/// Text of a 128-bit identifier in the UUID crate's display form.
///
/// Calls `uuid::Uuid::from_u128(id).to_string()`; the exact spelling (lowercase
/// hyphenated) is left to the name `uuid_display`.
#[verifier::external_body]
pub(crate) fn uuid_to_string(id: u128) -> (r: String)
    ensures
        r@ == uuid_display(id),
{
    uuid::Uuid::from_u128(id).to_string()
}

} // verus!
