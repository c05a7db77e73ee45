//! Trusted wrappers around the `uuid` crate: parsing, canonical rendering,
//! and the random suffix used for default session names.

use vstd::prelude::*;

verus! {

/// What `Uuid::parse_str` returns for a string: `Some` of the 128-bit value
/// when the string is one of the accepted GUID forms, `None` otherwise.
pub uninterp spec fn guid_parse(s: Seq<char>) -> Option<u128>;

/// The canonical lowercase hyphenated rendering of a 128-bit GUID value.
pub uninterp spec fn guid_string(g: u128) -> Seq<char>;

/// Relies on uuid::Uuid::parse_str (simple, hyphenated, urn, and braced
/// forms) and Uuid::as_u128; the result is a function of the characters
/// alone.
#[verifier::external_body]
pub fn parse_guid(s: &str) -> (r: Option<u128>)
    ensures
        r == guid_parse(s@),
{
    match uuid::Uuid::parse_str(s) {
        Ok(u) => Some(u.as_u128()),
        Err(_) => None,
    }
}

/// Relies on uuid::Uuid::to_string, whose Display is the lowercase
/// hyphenated form (36 characters), and on Uuid::parse_str accepting that
/// form back.
#[verifier::external_body]
pub fn guid_to_string(g: u128) -> (r: String)
    ensures
        r@ == guid_string(g),
        r@.len() == 36,
        guid_parse(r@) == Some(g),
{
    uuid::Uuid::from_u128(g).to_string()
}

/// Relies on uuid::Uuid::new_v4 and Display: the canonical form opens with
/// eight hexadecimal characters, and the value is random, so nothing beyond
/// the length is promised.
#[verifier::external_body]
pub fn random_suffix() -> (r: String)
    ensures
        r@.len() == 8,
{
    let s = uuid::Uuid::new_v4().to_string();
    s[..8].to_string()
}

} // verus!
