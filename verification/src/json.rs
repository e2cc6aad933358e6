//! What this library takes on trust from `serde_json`.
//!
//! Verus does not read `serde_json`. A JSON value is carried through verified
//! code as an opaque value, and what the library reads from it, the text that
//! an object holds under its keys, is given a name. The two functions at the
//! end make the calls; their contracts are believed, not proved.

use vstd::prelude::*;

verus! {

/// `serde_json::Value`, a decoded JSON value.
#[verifier::external_type_specification]
#[verifier::external_body]
pub struct ExValue(serde_json::Value);

/// `serde_json::Error`, the reason why a text was not decoded.
#[verifier::external_type_specification]
#[verifier::external_body]
pub struct ExError(serde_json::Error);

/// The text members of a JSON value: where `value` is an object, each key
/// under which it holds a JSON string, with that string; all other members are
/// left out, and a value that is no object has none.
pub uninterp spec fn text_members(value: serde_json::Value) -> Map<Seq<char>, Seq<char>>;

/// What `serde_json::from_str` makes of `text`: the text members of the value
/// that it decodes to, or `None` where it refuses the text.
pub uninterp spec fn decoded_members(text: Seq<char>) -> Option<Map<Seq<char>, Seq<char>>>;

/// Calls `serde_json::from_str` for a `serde_json::Value`.
///
/// Believed: decoding depends on the text alone. The call returns `Ok` exactly
/// when `decoded_members` of the text is `Some`, and the value that it returns
/// then has those text members. Nothing is said of the error.
#[verifier::external_body]
pub(crate) fn parse_document(text: &str) -> (parsed: Result<serde_json::Value, serde_json::Error>)
    ensures
        match parsed {
            Ok(document) => decoded_members(text@) == Some(text_members(document)),
            Err(_) => decoded_members(text@) is None,
        },
{
    serde_json::from_str::<serde_json::Value>(text)
}

/// Calls `serde_json::Value::get` with a text key and hands out the member
/// where it is a JSON string.
///
/// Believed: the result is `Some` exactly when `key` is among the text members
/// of `value`, and is then the text held under it. An absent key, a member that
/// is not a string and a value that is no object all give `None`.
#[verifier::external_body]
pub(crate) fn text_member<'a>(value: &'a serde_json::Value, key: &str) -> (member: Option<&'a str>)
    ensures
        match member {
            Some(text) => text_members(*value).contains_key(key@)
                && text_members(*value)[key@] == text@,
            None => !text_members(*value).contains_key(key@),
        },
{
    match value.get(key) {
        Some(serde_json::Value::String(text)) => Some(text.as_str()),
        _ => None,
    }
}

} // verus!
