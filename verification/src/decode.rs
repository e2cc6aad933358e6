//! Reading a request out of what the host delivered.
//!
//! A request is a JSON object that holds its `name` as text. Some hosts do
//! not deliver it as it is but in an envelope: a JSON object whose `body` is a
//! text, and that text is the request's JSON document. Members other than the
//! one that is read are passed over.

use vstd::prelude::*;

use crate::error::{DecodeError, DecodeErrorView};
use crate::json::{decoded_members, parse_document, text_member, text_members};
use crate::model::{Request, RequestView, result_view};

verus! {

/// The request that a name makes, where there is one.
pub open spec fn named_request(name: Option<Seq<char>>) -> Result<RequestView, DecodeErrorView> {
    match name {
        Some(text) => Ok(RequestView { name: text }),
        None => Err(DecodeErrorView::MissingName),
    }
}

/// The text that `members` holds under `key`, where it holds one.
pub open spec fn member(members: Map<Seq<char>, Seq<char>>, key: Seq<char>) -> Option<Seq<char>> {
    if members.contains_key(key) {
        Some(members[key])
    } else {
        None
    }
}

/// The request that a body decodes to: it has to be a JSON document, and the
/// document has to hold text under `name`.
pub open spec fn body_request(body: Seq<char>) -> Result<RequestView, DecodeErrorView> {
    match decoded_members(body) {
        Some(members) => named_request(member(members, "name"@)),
        None => Err(DecodeErrorView::Malformed),
    }
}

/// The request inside an envelope with the text members `members`: the
/// envelope has to hold text under `body`, and the body has to decode.
pub open spec fn envelope_request(
    members: Map<Seq<char>, Seq<char>>,
) -> Result<RequestView, DecodeErrorView> {
    match member(members, "body"@) {
        Some(body) => body_request(body),
        None => Err(DecodeErrorView::MissingBody),
    }
}

/// Makes the request for `name`, the text that a document holds under `name`,
/// or reports that it holds none.
pub fn request_from_name(name: Option<&str>) -> (decoded: Result<Request, DecodeError>)
    ensures
        result_view(decoded) == named_request(
            match name {
                Some(text) => Some(text@),
                None => None,
            },
        ),
{
    match name {
        Some(text) => Ok(Request { name: text.to_owned() }),
        None => Err(DecodeError::MissingName),
    }
}

/// Decodes the JSON document `body` into the request that it holds.
pub fn decode_request(body: &str) -> (decoded: Result<Request, DecodeError>)
    ensures
        result_view(decoded) == body_request(body@),
{
    match parse_document(body) {
        Ok(document) => request_from_name(text_member(&document, "name")),
        Err(error) => Err(DecodeError::Malformed(error)),
    }
}

/// Decodes the request that `envelope` holds in its body.
pub fn decode_envelope(envelope: &serde_json::Value) -> (decoded: Result<Request, DecodeError>)
    ensures
        result_view(decoded) == envelope_request(text_members(*envelope)),
{
    match text_member(envelope, "body") {
        Some(body) => decode_request(body),
        None => Err(DecodeError::MissingBody),
    }
}

} // verus!
