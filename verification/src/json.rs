//! Decoding the body of a reply as an untyped JSON document.

use vstd::prelude::*;
use crate::error::Error;

verus! {

#[verifier::external_type_specification]
#[verifier::external_body]
pub struct ExJsonValue(serde_json::Value);

/// The document that `text` holds when it is read as JSON; `None` where it
/// is not one JSON value, with nothing but white space before and after
/// it.
pub uninterp spec fn json_document(text: Seq<char>) -> Option<serde_json::Value>;

/// What decoding a body as an untyped document gives.
pub open spec fn decoded_json(text: Seq<char>) -> Result<serde_json::Value, Error> {
    match json_document(text) {
        Some(document) => Ok(document),
        None => Err(Error::DecodeError),
    }
}

/// Calls `serde_json::from_str` for a `serde_json::Value` and drops what the
/// parser's error says. Trusted: the outcome is a function of the text
/// alone, named `json_document`, and is absent exactly when the parser
/// returns an error.
#[verifier::external_body]
fn parse_json(text: &str) -> (r: Option<serde_json::Value>)
    ensures
        r == json_document(text@),
{
    match serde_json::from_str::<serde_json::Value>(text) {
        Ok(document) => Some(document),
        Err(_) => None,
    }
}

/// Decodes a body as an untyped document. A body that is not JSON gives
/// `DecodeError`.
pub fn decode_json(text: &str) -> (r: Result<serde_json::Value, Error>)
    ensures
        r == decoded_json(text@),
{
    match parse_json(text) {
        Some(document) => Ok(document),
        None => Err(Error::DecodeError),
    }
}

} // verus!
