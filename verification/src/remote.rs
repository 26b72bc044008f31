//! The trusted boundary to remote instances: HTTP calls through reqwest's
//! blocking client and JSON field access through serde_json. What a reply
//! means is decided by verified code; these items only move bytes and
//! values across.

use vstd::prelude::*;
use vstd::string::*;

use crate::error::{ErrorResponse, FediurlError};

verus! {

/// One reply from a remote server: its transport status and raw body.
pub struct HttpReply {
    pub status: u16,
    pub body: Vec<u8>,
}

#[verifier::external_type_specification]
#[verifier::external_body]
pub struct ExValue(serde_json::Value);

/// The character-level view of a list of form fields: what the wrappers
/// post, named so request builders can be exact about it.
pub open spec fn pairs_view(fields: Seq<(String, String)>) -> Seq<(Seq<char>, Seq<char>)> {
    fields.map_values(|p: (String, String)| (p.0@, p.1@))
}

/// Relies on reqwest's blocking client: posts a form-encoded request and
/// returns the reply's status and raw body, or reqwest's error as text.
/// Nothing is promised of the outcome: it depends on the network. The
/// blocking client panics when driven from inside an async runtime; callers
/// run on plain threads.
#[verifier::external_body]
pub(crate) fn http_post_form(url: &str, user_agent: &str, fields: &Vec<(String, String)>) -> (r:
    Result<HttpReply, String>) {
    let client = reqwest::blocking::Client::builder().user_agent(user_agent).build().map_err(
        |e| e.to_string(),
    )?;
    let resp = client.post(url).form(fields.as_slice()).send().map_err(|e| e.to_string())?;
    let status = resp.status().as_u16();
    let body = resp.bytes().map_err(|e| e.to_string())?.to_vec();
    Ok(HttpReply { status, body })
}

/// Relies on reqwest's blocking client: issues a GET with a bearer token in
/// the Authorization header and returns the reply's status and raw body, or
/// reqwest's error as text. Nothing is promised of the outcome. The
/// blocking client panics when driven from inside an async runtime; callers
/// run on plain threads.
#[verifier::external_body]
pub(crate) fn http_get(url: &str, user_agent: &str, bearer: &str) -> (r: Result<
    HttpReply,
    String,
>) {
    let client = reqwest::blocking::Client::builder().user_agent(user_agent).build().map_err(
        |e| e.to_string(),
    )?;
    let resp = client.get(url).header(reqwest::header::AUTHORIZATION, bearer).send().map_err(
        |e| e.to_string(),
    )?;
    let status = resp.status().as_u16();
    let body = resp.bytes().map_err(|e| e.to_string())?.to_vec();
    Ok(HttpReply { status, body })
}

/// Relies on serde_json::from_slice: parses bytes as one JSON document.
#[verifier::external_body]
pub(crate) fn json_parse(body: &Vec<u8>) -> (r: Option<serde_json::Value>) {
    serde_json::from_slice(body.as_slice()).ok()
}

/// Relies on serde_json::Value::get: the named field of an object value.
#[verifier::external_body]
pub(crate) fn json_field<'a>(v: &'a serde_json::Value, key: &str) -> (r: Option<
    &'a serde_json::Value,
>) {
    v.get(key)
}

/// Relies on serde_json::Value::as_str: the text of a string value.
#[verifier::external_body]
pub(crate) fn json_as_string(v: &serde_json::Value) -> (r: Option<String>) {
    v.as_str().map(str::to_owned)
}

/// Relies on serde_json::Value::as_array: the elements of an array value.
#[verifier::external_body]
pub(crate) fn json_as_array<'a>(v: &'a serde_json::Value) -> (r: Option<
    &'a Vec<serde_json::Value>,
>) {
    v.as_array()
}

/// Whether a transport status reports success.
pub fn is_success(status: u16) -> (r: bool)
    ensures
        r == (200 <= status < 300),
{
    200 <= status && status < 300
}

/// The error code and description of a structured remote error body, when
/// the body carries both.
pub(crate) fn parse_error_reply(body: &Vec<u8>) -> (r: Option<(String, String)>) {
    let v = match json_parse(body) {
        Some(v) => v,
        None => {
            return None;
        },
    };
    let error = match json_field(&v, "error") {
        Some(f) => match json_as_string(f) {
            Some(s) => s,
            None => {
                return None;
            },
        },
        None => {
            return None;
        },
    };
    let description = match json_field(&v, "error_description") {
        Some(f) => match json_as_string(f) {
            Some(s) => s,
            None => {
                return None;
            },
        },
        None => {
            return None;
        },
    };
    Some((error, description))
}

/// The error a non-2xx remote reply maps to: its structured body verbatim
/// when it has one, a transport error otherwise — never "no match".
pub fn remote_error(status: u16, parsed: Option<(String, String)>) -> (r: FediurlError)
    ensures
        parsed matches Some((e, d)) ==> (r matches FediurlError::ErrorResponse(er) && er.status
            == status && er.error@ == e@ && er.error_description@ == d@),
        parsed is None ==> r matches FediurlError::Http(_),
{
    match parsed {
        Some((error, error_description)) => FediurlError::ErrorResponse(
            ErrorResponse { status, error, error_description },
        ),
        None => FediurlError::Http("remote instance reported an error".to_owned()),
    }
}

} // verus!
