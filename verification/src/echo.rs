//! The echo handler: reflect the request's content type and body.

use vstd::prelude::*;
use vstd::string::StringExecFns;
use vstd::utf8::{decode_utf8, valid_utf8};
use crate::model::{Header, Response};
use crate::text;

verus! {

/// What the echo handler answers with for a request body: its UTF-8
/// decoding, or the empty string when the bytes are not well-formed UTF-8
/// (the decode failure is swallowed, never surfaced as an error).
pub open spec fn echo_body_spec(body: Seq<u8>) -> Seq<char> {
    if valid_utf8(body) {
        decode_utf8(body)
    } else {
        Seq::empty()
    }
}

/// Reflect the request's content type and body back verbatim, with the body
/// degraded to empty when it is not valid UTF-8.
pub fn echo(content_type: String, body: &Vec<u8>) -> (resp: Response)
    ensures
        resp.status == 200,
        resp.headers@.len() == 1,
        resp.headers@[0].name@ == "Content-Type"@,
        resp.headers@[0].value@ == content_type@,
        resp.body@ == echo_body_spec(body@),
{
    let text = match text::bytes_to_string(body) {
        Some(s) => s,
        None => String::new(),
    };
    Response {
        status: 200,
        headers: vec![Header { name: String::from_str("Content-Type"), value: content_type }],
        body: text,
    }
}

} // verus!
