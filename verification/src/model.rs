//! Request, response and routing types, and case-insensitive header lookup.

use vstd::prelude::*;
use crate::text;

verus! {

/// The request methods the router distinguishes; everything beyond GET and
/// POST matches no route.
#[derive(Clone, Copy, Debug, PartialEq, Eq, Structural)]
pub enum Method {
    Get,
    Post,
    Other,
}

/// One request or response header.
pub struct Header {
    pub name: String,
    pub value: String,
}

/// An inbound request, reduced to what routing and the handlers read: the
/// method, the path split into segments, the headers, and the body bytes.
pub struct Request {
    pub method: Method,
    pub path: Vec<String>,
    pub headers: Vec<Header>,
    pub body: Vec<u8>,
}

/// An outbound response: status code, headers, and a textual body.
pub struct Response {
    pub status: u16,
    pub headers: Vec<Header>,
    pub body: String,
}

/// The route chosen for a request, with decoded path placeholders.
#[derive(Clone, Copy, Debug, PartialEq, Eq, Structural)]
pub enum RouteMatch {
    Healthcheck,
    Version,
    Release,
    StaticDir,
    ApiHelp,
    ApiStatus(u16),
    ApiBytes(u16),
    ApiSleep(u16),
    ApiPost,
    NoMatch,
}

/// What the transport layer must do with a dispatched request: send a
/// response, wait first, or stream a file it alone can read.
pub enum Outcome {
    Reply(Response),
    SleepThenReply(u16, Response),
    ServeRelease,
    ServeStatic(Vec<String>),
}

/// The value of the first header whose name equals `name` up to ASCII case,
/// if any.
pub open spec fn header_value_spec(headers: Seq<Header>, name: Seq<char>) -> Option<Seq<char>>
    decreases headers.len(),
{
    if headers.len() == 0 {
        None
    } else if text::seq_eq_nocase(headers[0].name@, name) {
        Some(headers[0].value@)
    } else {
        header_value_spec(headers.drop_first(), name)
    }
}

/// Look a header up by name, ignoring ASCII case, first match winning.
pub fn header_value(headers: &Vec<Header>, name: &str) -> (r: Option<String>)
    ensures
        match r {
            Some(v) => header_value_spec(headers@, name@) == Some(v@),
            None => header_value_spec(headers@, name@) is None,
        },
{
    let mut i: usize = 0;
    proof {
        assert(headers@.subrange(0, headers@.len() as int) =~= headers@);
    }
    while i < headers.len()
        invariant
            i <= headers@.len(),
            header_value_spec(headers@, name@) == header_value_spec(
                headers@.subrange(i as int, headers@.len() as int),
                name@,
            ),
        decreases headers@.len() - i,
    {
        let ghost rest = headers@.subrange(i as int, headers@.len() as int);
        if text::str_eq_nocase(headers[i].name.as_str(), name) {
            proof {
                assert(rest[0] == headers@[i as int]);
            }
            return Some(headers[i].value.clone());
        }
        i = i + 1;
        proof {
            assert(rest[0] == headers@[i as int - 1]);
            assert(rest.drop_first() =~= headers@.subrange(i as int, headers@.len() as int));
        }
    }
    None
}

} // verus!
