//! The route table: the mapping from method and path to exactly one handler,
//! and the dispatch function that runs the chosen handler.

use vstd::prelude::*;
use vstd::string::StrSliceExecFns;
use vstd::string::StringExecFns;
use crate::echo;
use crate::model::{header_value, header_value_spec, Header, Method, Outcome, Request, Response,
    RouteMatch};
use crate::num::{parse_u16, parse_u16_spec, u16_digits, u16_to_string};
use crate::random;
use crate::status::{normalize, normalize_spec};
use crate::text;

verus! {

/// The largest request body the echo route accepts, in bytes.
pub const BODY_LIMIT: usize = 65536;

/// The version string served at `GET /version`.
pub open spec fn version_spec() -> Seq<char> {
    "0.1.0"@
}

/// Whether the path tail below `/static` stays inside the static root: no
/// segment may step upward.
pub open spec fn no_traversal(p: Seq<String>) -> bool {
    forall|i: int| 1 <= i < p.len() ==> (#[trigger] p[i])@ != ".."@
}

/// The route the table chooses for a request: exact method and
/// segment-count matching, with a numeric placeholder decode failure a
/// non-match rather than an error.
pub open spec fn route_spec(req: Request) -> RouteMatch {
    let p = req.path@;
    if req.method is Get && p.len() == 1 && p[0]@ == "healthcheck"@ {
        RouteMatch::Healthcheck
    } else if req.method is Get && p.len() == 1 && p[0]@ == "version"@ {
        RouteMatch::Version
    } else if req.method is Get && p.len() == 1 && p[0]@ == "release"@ {
        RouteMatch::Release
    } else if req.method is Get && p.len() >= 1 && p[0]@ == "static"@ && no_traversal(p) {
        RouteMatch::StaticDir
    } else if req.method is Get && p.len() == 1 && p[0]@ == "api"@ {
        RouteMatch::ApiHelp
    } else if req.method is Get && p.len() == 3 && p[0]@ == "api"@ && p[1]@ == "status"@
        && parse_u16_spec(p[2]@) is Ok {
        RouteMatch::ApiStatus(parse_u16_spec(p[2]@)->Ok_0)
    } else if req.method is Get && p.len() == 3 && p[0]@ == "api"@ && p[1]@ == "bytes"@
        && parse_u16_spec(p[2]@) is Ok {
        RouteMatch::ApiBytes(parse_u16_spec(p[2]@)->Ok_0)
    } else if req.method is Get && p.len() == 3 && p[0]@ == "api"@ && p[1]@ == "sleep"@
        && parse_u16_spec(p[2]@) is Ok {
        RouteMatch::ApiSleep(parse_u16_spec(p[2]@)->Ok_0)
    } else if req.method is Post && p.len() == 2 && p[0]@ == "api"@ && p[1]@ == "post"@
        && header_value_spec(req.headers@, "content-type"@) is Some {
        RouteMatch::ApiPost
    } else {
        RouteMatch::NoMatch
    }
}

/// A response with a status, no headers, and a fixed body.
pub open spec fn plain_response_spec(resp: Response, status: u16, body: Seq<char>) -> bool {
    resp.status == status && resp.headers@.len() == 0 && resp.body@ == body
}

/// A response whose one header reports the raw value read from the path.
pub open spec fn input_echo_response_spec(
    resp: Response,
    status: u16,
    raw: u16,
    body: Seq<char>,
) -> bool {
    resp.status == status && resp.headers@.len() == 1 && resp.headers@[0].name@
        == "X-Ghost-Input"@ && resp.headers@[0].value@ == u16_digits(raw as nat) && resp.body@
        == body
}

/// The body of the status route's response.
pub open spec fn status_body_spec(code: u16) -> Seq<char> {
    "status: "@ + u16_digits(normalize_spec(code) as nat)
}

/// The body of the sleep route's response.
pub open spec fn sleep_body_spec(millis: u16) -> Seq<char> {
    "millis: "@ + u16_digits(millis as nat)
}

/// The bytes route's response: the reported raw length, and a body of
/// exactly that many alphanumeric characters.
pub open spec fn bytes_response_spec(resp: Response, len: u16) -> bool {
    resp.status == 200 && resp.headers@.len() == 1 && resp.headers@[0].name@ == "X-Ghost-Input"@
        && resp.headers@[0].value@ == u16_digits(len as nat) && resp.body@.len() == len as nat
        && (forall|i: int| 0 <= i < resp.body@.len() ==> random::is_alnum_char(#[trigger] resp.body@[i]))
}

/// What dispatch does with a matched echo request: a too-large body is
/// rejected before the handler runs; otherwise the content type and the
/// body's UTF-8 decoding come back.
pub open spec fn post_outcome_spec(req: Request, o: Outcome) -> bool {
    if req.body@.len() > BODY_LIMIT {
        o matches Outcome::Reply(resp) && plain_response_spec(
            resp,
            413,
            "The request payload is too large"@,
        )
    } else {
        o matches Outcome::Reply(resp) && resp.status == 200 && resp.headers@.len() == 1
            && resp.headers@[0].name@ == "Content-Type"@ && (header_value_spec(
            req.headers@,
            "content-type"@,
        ) matches Some(ct) && resp.headers@[0].value@ == ct) && resp.body@ == echo::echo_body_spec(
            req.body@,
        )
    }
}

/// What dispatch must hand the transport layer for each route.
pub open spec fn outcome_spec(req: Request, m: RouteMatch, o: Outcome) -> bool {
    match m {
        RouteMatch::Healthcheck => o matches Outcome::Reply(resp) && plain_response_spec(
            resp,
            200,
            "Ok"@,
        ),
        RouteMatch::Version => o matches Outcome::Reply(resp) && plain_response_spec(
            resp,
            200,
            version_spec(),
        ),
        RouteMatch::Release => o is ServeRelease,
        RouteMatch::StaticDir => o matches Outcome::ServeStatic(rest) && rest@.len() == req.path@.len()
            - 1 && (forall|i: int| 0 <= i < rest@.len() ==> (#[trigger] rest@[i])@ == req.path@[i
            + 1]@),
        RouteMatch::ApiHelp => o matches Outcome::Reply(resp) && plain_response_spec(
            resp,
            200,
            "Welcome to the API"@,
        ),
        RouteMatch::ApiStatus(code) => o matches Outcome::Reply(resp) && input_echo_response_spec(
            resp,
            normalize_spec(code),
            code,
            status_body_spec(code),
        ),
        RouteMatch::ApiBytes(len) => o matches Outcome::Reply(resp) && bytes_response_spec(
            resp,
            len,
        ),
        RouteMatch::ApiSleep(millis) => o matches Outcome::SleepThenReply(wait, resp) && wait
            == millis && input_echo_response_spec(resp, 200, millis, sleep_body_spec(millis)),
        RouteMatch::ApiPost => post_outcome_spec(req, o),
        RouteMatch::NoMatch => o matches Outcome::Reply(resp) && plain_response_spec(
            resp,
            404,
            Seq::empty(),
        ),
    }
}

/// Echo round trip: a POST to `/api/post` that carries a content type and a
/// body within the limit is answered with that same content type and the
/// body's UTF-8 decoding; a body that is not valid UTF-8 yields an empty
/// body with status 200, not an error.
pub proof fn lemma_echo_round_trip(req: Request, m: RouteMatch, o: Outcome)
    requires
        req.method is Post,
        req.path@.len() == 2,
        req.path@[0]@ == "api"@,
        req.path@[1]@ == "post"@,
        header_value_spec(req.headers@, "content-type"@) is Some,
        req.body@.len() <= BODY_LIMIT,
        m == route_spec(req),
        outcome_spec(req, m, o),
    ensures
        m == RouteMatch::ApiPost,
        o matches Outcome::Reply(resp) && resp.status == 200 && resp.headers@[0].value@
            == header_value_spec(req.headers@, "content-type"@)->Some_0 && (
        vstd::utf8::valid_utf8(req.body@) ==> resp.body@ == vstd::utf8::decode_utf8(req.body@)) && (
        !vstd::utf8::valid_utf8(req.body@) ==> resp.body@ == Seq::<char>::empty()),
{
}

/// A POST to `/api/post` whose body exceeds the limit is rejected with 413
/// before the echo handler is consulted: nothing of the body is reflected.
pub proof fn lemma_oversized_body_rejected(req: Request, m: RouteMatch, o: Outcome)
    requires
        req.method is Post,
        req.path@.len() == 2,
        req.path@[0]@ == "api"@,
        req.path@[1]@ == "post"@,
        header_value_spec(req.headers@, "content-type"@) is Some,
        req.body@.len() > BODY_LIMIT,
        m == route_spec(req),
        outcome_spec(req, m, o),
    ensures
        m == RouteMatch::ApiPost,
        o matches Outcome::Reply(resp) && resp.status == 413,
{
}

/// `GET /healthcheck` is matched by the health route whatever else the
/// request carries: headers and body never influence it.
pub proof fn lemma_healthcheck_independent(req: Request)
    requires
        req.method is Get,
        req.path@.len() == 1,
        req.path@[0]@ == "healthcheck"@,
    ensures
        route_spec(req) == RouteMatch::Healthcheck,
{
}

/// Does any segment after the first step upward?
fn tail_has_dotdot(path: &Vec<String>) -> (r: bool)
    ensures
        r == !no_traversal(path@),
{
    let mut i: usize = 1;
    while i < path.len()
        invariant
            1 <= i,
            i <= path@.len() || path@.len() == 0,
            forall|j: int| 1 <= j < i && j < path@.len() ==> (#[trigger] path@[j])@ != ".."@,
        decreases path@.len() - i,
    {
        if text::str_eq(path[i].as_str(), "..") {
            return true;
        }
        i = i + 1;
    }
    false
}

/// Choose the route for a request.
pub fn route(req: &Request) -> (m: RouteMatch)
    ensures
        m == route_spec(*req),
{
    let n = req.path.len();
    let get = req.method == Method::Get;
    let post = req.method == Method::Post;
    if get && n == 1 && text::str_eq(req.path[0].as_str(), "healthcheck") {
        RouteMatch::Healthcheck
    } else if get && n == 1 && text::str_eq(req.path[0].as_str(), "version") {
        RouteMatch::Version
    } else if get && n == 1 && text::str_eq(req.path[0].as_str(), "release") {
        RouteMatch::Release
    } else if get && n >= 1 && text::str_eq(req.path[0].as_str(), "static") && !tail_has_dotdot(
        &req.path,
    ) {
        RouteMatch::StaticDir
    } else if get && n == 1 && text::str_eq(req.path[0].as_str(), "api") {
        RouteMatch::ApiHelp
    } else if get && n == 3 && text::str_eq(req.path[0].as_str(), "api") && text::str_eq(
        req.path[1].as_str(),
        "status",
    ) {
        match parse_u16(req.path[2].as_str()) {
            Ok(code) => RouteMatch::ApiStatus(code),
            Err(_) => RouteMatch::NoMatch,
        }
    } else if get && n == 3 && text::str_eq(req.path[0].as_str(), "api") && text::str_eq(
        req.path[1].as_str(),
        "bytes",
    ) {
        match parse_u16(req.path[2].as_str()) {
            Ok(len) => RouteMatch::ApiBytes(len),
            Err(_) => RouteMatch::NoMatch,
        }
    } else if get && n == 3 && text::str_eq(req.path[0].as_str(), "api") && text::str_eq(
        req.path[1].as_str(),
        "sleep",
    ) {
        match parse_u16(req.path[2].as_str()) {
            Ok(millis) => RouteMatch::ApiSleep(millis),
            Err(_) => RouteMatch::NoMatch,
        }
    } else if post && n == 2 && text::str_eq(req.path[0].as_str(), "api") && text::str_eq(
        req.path[1].as_str(),
        "post",
    ) {
        match header_value(&req.headers, "content-type") {
            Some(_) => RouteMatch::ApiPost,
            None => RouteMatch::NoMatch,
        }
    } else {
        RouteMatch::NoMatch
    }
}

/// A response with no headers and a literal body.
fn plain_response(status: u16, body: &str) -> (resp: Response)
    ensures
        plain_response_spec(resp, status, body@),
{
    Response { status, headers: Vec::new(), body: String::from_str(body) }
}

/// A response whose one header echoes the raw path input under
/// `X-Ghost-Input`.
fn input_echo_response(status: u16, raw: u16, body: String) -> (resp: Response)
    ensures
        input_echo_response_spec(resp, status, raw, body@),
{
    Response {
        status,
        headers: vec![
            Header { name: String::from_str("X-Ghost-Input"), value: u16_to_string(raw) },
        ],
        body,
    }
}

/// Dispatch a request to the one handler its route names, and hand back the
/// match and what the transport layer must do with it.
pub fn dispatch(req: &Request) -> (r: (RouteMatch, Outcome))
    ensures
        r.0 == route_spec(*req),
        outcome_spec(*req, r.0, r.1),
{
    let m = route(req);
    let o = match m {
        RouteMatch::Healthcheck => Outcome::Reply(plain_response(200, "Ok")),
        RouteMatch::Version => Outcome::Reply(plain_response(200, "0.1.0")),
        RouteMatch::Release => Outcome::ServeRelease,
        RouteMatch::StaticDir => {
            let mut rest: Vec<String> = Vec::new();
            let mut i: usize = 1;
            while i < req.path.len()
                invariant
                    1 <= i,
                    i <= req.path@.len() || req.path@.len() == 0,
                    rest@.len() == i - 1,
                    forall|j: int|
                        0 <= j < rest@.len() ==> (#[trigger] rest@[j])@ == req.path@[j + 1]@,
                decreases req.path@.len() - i,
            {
                rest.push(req.path[i].clone());
                i = i + 1;
            }
            Outcome::ServeStatic(rest)
        },
        RouteMatch::ApiHelp => Outcome::Reply(plain_response(200, "Welcome to the API")),
        RouteMatch::ApiStatus(code) => {
            let normalized = normalize(code);
            let mut body = String::from_str("status: ");
            let digits = u16_to_string(normalized);
            body.append(digits.as_str());
            Outcome::Reply(input_echo_response(normalized, code, body))
        },
        RouteMatch::ApiBytes(len) => {
            let body = random::generate(len);
            Outcome::Reply(input_echo_response(200, len, body))
        },
        RouteMatch::ApiSleep(millis) => {
            let mut body = String::from_str("millis: ");
            let digits = u16_to_string(millis);
            body.append(digits.as_str());
            Outcome::SleepThenReply(millis, input_echo_response(200, millis, body))
        },
        RouteMatch::ApiPost => {
            if req.body.len() > BODY_LIMIT {
                Outcome::Reply(plain_response(413, "The request payload is too large"))
            } else {
                let ct = match header_value(&req.headers, "content-type") {
                    Some(v) => v,
                    None => {
                        proof {
                            assert(false);
                        }
                        String::new()
                    },
                };
                Outcome::Reply(echo::echo(ct, &req.body))
            }
        },
        RouteMatch::NoMatch => {
            proof {
                reveal_strlit("");
                assert(""@ =~= Seq::<char>::empty());
            }
            Outcome::Reply(plain_response(404, ""))
        },
    };
    (m, o)
}

} // verus!
