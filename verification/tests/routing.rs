use ghost::dispatch;
use ghost::Header;
use ghost::Method;
use ghost::Outcome;
use ghost::Request;
use ghost::RouteMatch;

fn request(method: Method, path: &[&str]) -> Request {
    Request {
        method,
        path: path.iter().map(|s| s.to_string()).collect(),
        headers: Vec::new(),
        body: Vec::new(),
    }
}

fn reply_of(outcome: Outcome) -> ghost::Response {
    match outcome {
        Outcome::Reply(resp) => resp,
        _ => panic!("expected an immediate reply"),
    }
}

fn header<'a>(resp: &'a ghost::Response, name: &str) -> &'a str {
    for h in resp.headers.iter() {
        if h.name.eq_ignore_ascii_case(name) {
            return &h.value;
        }
    }
    panic!("header not found");
}

#[test]
fn healthcheck_returns_ok() {
    let (m, o) = dispatch(&request(Method::Get, &["healthcheck"]));
    assert_eq!(m, RouteMatch::Healthcheck);
    let resp = reply_of(o);
    assert_eq!(resp.status, 200);
    assert_eq!(resp.body, "Ok");
}

#[test]
fn healthcheck_ignores_headers_and_body() {
    let mut req = request(Method::Get, &["healthcheck"]);
    req.headers.push(Header {
        name: "X-Anything".to_string(),
        value: "whatever".to_string(),
    });
    req.body = vec![1, 2, 3];
    let (m, o) = dispatch(&req);
    assert_eq!(m, RouteMatch::Healthcheck);
    let resp = reply_of(o);
    assert_eq!(resp.status, 200);
    assert_eq!(resp.body, "Ok");
}

#[test]
fn version_route() {
    let (m, o) = dispatch(&request(Method::Get, &["version"]));
    assert_eq!(m, RouteMatch::Version);
    let resp = reply_of(o);
    assert_eq!(resp.status, 200);
    assert_eq!(resp.body, "0.1.0");
}

#[test]
fn api_help_route() {
    let (_, o) = dispatch(&request(Method::Get, &["api"]));
    let resp = reply_of(o);
    assert_eq!(resp.status, 200);
    assert_eq!(resp.body, "Welcome to the API");
}

#[test]
fn undeclared_path_is_404() {
    let (m, o) = dispatch(&request(Method::Get, &["nonexistent"]));
    assert_eq!(m, RouteMatch::NoMatch);
    let resp = reply_of(o);
    assert_eq!(resp.status, 404);
    assert_eq!(resp.body, "");
}

#[test]
fn wrong_method_is_404() {
    let (m, o) = dispatch(&request(Method::Post, &["healthcheck"]));
    assert_eq!(m, RouteMatch::NoMatch);
    assert_eq!(reply_of(o).status, 404);
}

#[test]
fn status_418_passes_through() {
    let (m, o) = dispatch(&request(Method::Get, &["api", "status", "418"]));
    assert_eq!(m, RouteMatch::ApiStatus(418));
    let resp = reply_of(o);
    assert_eq!(resp.status, 418);
    assert!(resp.body.contains("418"));
    assert_eq!(header(&resp, "x-ghost-input"), "418");
}

#[test]
fn status_42_is_clamped() {
    let (m, o) = dispatch(&request(Method::Get, &["api", "status", "42"]));
    assert_eq!(m, RouteMatch::ApiStatus(42));
    let resp = reply_of(o);
    assert_eq!(resp.status, 200);
    assert_eq!(resp.body, "status: 200");
    assert_eq!(header(&resp, "X-Ghost-Input"), "42");
}

#[test]
fn status_non_numeric_is_404() {
    let (m, o) = dispatch(&request(Method::Get, &["api", "status", "teapot"]));
    assert_eq!(m, RouteMatch::NoMatch);
    assert_eq!(reply_of(o).status, 404);
}

#[test]
fn bytes_10_returns_10_alphanumeric() {
    let (m, o) = dispatch(&request(Method::Get, &["api", "bytes", "10"]));
    assert_eq!(m, RouteMatch::ApiBytes(10));
    let resp = reply_of(o);
    assert_eq!(resp.status, 200);
    assert_eq!(resp.body.len(), 10);
    assert!(resp.body.chars().all(|c| c.is_ascii_alphanumeric()));
    assert_eq!(header(&resp, "X-Ghost-Input"), "10");
}

#[test]
fn bytes_0_returns_empty() {
    let (_, o) = dispatch(&request(Method::Get, &["api", "bytes", "0"]));
    let resp = reply_of(o);
    assert_eq!(resp.body, "");
    assert_eq!(header(&resp, "X-Ghost-Input"), "0");
}

#[test]
fn sleep_route_reports_millis() {
    let (m, o) = dispatch(&request(Method::Get, &["api", "sleep", "5000"]));
    assert_eq!(m, RouteMatch::ApiSleep(5000));
    match o {
        Outcome::SleepThenReply(wait, resp) => {
            assert_eq!(wait, 5000);
            assert_eq!(resp.status, 200);
            assert_eq!(resp.body, "millis: 5000");
            assert_eq!(header(&resp, "X-Ghost-Input"), "5000");
        }
        _ => panic!("expected a delayed reply"),
    }
}

#[test]
fn release_route_delegates() {
    let (m, o) = dispatch(&request(Method::Get, &["release"]));
    assert_eq!(m, RouteMatch::Release);
    assert!(matches!(o, Outcome::ServeRelease));
}

#[test]
fn static_route_hands_over_the_tail() {
    let (m, o) = dispatch(&request(Method::Get, &["static", "css", "app.css"]));
    assert_eq!(m, RouteMatch::StaticDir);
    match o {
        Outcome::ServeStatic(rest) => assert_eq!(rest, vec!["css", "app.css"]),
        _ => panic!("expected static file serving"),
    }
}

#[test]
fn extra_segments_do_not_match() {
    let (m, o) = dispatch(&request(Method::Get, &["version", "extra"]));
    assert_eq!(m, RouteMatch::NoMatch);
    assert_eq!(reply_of(o).status, 404);
}

#[test]
fn static_root_hands_over_an_empty_tail() {
    let (m, o) = dispatch(&request(Method::Get, &["static"]));
    assert_eq!(m, RouteMatch::StaticDir);
    match o {
        Outcome::ServeStatic(rest) => assert!(rest.is_empty()),
        _ => panic!("expected static file serving"),
    }
}

#[test]
fn static_traversal_is_rejected() {
    let (m, o) = dispatch(&request(Method::Get, &["static", "..", "secret"]));
    assert_eq!(m, RouteMatch::NoMatch);
    assert_eq!(reply_of(o).status, 404);
}

fn post_request(content_type: Option<&str>, body: &[u8]) -> Request {
    let mut req = request(Method::Post, &["api", "post"]);
    if let Some(ct) = content_type {
        req.headers.push(Header {
            name: "Content-Type".to_string(),
            value: ct.to_string(),
        });
    }
    req.body = body.to_vec();
    req
}

#[test]
fn echo_round_trip() {
    let (m, o) = dispatch(&post_request(Some("text/plain"), b"hello world"));
    assert_eq!(m, RouteMatch::ApiPost);
    let resp = reply_of(o);
    assert_eq!(resp.status, 200);
    assert_eq!(resp.body, "hello world");
    assert_eq!(header(&resp, "content-type"), "text/plain");
}

#[test]
fn echo_invalid_utf8_degrades_to_empty() {
    let (_, o) = dispatch(&post_request(Some("application/octet-stream"), &[0xff, 0xfe, 0x61]));
    let resp = reply_of(o);
    assert_eq!(resp.status, 200);
    assert_eq!(resp.body, "");
}

#[test]
fn echo_content_type_lookup_ignores_case() {
    let mut req = request(Method::Post, &["api", "post"]);
    req.headers.push(Header {
        name: "CONTENT-TYPE".to_string(),
        value: "text/html".to_string(),
    });
    req.body = b"x".to_vec();
    let (m, o) = dispatch(&req);
    assert_eq!(m, RouteMatch::ApiPost);
    assert_eq!(header(&reply_of(o), "Content-Type"), "text/html");
}

#[test]
fn oversized_body_is_rejected_before_echo() {
    let big = vec![b'a'; 65537];
    let (m, o) = dispatch(&post_request(Some("text/plain"), &big));
    assert_eq!(m, RouteMatch::ApiPost);
    let resp = reply_of(o);
    assert_eq!(resp.status, 413);
    assert_eq!(resp.body, "The request payload is too large");
}

#[test]
fn body_at_limit_is_echoed() {
    let body = vec![b'a'; 65536];
    let (_, o) = dispatch(&post_request(Some("text/plain"), &body));
    let resp = reply_of(o);
    assert_eq!(resp.status, 200);
    assert_eq!(resp.body.len(), 65536);
}

#[test]
fn echo_empty_body() {
    let (_, o) = dispatch(&post_request(Some("text/plain"), b""));
    let resp = reply_of(o);
    assert_eq!(resp.status, 200);
    assert_eq!(resp.body, "");
}

#[test]
fn post_without_content_type_is_404() {
    let (m, o) = dispatch(&post_request(None, b"hello"));
    assert_eq!(m, RouteMatch::NoMatch);
    assert_eq!(reply_of(o).status, 404);
}
