use http_api_client::endpoint::{
    default_next_retry_in_millis, Endpoint, RetryableEndpoint, RetryableEndpointRetry,
    DEFAULT_MAX_RETRY_COUNT,
};
use http_api_client::httpbin::{
    CookiesSetEndpoint, HeadersEndpoint, IpEndpoint, ParseBodyError, UuidEndpoint,
};
use http_api_client::message::{Request, Response};
use http_api_client::testing::StatusProbeEndpoint;

fn response(status: u16, body: &[u8]) -> Response {
    Response::new(status, body.to_vec())
}

#[test]
fn ip_endpoint_renders_a_get_request() {
    let req = IpEndpoint.render_request().unwrap();
    assert_eq!(req.method, "GET");
    assert_eq!(req.uri, "https://httpbin.org/ip");
    assert_eq!(req.headers.len(), 0);
    assert_eq!(req.body.len(), 0);
}

#[test]
fn headers_endpoint_renders_a_get_request() {
    let req = HeadersEndpoint.render_request().unwrap();
    assert_eq!(req.uri, "https://httpbin.org/headers");
}

#[test]
fn cookies_set_endpoint_renders_and_ignores_the_body() {
    let req = CookiesSetEndpoint.render_request().unwrap();
    assert_eq!(req.uri, "https://httpbin.org/cookies/set?foo=bar");
    assert_eq!(CookiesSetEndpoint.parse_response(response(302, b"ignored")), Ok(()));
}

#[test]
fn headers_endpoint_parses_a_string_map() {
    let out = HeadersEndpoint
        .parse_response(response(200, b"{\"headers\":{\"Host\":\"httpbin.org\",\"X-Foo\":\"Bar\"}}"))
        .unwrap();
    let mut pairs = out.headers.clone();
    pairs.sort();
    assert_eq!(
        pairs,
        vec![
            ("Host".to_string(), "httpbin.org".to_string()),
            ("X-Foo".to_string(), "Bar".to_string()),
        ]
    );
}

#[test]
fn headers_endpoint_rejects_a_non_string_member() {
    let r = HeadersEndpoint.parse_response(response(200, b"{\"headers\":{\"Host\":1}}"));
    assert!(matches!(r, Err(ParseBodyError::UnexpectedBody)));
}

#[test]
fn headers_endpoint_rejects_a_missing_field() {
    let r = HeadersEndpoint.parse_response(response(200, b"{\"other\":{}}"));
    assert!(matches!(r, Err(ParseBodyError::UnexpectedBody)));
}

#[test]
fn uuid_endpoint_renders_and_parses() {
    let req = UuidEndpoint.render_request(None).unwrap();
    assert_eq!(req.uri, "https://httpbin.org/uuid");

    let accepted = UuidEndpoint
        .parse_response(response(200, b"{\"uuid\":\"abc\"}"), None)
        .unwrap();
    assert_eq!(accepted.unwrap().uuid, "abc");

    let retried = UuidEndpoint
        .parse_response(response(200, b"{\"uuid\":\"7abc\"}"), None)
        .unwrap();
    assert_eq!(retried.unwrap_err(), "7abc");

    // an empty uuid has no leading letter, so it is a retry reason too
    let empty = UuidEndpoint
        .parse_response(response(200, b"{\"uuid\":\"\"}"), None)
        .unwrap();
    assert_eq!(empty.unwrap_err(), "");

    let missing = UuidEndpoint.parse_response(response(200, b"{}"), None);
    assert!(matches!(missing, Err(ParseBodyError::UnexpectedBody)));

    let invalid = UuidEndpoint.parse_response(response(200, b"{"), None);
    assert!(matches!(invalid, Err(ParseBodyError::InvalidJson)));
}

#[test]
fn uuid_endpoint_raises_the_retry_ceiling() {
    assert_eq!(UuidEndpoint.max_retry_count(), 5);
    assert_eq!(StatusProbeEndpoint.max_retry_count(), DEFAULT_MAX_RETRY_COUNT);
    assert_eq!(DEFAULT_MAX_RETRY_COUNT, 3);
}

#[test]
fn default_backoff_is_a_two_step_function() {
    for count in [1usize, 2, 3] {
        let retry = RetryableEndpointRetry::new(count, 0u16);
        assert_eq!(StatusProbeEndpoint.next_retry_in(&retry), 500);
    }
    for count in [4usize, 5, 100] {
        let retry = RetryableEndpointRetry::new(count, 0u16);
        assert_eq!(StatusProbeEndpoint.next_retry_in(&retry), 1000);
    }
    assert_eq!(default_next_retry_in_millis(1), 500);
    assert_eq!(default_next_retry_in_millis(4), 1000);
}

#[test]
fn retry_state_holds_count_and_reason() {
    let retry = RetryableEndpointRetry::new(2, "pending".to_string());
    assert_eq!(retry.count, 2);
    assert_eq!(retry.reason, "pending");
}

#[test]
fn request_constructors_and_headers() {
    let mut req = Request::get("https://example.test/a".to_string());
    assert_eq!(req.method, "GET");
    assert_eq!(req.body, Vec::<u8>::new());
    req.append_header("X-Foo".to_string(), "Bar".to_string());
    req.append_header("X-Foo".to_string(), "Baz".to_string());
    assert_eq!(
        req.headers,
        vec![
            ("X-Foo".to_string(), "Bar".to_string()),
            ("X-Foo".to_string(), "Baz".to_string()),
        ]
    );

    let post = Request::post("https://example.test/b".to_string(), vec![1, 2, 3]);
    assert_eq!(post.method, "POST");
    assert_eq!(post.body, vec![1, 2, 3]);
}

#[test]
fn response_header_lookup_finds_the_first_match() {
    let mut resp = Response::new(200, vec![]);
    resp.headers.push(("Server".to_string(), "alpha".to_string()));
    resp.headers.push(("Server".to_string(), "beta".to_string()));
    assert_eq!(resp.header_value(&"Server".to_string()), Some(&"alpha".to_string()));
    assert_eq!(resp.header_value(&"Missing".to_string()), None);
}

#[test]
fn uuid_endpoint_accepts_any_alphabetic_first_character() {
    // U+00E9, a letter outside ASCII, still counts as alphabetic
    let accepted = UuidEndpoint
        .parse_response(response(200, b"{\"uuid\":\"\xc3\xa9abc\"}"), None)
        .unwrap();
    assert_eq!(accepted.unwrap().uuid, "\u{e9}abc");

    // U+20AC is not alphabetic, so it is a retry reason
    let retried = UuidEndpoint
        .parse_response(response(200, b"{\"uuid\":\"\xe2\x82\xacabc\"}"), None)
        .unwrap();
    assert_eq!(retried.unwrap_err(), "\u{20ac}abc");
}
