//! Header hygiene and request validation tests.

use pori::headers::{
    contains_header, ensure_tracking_headers, filter_headers, filter_response_headers,
    should_skip_header, should_skip_response_header, validate_http_request,
};

fn pairs(items: &[(&str, &str)]) -> Vec<(String, String)> {
    items.iter().map(|(k, v)| (k.to_string(), v.to_string())).collect()
}

#[test]
fn client_test_header_filtering() {
    assert!(should_skip_header("host"));
    assert!(should_skip_header("Connection"));
    assert!(should_skip_header("PROXY-CONNECTION"));
    assert!(!should_skip_header("content-type"));
    assert!(!should_skip_header("authorization"));
}

#[test]
fn tunnel_test_header_filtering() {
    let headers = pairs(&[
        ("content-type", "application/json"),
        ("connection", "keep-alive"),
        ("host", "example.com"),
        ("authorization", "Bearer token"),
    ]);

    let filtered = filter_headers(headers);

    assert!(contains_header(&filtered, "content-type"));
    assert!(contains_header(&filtered, "authorization"));
    assert!(!contains_header(&filtered, "connection"));
    assert!(!contains_header(&filtered, "host"));
}

#[test]
fn test_header_validation() {
    let valid_headers = pairs(&[
        ("content-type", "application/json"),
        ("authorization", "Bearer token"),
    ]);

    assert!(validate_http_request("GET", "/api/test", &valid_headers).is_ok());

    assert!(validate_http_request("INVALID", "/api/test", &valid_headers).is_err());

    assert!(validate_http_request("GET", "", &valid_headers).is_err());

    let invalid_headers = pairs(&[("", "value")]);
    assert!(validate_http_request("GET", "/api/test", &invalid_headers).is_err());
}

#[test]
fn test_no_hop_by_hop_header_survives_scrub() {
    // None of the nine strip-list names survives the request scrub,
    // whatever its case on the way in.
    let headers = pairs(&[
        ("Host", "example.com"),
        ("Connection", "keep-alive"),
        ("Upgrade", "h2c"),
        ("Proxy-Connection", "keep-alive"),
        ("Proxy-Authorization", "Basic x"),
        ("TE", "trailers"),
        ("Trailers", "x"),
        ("Transfer-Encoding", "chunked"),
        ("Content-Length", "42"),
        ("accept", "*/*"),
    ]);
    let filtered = filter_headers(headers);
    assert_eq!(filtered.len(), 1);
    assert_eq!(filtered[0].0, "accept");
}

#[test]
fn test_response_scrub_drops_tracking_headers() {
    let headers = pairs(&[
        ("server", "nginx"),
        ("x-powered-by", "php"),
        ("x-request-id", "abc"),
        ("x-forwarded-for", "1.2.3.4"),
        ("x-forwarded-proto", "https"),
        ("content-type", "text/plain"),
    ]);
    let filtered = filter_response_headers(headers);
    assert_eq!(filtered.len(), 1);
    assert_eq!(filtered[0].0, "content-type");
}

#[test]
fn test_tracking_headers_added_once() {
    let mut headers = pairs(&[("accept", "*/*")]);
    ensure_tracking_headers(&mut headers, "R1", "pori-proxy");
    assert!(contains_header(&headers, "x-request-id"));
    assert!(contains_header(&headers, "x-forwarded-by"));
    assert_eq!(headers.len(), 3);

    // Present already, in any case form: nothing is added.
    let mut headers2 = pairs(&[("X-Request-ID", "keep"), ("X-Forwarded-By", "other")]);
    ensure_tracking_headers(&mut headers2, "R1", "pori-proxy");
    assert_eq!(headers2.len(), 2);
    assert_eq!(headers2[0].1, "keep");
}

#[test]
fn test_validate_rejects_bad_header_value() {
    let headers = pairs(&[("x-note", "line1\r\nline2")]);
    assert!(validate_http_request("GET", "/x", &headers).is_err());
}

#[test]
fn test_validate_accepts_lowercase_method() {
    let headers = pairs(&[]);
    assert!(validate_http_request("get", "/x", &headers).is_ok());
    assert!(validate_http_request("Patch", "/x", &headers).is_ok());
}

#[test]
fn test_skip_response_header_cases() {
    assert!(should_skip_response_header("Server"));
    assert!(should_skip_response_header("X-Forwarded-Anything"));
    assert!(should_skip_response_header("transfer-encoding"));
    assert!(!should_skip_response_header("etag"));
}
