//! HTTP status text and description tests.

use pori::status::{get_status_description, get_status_text};

#[test]
fn test_1xx_status_codes() {
    assert_eq!(get_status_description(100), "100 Continue");
    assert_eq!(get_status_description(101), "101 Switching Protocols");
    assert_eq!(get_status_description(102), "102 Processing");
    assert_eq!(get_status_description(103), "103 Early Hints");
}

#[test]
fn test_2xx_status_codes() {
    assert_eq!(get_status_description(200), "200 OK");
    assert_eq!(get_status_description(201), "201 Created");
    assert_eq!(get_status_description(204), "204 No Content");
}

#[test]
fn test_3xx_status_codes() {
    assert_eq!(get_status_description(301), "301 Moved Permanently");
    assert_eq!(get_status_description(302), "302 Found");
    assert_eq!(get_status_description(304), "304 Not Modified");
}

#[test]
fn test_4xx_status_codes() {
    assert_eq!(get_status_description(400), "400 Bad Request");
    assert_eq!(get_status_description(401), "401 Unauthorized");
    assert_eq!(get_status_description(404), "404 Not Found");
    assert_eq!(get_status_description(418), "418 I'm a teapot");
}

#[test]
fn test_5xx_status_codes() {
    assert_eq!(get_status_description(500), "500 Internal Server Error");
    assert_eq!(get_status_description(502), "502 Bad Gateway");
    assert_eq!(get_status_description(503), "503 Service Unavailable");
    assert_eq!(get_status_description(504), "504 Gateway Timeout");
}

#[test]
fn test_unknown_status_code() {
    assert_eq!(get_status_description(999), "999 Unknown");
    assert_eq!(get_status_description(123), "123 Unknown");
}

#[test]
fn test_status_text_only() {
    assert_eq!(get_status_text(200), "OK");
    assert_eq!(get_status_text(404), "Not Found");
    assert_eq!(get_status_text(500), "Internal Server Error");
    assert_eq!(get_status_text(999), "Unknown");
}

#[test]
fn test_status_text_mapping() {
    assert_eq!(get_status_text(200), "OK");
    assert_eq!(get_status_text(404), "Not Found");
    assert_eq!(get_status_text(500), "Internal Server Error");
    assert_eq!(get_status_text(999), "Unknown");
}
