//! Transport envelope tests: the HTTP and WebSocket message wrappers.

use pori::frame::ProtocolMessage;
use pori::transport::{HttpMessage, WebSocketMessage};
use pori::wire_config::{CompressionInfo, FrameType};

fn pairs(items: &[(&str, &str)]) -> Vec<(String, String)> {
    items.iter().map(|(k, v)| (k.to_string(), v.to_string())).collect()
}

#[test]
fn test_http_message_creation() {
    let headers = pairs(&[("content-type", "application/json")]);

    let message = HttpMessage::http_request(
        "conn-1".to_string(),
        "GET".to_string(),
        "/api/test".to_string(),
        headers,
        None,
    );

    assert_eq!(message.envelope.connection_id, "conn-1");
    assert_eq!(message.message_type(), "http_request");
}

#[test]
fn test_request_info_extraction() {
    let headers = pairs(&[("host", "example.com")]);

    let message = HttpMessage::http_request(
        "conn-1".to_string(),
        "POST".to_string(),
        "/api/data".to_string(),
        headers.clone(),
        Some(b"test data".to_vec()),
    );

    let (method, url, extracted_headers) = message.extract_request_info().unwrap();
    assert_eq!(method, "POST");
    assert_eq!(url, "/api/data");
    assert_eq!(extracted_headers, headers);
}

#[test]
fn test_http_error_message() {
    let message = HttpMessage::http_error("conn-2".to_string(), 404, "missing".to_string());
    assert_eq!(message.message_type(), "http_response");
    assert_eq!(message.body_size(), 7);
}

#[test]
fn test_websocket_message_creation() {
    let message = WebSocketMessage::ping("ws-conn-1".to_string());
    assert_eq!(message.connection_id(), "ws-conn-1");
    assert_eq!(message.message_type(), "ping");
    assert!(matches!(message.frame_type(), FrameType::Ping));
    assert!(message.is_control_frame());
}

#[test]
fn test_websocket_auth_message() {
    let message = WebSocketMessage::auth_token(
        "ws-conn-1".to_string(),
        "test-token".to_string(),
        "Bearer".to_string(),
        vec!["read".to_string(), "write".to_string()],
    );

    assert_eq!(message.connection_id(), "ws-conn-1");
    assert!(matches!(message.frame_type(), FrameType::Text));
    assert!(!message.is_control_frame());
}

#[test]
fn test_compression_info() {
    let compression = CompressionInfo {
        algorithm: "deflate".to_string(),
        level: 6,
        original_size: 1000,
        compressed_size: 600,
    };

    let message = WebSocketMessage::ping("ws-conn-1".to_string()).with_compression(compression);

    assert!(message.envelope.compression.is_some());
}

#[test]
fn test_websocket_binary_form_flag() {
    let text = WebSocketMessage::text("c".to_string(), ProtocolMessage::ping());
    assert!(!text.has_binary_data());
    let binary = WebSocketMessage::binary("c".to_string(), ProtocolMessage::ping());
    assert!(binary.has_binary_data());
}
