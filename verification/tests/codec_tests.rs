//! Wire codec tests: frame construction, serialization round trips, and
//! the body encoding rule in all four shapes.

use pori::body::{decode_body, encode_body};
use pori::codec::ParseError;
use pori::frame::{
    HttpPayload, MessagePayload, MessagePriority, ProtocolMessage, TunnelMessage,
};
use pori::json::{json_to_bytes, JsonValue};

fn pairs(items: &[(&str, &str)]) -> Vec<(String, String)> {
    items.iter().map(|(k, v)| (k.to_string(), v.to_string())).collect()
}

#[test]
fn test_tunnel_message_creation() {
    let message = TunnelMessage::ping("tunnel-1".to_string(), "client-1".to_string());
    assert_eq!(message.envelope.tunnel_id, "tunnel-1");
    assert_eq!(message.envelope.client_id, "client-1");
    assert_eq!(message.message_type(), "ping");
}

#[test]
fn test_tunnel_http_request() {
    let headers = pairs(&[("content-type", "application/json")]);

    let message = TunnelMessage::http_request(
        "tunnel-1".to_string(),
        "client-1".to_string(),
        "GET".to_string(),
        "/api/test".to_string(),
        headers,
        None,
    );

    assert_eq!(message.message_type(), "http_request");
    assert!(!message.has_binary_data());
}

#[test]
fn test_tunnel_serialization() {
    let message = TunnelMessage::ping("tunnel-1".to_string(), "client-1".to_string());
    let json = message.to_json_bytes();
    let text = std::str::from_utf8(&json).expect("wire text is UTF-8");
    let deserialized = TunnelMessage::from_json(text).expect("round trip parses");

    assert_eq!(message.envelope.tunnel_id, deserialized.envelope.tunnel_id);
    assert_eq!(message.message_type(), deserialized.message_type());
}

#[test]
fn messages_test_http_request_message() {
    let headers = pairs(&[("content-type", "application/json")]);

    let message = ProtocolMessage::http_request(
        "GET".to_string(),
        "/api/test".to_string(),
        headers,
        Some(b"test body".to_vec()),
    );

    assert_eq!(message.metadata.message_type, "http_request");
    assert!(message.has_binary_data());
}

#[test]
fn messages_test_message_serialization() {
    let message = TunnelMessage::new(
        "tunnel-1".to_string(),
        "client-1".to_string(),
        ProtocolMessage::ping(),
    );
    let json = message.to_json_bytes();
    let text = std::str::from_utf8(&json).unwrap();
    let deserialized = TunnelMessage::from_json(text).unwrap();

    assert_eq!(
        message.message.metadata.message_type,
        deserialized.message.metadata.message_type
    );
}

#[test]
fn test_message_builder_pattern() {
    let message = ProtocolMessage::ping()
        .with_correlation_id("test-correlation".to_string())
        .with_priority(MessagePriority::High)
        .with_tag("test".to_string());

    assert_eq!(
        message.metadata.correlation_id,
        Some("test-correlation".to_string())
    );
    assert_eq!(message.metadata.priority, MessagePriority::High);
    assert_eq!(message.metadata.tags, vec!["test".to_string()]);
}

#[test]
fn test_json_body_deserialization() {
    let json_with_object_body = r#"{
        "envelope": {
            "tunnel_id": "tunnel_1752429342302",
            "client_id": "client_msg_9b0d807ecc58922f"
        },
        "message": {
            "metadata": {
                "id": "msg_9b0d807ecc58922f",
                "message_type": "http_request",
                "version": "0.1.45",
                "timestamp": 1752429342302,
                "priority": "normal",
                "delivery_mode": "at_least_once",
                "encoding": "json"
            },
            "payload": {
                "kind": "HTTP",
                "data": {
                    "kind": "Request",
                    "method": "POST",
                    "url": "/api/v1/M0X/stk/callback/test",
                    "headers": {
                        "content-type": "application/json"
                    },
                    "body": {
                        "Body": {
                            "stkCallback": {
                                "MerchantRequestID": "29115-34620561-1",
                                "CheckoutRequestID": "ws_CO_191220191020363925",
                                "ResultCode": 0
                            }
                        }
                    },
                    "requestId": "R0X88528F3E97F3"
                }
            }
        }
    }"#;

    let result = TunnelMessage::from_json(json_with_object_body);
    assert!(result.is_ok(), "tunnel message with a JSON body must parse");

    let tunnel_message = result.unwrap();
    if let MessagePayload::Http(HttpPayload::Request { body, .. }) =
        &tunnel_message.message.payload
    {
        assert!(body.is_some(), "body must be present");
        let body_bytes = body.as_ref().unwrap();
        let body_str = std::str::from_utf8(body_bytes).expect("body is UTF-8");
        assert!(
            body_str.contains("stkCallback"),
            "body must carry the original JSON content"
        );
    } else {
        panic!("expected an HTTP request payload");
    }
}

#[test]
fn test_object_body_becomes_exact_bytes() {
    // A JSON object body reaches the forwarder as the serialized text of
    // the object itself, byte for byte.
    let text = r#"{
        "envelope": {"tunnel_id": "t", "client_id": "c"},
        "message": {
            "metadata": {"id": "m1", "message_type": "http_request", "timestamp": 1},
            "payload": {
                "kind": "HTTP",
                "data": {
                    "kind": "Request",
                    "method": "POST",
                    "url": "/x",
                    "headers": {},
                    "body": {"a":1},
                    "requestId": "R2"
                }
            }
        }
    }"#;
    let m = TunnelMessage::from_json(text).unwrap();
    match &m.message.payload {
        MessagePayload::Http(HttpPayload::Request { body, request_id, .. }) => {
            assert_eq!(request_id, "R2");
            assert_eq!(body.as_ref().unwrap().as_slice(), b"{\"a\":1}");
            assert_eq!(body.as_ref().unwrap().len(), 7);
        },
        _ => panic!("expected a request"),
    }
}

#[test]
fn test_body_rule_accepts_all_four_shapes() {
    // Null means no body.
    assert_eq!(decode_body(&JsonValue::Null).unwrap(), None);

    // A string gives its content bytes.
    let s = JsonValue::Str(b"pong".to_vec());
    assert_eq!(decode_body(&s).unwrap().unwrap(), b"pong".to_vec());

    // An array of byte integers gives those bytes.
    let arr = JsonValue::Arr(vec![
        JsonValue::Num(b"104".to_vec()),
        JsonValue::Num(b"105".to_vec()),
    ]);
    assert_eq!(decode_body(&arr).unwrap().unwrap(), b"hi".to_vec());

    // Any other value gives the bytes of its serialized form.
    let obj = JsonValue::Obj(vec![(b"a".to_vec(), JsonValue::Num(b"1".to_vec()))]);
    assert_eq!(decode_body(&obj).unwrap().unwrap(), b"{\"a\":1}".to_vec());
}

#[test]
fn test_body_round_trip() {
    // decode(encode(body)) == body, absent or present.
    assert_eq!(decode_body(&encode_body(&None)).unwrap(), None);

    let bodies: Vec<Vec<u8>> = vec![
        b"".to_vec(),
        b"pong".to_vec(),
        b"{\"a\":1}".to_vec(),
        vec![0, 1, 2, 254, 255],
    ];
    for b in bodies {
        let encoded = encode_body(&Some(b.clone()));
        assert_eq!(decode_body(&encoded).unwrap(), Some(b));
    }
}

#[test]
fn test_body_rejects_bad_byte_values() {
    let too_big = JsonValue::Arr(vec![JsonValue::Num(b"256".to_vec())]);
    assert!(decode_body(&too_big).is_err());

    let not_a_number = JsonValue::Arr(vec![JsonValue::Str(b"x".to_vec())]);
    assert!(decode_body(&not_a_number).is_err());
}

#[test]
fn test_unknown_payload_kind_is_parse_error() {
    let text = r#"{
        "envelope": {"tunnel_id": "t", "client_id": "c"},
        "message": {
            "metadata": {"id": "m1", "message_type": "zzz", "timestamp": 1},
            "payload": {"kind": "Telemetry", "data": {}}
        }
    }"#;
    assert_eq!(TunnelMessage::from_json(text).err(), Some(ParseError));
}

#[test]
fn test_malformed_text_is_parse_error() {
    assert_eq!(TunnelMessage::from_json("not json at all").err(), Some(ParseError));
    assert_eq!(TunnelMessage::from_json("{\"envelope\":{}}").err(), Some(ParseError));
}

#[test]
fn test_metadata_defaults_applied_on_decode() {
    let text = r#"{
        "envelope": {"tunnel_id": "t", "client_id": "c"},
        "message": {
            "metadata": {"id": "m1", "message_type": "ping", "timestamp": 7},
            "payload": {"kind": "Control", "data": {"kind": "Ping", "timestamp": 7}}
        }
    }"#;
    let m = TunnelMessage::from_json(text).unwrap();
    let md = &m.message.metadata;
    assert_eq!(md.version, "1.0.0");
    assert_eq!(md.retry_count, 0);
    assert_eq!(md.max_retries, 3);
    assert_eq!(md.priority, pori::frame::MessagePriority::Normal);
    assert_eq!(md.delivery_mode, pori::frame::DeliveryMode::AtLeastOnce);
    assert_eq!(md.encoding, pori::frame::MessageEncoding::Json);
    assert_eq!(m.envelope.protocol_version.as_deref(), Some("1.0"));
}

#[test]
fn test_serializer_escapes_strings() {
    let v = JsonValue::Str(b"a\"b\\c\ntail".to_vec());
    let bytes = json_to_bytes(&v);
    assert_eq!(bytes, b"\"a\\\"b\\\\c\\u000atail\"".to_vec());
}

#[test]
fn test_frame_ids_are_uuid_length() {
    let m = ProtocolMessage::ping();
    assert_eq!(m.metadata.id.len(), 36);
}

#[test]
fn test_rich_response_round_trip() {
    let headers = pairs(&[("content-type", "text/plain"), ("etag", "\"abc\"")]);
    let message = TunnelMessage::http_response_with_id(
        "tunnel-1".to_string(),
        "client-1".to_string(),
        200,
        "OK".to_string(),
        headers,
        Some(b"pong".to_vec()),
        "R1".to_string(),
    );
    let bytes = message.to_json_bytes();
    let text = std::str::from_utf8(&bytes).unwrap();
    let decoded = TunnelMessage::from_json(text).unwrap();

    assert_eq!(decoded.envelope.tunnel_id, "tunnel-1");
    match &decoded.message.payload {
        MessagePayload::Http(HttpPayload::Response { status, status_text, headers, body, request_id }) => {
            assert_eq!(*status, 200);
            assert_eq!(status_text, "OK");
            assert_eq!(body.as_ref().unwrap().as_slice(), b"pong");
            assert_eq!(request_id, "R1");
            assert_eq!(headers.len(), 2);
            assert_eq!(headers[0].0, "content-type");
            assert_eq!(headers[1].1, "\"abc\"");
        },
        _ => panic!("expected a response frame"),
    }
}

#[test]
fn test_wire_text_is_valid_json() {
    // The emitted wire text must parse under an independent JSON parser,
    // with the envelope and the correlation id where the schema puts them.
    let message = TunnelMessage::http_response_with_id(
        "tunnel-1".to_string(),
        "client-1".to_string(),
        503,
        "Service Unavailable".to_string(),
        pairs(&[("content-type", "text/html; charset=utf-8")]),
        Some(b"<h1>Error 503</h1>".to_vec()),
        "R3".to_string(),
    );
    let bytes = message.to_json_bytes();
    let value: serde_json::Value = serde_json::from_slice(&bytes).expect("wire text is JSON");

    assert_eq!(value["envelope"]["tunnel_id"].as_str(), Some("tunnel-1"));
    assert_eq!(value["message"]["metadata"]["message_type"].as_str(), Some("http_response"));
    let data = &value["message"]["payload"]["data"];
    assert_eq!(data["kind"].as_str(), Some("Response"));
    assert_eq!(data["status"].as_u64(), Some(503));
    assert_eq!(data["requestId"].as_str(), Some("R3"));
    assert!(data["body"].is_array());
}
