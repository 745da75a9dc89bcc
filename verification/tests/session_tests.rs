//! Session dispatch, forwarder outcome, outbound queue and configuration
//! tests, including the end-to-end scenarios on the decision logic.

use pori::events::AppStats;
use pori::config::{CliArgs, ConfigError, ConfigFile};
use pori::forwarder::{
    extract_path_from_url, is_connection_error, prepare_origin_request, response_for_outcome,
    ForwardOutcome, LocalServerResponse, ProxyStats,
};
use pori::frame::{HttpPayload, MessagePayload, TunnelMessage};
use pori::headers::contains_header;
use pori::session::{
    apply_action, dispatch_frame, handle_incoming_text, DispatchAction, IncomingText,
    SessionState,
};
use pori::supervisor::OutboundQueue;

fn pairs(items: &[(&str, &str)]) -> Vec<(String, String)> {
    items.iter().map(|(k, v)| (k.to_string(), v.to_string())).collect()
}

fn request_frame(method: &str, url: &str, headers: Vec<(String, String)>, request_id: &str)
    -> TunnelMessage {
    TunnelMessage::http_request_with_id(
        "tunnel-1".to_string(),
        "client-1".to_string(),
        method.to_string(),
        url.to_string(),
        headers,
        None,
        request_id.to_string(),
    )
}

#[test]
fn test_url_path_extraction() {
    assert_eq!(extract_path_from_url("/api/test"), "/api/test");
    assert_eq!(extract_path_from_url("api/test"), "/api/test");
    assert_eq!(
        extract_path_from_url("https://example.com/api/test?param=value"),
        "/api/test?param=value"
    );
}

#[test]
fn test_ping_pong_handling() {
    let ping_message = TunnelMessage::ping("tunnel-1".to_string(), "client-1".to_string());
    let action = dispatch_frame(ping_message);
    assert!(matches!(action, DispatchAction::Ignore));

    let pong_message =
        TunnelMessage::pong("tunnel-1".to_string(), "client-1".to_string(), 123456);
    let action = dispatch_frame(pong_message);
    assert!(matches!(action, DispatchAction::Ignore));
}

#[test]
fn test_request_dispatches_to_forwarder() {
    let frame = request_frame("GET", "/ping", pairs(&[("accept", "*/*")]), "R1");
    match dispatch_frame(frame) {
        DispatchAction::ForwardRequest { method, url, cloud_request_id, .. } => {
            assert_eq!(method, "GET");
            assert_eq!(url, "/ping");
            assert_eq!(cloud_request_id, "R1");
        },
        _ => panic!("a request frame must dispatch to the forwarder"),
    }
}

#[test]
fn test_response_frame_is_dropped() {
    let frame = TunnelMessage::http_response_with_id(
        "t".to_string(),
        "c".to_string(),
        200,
        "OK".to_string(),
        pairs(&[]),
        None,
        "R9".to_string(),
    );
    assert!(matches!(dispatch_frame(frame), DispatchAction::Ignore));
}

#[test]
fn test_auth_outcomes_change_session() {
    let mut state = SessionState::new();
    assert!(!state.authenticated);

    let ok = DispatchAction::AuthSucceeded { session_id: "s1".to_string() };
    apply_action(&mut state, &ok);
    assert!(state.authenticated);

    let bad = DispatchAction::Fatal { message: "denied".to_string() };
    apply_action(&mut state, &bad);
    assert!(!state.connected);
}

#[test]
fn test_incoming_auth_notice() {
    match handle_incoming_text(b"{\"type\":\"auth\",\"status\":\"authenticated\"}") {
        IncomingText::AuthStatus(s) => assert_eq!(s, "authenticated"),
        _ => panic!("expected an auth notice"),
    }
    match handle_incoming_text(b"{\"type\":\"error\",\"message\":\"nope\"}") {
        IncomingText::ServerError(s) => assert_eq!(s, "nope"),
        _ => panic!("expected an error notice"),
    }
    assert!(matches!(handle_incoming_text(b"garbage"), IncomingText::Malformed));
    assert!(matches!(handle_incoming_text(b"{\"x\":1}"), IncomingText::OtherText));
}

#[test]
fn test_get_happy_path_response() {
    // A GET forwarded to the origin answers 200 OK with body "pong": one
    // outbound response frame under the same cloud request id, and the
    // counters record one processed, one successful, four bytes.
    let frame = request_frame("GET", "/ping", pairs(&[("accept", "*/*")]), "R1");
    let action = dispatch_frame(frame);
    let rid = match &action {
        DispatchAction::ForwardRequest { cloud_request_id, .. } => cloud_request_id.clone(),
        _ => panic!("expected a forward"),
    };
    let outcome = ForwardOutcome::Success(LocalServerResponse {
        status: 200,
        status_text: "OK".to_string(),
        headers: pairs(&[("content-type", "text/plain")]),
        body: Some(b"pong".to_vec()),
    });
    let response = response_for_outcome(
        "tunnel-1".to_string(),
        "client-1".to_string(),
        outcome,
        500,
        rid,
    );
    match &response.message.payload {
        MessagePayload::Http(HttpPayload::Response { status, status_text, body, request_id, .. }) => {
            assert_eq!(*status, 200);
            assert_eq!(status_text, "OK");
            assert_eq!(body.as_ref().unwrap().as_slice(), b"pong");
            assert_eq!(request_id, "R1");
        },
        _ => panic!("expected a response frame"),
    }

    let mut stats = AppStats::default();
    stats.record_processed();
    stats.record_success(4);
    assert_eq!(stats.requests_processed, 1);
    assert_eq!(stats.requests_successful, 1);
    assert_eq!(stats.bytes_forwarded, 4);
}

#[test]
fn test_post_no_content_response() {
    // The origin answers 204 No Content: an empty body under the right id.
    let outcome = ForwardOutcome::Success(LocalServerResponse {
        status: 204,
        status_text: "No Content".to_string(),
        headers: pairs(&[]),
        body: None,
    });
    let response = response_for_outcome(
        "t".to_string(),
        "c".to_string(),
        outcome,
        500,
        "R2".to_string(),
    );
    match &response.message.payload {
        MessagePayload::Http(HttpPayload::Response { status, body, request_id, .. }) => {
            assert_eq!(*status, 204);
            assert!(body.is_none());
            assert_eq!(request_id, "R2");
        },
        _ => panic!("expected a response frame"),
    }
}

#[test]
fn test_connection_refused_synthesizes_503() {
    // The origin refuses the TCP connection: a synthesized 503 page with
    // the request id echoed and an HTML content type, and one failure
    // counted.
    let msg = "connection refused";
    assert!(is_connection_error(msg));
    let response = response_for_outcome(
        "t".to_string(),
        "c".to_string(),
        ForwardOutcome::ConnectError(msg.to_string()),
        500,
        "R3".to_string(),
    );
    match &response.message.payload {
        MessagePayload::Http(HttpPayload::Response { status, status_text, headers, body, request_id }) => {
            assert_eq!(*status, 503);
            assert_eq!(status_text, "Service Unavailable");
            assert_eq!(request_id, "R3");
            assert!(contains_header(headers, "content-type"));
            assert_eq!(headers[0].1, "text/html; charset=utf-8");
            let html = String::from_utf8(body.clone().unwrap()).unwrap();
            assert!(html.contains("503"));
            assert!(html.contains("connection refused"));
        },
        _ => panic!("expected a response frame"),
    }
    let mut stats = AppStats::default();
    stats.record_failure();
    assert_eq!(stats.requests_failed, 1);
}

#[test]
fn test_timeout_synthesizes_504() {
    let response = response_for_outcome(
        "t".to_string(),
        "c".to_string(),
        ForwardOutcome::Timeout,
        500,
        "R4".to_string(),
    );
    match &response.message.payload {
        MessagePayload::Http(HttpPayload::Response { status, status_text, body, request_id, .. }) => {
            assert_eq!(*status, 504);
            assert_eq!(status_text, "Gateway Timeout");
            assert_eq!(request_id, "R4");
            let html = String::from_utf8(body.clone().unwrap()).unwrap();
            assert!(html.contains("504"));
            assert!(html.contains("500 ms"));
        },
        _ => panic!("expected a response frame"),
    }
}

#[test]
fn test_server_error_synthesizes_502() {
    let msg = "status 500 from client";
    assert!(!is_connection_error(msg));
    let response = response_for_outcome(
        "t".to_string(),
        "c".to_string(),
        ForwardOutcome::ServerError(msg.to_string()),
        500,
        "R5".to_string(),
    );
    match &response.message.payload {
        MessagePayload::Http(HttpPayload::Response { status, request_id, .. }) => {
            assert_eq!(*status, 502);
            assert_eq!(request_id, "R5");
        },
        _ => panic!("expected a response frame"),
    }
}

#[test]
fn test_prepared_request_carries_tracking_headers() {
    let (path, headers) = prepare_origin_request(
        "https://example.com/api/x?y=1",
        pairs(&[("host", "example.com"), ("accept", "*/*")]),
        "R7",
        "pori-proxy",
    );
    assert_eq!(path, "/api/x?y=1");
    assert!(!contains_header(&headers, "host"));
    assert!(contains_header(&headers, "accept"));
    assert!(contains_header(&headers, "x-request-id"));
    assert!(contains_header(&headers, "x-forwarded-by"));
}

#[test]
fn test_outbound_queue_drains_in_fifo_order() {
    // Frames A, B and C enqueued with no session live come out exactly in
    // that order when the session opens, before any new traffic.
    let mut queue = OutboundQueue::new();
    queue.enqueue(request_frame("GET", "/a", pairs(&[]), "A"));
    queue.enqueue(request_frame("GET", "/b", pairs(&[]), "B"));
    queue.enqueue(request_frame("GET", "/c", pairs(&[]), "C"));
    assert_eq!(queue.len(), 3);

    let drained = queue.drain();
    assert_eq!(queue.len(), 0);
    let ids: Vec<String> = drained
        .iter()
        .map(|m| match &m.message.payload {
            MessagePayload::Http(HttpPayload::Request { request_id, .. }) => request_id.clone(),
            _ => panic!("expected requests"),
        })
        .collect();
    assert_eq!(ids, vec!["A".to_string(), "B".to_string(), "C".to_string()]);
}

#[test]
fn test_cli_validation_errors() {
    let base = CliArgs {
        url: Some("ws://localhost:7616".to_string()),
        token: Some("test-token".to_string()),
        protocol: "http".to_string(),
        port: 3000,
        dashboard_port: 7616,
        log_level: "info".to_string(),
        config: None,
        yml: None,
        no_dashboard: false,
        timeout: 30,
        max_reconnects: 0,
        verify_ssl: false,
        max_connections: 10,
        http_version: "auto".to_string(),
    };
    assert!(base.validate().is_ok());

    let mut no_url = base;
    no_url.url = None;
    assert_eq!(no_url.validate(), Err(ConfigError::MissingUrl));

    no_url.url = Some("http://example.com".to_string());
    assert_eq!(no_url.validate(), Err(ConfigError::BadUrlScheme));

    no_url.url = Some("wss://example.com".to_string());
    no_url.protocol = "ftp".to_string();
    assert_eq!(no_url.validate(), Err(ConfigError::BadProtocol));

    no_url.protocol = "https".to_string();
    no_url.port = 0;
    assert_eq!(no_url.validate(), Err(ConfigError::ZeroPort));

    no_url.port = 3000;
    no_url.timeout = 0;
    assert_eq!(no_url.validate(), Err(ConfigError::ZeroTimeout));

    no_url.timeout = 30;
    no_url.http_version = "spdy".to_string();
    assert_eq!(no_url.validate(), Err(ConfigError::BadHttpVersion));

    no_url.http_version = "http2".to_string();
    no_url.log_level = "loud".to_string();
    assert_eq!(no_url.validate(), Err(ConfigError::BadLogLevel));
}

#[test]
fn test_settings_resolution_precedence() {
    let cli = CliArgs {
        url: Some("wss://cloud.example".to_string()),
        token: Some("tok".to_string()),
        protocol: "http".to_string(),
        port: 3000,
        dashboard_port: 7616,
        log_level: "info".to_string(),
        config: None,
        yml: None,
        no_dashboard: false,
        timeout: 30,
        max_reconnects: 5,
        verify_ssl: false,
        max_connections: 10,
        http_version: "auto".to_string(),
    };
    let file = ConfigFile { websocket: None, local_server: None, dashboard: None, logging: None };
    let settings = pori::config::resolve_settings(&cli, &file).unwrap();
    assert_eq!(settings.websocket.url, "wss://cloud.example");
    assert!(settings.websocket.requires_tls);
    assert_eq!(settings.websocket.max_reconnects, 5);
    assert_eq!(settings.local_server.url, "http://localhost:3000");
    assert_eq!(settings.dashboard.bind_address, "127.0.0.1");
}

#[test]
fn test_proxy_stats_average() {
    let mut stats = ProxyStats::default();
    stats.begin_request();
    stats.finish_request(true, 10, 4);
    stats.begin_request();
    stats.finish_request(false, 30, 0);
    assert_eq!(stats.requests_processed, 2);
    assert_eq!(stats.requests_successful, 1);
    assert_eq!(stats.requests_failed, 1);
    assert_eq!(stats.bytes_forwarded, 4);
    assert_eq!(stats.active_requests, 0);
    assert_eq!(stats.average_response_time_ms(), 20);
}

#[test]
fn test_stats_message_carries_counters() {
    let mut stats = AppStats::default();
    stats.record_processed();
    stats.record_success(4);
    let frame = pori::session::stats_message("t".to_string(), "c".to_string(), &stats);
    match &frame.message.payload {
        MessagePayload::Stats(pori::frame::StatsPayload::Traffic {
            requests_processed,
            requests_successful,
            bytes_transferred,
            ..
        }) => {
            assert_eq!(*requests_processed, 1);
            assert_eq!(*requests_successful, 1);
            assert_eq!(*bytes_transferred, 4);
        },
        _ => panic!("expected traffic statistics"),
    }
}

#[test]
fn test_auth_message_shape() {
    let frame = pori::session::auth_message("t".to_string(), "c".to_string(), "tok".to_string());
    match &frame.message.payload {
        MessagePayload::Auth(pori::frame::AuthPayload::TokenAuth { token, token_type, scopes }) => {
            assert_eq!(token, "tok");
            assert_eq!(token_type, "Bearer");
            assert_eq!(scopes, &vec!["tunnel".to_string()]);
        },
        _ => panic!("expected a token auth payload"),
    }
}
