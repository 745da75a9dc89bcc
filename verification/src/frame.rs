//! The tunnel frame data model: envelope, message metadata, and the
//! polymorphic payload, with constructors for the frames the client emits
//! and accessors used by dispatch.
//!
//! Header maps, query parameters and similar string maps are ordered lists
//! of `(name, value)` pairs.

use vstd::prelude::*;

use crate::json::JsonValue;

verus! {

/// Frame priority levels.
#[derive(Clone, Copy, Debug, PartialEq, Eq, Structural)]
pub enum MessagePriority {
    Low,
    Normal,
    High,
    Critical,
}

/// Delivery guarantee requested for a frame.
#[derive(Clone, Copy, Debug, PartialEq, Eq, Structural)]
pub enum DeliveryMode {
    AtMostOnce,
    AtLeastOnce,
    ExactlyOnce,
}

/// Wire encoding of a frame.
#[derive(Clone, Copy, Debug, PartialEq, Eq, Structural)]
pub enum MessageEncoding {
    Json,
    MessagePack,
    Protobuf,
    Cbor,
}

/// Connection lifecycle states carried in control frames.
#[derive(Clone, Copy, Debug, PartialEq, Eq, Structural)]
pub enum ConnectionStatus {
    Connecting,
    Connected,
    Authenticated,
    Disconnecting,
    Disconnected,
    Reconnecting,
    Failed,
}

/// Error classification carried in error frames.
#[derive(Clone, Copy, Debug, PartialEq, Eq, Structural)]
pub enum ErrorCategory {
    Authentication,
    Authorization,
    Network,
    Protocol,
    Validation,
    Internal,
    External,
    Timeout,
    RateLimit,
}

/// Stream control actions.
#[derive(Clone, Copy, Debug, PartialEq, Eq, Structural)]
pub enum StreamAction {
    Start,
    Pause,
    Resume,
    Stop,
    Reset,
}

/// Tunnel frame envelope: routing identifiers chosen by the client, with
/// optional fields the server may echo.
pub struct TunnelEnvelope {
    pub tunnel_id: String,
    pub client_id: String,
    pub server_id: Option<String>,
    pub protocol_version: Option<String>,
    pub compression: Option<String>,
    pub encryption: Option<String>,
}

/// Frame metadata: identity, routing and control information.
pub struct MessageMetadata {
    pub id: String,
    pub message_type: String,
    pub version: String,
    pub timestamp: u64,
    pub priority: MessagePriority,
    pub delivery_mode: DeliveryMode,
    pub encoding: MessageEncoding,
    pub source: Option<String>,
    pub destination: Option<String>,
    pub correlation_id: Option<String>,
    pub session_id: Option<String>,
    pub headers: Vec<(String, String)>,
    pub tags: Vec<String>,
    pub retry_count: u32,
    pub max_retries: u32,
    pub ttl: Option<u64>,
}

/// Authentication exchanges.
pub enum AuthPayload {
    TokenAuth { token: String, token_type: String, scopes: Vec<String> },
    Challenge { challenge: String, method: String },
    Response { response: String, proof_value: Option<String> },
    Success { session_id: String, expires_at: Option<u64>, permissions: Vec<String> },
    Failure { error_code: String, error_message: String, retry_after: Option<u64> },
}

/// HTTP traffic carried through the tunnel. `request_id` is the cloud-side
/// correlation token carried end to end.
pub enum HttpPayload {
    Request {
        method: String,
        url: String,
        headers: Vec<(String, String)>,
        body: Option<Vec<u8>>,
        query_params: Vec<(String, String)>,
        request_id: String,
    },
    Response {
        status: u16,
        status_text: String,
        headers: Vec<(String, String)>,
        body: Option<Vec<u8>>,
        request_id: String,
    },
    Upgrade { protocol: String, headers: Vec<(String, String)> },
    Close { reason: String },
}

/// Control and management frames.
pub enum ControlPayload {
    Authentication { status: String, message: String, timestamp: String },
    Error { error: String, code: String, timestamp: String },
    Ping { timestamp: u64, data: Option<Vec<u8>> },
    Pong { timestamp: u64, data: Option<Vec<u8>> },
    Status { status: ConnectionStatus, message: Option<String>, details: Vec<(String, String)> },
    Config { config_type: String, config_data: JsonValue },
    Command { command: String, arguments: Vec<String>, environment: Vec<(String, String)> },
    Shutdown { reason: String, grace_period_seconds: u64 },
}

/// Statistics frames. Average response time is in whole milliseconds.
pub enum StatsPayload {
    Connection {
        connected_clients: u64,
        total_connections: u64,
        failed_connections: u64,
        uptime_seconds: u64,
    },
    Traffic {
        requests_processed: u64,
        requests_successful: u64,
        requests_failed: u64,
        bytes_transferred: u64,
        average_response_time_ms: u64,
    },
    Custom {
        metric_name: String,
        metric_value: JsonValue,
        metric_type: String,
        labels: Vec<(String, String)>,
    },
}

/// Error frames.
pub struct ErrorPayload {
    pub code: String,
    pub message: String,
    pub details: Option<String>,
    pub trace: Option<String>,
    pub related_id: Option<String>,
    pub category: ErrorCategory,
    pub recovery_actions: Vec<String>,
}

/// Streaming data frames.
pub enum StreamPayload {
    Data { stream_id: String, sequence: u64, data: Vec<u8>, is_final: bool },
    Control { stream_id: String, action: StreamAction, metadata: Vec<(String, String)> },
}

/// Application-defined frames.
pub struct CustomPayload {
    pub message_type: String,
    pub data: JsonValue,
    pub schema_version: String,
}

/// The tagged payload of a frame.
pub enum MessagePayload {
    Auth(AuthPayload),
    Http(HttpPayload),
    Control(ControlPayload),
    Stats(StatsPayload),
    Error(ErrorPayload),
    Stream(StreamPayload),
    Custom(CustomPayload),
}

/// A protocol message: metadata plus payload.
pub struct ProtocolMessage {
    pub metadata: MessageMetadata,
    pub payload: MessagePayload,
}

/// A full tunnel frame: envelope plus protocol message.
pub struct TunnelMessage {
    pub envelope: TunnelEnvelope,
    pub message: ProtocolMessage,
}

/// The envelope protocol version assumed when a frame carries none.
pub fn default_protocol_version() -> (r: Option<String>)
    ensures
        r matches Some(s) && s@ == "1.0"@,
{
    Some("1.0".to_owned())
}

/// A fresh frame identifier.
///
/// Relies on uuid::Uuid::new_v4 and its Display form: a random version-4
/// UUID rendered in the 36-character hyphenated format.
#[verifier::external_body]
pub fn new_frame_id() -> (r: String)
    ensures
        r@.len() == 36,
{
    uuid::Uuid::new_v4().to_string()
}

/// Milliseconds since the Unix epoch.
///
/// Relies on std::time::SystemTime::now; nothing is promised of the value.
#[verifier::external_body]
pub fn now_millis() -> u64 {
    std::time::SystemTime::now()
        .duration_since(std::time::UNIX_EPOCH)
        .map(|d| d.as_millis() as u64)
        .unwrap_or(0)
}

impl MessageMetadata {
    /// Fresh metadata with the documented defaults: version 1.0.0, normal
    /// priority, at-least-once delivery, JSON encoding, three retries.
    pub fn new(message_type: String) -> (r: Self)
        ensures
            r.message_type == message_type,
            r.id@.len() == 36,
            r.version@ == "1.0.0"@,
            r.priority == MessagePriority::Normal,
            r.delivery_mode == DeliveryMode::AtLeastOnce,
            r.encoding == MessageEncoding::Json,
            r.source is None,
            r.destination is None,
            r.correlation_id is None,
            r.session_id is None,
            r.headers@.len() == 0,
            r.tags@.len() == 0,
            r.retry_count == 0,
            r.max_retries == 3,
            r.ttl is None,
    {
        MessageMetadata {
            id: new_frame_id(),
            message_type,
            version: "1.0.0".to_owned(),
            timestamp: now_millis(),
            priority: MessagePriority::Normal,
            delivery_mode: DeliveryMode::AtLeastOnce,
            encoding: MessageEncoding::Json,
            source: None,
            destination: None,
            correlation_id: None,
            session_id: None,
            headers: Vec::new(),
            tags: Vec::new(),
            retry_count: 0,
            max_retries: 3,
            ttl: None,
        }
    }
}

/// Whether fresh metadata carries the documented defaults for the given
/// message type.
pub open spec fn spec_default_metadata(m: MessageMetadata, message_type: Seq<char>) -> bool {
    &&& m.message_type@ == message_type
    &&& m.id@.len() == 36
    &&& m.version@ == "1.0.0"@
    &&& m.priority == MessagePriority::Normal
    &&& m.delivery_mode == DeliveryMode::AtLeastOnce
    &&& m.encoding == MessageEncoding::Json
    &&& m.source is None
    &&& m.destination is None
    &&& m.correlation_id is None
    &&& m.session_id is None
    &&& m.headers@.len() == 0
    &&& m.tags@.len() == 0
    &&& m.retry_count == 0
    &&& m.max_retries == 3
    &&& m.ttl is None
}

impl ProtocolMessage {
    /// A message with fresh default metadata.
    pub fn new(message_type: String, payload: MessagePayload) -> (r: Self)
        ensures
            spec_default_metadata(r.metadata, message_type@),
            r.payload == payload,
    {
        let metadata = MessageMetadata::new(message_type);
        ProtocolMessage { metadata, payload }
    }

    /// An HTTP request message under a given cloud request id.
    pub fn http_request_with_id(
        method: String,
        url: String,
        headers: Vec<(String, String)>,
        body: Option<Vec<u8>>,
        request_id: String,
    ) -> (r: Self)
        ensures
            spec_default_metadata(r.metadata, "http_request"@),
            r.payload matches MessagePayload::Http(HttpPayload::Request {
                method: m,
                url: u,
                headers: h,
                body: b,
                query_params: q,
                request_id: rid,
            }) && m == method && u == url && h == headers && b == body && rid == request_id
                && crate::headers::headers_view(q@) == crate::forwarder::spec_url_query_pairs_or_empty(url@),
    {
        let query_params = crate::forwarder::query_params_of_url(url.as_str());
        Self::new(
            "http_request".to_owned(),
            MessagePayload::Http(HttpPayload::Request {
                method,
                url,
                headers,
                body,
                query_params,
                request_id,
            }),
        )
    }

    /// An HTTP request message with a fresh request id.
    pub fn http_request(
        method: String,
        url: String,
        headers: Vec<(String, String)>,
        body: Option<Vec<u8>>,
    ) -> (r: Self)
        ensures
            spec_default_metadata(r.metadata, "http_request"@),
            r.payload matches MessagePayload::Http(HttpPayload::Request {
                method: m,
                url: u,
                headers: h,
                body: b,
                query_params: q,
                request_id: rid,
            }) && m == method && u == url && h == headers && b == body && rid@.len() == 36
                && crate::headers::headers_view(q@) == crate::forwarder::spec_url_query_pairs_or_empty(url@),
    {
        let request_id = new_frame_id();
        Self::http_request_with_id(method, url, headers, body, request_id)
    }

    /// An HTTP response message carrying the originating request's id.
    pub fn http_response_with_id(
        status: u16,
        status_text: String,
        headers: Vec<(String, String)>,
        body: Option<Vec<u8>>,
        request_id: String,
    ) -> (r: Self)
        ensures
            spec_default_metadata(r.metadata, "http_response"@),
            r.payload matches MessagePayload::Http(HttpPayload::Response {
                status: s,
                status_text: st,
                headers: h,
                body: b,
                request_id: rid,
            }) && s == status && st == status_text && h == headers && b == body && rid
                == request_id,
    {
        Self::new(
            "http_response".to_owned(),
            MessagePayload::Http(HttpPayload::Response {
                status,
                status_text,
                headers,
                body,
                request_id,
            }),
        )
    }

    /// An HTTP response message with a fresh request id.
    pub fn http_response(
        status: u16,
        status_text: String,
        headers: Vec<(String, String)>,
        body: Option<Vec<u8>>,
    ) -> (r: Self)
        ensures
            spec_default_metadata(r.metadata, "http_response"@),
            r.payload matches MessagePayload::Http(HttpPayload::Response {
                status: s,
                status_text: st,
                headers: h,
                body: b,
                request_id: rid,
            }) && s == status && st == status_text && h == headers && b == body && rid@.len()
                == 36,
    {
        let request_id = new_frame_id();
        Self::http_response_with_id(status, status_text, headers, body, request_id)
    }

    /// A token authentication message.
    pub fn auth_token(token: String, token_type: String, scopes: Vec<String>) -> (r: Self)
        ensures
            spec_default_metadata(r.metadata, "auth_token"@),
            r.payload matches MessagePayload::Auth(AuthPayload::TokenAuth {
                token: t,
                token_type: tt,
                scopes: s,
            }) && t == token && tt == token_type && s == scopes,
    {
        Self::new(
            "auth_token".to_owned(),
            MessagePayload::Auth(AuthPayload::TokenAuth { token, token_type, scopes }),
        )
    }

    /// An error message.
    pub fn error(
        code: String,
        message: String,
        category: ErrorCategory,
        related_id: Option<String>,
    ) -> (r: Self)
        ensures
            spec_default_metadata(r.metadata, "error"@),
            r.payload matches MessagePayload::Error(e) && e.code == code && e.message == message
                && e.category == category && e.related_id == related_id && e.details is None
                && e.trace is None && e.recovery_actions@.len() == 0,
    {
        Self::new(
            "error".to_owned(),
            MessagePayload::Error(ErrorPayload {
                code,
                message,
                details: None,
                trace: None,
                related_id,
                category,
                recovery_actions: Vec::new(),
            }),
        )
    }

    /// A ping control message stamped with the current time.
    pub fn ping() -> (r: Self)
        ensures
            spec_default_metadata(r.metadata, "ping"@),
            r.payload matches MessagePayload::Control(ControlPayload::Ping { data, .. }) && data
                is None,
    {
        let ts = now_millis();
        Self::new(
            "ping".to_owned(),
            MessagePayload::Control(ControlPayload::Ping { timestamp: ts, data: None }),
        )
    }

    /// A pong control message answering a ping's timestamp.
    pub fn pong(timestamp: u64) -> (r: Self)
        ensures
            spec_default_metadata(r.metadata, "pong"@),
            r.payload matches MessagePayload::Control(ControlPayload::Pong {
                timestamp: ts,
                data,
            }) && ts == timestamp && data is None,
    {
        Self::new(
            "pong".to_owned(),
            MessagePayload::Control(ControlPayload::Pong { timestamp, data: None }),
        )
    }

    /// Whether this message's payload carries a byte body.
    pub fn has_binary_data(&self) -> (r: bool)
        ensures
            r == spec_has_binary_data(self.payload),
    {
        match &self.payload {
            MessagePayload::Http(HttpPayload::Request { body, .. }) => body.is_some(),
            MessagePayload::Http(HttpPayload::Response { body, .. }) => body.is_some(),
            MessagePayload::Stream(StreamPayload::Data { .. }) => true,
            _ => false,
        }
    }

    /// Builder step: sets the correlation id.
    pub fn with_correlation_id(self, correlation_id: String) -> (r: Self)
        ensures
            r.metadata.correlation_id matches Some(c) && c == correlation_id,
            r.metadata == (MessageMetadata {
                correlation_id: r.metadata.correlation_id,
                ..self.metadata
            }),
            r.payload == self.payload,
    {
        let mut m = self;
        m.metadata.correlation_id = Some(correlation_id);
        m
    }

    /// Builder step: sets the session id.
    pub fn with_session_id(self, session_id: String) -> (r: Self)
        ensures
            r.metadata.session_id matches Some(s) && s == session_id,
            r.metadata == (MessageMetadata { session_id: r.metadata.session_id, ..self.metadata }),
            r.payload == self.payload,
    {
        let mut m = self;
        m.metadata.session_id = Some(session_id);
        m
    }

    /// Builder step: sets the priority.
    pub fn with_priority(self, priority: MessagePriority) -> (r: Self)
        ensures
            r.metadata == (MessageMetadata { priority, ..self.metadata }),
            r.payload == self.payload,
    {
        let mut m = self;
        m.metadata.priority = priority;
        m
    }

    /// Builder step: adds a metadata header.
    pub fn with_header(self, key: String, value: String) -> (r: Self)
        ensures
            r.metadata.headers@ == self.metadata.headers@.push((key, value)),
            r.metadata == (MessageMetadata { headers: r.metadata.headers, ..self.metadata }),
            r.payload == self.payload,
    {
        let mut m = self;
        m.metadata.headers.push((key, value));
        m
    }

    /// Builder step: adds a routing tag.
    pub fn with_tag(self, tag: String) -> (r: Self)
        ensures
            r.metadata.tags@ == self.metadata.tags@.push(tag),
            r.metadata == (MessageMetadata { tags: r.metadata.tags, ..self.metadata }),
            r.payload == self.payload,
    {
        let mut m = self;
        m.metadata.tags.push(tag);
        m
    }
}

/// Whether a payload carries a byte body.
pub open spec fn spec_has_binary_data(p: MessagePayload) -> bool {
    match p {
        MessagePayload::Http(HttpPayload::Request { body, .. }) => body is Some,
        MessagePayload::Http(HttpPayload::Response { body, .. }) => body is Some,
        MessagePayload::Stream(StreamPayload::Data { .. }) => true,
        _ => false,
    }
}

/// The request id a payload carries, if any.
pub open spec fn spec_payload_request_id(p: MessagePayload) -> Option<Seq<char>> {
    match p {
        MessagePayload::Http(HttpPayload::Request { request_id, .. }) => Some(request_id@),
        MessagePayload::Http(HttpPayload::Response { request_id, .. }) => Some(request_id@),
        _ => None,
    }
}

/// The byte length of a payload's body, zero when absent.
pub open spec fn spec_body_size(p: MessagePayload) -> nat {
    match p {
        MessagePayload::Http(HttpPayload::Request { body: Some(b), .. }) => b@.len(),
        MessagePayload::Http(HttpPayload::Response { body: Some(b), .. }) => b@.len(),
        _ => 0,
    }
}

impl TunnelMessage {
    /// Wraps a protocol message in a tunnel envelope.
    pub fn new(tunnel_id: String, client_id: String, message: ProtocolMessage) -> (r: Self)
        ensures
            r.envelope.tunnel_id == tunnel_id,
            r.envelope.client_id == client_id,
            r.envelope.server_id is None,
            r.envelope.protocol_version matches Some(v) && v@ == "1.0.0"@,
            r.envelope.compression is None,
            r.envelope.encryption is None,
            r.message == message,
    {
        TunnelMessage {
            envelope: TunnelEnvelope {
                tunnel_id,
                client_id,
                server_id: None,
                protocol_version: Some("1.0.0".to_owned()),
                compression: None,
                encryption: None,
            },
            message,
        }
    }

    /// An HTTP request frame under a given cloud request id.
    pub fn http_request_with_id(
        tunnel_id: String,
        client_id: String,
        method: String,
        url: String,
        headers: Vec<(String, String)>,
        body: Option<Vec<u8>>,
        request_id: String,
    ) -> (r: Self)
        ensures
            r.envelope.tunnel_id == tunnel_id,
            r.envelope.client_id == client_id,
            spec_default_metadata(r.message.metadata, "http_request"@),
            r.message.payload matches MessagePayload::Http(HttpPayload::Request {
                method: m,
                url: u,
                headers: h,
                body: b,
                request_id: rid,
                ..
            }) && m == method && u == url && h == headers && b == body && rid == request_id,
    {
        let message = ProtocolMessage::http_request_with_id(method, url, headers, body, request_id);
        Self::new(tunnel_id, client_id, message)
    }

    /// An HTTP request frame with a fresh request id.
    pub fn http_request(
        tunnel_id: String,
        client_id: String,
        method: String,
        url: String,
        headers: Vec<(String, String)>,
        body: Option<Vec<u8>>,
    ) -> (r: Self)
        ensures
            r.envelope.tunnel_id == tunnel_id,
            r.envelope.client_id == client_id,
            spec_default_metadata(r.message.metadata, "http_request"@),
            r.message.payload matches MessagePayload::Http(HttpPayload::Request {
                method: m,
                url: u,
                headers: h,
                body: b,
                ..
            }) && m == method && u == url && h == headers && b == body,
    {
        let message = ProtocolMessage::http_request(method, url, headers, body);
        Self::new(tunnel_id, client_id, message)
    }

    /// An HTTP response frame carrying the originating request's id.
    pub fn http_response_with_id(
        tunnel_id: String,
        client_id: String,
        status: u16,
        status_text: String,
        headers: Vec<(String, String)>,
        body: Option<Vec<u8>>,
        request_id: String,
    ) -> (r: Self)
        ensures
            r.envelope.tunnel_id == tunnel_id,
            r.envelope.client_id == client_id,
            spec_default_metadata(r.message.metadata, "http_response"@),
            r.message.payload matches MessagePayload::Http(HttpPayload::Response {
                status: s,
                status_text: st,
                headers: h,
                body: b,
                request_id: rid,
            }) && s == status && st == status_text && h == headers && b == body && rid
                == request_id,
    {
        let message = ProtocolMessage::http_response_with_id(
            status,
            status_text,
            headers,
            body,
            request_id,
        );
        Self::new(tunnel_id, client_id, message)
    }

    /// An HTTP response frame with a fresh request id.
    pub fn http_response(
        tunnel_id: String,
        client_id: String,
        status: u16,
        status_text: String,
        headers: Vec<(String, String)>,
        body: Option<Vec<u8>>,
    ) -> (r: Self)
        ensures
            r.envelope.tunnel_id == tunnel_id,
            r.envelope.client_id == client_id,
            spec_default_metadata(r.message.metadata, "http_response"@),
            r.message.payload matches MessagePayload::Http(HttpPayload::Response {
                status: s,
                status_text: st,
                headers: h,
                body: b,
                ..
            }) && s == status && st == status_text && h == headers && b == body,
    {
        let message = ProtocolMessage::http_response(status, status_text, headers, body);
        Self::new(tunnel_id, client_id, message)
    }

    /// A token authentication frame.
    pub fn auth_token(
        tunnel_id: String,
        client_id: String,
        token: String,
        token_type: String,
        scopes: Vec<String>,
    ) -> (r: Self)
        ensures
            r.envelope.tunnel_id == tunnel_id,
            r.envelope.client_id == client_id,
            spec_default_metadata(r.message.metadata, "auth_token"@),
            r.message.payload matches MessagePayload::Auth(AuthPayload::TokenAuth {
                token: t,
                token_type: tt,
                scopes: s,
            }) && t == token && tt == token_type && s == scopes,
    {
        let message = ProtocolMessage::auth_token(token, token_type, scopes);
        Self::new(tunnel_id, client_id, message)
    }

    /// A ping frame.
    pub fn ping(tunnel_id: String, client_id: String) -> (r: Self)
        ensures
            r.envelope.tunnel_id == tunnel_id,
            r.envelope.client_id == client_id,
            spec_default_metadata(r.message.metadata, "ping"@),
            r.message.payload matches MessagePayload::Control(ControlPayload::Ping { .. }),
    {
        let message = ProtocolMessage::ping();
        Self::new(tunnel_id, client_id, message)
    }

    /// A pong frame answering a ping's timestamp.
    pub fn pong(tunnel_id: String, client_id: String, timestamp: u64) -> (r: Self)
        ensures
            r.envelope.tunnel_id == tunnel_id,
            r.envelope.client_id == client_id,
            spec_default_metadata(r.message.metadata, "pong"@),
            r.message.payload matches MessagePayload::Control(ControlPayload::Pong {
                timestamp: ts,
                ..
            }) && ts == timestamp,
    {
        let message = ProtocolMessage::pong(timestamp);
        Self::new(tunnel_id, client_id, message)
    }

    /// An error frame.
    pub fn error(
        tunnel_id: String,
        client_id: String,
        code: String,
        message: String,
        category: ErrorCategory,
        related_id: Option<String>,
    ) -> (r: Self)
        ensures
            r.envelope.tunnel_id == tunnel_id,
            r.envelope.client_id == client_id,
            spec_default_metadata(r.message.metadata, "error"@),
            r.message.payload matches MessagePayload::Error(e) && e.code == code && e.message
                == message && e.category == category && e.related_id == related_id,
    {
        let message = ProtocolMessage::error(code, message, category, related_id);
        Self::new(tunnel_id, client_id, message)
    }

    /// The frame's message type tag.
    pub fn message_type(&self) -> (r: &str)
        ensures
            r@ == self.message.metadata.message_type@,
    {
        self.message.metadata.message_type.as_str()
    }

    /// The frame's own metadata identifier.
    pub fn request_id(&self) -> (r: &str)
        ensures
            r@ == self.message.metadata.id@,
    {
        self.message.metadata.id.as_str()
    }

    /// Whether the frame carries a byte body and should take the binary
    /// wire form.
    pub fn has_binary_data(&self) -> (r: bool)
        ensures
            r == spec_has_binary_data(self.message.payload),
    {
        self.message.has_binary_data()
    }

    /// The byte length of the frame's body, zero when absent.
    pub fn body_size(&self) -> (r: usize)
        ensures
            r == spec_body_size(self.message.payload),
    {
        match &self.message.payload {
            MessagePayload::Http(HttpPayload::Request { body, .. }) => match body {
                Some(b) => b.len(),
                None => 0,
            },
            MessagePayload::Http(HttpPayload::Response { body, .. }) => match body {
                Some(b) => b.len(),
                None => 0,
            },
            _ => 0,
        }
    }

    /// Whether this is a control-plane frame rather than HTTP traffic.
    pub fn is_control_message(&self) -> (r: bool)
        ensures
            r == (self.message.payload is Auth || self.message.payload is Control
                || self.message.payload is Stats),
    {
        match &self.message.payload {
            MessagePayload::Auth(_) => true,
            MessagePayload::Control(_) => true,
            MessagePayload::Stats(_) => true,
            _ => false,
        }
    }

    /// The cloud request id carried by an HTTP payload, if any.
    pub fn get_request_id(&self) -> (r: Option<String>)
        ensures
            ({
                match spec_payload_request_id(self.message.payload) {
                    Some(rid) => r matches Some(s) && s@ == rid,
                    None => r is None,
                }
            }),
    {
        match &self.message.payload {
            MessagePayload::Http(HttpPayload::Request { request_id, .. }) => Some(
                request_id.clone(),
            ),
            MessagePayload::Http(HttpPayload::Response { request_id, .. }) => Some(
                request_id.clone(),
            ),
            _ => None,
        }
    }
}

} // verus!
