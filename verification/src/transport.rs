//! Transport-level wrappers around protocol messages: the HTTP envelope
//! used on the local forwarding path and the WebSocket envelope used on
//! the tunnel path, with their constructors and accessors.

use vstd::prelude::*;

use crate::frame::{
    ControlPayload, HttpPayload, MessagePayload, ProtocolMessage, spec_body_size,
    spec_default_metadata, spec_has_binary_data,
};
use crate::status::{get_status_text, spec_status_text};
use crate::wire_config::{CompressionInfo, FrameType, HttpEnvelope, ProxyInfo, RequestTiming,
    WebSocketEnvelope};

verus! {

/// A protocol message on the local HTTP path, with its transport
/// envelope.
pub struct HttpMessage {
    pub envelope: HttpEnvelope,
    pub message: ProtocolMessage,
}

impl HttpMessage {
    /// Wraps a message under a connection id with the default transport
    /// envelope: HTTP/1.1, keep-alive, stamped with the current time.
    pub fn new(connection_id: String, message: ProtocolMessage) -> (r: Self)
        ensures
            r.envelope.connection_id == connection_id,
            r.envelope.http_version@ == "1.1"@,
            r.envelope.keep_alive,
            r.envelope.proxy_info.proxy_id@ == "pori-proxy"@,
            r.message == message,
    {
        let ts = crate::frame::now_millis();
        HttpMessage {
            envelope: HttpEnvelope {
                connection_id,
                http_version: "1.1".to_owned(),
                keep_alive: true,
                proxy_info: ProxyInfo {
                    proxy_id: "pori-proxy".to_owned(),
                    client_ip: "unknown".to_owned(),
                    user_agent: None,
                    forwarded_for: Vec::new(),
                    via: Vec::new(),
                },
                timing: RequestTiming {
                    start_time: ts,
                    dns_time: None,
                    connect_time: None,
                    tls_time: None,
                    ttfb: None,
                    total_time: None,
                },
            },
            message,
        }
    }

    /// An HTTP request message under a connection id.
    pub fn http_request(
        connection_id: String,
        method: String,
        url: String,
        headers: Vec<(String, String)>,
        body: Option<Vec<u8>>,
    ) -> (r: Self)
        ensures
            r.envelope.connection_id == connection_id,
            spec_default_metadata(r.message.metadata, "http_request"@),
            r.message.payload matches MessagePayload::Http(HttpPayload::Request {
                method: m,
                url: u,
                headers: h,
                body: b,
                ..
            }) && m == method && u == url && h == headers && b == body,
    {
        let message = ProtocolMessage::http_request(method, url, headers, body);
        Self::new(connection_id, message)
    }

    /// An HTTP request message under a given cloud request id.
    pub fn http_request_with_id(
        connection_id: String,
        method: String,
        url: String,
        headers: Vec<(String, String)>,
        body: Option<Vec<u8>>,
        request_id: String,
    ) -> (r: Self)
        ensures
            r.envelope.connection_id == connection_id,
            spec_default_metadata(r.message.metadata, "http_request"@),
            r.message.payload matches MessagePayload::Http(HttpPayload::Request {
                method: m,
                url: u,
                headers: h,
                body: b,
                request_id: rid,
                ..
            }) && m == method && u == url && h == headers && b == body && rid == request_id,
    {
        let message = ProtocolMessage::http_request_with_id(method, url, headers, body, request_id);
        Self::new(connection_id, message)
    }

    /// An HTTP response message under a connection id.
    pub fn http_response(
        connection_id: String,
        status: u16,
        status_text: String,
        headers: Vec<(String, String)>,
        body: Option<Vec<u8>>,
    ) -> (r: Self)
        ensures
            r.envelope.connection_id == connection_id,
            spec_default_metadata(r.message.metadata, "http_response"@),
            r.message.payload matches MessagePayload::Http(HttpPayload::Response {
                status: s,
                status_text: st,
                headers: h,
                body: b,
                ..
            }) && s == status && st == status_text && h == headers && b == body,
    {
        let message = ProtocolMessage::http_response(status, status_text, headers, body);
        Self::new(connection_id, message)
    }

    /// A plain-text error response message for a status code, carrying
    /// its canonical reason phrase.
    pub fn http_error(connection_id: String, status: u16, error_message: String) -> (r: Self)
        ensures
            r.envelope.connection_id == connection_id,
            spec_default_metadata(r.message.metadata, "http_response"@),
            r.message.payload matches MessagePayload::Http(HttpPayload::Response {
                status: s,
                status_text: st,
                body: b,
                ..
            }) && s == status && st@ == spec_status_text(status) && (b matches Some(bytes)
                && bytes@ == vstd::utf8::encode_utf8(error_message@)),
    {
        let mut headers: Vec<(String, String)> = Vec::new();
        headers.push(("content-type".to_owned(), "text/plain".to_owned()));
        let body = error_message.as_str().as_bytes_vec();
        let message = ProtocolMessage::http_response(
            status,
            get_status_text(status),
            headers,
            Some(body),
        );
        Self::new(connection_id, message)
    }

    /// The message type tag.
    pub fn message_type(&self) -> (r: &str)
        ensures
            r@ == self.message.metadata.message_type@,
    {
        self.message.metadata.message_type.as_str()
    }

    /// The message's own metadata identifier.
    pub fn request_id(&self) -> (r: &str)
        ensures
            r@ == self.message.metadata.id@,
    {
        self.message.metadata.id.as_str()
    }

    /// Whether the message carries a byte body.
    pub fn has_binary_data(&self) -> (r: bool)
        ensures
            r == spec_has_binary_data(self.message.payload),
    {
        self.message.has_binary_data()
    }

    /// The byte length of the body, zero when absent.
    pub fn body_size(&self) -> (r: usize)
        ensures
            r == spec_body_size(self.message.payload),
    {
        match &self.message.payload {
            MessagePayload::Http(HttpPayload::Request { body, .. }) => match body {
                Some(b) => b.len(),
                None => 0,
            },
            MessagePayload::Http(HttpPayload::Response { body, .. }) => match body {
                Some(b) => b.len(),
                None => 0,
            },
            _ => 0,
        }
    }

    /// The method, URL and headers of a request payload, if this is one.
    pub fn extract_request_info(&self) -> (r: Option<(String, String, Vec<(String, String)>)>)
        ensures
            ({
                match self.message.payload {
                    MessagePayload::Http(HttpPayload::Request { method, url, headers, .. }) => r
                        matches Some(info) && info.0 == method && info.1 == url && info.2@
                        == headers@,
                    _ => r is None,
                }
            }),
    {
        match &self.message.payload {
            MessagePayload::Http(HttpPayload::Request { method, url, headers, .. }) => {
                let mut hs: Vec<(String, String)> = Vec::new();
                let mut i: usize = 0;
                while i < headers.len()
                    invariant
                        i <= headers@.len(),
                        hs@ == headers@.take(i as int),
                    decreases headers@.len() - i,
                {
                    let pair = (headers[i].0.clone(), headers[i].1.clone());
                    hs.push(pair);
                    proof {
                        assert(hs@ =~= headers@.take(i + 1));
                    }
                    i = i + 1;
                }
                proof {
                    assert(headers@.take(headers@.len() as int) =~= headers@);
                }
                Some((method.clone(), url.clone(), hs))
            },
            _ => None,
        }
    }

    /// As `extract_request_info`, with the cloud request id as well.
    pub fn extract_request_info_with_id(&self) -> (r: Option<
        (String, String, Vec<(String, String)>, String),
    >)
        ensures
            ({
                match self.message.payload {
                    MessagePayload::Http(HttpPayload::Request {
                        method,
                        url,
                        headers,
                        request_id,
                        ..
                    }) => r matches Some(info) && info.0 == method && info.1 == url && info.2@
                        == headers@ && info.3 == request_id,
                    _ => r is None,
                }
            }),
    {
        match self.extract_request_info() {
            Some((method, url, headers)) => {
                match &self.message.payload {
                    MessagePayload::Http(HttpPayload::Request { request_id, .. }) => Some(
                        (method, url, headers, request_id.clone()),
                    ),
                    _ => None,
                }
            },
            None => None,
        }
    }
}

/// A protocol message on the tunnel path, with its WebSocket envelope.
pub struct WebSocketMessage {
    pub envelope: WebSocketEnvelope,
    pub message: ProtocolMessage,
}

impl WebSocketMessage {
    /// Wraps a message under a connection id and frame type.
    pub fn new(connection_id: String, frame_type: FrameType, message: ProtocolMessage) -> (r: Self)
        ensures
            r.envelope.connection_id == connection_id,
            r.envelope.ws_version@ == "13"@,
            r.envelope.frame_type == frame_type,
            r.envelope.compression is None,
            r.envelope.extensions@.len() == 0,
            r.message == message,
    {
        WebSocketMessage {
            envelope: WebSocketEnvelope {
                connection_id,
                ws_version: "13".to_owned(),
                frame_type,
                compression: None,
                extensions: Vec::new(),
            },
            message,
        }
    }

    /// A text-frame message.
    pub fn text(connection_id: String, message: ProtocolMessage) -> (r: Self)
        ensures
            r.envelope.connection_id == connection_id,
            r.envelope.frame_type == FrameType::Text,
            r.message == message,
    {
        Self::new(connection_id, FrameType::Text, message)
    }

    /// A binary-frame message.
    pub fn binary(connection_id: String, message: ProtocolMessage) -> (r: Self)
        ensures
            r.envelope.connection_id == connection_id,
            r.envelope.frame_type == FrameType::Binary,
            r.message == message,
    {
        Self::new(connection_id, FrameType::Binary, message)
    }

    /// A ping control message on a ping frame.
    pub fn ping(connection_id: String) -> (r: Self)
        ensures
            r.envelope.connection_id == connection_id,
            r.envelope.frame_type == FrameType::Ping,
            spec_default_metadata(r.message.metadata, "ping"@),
            r.message.payload matches MessagePayload::Control(ControlPayload::Ping { .. }),
    {
        let message = ProtocolMessage::ping();
        Self::new(connection_id, FrameType::Ping, message)
    }

    /// A pong control message on a pong frame.
    pub fn pong(connection_id: String, timestamp: u64) -> (r: Self)
        ensures
            r.envelope.connection_id == connection_id,
            r.envelope.frame_type == FrameType::Pong,
            r.message.payload matches MessagePayload::Control(ControlPayload::Pong {
                timestamp: ts,
                ..
            }) && ts == timestamp,
    {
        let message = ProtocolMessage::pong(timestamp);
        Self::new(connection_id, FrameType::Pong, message)
    }

    /// A token authentication message on a text frame.
    pub fn auth_token(
        connection_id: String,
        token: String,
        token_type: String,
        scopes: Vec<String>,
    ) -> (r: Self)
        ensures
            r.envelope.connection_id == connection_id,
            r.envelope.frame_type == FrameType::Text,
            r.message.payload matches MessagePayload::Auth(
                crate::frame::AuthPayload::TokenAuth { token: t, token_type: tt, scopes: s },
            ) && t == token && tt == token_type && s == scopes,
    {
        let message = ProtocolMessage::auth_token(token, token_type, scopes);
        Self::text(connection_id, message)
    }

    /// The message type tag.
    pub fn message_type(&self) -> (r: &str)
        ensures
            r@ == self.message.metadata.message_type@,
    {
        self.message.metadata.message_type.as_str()
    }

    /// The connection id.
    pub fn connection_id(&self) -> (r: &str)
        ensures
            r@ == self.envelope.connection_id@,
    {
        self.envelope.connection_id.as_str()
    }

    /// The frame type.
    pub fn frame_type(&self) -> (r: &FrameType)
        ensures
            r == self.envelope.frame_type,
    {
        &self.envelope.frame_type
    }

    /// Whether the message takes the binary wire form: a binary frame, or
    /// a payload carrying a byte body.
    pub fn has_binary_data(&self) -> (r: bool)
        ensures
            r == (self.envelope.frame_type is Binary || spec_has_binary_data(
                self.message.payload,
            )),
    {
        match self.envelope.frame_type {
            FrameType::Binary => true,
            _ => self.message.has_binary_data(),
        }
    }

    /// Whether this rides a control frame.
    pub fn is_control_frame(&self) -> (r: bool)
        ensures
            r == (self.envelope.frame_type is Close || self.envelope.frame_type is Ping
                || self.envelope.frame_type is Pong),
    {
        match self.envelope.frame_type {
            FrameType::Close => true,
            FrameType::Ping => true,
            FrameType::Pong => true,
            _ => false,
        }
    }

    /// Builder step: records compression details on the envelope.
    pub fn with_compression(self, compression: CompressionInfo) -> (r: Self)
        ensures
            r.envelope.compression matches Some(c) && c == compression,
            r.envelope.connection_id == self.envelope.connection_id,
            r.envelope.frame_type == self.envelope.frame_type,
            r.message == self.message,
    {
        let mut m = self;
        m.envelope.compression = Some(compression);
        m
    }

    /// Builder step: adds one extension entry.
    pub fn with_extension(self, name: String, value: String) -> (r: Self)
        ensures
            r.envelope.extensions@ == self.envelope.extensions@.push((name, value)),
            r.envelope.connection_id == self.envelope.connection_id,
            r.message == self.message,
    {
        let mut m = self;
        m.envelope.extensions.push((name, value));
        m
    }
}

} // verus!
