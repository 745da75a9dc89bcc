//! The error taxonomy: which failures are fatal, which trigger a
//! reconnection with backoff, and how each is categorized for logging and
//! metrics.

use vstd::prelude::*;

verus! {

/// One classified failure; each variant carries its message.
pub enum TunnelError {
    WebSocketConnection(String),
    WebSocketAuth(String),
    HttpProxy(String),
    LocalServer(String),
    Dashboard(String),
    Configuration(String),
    MessageParsing(String),
    Timeout(String),
    Io(String),
    UrlParsing(String),
    JsonSerialization(String),
    Http(String),
    Request(String),
    WebSocket(String),
}

/// The recoverable failures: transport-level and local-origin trouble is
/// retried under the backoff policy; authentication, configuration and
/// parsing failures are not.
pub open spec fn spec_is_recoverable(e: TunnelError) -> bool {
    match e {
        TunnelError::WebSocketConnection(_) => true,
        TunnelError::HttpProxy(_) => true,
        TunnelError::LocalServer(_) => true,
        TunnelError::Timeout(_) => true,
        TunnelError::Io(_) => true,
        TunnelError::Request(_) => true,
        TunnelError::WebSocket(_) => true,
        TunnelError::WebSocketAuth(_) => false,
        TunnelError::Configuration(_) => false,
        TunnelError::MessageParsing(_) => false,
        TunnelError::Dashboard(_) => false,
        TunnelError::UrlParsing(_) => false,
        TunnelError::JsonSerialization(_) => false,
        TunnelError::Http(_) => false,
    }
}

/// The category name each failure reports.
pub open spec fn spec_category(e: TunnelError) -> Seq<char> {
    match e {
        TunnelError::WebSocketConnection(_) => "websocket"@,
        TunnelError::WebSocket(_) => "websocket"@,
        TunnelError::WebSocketAuth(_) => "authentication"@,
        TunnelError::HttpProxy(_) => "proxy"@,
        TunnelError::LocalServer(_) => "local_server"@,
        TunnelError::Request(_) => "local_server"@,
        TunnelError::Dashboard(_) => "dashboard"@,
        TunnelError::Http(_) => "dashboard"@,
        TunnelError::Configuration(_) => "configuration"@,
        TunnelError::MessageParsing(_) => "serialization"@,
        TunnelError::JsonSerialization(_) => "serialization"@,
        TunnelError::Timeout(_) => "timeout"@,
        TunnelError::Io(_) => "io"@,
        TunnelError::UrlParsing(_) => "url"@,
    }
}

impl TunnelError {
    /// Whether this failure should trigger a backed-off reconnection.
    pub fn is_recoverable(&self) -> (r: bool)
        ensures
            r == spec_is_recoverable(*self),
    {
        match self {
            TunnelError::WebSocketConnection(_) => true,
            TunnelError::HttpProxy(_) => true,
            TunnelError::LocalServer(_) => true,
            TunnelError::Timeout(_) => true,
            TunnelError::Io(_) => true,
            TunnelError::Request(_) => true,
            TunnelError::WebSocket(_) => true,
            TunnelError::WebSocketAuth(_) => false,
            TunnelError::Configuration(_) => false,
            TunnelError::MessageParsing(_) => false,
            TunnelError::Dashboard(_) => false,
            TunnelError::UrlParsing(_) => false,
            TunnelError::JsonSerialization(_) => false,
            TunnelError::Http(_) => false,
        }
    }

    /// The category this failure is logged and counted under.
    pub fn category(&self) -> (r: &'static str)
        ensures
            r@ == spec_category(*self),
    {
        match self {
            TunnelError::WebSocketConnection(_) => "websocket",
            TunnelError::WebSocket(_) => "websocket",
            TunnelError::WebSocketAuth(_) => "authentication",
            TunnelError::HttpProxy(_) => "proxy",
            TunnelError::LocalServer(_) => "local_server",
            TunnelError::Request(_) => "local_server",
            TunnelError::Dashboard(_) => "dashboard",
            TunnelError::Http(_) => "dashboard",
            TunnelError::Configuration(_) => "configuration",
            TunnelError::MessageParsing(_) => "serialization",
            TunnelError::JsonSerialization(_) => "serialization",
            TunnelError::Timeout(_) => "timeout",
            TunnelError::Io(_) => "io",
            TunnelError::UrlParsing(_) => "url",
        }
    }

    /// The carried message.
    pub fn message(&self) -> (r: &str)
        ensures
            ({
                match self {
                    TunnelError::WebSocketConnection(m) => r@ == m@,
                    TunnelError::WebSocketAuth(m) => r@ == m@,
                    TunnelError::HttpProxy(m) => r@ == m@,
                    TunnelError::LocalServer(m) => r@ == m@,
                    TunnelError::Dashboard(m) => r@ == m@,
                    TunnelError::Configuration(m) => r@ == m@,
                    TunnelError::MessageParsing(m) => r@ == m@,
                    TunnelError::Timeout(m) => r@ == m@,
                    TunnelError::Io(m) => r@ == m@,
                    TunnelError::UrlParsing(m) => r@ == m@,
                    TunnelError::JsonSerialization(m) => r@ == m@,
                    TunnelError::Http(m) => r@ == m@,
                    TunnelError::Request(m) => r@ == m@,
                    TunnelError::WebSocket(m) => r@ == m@,
                }
            }),
    {
        match self {
            TunnelError::WebSocketConnection(m) => m.as_str(),
            TunnelError::WebSocketAuth(m) => m.as_str(),
            TunnelError::HttpProxy(m) => m.as_str(),
            TunnelError::LocalServer(m) => m.as_str(),
            TunnelError::Dashboard(m) => m.as_str(),
            TunnelError::Configuration(m) => m.as_str(),
            TunnelError::MessageParsing(m) => m.as_str(),
            TunnelError::Timeout(m) => m.as_str(),
            TunnelError::Io(m) => m.as_str(),
            TunnelError::UrlParsing(m) => m.as_str(),
            TunnelError::JsonSerialization(m) => m.as_str(),
            TunnelError::Http(m) => m.as_str(),
            TunnelError::Request(m) => m.as_str(),
            TunnelError::WebSocket(m) => m.as_str(),
        }
    }
}

} // verus!
