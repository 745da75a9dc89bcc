//! Envelope and transport metadata carried beside frames on the HTTP and
//! WebSocket paths, and the tunnel-level configuration records, with
//! their documented defaults. Durations are in seconds unless a field
//! says otherwise.

use vstd::prelude::*;

verus! {

/// HTTP message envelope with transport metadata.
pub struct HttpEnvelope {
    pub connection_id: String,
    pub http_version: String,
    pub keep_alive: bool,
    pub proxy_info: ProxyInfo,
    pub timing: RequestTiming,
}

/// Proxy identification carried with a forwarded request.
pub struct ProxyInfo {
    pub proxy_id: String,
    pub client_ip: String,
    pub user_agent: Option<String>,
    pub forwarded_for: Vec<String>,
    pub via: Vec<String>,
}

/// Request timing, milliseconds since the Unix epoch and per-phase
/// durations.
pub struct RequestTiming {
    pub start_time: u64,
    pub dns_time: Option<u64>,
    pub connect_time: Option<u64>,
    pub tls_time: Option<u64>,
    pub ttfb: Option<u64>,
    pub total_time: Option<u64>,
}

/// HTTP timeout configuration, in seconds.
pub struct HttpTimeouts {
    pub connect_timeout: u64,
    pub request_timeout: u64,
    pub response_timeout: u64,
    pub keep_alive_timeout: u64,
}

impl Default for HttpTimeouts {
    fn default() -> (r: Self)
        ensures
            r.connect_timeout == 10,
            r.request_timeout == 60,
            r.response_timeout == 30,
            r.keep_alive_timeout == 300,
    {
        HttpTimeouts {
            connect_timeout: 10,
            request_timeout: 60,
            response_timeout: 30,
            keep_alive_timeout: 300,
        }
    }
}

/// HTTP response cache configuration.
pub struct HttpCacheConfig {
    pub enabled: bool,
    pub max_size: usize,
    pub default_ttl: u64,
    pub respect_headers: Vec<String>,
    pub cacheable_methods: Vec<String>,
    pub cacheable_status_codes: Vec<u16>,
}

impl Default for HttpCacheConfig {
    fn default() -> (r: Self)
        ensures
            !r.enabled,
            r.max_size == 100 * 1024 * 1024,
            r.default_ttl == 300,
    {
        HttpCacheConfig {
            enabled: false,
            max_size: 100 * 1024 * 1024,
            default_ttl: 300,
            respect_headers: Vec::new(),
            cacheable_methods: Vec::new(),
            cacheable_status_codes: Vec::new(),
        }
    }
}

/// Connection pool configuration for the local HTTP client.
pub struct ConnectionPoolConfig {
    pub max_connections_per_host: usize,
    pub max_idle_connections: usize,
    pub idle_timeout: u64,
    pub max_lifetime: u64,
    pub enable_http2: bool,
}

impl Default for ConnectionPoolConfig {
    fn default() -> (r: Self)
        ensures
            r.max_connections_per_host == 10,
            r.max_idle_connections == 100,
            r.idle_timeout == 300,
            r.max_lifetime == 3600,
            !r.enable_http2,
    {
        ConnectionPoolConfig {
            max_connections_per_host: 10,
            max_idle_connections: 100,
            idle_timeout: 300,
            max_lifetime: 3600,
            enable_http2: false,
        }
    }
}

/// TLS configuration for the local HTTP client.
pub struct HttpTlsConfig {
    pub verify_ssl: bool,
    pub client_cert_file: Option<String>,
    pub client_key_file: Option<String>,
    pub ca_cert_file: Option<String>,
    pub sni_hostname: Option<String>,
    pub protocols: Vec<String>,
}

impl Default for HttpTlsConfig {
    fn default() -> (r: Self)
        ensures
            r.verify_ssl,
            r.client_cert_file is None,
    {
        HttpTlsConfig {
            verify_ssl: true,
            client_cert_file: None,
            client_key_file: None,
            ca_cert_file: None,
            sni_hostname: None,
            protocols: Vec::new(),
        }
    }
}

/// Authentication toward an intermediate proxy.
pub struct ProxyAuth {
    pub auth_type: String,
    pub username: String,
    pub password: String,
}

/// Intermediate proxy configuration for the local HTTP client.
pub struct HttpProxyConfig {
    pub url: Option<String>,
    pub auth: Option<ProxyAuth>,
    pub bypass: Vec<String>,
}

impl Default for HttpProxyConfig {
    fn default() -> (r: Self)
        ensures
            r.url is None,
            r.auth is None,
            r.bypass@.len() == 0,
    {
        HttpProxyConfig { url: None, auth: None, bypass: Vec::new() }
    }
}

/// Connection configuration for the local HTTP client.
pub struct HttpConnectionConfig {
    pub pool: ConnectionPoolConfig,
    pub tls: HttpTlsConfig,
    pub proxy: HttpProxyConfig,
}

impl Default for HttpConnectionConfig {
    fn default() -> (r: Self)
        ensures
            r.pool.max_connections_per_host == 10,
            r.tls.verify_ssl,
    {
        HttpConnectionConfig {
            pool: ConnectionPoolConfig::default(),
            tls: HttpTlsConfig::default(),
            proxy: HttpProxyConfig::default(),
        }
    }
}

/// Metadata of one HTTP response.
pub struct HttpResponseMetadata {
    pub content_length: Option<u64>,
    pub content_type: Option<String>,
    pub content_encoding: Option<String>,
    pub last_modified: Option<String>,
    pub etag: Option<String>,
    pub cache_control: Option<String>,
    pub server: Option<String>,
}

/// Tunnel routing information.
pub struct TunnelRouting {
    pub source: TunnelEndpoint,
    pub destination: TunnelEndpoint,
    pub path: Vec<String>,
    pub load_balancing: Option<String>,
}

/// One tunnel endpoint.
pub struct TunnelEndpoint {
    pub endpoint_type: String,
    pub id: String,
    pub address: Option<String>,
    pub capabilities: Vec<String>,
}

/// Tunnel keep-alive and buffering settings.
pub struct TunnelSettings {
    pub keep_alive_interval: u64,
    pub ping_timeout: u64,
    pub max_idle_time: u64,
    pub buffer_size: usize,
    pub enable_compression: bool,
    pub enable_encryption: bool,
}

impl Default for TunnelSettings {
    fn default() -> (r: Self)
        ensures
            r.keep_alive_interval == 30,
            r.ping_timeout == 10,
            r.max_idle_time == 300,
            r.buffer_size == 64 * 1024,
            r.enable_compression,
            !r.enable_encryption,
    {
        TunnelSettings {
            keep_alive_interval: 30,
            ping_timeout: 10,
            max_idle_time: 300,
            buffer_size: 64 * 1024,
            enable_compression: true,
            enable_encryption: false,
        }
    }
}

/// Tunnel authentication configuration.
pub struct TunnelAuthConfig {
    pub method: String,
    pub required_scopes: Vec<String>,
    pub validation_endpoint: Option<String>,
    pub certificate_validation: bool,
}

impl Default for TunnelAuthConfig {
    fn default() -> (r: Self)
        ensures
            r.method@ == "token"@,
            r.required_scopes@.len() == 0,
            r.validation_endpoint is None,
            !r.certificate_validation,
    {
        TunnelAuthConfig {
            method: "token".to_owned(),
            required_scopes: Vec::new(),
            validation_endpoint: None,
            certificate_validation: false,
        }
    }
}

/// TCP socket options.
pub struct TcpConfig {
    pub no_delay: bool,
    pub keep_alive: bool,
    pub keep_alive_timeout: u64,
    pub send_buffer_size: Option<usize>,
    pub recv_buffer_size: Option<usize>,
}

impl Default for TcpConfig {
    fn default() -> (r: Self)
        ensures
            r.no_delay,
            r.keep_alive,
            r.keep_alive_timeout == 300,
    {
        TcpConfig {
            no_delay: true,
            keep_alive: true,
            keep_alive_timeout: 300,
            send_buffer_size: Some(64 * 1024),
            recv_buffer_size: Some(64 * 1024),
        }
    }
}

/// TLS settings for the tunnel itself.
pub struct TlsConfig {
    pub enabled: bool,
    pub cert_file: Option<String>,
    pub key_file: Option<String>,
    pub ca_file: Option<String>,
    pub verify_peer: bool,
    pub protocols: Vec<String>,
    pub cipher_suites: Vec<String>,
}

impl Default for TlsConfig {
    fn default() -> (r: Self)
        ensures
            !r.enabled,
            !r.verify_peer,
            r.protocols@.len() == 2,
    {
        let mut protocols: Vec<String> = Vec::new();
        protocols.push("TLSv1.2".to_owned());
        protocols.push("TLSv1.3".to_owned());
        TlsConfig {
            enabled: false,
            cert_file: None,
            key_file: None,
            ca_file: None,
            verify_peer: false,
            protocols,
            cipher_suites: Vec::new(),
        }
    }
}

/// Tunnel access control.
pub struct AccessControlConfig {
    pub allowed_origins: Vec<String>,
    pub allowed_ips: Vec<String>,
    pub blocked_ips: Vec<String>,
    pub auth_required: bool,
}

impl Default for AccessControlConfig {
    fn default() -> (r: Self)
        ensures
            r.allowed_origins@.len() == 1,
            !r.auth_required,
    {
        let mut allowed_origins: Vec<String> = Vec::new();
        allowed_origins.push("*".to_owned());
        AccessControlConfig {
            allowed_origins,
            allowed_ips: Vec::new(),
            blocked_ips: Vec::new(),
            auth_required: false,
        }
    }
}

/// Tunnel security configuration.
pub struct TunnelSecurityConfig {
    pub tls: TlsConfig,
    pub access_control: AccessControlConfig,
    pub rate_limiting: crate::protocol_config::RateLimitConfig,
}

impl Default for TunnelSecurityConfig {
    fn default() -> (r: Self)
        ensures
            !r.tls.enabled,
            !r.rate_limiting.enabled,
    {
        TunnelSecurityConfig {
            tls: TlsConfig::default(),
            access_control: AccessControlConfig::default(),
            rate_limiting: crate::protocol_config::RateLimitConfig::default(),
        }
    }
}

/// WebSocket frame kinds.
#[derive(Clone, Copy, Debug, PartialEq, Eq, Structural)]
pub enum FrameType {
    Text,
    Binary,
    Close,
    Ping,
    Pong,
    Continuation,
}

/// WebSocket message envelope.
pub struct WebSocketEnvelope {
    pub connection_id: String,
    pub ws_version: String,
    pub frame_type: FrameType,
    pub compression: Option<CompressionInfo>,
    pub extensions: Vec<(String, String)>,
}

/// Compression applied to one message.
pub struct CompressionInfo {
    pub algorithm: String,
    pub level: u8,
    pub original_size: usize,
    pub compressed_size: usize,
}

/// Keep-alive pings on the WebSocket transport.
pub struct KeepAliveConfig {
    pub enabled: bool,
    pub ping_interval: u64,
    pub max_missed_pongs: u32,
    pub ping_data: Option<Vec<u8>>,
}

impl Default for KeepAliveConfig {
    fn default() -> (r: Self)
        ensures
            r.enabled,
            r.ping_interval == 30,
            r.max_missed_pongs == 3,
            r.ping_data is None,
    {
        KeepAliveConfig { enabled: true, ping_interval: 30, max_missed_pongs: 3, ping_data: None }
    }
}

/// WebSocket message sizing and queueing.
pub struct WebSocketMessageConfig {
    pub max_frame_size: usize,
    pub max_message_size: usize,
    pub auto_fragment: bool,
    pub fragment_size: usize,
    pub queue_size: usize,
    pub ordering_enabled: bool,
}

impl Default for WebSocketMessageConfig {
    fn default() -> (r: Self)
        ensures
            r.max_frame_size == 16 * 1024 * 1024,
            r.max_message_size == 16 * 1024 * 1024,
            r.auto_fragment,
            r.fragment_size == 1024 * 1024,
            r.queue_size == 1000,
            !r.ordering_enabled,
    {
        WebSocketMessageConfig {
            max_frame_size: 16 * 1024 * 1024,
            max_message_size: 16 * 1024 * 1024,
            auto_fragment: true,
            fragment_size: 1024 * 1024,
            queue_size: 1000,
            ordering_enabled: false,
        }
    }
}

/// Validation applied to handshake headers.
pub struct HeaderValidationConfig {
    pub required_headers: Vec<(String, String)>,
    pub forbidden_headers: Vec<String>,
    pub max_header_size: usize,
}

impl Default for HeaderValidationConfig {
    fn default() -> (r: Self)
        ensures
            r.required_headers@.len() == 0,
            r.forbidden_headers@.len() == 0,
            r.max_header_size == 8192,
    {
        HeaderValidationConfig {
            required_headers: Vec::new(),
            forbidden_headers: Vec::new(),
            max_header_size: 8192,
        }
    }
}

/// Rate limits on the WebSocket transport.
pub struct WebSocketRateLimitConfig {
    pub enabled: bool,
    pub messages_per_second: u32,
    pub burst_size: u32,
    pub bytes_per_second: u64,
    pub window_size: u64,
}

impl Default for WebSocketRateLimitConfig {
    fn default() -> (r: Self)
        ensures
            !r.enabled,
            r.messages_per_second == 100,
            r.burst_size == 10,
            r.bytes_per_second == 1024 * 1024,
            r.window_size == 60,
    {
        WebSocketRateLimitConfig {
            enabled: false,
            messages_per_second: 100,
            burst_size: 10,
            bytes_per_second: 1024 * 1024,
            window_size: 60,
        }
    }
}

/// WebSocket security settings.
pub struct WebSocketSecurityConfig {
    pub allowed_origins: Vec<String>,
    pub required_subprotocols: Vec<String>,
    pub header_validation: HeaderValidationConfig,
    pub rate_limiting: WebSocketRateLimitConfig,
}

impl Default for WebSocketSecurityConfig {
    fn default() -> (r: Self)
        ensures
            r.allowed_origins@.len() == 1,
            !r.rate_limiting.enabled,
    {
        let mut allowed_origins: Vec<String> = Vec::new();
        allowed_origins.push("*".to_owned());
        WebSocketSecurityConfig {
            allowed_origins,
            required_subprotocols: Vec::new(),
            header_validation: HeaderValidationConfig::default(),
            rate_limiting: WebSocketRateLimitConfig::default(),
        }
    }
}

/// Per-message deflate settings.
pub struct DeflateConfig {
    pub enabled: bool,
    pub server_max_window_bits: u8,
    pub client_max_window_bits: u8,
    pub server_no_context_takeover: bool,
    pub client_no_context_takeover: bool,
    pub compression_threshold: usize,
}

impl Default for DeflateConfig {
    fn default() -> (r: Self)
        ensures
            r.enabled,
            r.server_max_window_bits == 15,
            r.client_max_window_bits == 15,
            !r.server_no_context_takeover,
            !r.client_no_context_takeover,
            r.compression_threshold == 1024,
    {
        DeflateConfig {
            enabled: true,
            server_max_window_bits: 15,
            client_max_window_bits: 15,
            server_no_context_takeover: false,
            client_no_context_takeover: false,
            compression_threshold: 1024,
        }
    }
}

/// What the WebSocket handshake carried.
pub struct HandshakeInfo {
    pub uri: String,
    pub origin: Option<String>,
    pub protocols: Vec<String>,
    pub extensions: Vec<String>,
    pub version: String,
    pub headers: Vec<(String, String)>,
}

/// How a WebSocket connection closed.
pub struct CloseInfo {
    pub code: u16,
    pub reason: String,
    pub initiated_locally: bool,
    pub timestamp: u64,
}

/// A snapshot of the WebSocket client's state.
pub struct WebSocketStats {
    pub is_connected: bool,
    pub current_attempt: u32,
    pub max_attempts: u32,
    pub queued_messages: usize,
    pub url: String,
}

/// A snapshot of the reconnect schedule.
pub struct ReconnectStats {
    pub current_attempt: u32,
    pub max_attempts: u32,
    pub last_attempt_ms: Option<u64>,
    pub strategy_name: String,
}

/// A snapshot of the local HTTP client's configuration.
pub struct ClientStats {
    pub base_url: String,
    pub timeout_secs: u64,
}

} // verus!
