//! Protocol handling configuration: compression, security, timeouts,
//! limits and feature toggles, with the documented defaults. Durations
//! are in seconds.

use vstd::prelude::*;

verus! {

/// Compression algorithms supported.
#[derive(Clone, Copy, Debug, PartialEq, Eq, Structural)]
pub enum CompressionAlgorithm {
    Gzip,
    Deflate,
    Brotli,
    Uncompressed,
}

/// Compression configuration for frames.
pub struct CompressionConfig {
    pub enabled: bool,
    pub algorithm: CompressionAlgorithm,
    pub level: u8,
    pub min_size_threshold: usize,
}

impl Default for CompressionConfig {
    /// Gzip at level six, on, for frames of a kilobyte and up.
    fn default() -> (r: Self)
        ensures
            r.enabled,
            r.algorithm == CompressionAlgorithm::Gzip,
            r.level == 6,
            r.min_size_threshold == 1024,
    {
        CompressionConfig {
            enabled: true,
            algorithm: CompressionAlgorithm::Gzip,
            level: 6,
            min_size_threshold: 1024,
        }
    }
}

/// Rate limiting configuration.
pub struct RateLimitConfig {
    pub enabled: bool,
    pub requests_per_minute: u32,
    pub burst_size: u32,
    pub block_duration_seconds: u64,
}

impl Default for RateLimitConfig {
    /// Off; a hundred requests a minute with bursts of ten when enabled.
    fn default() -> (r: Self)
        ensures
            !r.enabled,
            r.requests_per_minute == 100,
            r.burst_size == 10,
            r.block_duration_seconds == 300,
    {
        RateLimitConfig {
            enabled: false,
            requests_per_minute: 100,
            burst_size: 10,
            block_duration_seconds: 300,
        }
    }
}

/// Security configuration for frame handling.
pub struct SecurityConfig {
    pub encryption_enabled: bool,
    pub signature_validation: bool,
    pub allowed_origins: Vec<String>,
    pub rate_limiting: RateLimitConfig,
}

impl Default for SecurityConfig {
    /// Everything off, any origin allowed.
    fn default() -> (r: Self)
        ensures
            !r.encryption_enabled,
            !r.signature_validation,
            r.allowed_origins@.len() == 1,
            r.allowed_origins@[0]@ == "*"@,
            !r.rate_limiting.enabled,
    {
        let mut allowed_origins: Vec<String> = Vec::new();
        allowed_origins.push("*".to_owned());
        SecurityConfig {
            encryption_enabled: false,
            signature_validation: false,
            allowed_origins,
            rate_limiting: RateLimitConfig::default(),
        }
    }
}

/// Timeouts for protocol operations, in seconds.
pub struct TimeoutConfig {
    pub connection_timeout_secs: u64,
    pub request_timeout_secs: u64,
    pub response_timeout_secs: u64,
    pub ping_timeout_secs: u64,
    pub auth_timeout_secs: u64,
}

impl Default for TimeoutConfig {
    /// Thirty seconds to connect, a minute per request.
    fn default() -> (r: Self)
        ensures
            r.connection_timeout_secs == 30,
            r.request_timeout_secs == 60,
            r.response_timeout_secs == 30,
            r.ping_timeout_secs == 10,
            r.auth_timeout_secs == 15,
    {
        TimeoutConfig {
            connection_timeout_secs: 30,
            request_timeout_secs: 60,
            response_timeout_secs: 30,
            ping_timeout_secs: 10,
            auth_timeout_secs: 15,
        }
    }
}

/// Size and concurrency limits.
pub struct LimitConfig {
    pub max_message_size: usize,
    pub max_header_size: usize,
    pub max_body_size: usize,
    pub max_concurrent_requests: usize,
    pub max_queue_size: usize,
}

impl Default for LimitConfig {
    /// Sixteen-megabyte frames and bodies, eight-kilobyte headers.
    fn default() -> (r: Self)
        ensures
            r.max_message_size == 16 * 1024 * 1024,
            r.max_header_size == 8 * 1024,
            r.max_body_size == 16 * 1024 * 1024,
            r.max_concurrent_requests == 100,
            r.max_queue_size == 1000,
    {
        LimitConfig {
            max_message_size: 16 * 1024 * 1024,
            max_header_size: 8 * 1024,
            max_body_size: 16 * 1024 * 1024,
            max_concurrent_requests: 100,
            max_queue_size: 1000,
        }
    }
}

/// Feature toggles for protocol capabilities.
pub struct FeatureConfig {
    pub streaming_enabled: bool,
    pub websocket_compression: bool,
    pub http2_enabled: bool,
    pub keep_alive_enabled: bool,
    pub metrics_collection: bool,
}

impl Default for FeatureConfig {
    /// Streaming, compression, keep-alive and metrics on; HTTP/2 off.
    fn default() -> (r: Self)
        ensures
            r.streaming_enabled,
            r.websocket_compression,
            !r.http2_enabled,
            r.keep_alive_enabled,
            r.metrics_collection,
    {
        FeatureConfig {
            streaming_enabled: true,
            websocket_compression: true,
            http2_enabled: false,
            keep_alive_enabled: true,
            metrics_collection: true,
        }
    }
}

/// Configuration for protocol message handling.
pub struct ProtocolConfig {
    pub version: String,
    pub compression: CompressionConfig,
    pub security: SecurityConfig,
    pub timeouts: TimeoutConfig,
    pub limits: LimitConfig,
    pub features: FeatureConfig,
}

impl Default for ProtocolConfig {
    /// Protocol version 1.0.0 with the section defaults.
    fn default() -> (r: Self)
        ensures
            r.version@ == "1.0.0"@,
            r.compression.enabled,
            r.limits.max_message_size == 16 * 1024 * 1024,
    {
        ProtocolConfig {
            version: "1.0.0".to_owned(),
            compression: CompressionConfig::default(),
            security: SecurityConfig::default(),
            timeouts: TimeoutConfig::default(),
            limits: LimitConfig::default(),
            features: FeatureConfig::default(),
        }
    }
}

} // verus!
