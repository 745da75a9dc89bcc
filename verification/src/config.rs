//! Configuration model and validation: the command-line surface, the
//! optional configuration file, and the resolved settings the tunnel runs
//! under. File reading and environment access happen outside; validation
//! and precedence are decided here, on plain values.
//!
//! Precedence, low to high: configuration file, then explicit
//! command-line values. URLs are carried as strings; durations are
//! milliseconds unless a field says otherwise.

use vstd::prelude::*;

use crate::headers::{spec_eq_ignore_case, spec_starts_with_ignore_case, str_eq_ignore_case,
    str_starts_with_ignore_case};

verus! {

/// Log output format.
pub enum LogFormat {
    Pretty,
    Json,
    Compact,
}

/// HTTP version policy toward the local origin.
#[derive(Clone, Copy, Debug, PartialEq, Eq, Structural)]
pub enum HttpVersion {
    Auto,
    Http1Only,
    Http2Only,
}

/// Why the configuration was rejected.
#[derive(Clone, Copy, Debug, PartialEq, Eq, Structural)]
pub enum ConfigError {
    MissingUrl,
    MissingToken,
    BadUrlScheme,
    BadProtocol,
    ZeroPort,
    EmptyToken,
    ZeroDashboardPort,
    ZeroTimeout,
    ZeroMaxConnections,
    BadHttpVersion,
    BadLogLevel,
}

/// The command-line surface, as plain values.
pub struct CliArgs {
    pub url: Option<String>,
    pub token: Option<String>,
    pub protocol: String,
    pub port: u16,
    pub dashboard_port: u16,
    pub log_level: String,
    pub config: Option<String>,
    pub yml: Option<String>,
    pub no_dashboard: bool,
    pub timeout: u64,
    pub max_reconnects: u32,
    pub verify_ssl: bool,
    pub max_connections: usize,
    pub http_version: String,
}

/// Whether a WebSocket URL uses a tunnel scheme.
pub open spec fn spec_ws_scheme_ok(url: Seq<char>) -> bool {
    spec_starts_with_ignore_case(url, "ws://"@) || spec_starts_with_ignore_case(url, "wss://"@)
}

/// Whether a URL demands TLS.
pub open spec fn spec_requires_tls(url: Seq<char>) -> bool {
    spec_starts_with_ignore_case(url, "wss://"@)
}

/// Whether the given name is a known HTTP version policy.
pub open spec fn spec_http_version_of(s: Seq<char>) -> Option<HttpVersion> {
    if spec_eq_ignore_case(s, "auto"@) {
        Some(HttpVersion::Auto)
    } else if spec_eq_ignore_case(s, "http1"@) {
        Some(HttpVersion::Http1Only)
    } else if spec_eq_ignore_case(s, "http2"@) {
        Some(HttpVersion::Http2Only)
    } else {
        None
    }
}

/// Reads an HTTP version policy name.
pub fn http_version_of(s: &str) -> (r: Option<HttpVersion>)
    ensures
        r == spec_http_version_of(s@),
{
    if str_eq_ignore_case(s, "auto") {
        Some(HttpVersion::Auto)
    } else if str_eq_ignore_case(s, "http1") {
        Some(HttpVersion::Http1Only)
    } else if str_eq_ignore_case(s, "http2") {
        Some(HttpVersion::Http2Only)
    } else {
        None
    }
}

/// Whether the given name is a known log level.
pub open spec fn spec_valid_log_level(s: Seq<char>) -> bool {
    ||| spec_eq_ignore_case(s, "error"@)
    ||| spec_eq_ignore_case(s, "warn"@)
    ||| spec_eq_ignore_case(s, "info"@)
    ||| spec_eq_ignore_case(s, "debug"@)
    ||| spec_eq_ignore_case(s, "trace"@)
}

/// Checks a log level name.
pub fn valid_log_level(s: &str) -> (r: bool)
    ensures
        r == spec_valid_log_level(s@),
{
    str_eq_ignore_case(s, "error") || str_eq_ignore_case(s, "warn") || str_eq_ignore_case(
        s,
        "info",
    ) || str_eq_ignore_case(s, "debug") || str_eq_ignore_case(s, "trace")
}

/// Whether the local origin protocol is http or https.
pub open spec fn spec_valid_protocol(s: Seq<char>) -> bool {
    spec_eq_ignore_case(s, "http"@) || spec_eq_ignore_case(s, "https"@)
}

/// The verdict on a command line, first failure in order: URL and token
/// are required unless a configuration file is named; the URL scheme must
/// be ws or wss; the origin protocol http or https; ports, timeout and
/// pool size nonzero; a named token nonempty; known HTTP version and log
/// level names.
pub open spec fn spec_validate_cli(c: CliArgs) -> Result<(), ConfigError> {
    let has_file = c.config is Some || c.yml is Some;
    if !has_file && c.url is None {
        Err(ConfigError::MissingUrl)
    } else if !has_file && c.token is None {
        Err(ConfigError::MissingToken)
    } else if c.url matches Some(u) && !spec_ws_scheme_ok(u@) {
        Err(ConfigError::BadUrlScheme)
    } else if !spec_valid_protocol(c.protocol@) {
        Err(ConfigError::BadProtocol)
    } else if c.port == 0 {
        Err(ConfigError::ZeroPort)
    } else if c.token matches Some(t) && t@.len() == 0 {
        Err(ConfigError::EmptyToken)
    } else if c.dashboard_port == 0 {
        Err(ConfigError::ZeroDashboardPort)
    } else if c.timeout == 0 {
        Err(ConfigError::ZeroTimeout)
    } else if c.max_connections == 0 {
        Err(ConfigError::ZeroMaxConnections)
    } else if spec_http_version_of(c.http_version@) is None {
        Err(ConfigError::BadHttpVersion)
    } else if !spec_valid_log_level(c.log_level@) {
        Err(ConfigError::BadLogLevel)
    } else {
        Ok(())
    }
}

impl CliArgs {
    /// Validates the command line; the error names the first defect.
    pub fn validate(&self) -> (r: Result<(), ConfigError>)
        ensures
            r == spec_validate_cli(*self),
    {
        let has_file = self.config.is_some() || self.yml.is_some();
        if !has_file && self.url.is_none() {
            return Err(ConfigError::MissingUrl);
        }
        if !has_file && self.token.is_none() {
            return Err(ConfigError::MissingToken);
        }
        match &self.url {
            Some(u) => {
                let ok = str_starts_with_ignore_case(u.as_str(), "ws://")
                    || str_starts_with_ignore_case(u.as_str(), "wss://");
                if !ok {
                    return Err(ConfigError::BadUrlScheme);
                }
            },
            None => {},
        }
        let proto_ok = str_eq_ignore_case(self.protocol.as_str(), "http") || str_eq_ignore_case(
            self.protocol.as_str(),
            "https",
        );
        if !proto_ok {
            return Err(ConfigError::BadProtocol);
        }
        if self.port == 0 {
            return Err(ConfigError::ZeroPort);
        }
        match &self.token {
            Some(t) => {
                if t.as_str().unicode_len() == 0 {
                    return Err(ConfigError::EmptyToken);
                }
            },
            None => {},
        }
        if self.dashboard_port == 0 {
            return Err(ConfigError::ZeroDashboardPort);
        }
        if self.timeout == 0 {
            return Err(ConfigError::ZeroTimeout);
        }
        if self.max_connections == 0 {
            return Err(ConfigError::ZeroMaxConnections);
        }
        if http_version_of(self.http_version.as_str()).is_none() {
            return Err(ConfigError::BadHttpVersion);
        }
        if !valid_log_level(self.log_level.as_str()) {
            return Err(ConfigError::BadLogLevel);
        }
        Ok(())
    }

    /// Whether the WebSocket endpoint requires TLS.
    pub fn requires_tls(&self) -> (r: bool)
        ensures
            r == (self.url matches Some(u) && spec_requires_tls(u@)),
    {
        match &self.url {
            Some(u) => str_starts_with_ignore_case(u.as_str(), "wss://"),
            None => false,
        }
    }

    /// Whether the local origin speaks HTTPS.
    pub fn local_uses_https(&self) -> (r: bool)
        ensures
            r == spec_eq_ignore_case(self.protocol@, "https"@),
    {
        str_eq_ignore_case(self.protocol.as_str(), "https")
    }
}

/// WebSocket section of the configuration file; every field optional.
pub struct WebSocketConfig {
    pub url: Option<String>,
    pub token: Option<String>,
    pub timeout: Option<u64>,
    pub max_reconnects: Option<u32>,
    pub ping_interval: Option<u64>,
    pub pong_timeout: Option<u64>,
}

/// Local origin section of the configuration file.
pub struct LocalServerConfig {
    pub url: Option<String>,
    pub timeout: Option<u64>,
    pub verify_ssl: Option<bool>,
    pub max_connections: Option<usize>,
    pub keep_alive: Option<u64>,
    pub connect_timeout: Option<u64>,
}

/// Dashboard section of the configuration file.
pub struct DashboardConfig {
    pub port: Option<u16>,
    pub bind_address: Option<String>,
    pub enable_cors: Option<bool>,
    pub static_file_cache: Option<bool>,
}

/// Logging section of the configuration file.
pub struct LoggingConfig {
    pub level: Option<String>,
    pub format: Option<String>,
    pub enable_color: Option<bool>,
}

/// The whole optional configuration file.
pub struct ConfigFile {
    pub websocket: Option<WebSocketConfig>,
    pub local_server: Option<LocalServerConfig>,
    pub dashboard: Option<DashboardConfig>,
    pub logging: Option<LoggingConfig>,
}

/// Resolved WebSocket settings. Durations are seconds, as configured.
pub struct WebSocketSettings {
    pub url: String,
    pub token: String,
    pub timeout_secs: u64,
    pub max_reconnects: u32,
    pub requires_tls: bool,
    pub ping_interval_secs: u64,
    pub pong_timeout_secs: u64,
}

/// Resolved local origin settings.
pub struct LocalServerSettings {
    pub url: String,
    pub timeout_secs: u64,
    pub verify_ssl: bool,
    pub max_connections: usize,
    pub keep_alive_secs: u64,
    pub connect_timeout_secs: u64,
}

/// Resolved dashboard settings.
pub struct DashboardSettings {
    pub port: u16,
    pub bind_address: String,
    pub enable_cors: bool,
    pub static_file_cache: bool,
}

/// Resolved logging settings.
pub struct LoggingSettings {
    pub level: String,
    pub format: LogFormat,
    pub enable_color: bool,
}

/// Everything the tunnel runs under.
pub struct AppSettings {
    pub websocket: WebSocketSettings,
    pub local_server: LocalServerSettings,
    pub dashboard: DashboardSettings,
    pub logging: LoggingSettings,
    pub no_dashboard: bool,
}

/// A command-line value wins over the file for url and token; elsewhere
/// the command line's value stands and the file fills what the command
/// line left at its default is decided by the caller handing explicit
/// options only. Here: cli first, then file, then nothing.
pub open spec fn spec_first_str(cli: Option<String>, file: Option<Seq<char>>) -> Option<Seq<char>> {
    match cli {
        Some(s) => Some(s@),
        None => file,
    }
}

/// Builds the local origin URL from protocol and port when the file names
/// none: `protocol://localhost:port`.
pub open spec fn spec_local_url(protocol: Seq<char>, port: u16) -> Seq<char> {
    protocol + "://localhost:"@ + crate::status::spec_decimal(port as nat)
}

/// The local origin URL for a protocol and port.
pub fn local_url(protocol: &str, port: u16) -> (r: String)
    ensures
        r@ == spec_local_url(protocol@, port),
{
    let mut s = protocol.to_owned();
    s.append("://localhost:");
    let dec = crate::status::decimal_string(port as u64);
    s.append(dec.as_str());
    s
}

/// Resolves the final settings from the command line and the file. The
/// WebSocket URL and token come from the command line first, then the
/// file, and their absence is an error; every other field takes the file's
/// value when present and the command line's otherwise; fields neither
/// names take the documented defaults.
pub fn resolve_settings(cli: &CliArgs, file: &ConfigFile) -> (r: Result<
    AppSettings,
    ConfigError,
>)
    ensures
        ({
            let file_ws_url = match file.websocket {
                Some(w) => match w.url {
                    Some(u) => Some(u@),
                    None => None,
                },
                None => None,
            };
            let file_token = match file.websocket {
                Some(w) => match w.token {
                    Some(t) => Some(t@),
                    None => None,
                },
                None => None,
            };
            let url = spec_first_str(cli.url, file_ws_url);
            let token = spec_first_str(cli.token, file_token);
            &&& (r is Err <==> url is None || token is None)
            &&& (r matches Err(e) ==> (url is None && e == ConfigError::MissingUrl) || (url
                is Some && e == ConfigError::MissingToken))
            &&& (r matches Ok(s) ==> {
                &&& Some(s.websocket.url@) == url
                &&& Some(s.websocket.token@) == token
                &&& s.websocket.requires_tls == spec_requires_tls(url->Some_0)
                &&& s.no_dashboard == cli.no_dashboard
                &&& s.dashboard.port == (match file.dashboard {
                    Some(d) => match d.port {
                        Some(p) => p,
                        None => cli.dashboard_port,
                    },
                    None => cli.dashboard_port,
                })
                &&& s.local_server.verify_ssl == (match file.local_server {
                    Some(l) => match l.verify_ssl {
                        Some(v) => v,
                        None => cli.verify_ssl,
                    },
                    None => cli.verify_ssl,
                })
                &&& s.local_server.url@ == (match file.local_server {
                    Some(l) => match l.url {
                        Some(u) => u@,
                        None => spec_local_url(cli.protocol@, cli.port),
                    },
                    None => spec_local_url(cli.protocol@, cli.port),
                })
                &&& s.websocket.timeout_secs == (match file.websocket {
                    Some(w) => match w.timeout {
                        Some(t) => t,
                        None => cli.timeout,
                    },
                    None => cli.timeout,
                })
                &&& s.websocket.max_reconnects == (match file.websocket {
                    Some(w) => match w.max_reconnects {
                        Some(m) => m,
                        None => cli.max_reconnects,
                    },
                    None => cli.max_reconnects,
                })
                &&& s.local_server.timeout_secs == (match file.local_server {
                    Some(l) => match l.timeout {
                        Some(t) => t,
                        None => cli.timeout,
                    },
                    None => cli.timeout,
                })
            })
        }),
{
    let url: String = match &cli.url {
        Some(u) => u.clone(),
        None => {
            match &file.websocket {
                Some(w) => match &w.url {
                    Some(u) => u.clone(),
                    None => {
                        return Err(ConfigError::MissingUrl);
                    },
                },
                None => {
                    return Err(ConfigError::MissingUrl);
                },
            }
        },
    };
    let token: String = match &cli.token {
        Some(t) => t.clone(),
        None => {
            match &file.websocket {
                Some(w) => match &w.token {
                    Some(t) => t.clone(),
                    None => {
                        return Err(ConfigError::MissingToken);
                    },
                },
                None => {
                    return Err(ConfigError::MissingToken);
                },
            }
        },
    };
    let requires_tls = str_starts_with_ignore_case(url.as_str(), "wss://");
    let ws_timeout: u64 = match &file.websocket {
        Some(w) => match w.timeout {
            Some(t) => t,
            None => cli.timeout,
        },
        None => cli.timeout,
    };
    let max_reconnects: u32 = match &file.websocket {
        Some(w) => match w.max_reconnects {
            Some(m) => m,
            None => cli.max_reconnects,
        },
        None => cli.max_reconnects,
    };
    let ping_interval: u64 = match &file.websocket {
        Some(w) => match w.ping_interval {
            Some(p) => p,
            None => 30,
        },
        None => 30,
    };
    let pong_timeout: u64 = match &file.websocket {
        Some(w) => match w.pong_timeout {
            Some(p) => p,
            None => 10,
        },
        None => 10,
    };
    let local_url_s: String = match &file.local_server {
        Some(l) => match &l.url {
            Some(u) => u.clone(),
            None => local_url(cli.protocol.as_str(), cli.port),
        },
        None => local_url(cli.protocol.as_str(), cli.port),
    };
    let local_timeout: u64 = match &file.local_server {
        Some(l) => match l.timeout {
            Some(t) => t,
            None => cli.timeout,
        },
        None => cli.timeout,
    };
    let verify_ssl: bool = match &file.local_server {
        Some(l) => match l.verify_ssl {
            Some(v) => v,
            None => cli.verify_ssl,
        },
        None => cli.verify_ssl,
    };
    let max_connections: usize = match &file.local_server {
        Some(l) => match l.max_connections {
            Some(m) => m,
            None => cli.max_connections,
        },
        None => cli.max_connections,
    };
    let keep_alive: u64 = match &file.local_server {
        Some(l) => match l.keep_alive {
            Some(k) => k,
            None => 60,
        },
        None => 60,
    };
    let connect_timeout: u64 = match &file.local_server {
        Some(l) => match l.connect_timeout {
            Some(c) => c,
            None => 10,
        },
        None => 10,
    };
    let dash_port: u16 = match &file.dashboard {
        Some(d) => match d.port {
            Some(p) => p,
            None => cli.dashboard_port,
        },
        None => cli.dashboard_port,
    };
    let bind_address: String = match &file.dashboard {
        Some(d) => match &d.bind_address {
            Some(b) => b.clone(),
            None => "127.0.0.1".to_owned(),
        },
        None => "127.0.0.1".to_owned(),
    };
    let enable_cors: bool = match &file.dashboard {
        Some(d) => match d.enable_cors {
            Some(e) => e,
            None => true,
        },
        None => true,
    };
    let static_file_cache: bool = match &file.dashboard {
        Some(d) => match d.static_file_cache {
            Some(s) => s,
            None => true,
        },
        None => true,
    };
    let level: String = match &file.logging {
        Some(l) => match &l.level {
            Some(s) => s.clone(),
            None => cli.log_level.clone(),
        },
        None => cli.log_level.clone(),
    };
    let format: LogFormat = match &file.logging {
        Some(l) => match &l.format {
            Some(f) => {
                if str_eq_ignore_case(f.as_str(), "json") {
                    LogFormat::Json
                } else if str_eq_ignore_case(f.as_str(), "compact") {
                    LogFormat::Compact
                } else {
                    LogFormat::Pretty
                }
            },
            None => LogFormat::Pretty,
        },
        None => LogFormat::Pretty,
    };
    let enable_color: bool = match &file.logging {
        Some(l) => match l.enable_color {
            Some(e) => e,
            None => true,
        },
        None => true,
    };
    Ok(AppSettings {
        websocket: WebSocketSettings {
            url,
            token,
            timeout_secs: ws_timeout,
            max_reconnects,
            requires_tls,
            ping_interval_secs: ping_interval,
            pong_timeout_secs: pong_timeout,
        },
        local_server: LocalServerSettings {
            url: local_url_s,
            timeout_secs: local_timeout,
            verify_ssl,
            max_connections,
            keep_alive_secs: keep_alive,
            connect_timeout_secs: connect_timeout,
        },
        dashboard: DashboardSettings {
            port: dash_port,
            bind_address,
            enable_cors,
            static_file_cache,
        },
        logging: LoggingSettings { level, format, enable_color },
        no_dashboard: cli.no_dashboard,
    })
}

} // verus!
