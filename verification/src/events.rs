//! Shared statistics and the dashboard event bus types: every component
//! pushes statistics deltas and user-visible state transitions through
//! these, fire and forget.

use vstd::prelude::*;

verus! {

/// User-visible connection state pushed to the dashboard.
pub enum ConnectionStatus {
    Connecting,
    Connected,
    Disconnected,
    Reconnecting,
    Error(String),
}

/// Process-wide tunnel statistics.
pub struct AppStats {
    pub requests_processed: u64,
    pub requests_successful: u64,
    pub requests_failed: u64,
    pub bytes_forwarded: u64,
    pub uptime_seconds: u64,
    pub websocket_reconnects: u64,
    pub connection_status: String,
}

impl Default for AppStats {
    /// Fresh counters, all zero, with an empty status.
    fn default() -> (r: Self)
        ensures
            r.requests_processed == 0,
            r.requests_successful == 0,
            r.requests_failed == 0,
            r.bytes_forwarded == 0,
            r.uptime_seconds == 0,
            r.websocket_reconnects == 0,
            r.connection_status@.len() == 0,
    {
        AppStats {
            requests_processed: 0,
            requests_successful: 0,
            requests_failed: 0,
            bytes_forwarded: 0,
            uptime_seconds: 0,
            websocket_reconnects: 0,
            connection_status: String::new(),
        }
    }
}

impl AppStats {
    /// Counts one dispatched request.
    pub fn record_processed(&mut self)
        ensures
            final(self).requests_processed == old(self).requests_processed as nat + 1 || (old(
                self,
            ).requests_processed == u64::MAX && final(self).requests_processed == u64::MAX),
            *final(self) == (AppStats {
                requests_processed: final(self).requests_processed,
                ..*old(self)
            }),
    {
        self.requests_processed = self.requests_processed.saturating_add(1);
    }

    /// Counts one successful response and its body bytes.
    pub fn record_success(&mut self, body_len: u64)
        ensures
            final(self).requests_successful as int == vstd::math::min(
                old(self).requests_successful as int + 1,
                u64::MAX as int,
            ),
            final(self).bytes_forwarded as int == vstd::math::min(
                old(self).bytes_forwarded as int + body_len as int,
                u64::MAX as int,
            ),
            *final(self) == (AppStats {
                requests_successful: final(self).requests_successful,
                bytes_forwarded: final(self).bytes_forwarded,
                ..*old(self)
            }),
    {
        self.requests_successful = self.requests_successful.saturating_add(1);
        self.bytes_forwarded = self.bytes_forwarded.saturating_add(body_len);
    }

    /// Counts one failed request.
    pub fn record_failure(&mut self)
        ensures
            final(self).requests_failed as int == vstd::math::min(
                old(self).requests_failed as int + 1,
                u64::MAX as int,
            ),
            *final(self) == (AppStats {
                requests_failed: final(self).requests_failed,
                ..*old(self)
            }),
    {
        self.requests_failed = self.requests_failed.saturating_add(1);
    }

    /// Counts one reconnection attempt.
    pub fn record_reconnect(&mut self)
        ensures
            final(self).websocket_reconnects as int == vstd::math::min(
                old(self).websocket_reconnects as int + 1,
                u64::MAX as int,
            ),
            *final(self) == (AppStats {
                websocket_reconnects: final(self).websocket_reconnects,
                ..*old(self)
            }),
    {
        self.websocket_reconnects = self.websocket_reconnects.saturating_add(1);
    }

    /// Replaces the textual connection status.
    pub fn set_connection_status(&mut self, status: String)
        ensures
            final(self).connection_status == status,
            *final(self) == (AppStats { connection_status: status, ..*old(self) }),
    {
        self.connection_status = status;
    }
}

/// One event pushed to the dashboard collaborator.
pub enum DashboardEvent {
    /// A request line was forwarded to the local origin.
    RequestForwarded(String),
    /// A response came back: status and body length.
    ResponseReceived(u16, usize),
    /// A user-visible error.
    Error(String),
    /// A connection state transition.
    ConnectionStatus(ConnectionStatus),
    /// A statistics snapshot.
    Statistics(AppStats),
}

} // verus!
