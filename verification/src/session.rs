//! The tunnel session's decision logic: what to do with each incoming
//! frame, per the dispatch table, and how non-frame server text is
//! classified. I/O — reading the socket, spawning forward tasks, writing
//! responses — happens outside; every decision here is a pure function of
//! the frame.

use vstd::prelude::*;

use crate::codec::{
    spec_frame_matches, spec_frame_wf, spec_parse_json, spec_req_str_val, spec_req_str_wf,
    obj_get, parse_json, tunnel_message_from_value,
};
use crate::frame::{
    AuthPayload, ControlPayload, HttpPayload, MessagePayload, TunnelMessage,
};
use crate::json::JsonValue;

verus! {

/// One live session's protocol state.
pub struct SessionState {
    pub connected: bool,
    pub authenticated: bool,
    pub last_ping_at: u64,
}

impl SessionState {
    /// A session right after a successful handshake: connected, not yet
    /// authenticated.
    pub fn new() -> (r: Self)
        ensures
            r.connected,
            !r.authenticated,
            r.last_ping_at == 0,
    {
        SessionState { connected: true, authenticated: false, last_ping_at: 0 }
    }
}

/// What the session does with one incoming frame.
pub enum DispatchAction {
    /// Hand the request to the forwarder on its own task; the response
    /// must come back under `cloud_request_id`.
    ForwardRequest {
        method: String,
        url: String,
        headers: Vec<(String, String)>,
        body: Option<Vec<u8>>,
        cloud_request_id: String,
    },
    /// The server accepted authentication; the session becomes
    /// authenticated and `ConnectionStatus=Connected` goes on the bus.
    AuthSucceeded { session_id: String },
    /// The server rejected authentication: terminate without retry.
    Fatal { message: String },
    /// An error frame: log it, and count a failed request when it names
    /// one.
    RecordError { related: bool, message: String },
    /// A server status report: record and emit on the bus.
    StatusReport,
    /// Anything else: drop the frame.
    Ignore,
}

/// The action the dispatch table prescribes for a frame.
pub open spec fn spec_dispatch(m: TunnelMessage, a: DispatchAction) -> bool {
    match m.message.payload {
        MessagePayload::Http(HttpPayload::Request {
            method,
            url,
            headers,
            body,
            request_id,
            ..
        }) => a matches DispatchAction::ForwardRequest {
            method: am,
            url: au,
            headers: ah,
            body: ab,
            cloud_request_id: aid,
        } && am == method && au == url && ah == headers && ab == body && aid == request_id,
        MessagePayload::Http(_) => a is Ignore,
        MessagePayload::Auth(AuthPayload::Success { session_id, .. }) => a matches
            DispatchAction::AuthSucceeded { session_id: s } && s == session_id,
        MessagePayload::Auth(AuthPayload::Failure { error_message, .. }) => a matches
            DispatchAction::Fatal { message } && message == error_message,
        MessagePayload::Auth(_) => a is Ignore,
        MessagePayload::Control(ControlPayload::Status { .. }) => a is StatusReport,
        MessagePayload::Control(_) => a is Ignore,
        MessagePayload::Error(e) => a matches DispatchAction::RecordError { related, message }
            && related == e.related_id is Some && message == e.message,
        _ => a is Ignore,
    }
}

/// Decides what to do with one decoded frame, per the dispatch table:
/// requests are forwarded, auth outcomes change the session, response
/// frames and app-level pings are dropped, status is reported, error
/// frames are recorded, and everything else is ignored.
pub fn dispatch_frame(m: TunnelMessage) -> (a: DispatchAction)
    ensures
        spec_dispatch(m, a),
{
    match m.message.payload {
        MessagePayload::Http(HttpPayload::Request {
            method,
            url,
            headers,
            body,
            request_id,
            ..
        }) => DispatchAction::ForwardRequest {
            method,
            url,
            headers,
            body,
            cloud_request_id: request_id,
        },
        MessagePayload::Http(_) => DispatchAction::Ignore,
        MessagePayload::Auth(AuthPayload::Success { session_id, .. }) =>
            DispatchAction::AuthSucceeded { session_id },
        MessagePayload::Auth(AuthPayload::Failure { error_message, .. }) => DispatchAction::Fatal {
            message: error_message,
        },
        MessagePayload::Auth(_) => DispatchAction::Ignore,
        MessagePayload::Control(ControlPayload::Status { .. }) => DispatchAction::StatusReport,
        MessagePayload::Control(_) => DispatchAction::Ignore,
        MessagePayload::Error(e) => DispatchAction::RecordError {
            related: e.related_id.is_some(),
            message: e.message,
        },
        _ => DispatchAction::Ignore,
    }
}

/// Applies an action's state effect: successful authentication marks the
/// session authenticated; a fatal action disconnects it; nothing else
/// changes the state.
pub fn apply_action(state: &mut SessionState, a: &DispatchAction)
    ensures
        a is AuthSucceeded ==> *final(state) == (SessionState {
            authenticated: true,
            ..*old(state)
        }),
        a is Fatal ==> *final(state) == (SessionState {
            connected: false,
            authenticated: false,
            ..*old(state)
        }),
        !(a is AuthSucceeded) && !(a is Fatal) ==> *final(state) == *old(state),
{
    match a {
        DispatchAction::AuthSucceeded { .. } => {
            state.authenticated = true;
        },
        DispatchAction::Fatal { .. } => {
            state.connected = false;
            state.authenticated = false;
        },
        _ => {},
    }
}

/// What one piece of incoming socket text means to the session.
pub enum IncomingText {
    /// A well-formed tunnel frame.
    Frame(TunnelMessage),
    /// A bare server auth notice `{type:"auth", status:...}`.
    AuthStatus(String),
    /// A bare server error notice `{type:"error", message:...}`.
    ServerError(String),
    /// JSON that is neither a frame nor a known notice.
    OtherText,
    /// Not JSON at all.
    Malformed,
}

/// The classification of a parsed non-frame value: an auth notice, an
/// error notice, or something else.
pub open spec fn spec_classify_non_frame(v: JsonValue, r: IncomingText) -> bool {
    if spec_req_str_wf(v, "type"@) {
        let t = spec_req_str_val(v, "type"@);
        if t == "auth"@ && spec_req_str_wf(v, "status"@) {
            r matches IncomingText::AuthStatus(s) && s@ == spec_req_str_val(v, "status"@)
        } else if t == "error"@ && spec_req_str_wf(v, "message"@) {
            r matches IncomingText::ServerError(s) && s@ == spec_req_str_val(v, "message"@)
        } else {
            r is OtherText
        }
    } else {
        r is OtherText
    }
}

fn classify_non_frame(v: &JsonValue) -> (r: IncomingText)
    ensures
        spec_classify_non_frame(*v, r),
{
    proof {
        reveal_strlit("auth");
        reveal_strlit("error");
    }
    let t = match obj_get(v, "type") {
        Some(f) => f,
        None => {
            proof {
                assert(!spec_req_str_wf(*v, "type"@));
            }
            return IncomingText::OtherText;
        },
    };
    let tname = match crate::codec::str_of(t) {
        Some(s) => s,
        None => {
            proof {
                assert(!spec_req_str_wf(*v, "type"@));
            }
            return IncomingText::OtherText;
        },
    };
    proof {
        assert(spec_req_str_wf(*v, "type"@));
        assert(tname@ == spec_req_str_val(*v, "type"@));
    }
    if crate::codec::str_eq(tname.as_str(), "auth") {
        match obj_get(v, "status") {
            Some(f) => match crate::codec::str_of(f) {
                Some(s) => {
                    proof {
                        assert(spec_req_str_wf(*v, "status"@));
                        assert(s@ == spec_req_str_val(*v, "status"@));
                    }
                    IncomingText::AuthStatus(s)
                },
                None => {
                    proof {
                        assert(!spec_req_str_wf(*v, "status"@));
                    }
                    IncomingText::OtherText
                },
            },
            None => {
                proof {
                    assert(!spec_req_str_wf(*v, "status"@));
                }
                IncomingText::OtherText
            },
        }
    } else if crate::codec::str_eq(tname.as_str(), "error") {
        match obj_get(v, "message") {
            Some(f) => match crate::codec::str_of(f) {
                Some(s) => {
                    proof {
                        assert(spec_req_str_wf(*v, "message"@));
                        assert(s@ == spec_req_str_val(*v, "message"@));
                    }
                    IncomingText::ServerError(s)
                },
                None => {
                    proof {
                        assert(!spec_req_str_wf(*v, "message"@));
                    }
                    IncomingText::OtherText
                },
            },
            None => {
                proof {
                    assert(!spec_req_str_wf(*v, "message"@));
                }
                IncomingText::OtherText
            },
        }
    } else {
        proof {
            assert(tname@ != "auth"@ && tname@ != "error"@);
        }
        IncomingText::OtherText
    }
}

/// The meaning of one piece of incoming socket text: a frame when it
/// decodes as one; else a server notice when it carries a known `type`;
/// else noise.
pub open spec fn spec_incoming_text(bytes: Seq<u8>, r: IncomingText) -> bool {
    match spec_parse_json(bytes) {
        None => r is Malformed,
        Some(v) => if spec_frame_wf(v) {
            r matches IncomingText::Frame(m) && spec_frame_matches(v, m)
        } else {
            spec_classify_non_frame(v, r)
        },
    }
}

/// Reads one incoming text message: a tunnel frame if it decodes as one,
/// otherwise a server auth or error notice, otherwise noise.
pub fn handle_incoming_text(bytes: &[u8]) -> (r: IncomingText)
    ensures
        spec_incoming_text(bytes@, r),
{
    match parse_json(bytes) {
        Some(v) => {
            match tunnel_message_from_value(&v) {
                Ok(m) => IncomingText::Frame(m),
                Err(_) => classify_non_frame(&v),
            }
        },
        None => IncomingText::Malformed,
    }
}

/// Every HTTP request frame dispatches to exactly one forward action, and
/// the response built for any outcome of that forward carries the same
/// cloud request id: one response per request, end to end.
pub proof fn lemma_one_response_per_request(
    m: TunnelMessage,
    a: DispatchAction,
    outcome: crate::forwarder::ForwardOutcome,
    timeout_ms: u64,
    response: TunnelMessage,
)
    requires
        m.message.payload matches MessagePayload::Http(HttpPayload::Request { .. }),
        spec_dispatch(m, a),
        a matches DispatchAction::ForwardRequest { cloud_request_id, .. }
            && crate::forwarder::spec_response_for_outcome(
            outcome,
            timeout_ms,
            cloud_request_id@,
            response,
        ),
    ensures
        crate::frame::spec_payload_request_id(response.message.payload)
            == crate::frame::spec_payload_request_id(m.message.payload),
{
    let rid = m.message.payload->Http_0->Request_request_id;
    crate::forwarder::lemma_response_echoes_request_id(
        outcome,
        timeout_ms,
        rid@,
        response,
    );
}

/// Builds the Traffic statistics frame the session emits on request: the
/// shared counters copied into a stats payload.
pub fn stats_message(
    tunnel_id: String,
    client_id: String,
    stats: &crate::events::AppStats,
) -> (r: TunnelMessage)
    ensures
        r.envelope.tunnel_id == tunnel_id,
        r.envelope.client_id == client_id,
        r.message.payload matches MessagePayload::Stats(
            crate::frame::StatsPayload::Traffic {
                requests_processed,
                requests_successful,
                requests_failed,
                bytes_transferred,
                average_response_time_ms,
            },
        ) && requests_processed == stats.requests_processed && requests_successful
            == stats.requests_successful && requests_failed == stats.requests_failed
            && bytes_transferred == stats.bytes_forwarded && average_response_time_ms == 0,
{
    let message = crate::frame::ProtocolMessage::new(
        "stats".to_owned(),
        MessagePayload::Stats(crate::frame::StatsPayload::Traffic {
            requests_processed: stats.requests_processed,
            requests_successful: stats.requests_successful,
            requests_failed: stats.requests_failed,
            bytes_transferred: stats.bytes_forwarded,
            average_response_time_ms: 0,
        }),
    );
    TunnelMessage::new(tunnel_id, client_id, message)
}

/// Builds the token authentication frame for the in-band handshake form.
pub fn auth_message(tunnel_id: String, client_id: String, token: String) -> (r: TunnelMessage)
    ensures
        r.envelope.tunnel_id == tunnel_id,
        r.envelope.client_id == client_id,
        r.message.payload matches MessagePayload::Auth(
            crate::frame::AuthPayload::TokenAuth { token: t, token_type, scopes },
        ) && t == token && token_type@ == "Bearer"@ && scopes@.len() == 1 && scopes@[0]@
            == "tunnel"@,
{
    let mut scopes: Vec<String> = Vec::new();
    scopes.push("tunnel".to_owned());
    TunnelMessage::auth_token(tunnel_id, client_id, token, "Bearer".to_owned(), scopes)
}

} // verus!
