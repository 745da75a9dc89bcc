//! The local HTTP forwarder's decision logic: request-target derivation,
//! failure classification, response header hygiene, and the synthesis of
//! exactly one response frame — real or error — for every forwarded
//! request.
//!
//! The HTTP call itself is performed outside; its outcome comes back as a
//! `ForwardOutcome` and every outcome is turned into a response frame that
//! carries the originating request's cloud id.

use vstd::prelude::*;

use crate::frame::{HttpPayload, MessagePayload, TunnelMessage};
use crate::headers::{
    filter_response_headers, headers_view, spec_lower_char, spec_scrub_response_headers,
};
use crate::status::{decimal_string, get_status_text, spec_decimal, spec_status_text};
use vstd::utf8::encode_utf8;

verus! {

/// The path-plus-query of an absolute URL as the url crate derives it, or
/// nothing when the string is not an absolute URL. The result depends on
/// the URL string alone.
pub uninterp spec fn spec_url_path_query(url: Seq<char>) -> Option<Seq<char>>;

/// The percent-decoded query pairs of an absolute URL, in order; empty
/// when the string is not an absolute URL or has no query. The result
/// depends on the URL string alone.
pub uninterp spec fn spec_url_query_pairs_or_empty(url: Seq<char>) -> Seq<(Seq<char>, Seq<char>)>;

/// Relies on url::Url::parse, Url::path and Url::query: for an absolute
/// URL, the serialized path followed by `?` and the query when one is
/// present; None when parsing fails.
#[verifier::external_body]
fn url_path_and_query(url: &str) -> (r: Option<String>)
    ensures
        ({
            match r {
                Some(s) => spec_url_path_query(url@) == Some(s@),
                None => spec_url_path_query(url@) is None,
            }
        }),
{
    url::Url::parse(url).ok().map(
        |u|
            match u.query() {
                Some(q) => format!("{}?{}", u.path(), q),
                None => u.path().to_string(),
            },
    )
}

/// Relies on url::Url::parse and Url::query_pairs: the percent-decoded
/// query pairs of an absolute URL in order, or nothing for a string that
/// does not parse.
#[verifier::external_body]
pub fn query_params_of_url(url: &str) -> (r: Vec<(String, String)>)
    ensures
        headers_view(r@) == spec_url_query_pairs_or_empty(url@),
{
    let mut out: Vec<(String, String)> = Vec::new();
    if let Ok(u) = url::Url::parse(url) {
        for (k, v) in u.query_pairs() {
            out.push((k.to_string(), v.to_string()));
        }
    }
    out
}

/// The request target the forwarder derives from a frame's URL: a path is
/// used as is; an absolute URL contributes its path and query; anything
/// else is made a path by prefixing a slash.
pub open spec fn spec_extract_path(url: Seq<char>) -> Seq<char> {
    if url.len() > 0 && url[0] == '/' {
        url
    } else if spec_url_path_query(url) is Some {
        spec_url_path_query(url)->Some_0
    } else {
        seq!['/'] + url
    }
}

/// Derives the request target sent to the local origin from a frame URL.
pub fn extract_path_from_url(url: &str) -> (r: String)
    ensures
        r@ == spec_extract_path(url@),
{
    if url.unicode_len() > 0 && url.get_char(0) == '/' {
        return url.to_owned();
    }
    match url_path_and_query(url) {
        Some(pq) => pq,
        None => {
            let mut s = String::from_str("/");
            s.append(url);
            proof {
                reveal_strlit("/");
                assert(s@ =~= seq!['/'] + url@);
            }
            s
        },
    }
}

/// Whether the needle matches the haystack at one offset, after ASCII
/// lowercasing of the haystack.
pub open spec fn spec_match_at(haystack: Seq<char>, needle: Seq<char>, i: int) -> bool {
    forall|j: int|
        0 <= j < needle.len() ==> spec_lower_char(#[trigger] haystack[i + j]) == needle[j]
}

/// Whether `needle` occurs in `haystack` after ASCII lowercasing of the
/// haystack; needles are given already lowercased.
pub open spec fn spec_contains_lowered(haystack: Seq<char>, needle: Seq<char>) -> bool {
    exists|i: int|
        0 <= i <= haystack.len() - needle.len() && #[trigger] spec_match_at(haystack, needle, i)
}

fn contains_lowered(haystack: &str, needle: &str) -> (r: bool)
    ensures
        r == spec_contains_lowered(haystack@, needle@),
{
    let hlen = haystack.unicode_len();
    let nlen = needle.unicode_len();
    if nlen > hlen {
        return false;
    }
    let mut i: usize = 0;
    while i <= hlen - nlen
        invariant
            nlen <= hlen,
            hlen == haystack@.len(),
            nlen == needle@.len(),
            i <= hlen - nlen + 1,
            forall|k: int| 0 <= k < i ==> !spec_match_at(haystack@, needle@, k),
        decreases hlen + 1 - nlen - i,
    {
        let mut j: usize = 0;
        let mut matched = true;
        while j < nlen
            invariant
                nlen <= hlen,
                hlen == haystack@.len(),
                nlen == needle@.len(),
                i + nlen <= hlen,
                j <= nlen,
                matched == (forall|k: int|
                    0 <= k < j ==> spec_lower_char(#[trigger] haystack@[i as int + k])
                        == needle@[k]),
            decreases nlen - j,
        {
            let hc = crate::headers::lower_char(haystack.get_char(i + j));
            let nc = needle.get_char(j);
            if hc != nc {
                matched = false;
                proof {
                    assert(spec_lower_char(haystack@[i + j]) != needle@[j as int]);
                }
                j = nlen;
            } else {
                j = j + 1;
            }
        }
        if matched {
            proof {
                assert(spec_match_at(haystack@, needle@, i as int));
                assert(0 <= i as int <= haystack@.len() - needle@.len());
            }
            return true;
        }
        i = i + 1;
    }
    false
}

/// How a failed local call is classified: network-level failures synthesize
/// a 503, everything else at the HTTP client level a 502, and an elapsed
/// deadline a 504.
pub open spec fn spec_is_connection_error(msg: Seq<char>) -> bool {
    ||| spec_contains_lowered(msg, "connection"@)
    ||| spec_contains_lowered(msg, "refused"@)
    ||| spec_contains_lowered(msg, "unreachable"@)
    ||| spec_contains_lowered(msg, "network"@)
}

/// Classifies an HTTP-client error message: true means the local origin is
/// unreachable (connection-level), false means some other client failure.
pub fn is_connection_error(msg: &str) -> (r: bool)
    ensures
        r == spec_is_connection_error(msg@),
{
    contains_lowered(msg, "connection") || contains_lowered(msg, "refused")
        || contains_lowered(msg, "unreachable") || contains_lowered(msg, "network")
}

/// A response received from the local origin, already reduced to plain
/// values.
pub struct LocalServerResponse {
    pub status: u16,
    pub status_text: String,
    pub headers: Vec<(String, String)>,
    pub body: Option<Vec<u8>>,
}

/// What came of one forwarded request: a response, a connection-level
/// failure, another client-level failure, or an elapsed deadline. Failure
/// variants carry the reported error message.
pub enum ForwardOutcome {
    Success(LocalServerResponse),
    ConnectError(String),
    ServerError(String),
    Timeout,
}

/// The character text of a synthesized error page: status line in the
/// title, the code, the reason phrase and the error message in the body.
pub open spec fn spec_error_html(status: u16, status_text: Seq<char>, msg: Seq<char>) -> Seq<char> {
    "<!DOCTYPE html>\n<html>\n<head>\n<title>"@ + spec_decimal(status as nat) + " "@ + status_text
        + "</title>\n</head>\n<body>\n<h1>Error "@ + spec_decimal(status as nat)
        + "</h1>\n<div class=\"error-code\">"@ + spec_decimal(status as nat) + " "@ + status_text
        + "</div>\n<div class=\"error-message\">"@ + msg + "</div>\n</body>\n</html>"@
}

/// Builds the synthesized error page for a status code and error message.
fn error_html(status: u16, status_text: &str, msg: &str) -> (r: String)
    ensures
        r@ == spec_error_html(status, status_text@, msg@),
{
    let mut s = String::from_str("<!DOCTYPE html>\n<html>\n<head>\n<title>");
    let dec = decimal_string(status as u64);
    s.append(dec.as_str());
    s.append(" ");
    s.append(status_text);
    s.append("</title>\n</head>\n<body>\n<h1>Error ");
    s.append(dec.as_str());
    s.append("</h1>\n<div class=\"error-code\">");
    s.append(dec.as_str());
    s.append(" ");
    s.append(status_text);
    s.append("</div>\n<div class=\"error-message\">");
    s.append(msg);
    s.append("</div>\n</body>\n</html>");
    proof {
        assert(s@ =~= spec_error_html(status, status_text@, msg@));
    }
    s
}

/// The headers every synthesized error response carries.
pub open spec fn spec_error_headers(hv: Seq<(Seq<char>, Seq<char>)>) -> bool {
    hv =~= seq![
        ("content-type"@, "text/html; charset=utf-8"@),
        ("cache-control"@, "no-cache"@),
    ]
}

/// Builds the synthesized error response frame for one failed request:
/// HTML body, no-cache headers, and the originating request's cloud id.
pub fn synthesize_error_response(
    tunnel_id: String,
    client_id: String,
    status: u16,
    error_message: &str,
    cloud_request_id: String,
) -> (r: TunnelMessage)
    ensures
        r.message.payload matches MessagePayload::Http(HttpPayload::Response {
            status: s,
            status_text: st,
            headers: h,
            body: b,
            request_id: rid,
        }) && s == status && st@ == spec_status_text(status) && spec_error_headers(
            headers_view(h@),
        ) && (b matches Some(bytes) && bytes@ == encode_utf8(
            spec_error_html(status, spec_status_text(status), error_message@),
        )) && rid == cloud_request_id,
        r.envelope.tunnel_id == tunnel_id,
        r.envelope.client_id == client_id,
{
    let status_text = get_status_text(status);
    let html = error_html(status, status_text.as_str(), error_message);
    let body = html.as_str().as_bytes_vec();
    let mut headers: Vec<(String, String)> = Vec::new();
    headers.push(("content-type".to_owned(), "text/html; charset=utf-8".to_owned()));
    headers.push(("cache-control".to_owned(), "no-cache".to_owned()));
    proof {
        assert(headers_view(headers@) =~= seq![
            ("content-type"@, "text/html; charset=utf-8"@),
            ("cache-control"@, "no-cache"@),
        ]);
    }
    TunnelMessage::http_response_with_id(
        tunnel_id,
        client_id,
        status,
        status_text,
        headers,
        Some(body),
        cloud_request_id,
    )
}

/// What the response frame for a forwarded request must look like, given
/// the outcome of the local call. Exactly one frame exists for every
/// outcome, and it always echoes the cloud request id.
pub open spec fn spec_response_for_outcome(
    outcome: ForwardOutcome,
    timeout_ms: u64,
    cloud_request_id: Seq<char>,
    r: TunnelMessage,
) -> bool {
    match outcome {
        ForwardOutcome::Success(resp) => r.message.payload matches MessagePayload::Http(
            HttpPayload::Response { status, status_text, headers, body, request_id },
        ) && status == resp.status && status_text@ == resp.status_text@ && headers_view(headers@)
            == spec_scrub_response_headers(headers_view(resp.headers@)) && (match (body,
            resp.body) {
            (Some(b), Some(rb)) => b@ == rb@,
            (None, None) => true,
            _ => false,
        }) && request_id@ == cloud_request_id,
        ForwardOutcome::ConnectError(msg) => spec_synthesized(
            r,
            503,
            "Local server is unreachable: "@ + msg@,
            cloud_request_id,
        ),
        ForwardOutcome::ServerError(msg) => spec_synthesized(
            r,
            502,
            "Local server error: "@ + msg@,
            cloud_request_id,
        ),
        ForwardOutcome::Timeout => spec_synthesized(
            r,
            504,
            "Local server did not respond within "@ + spec_decimal(timeout_ms as nat) + " ms"@,
            cloud_request_id,
        ),
    }
}

/// Whether `r` is the synthesized error response for a status and message.
pub open spec fn spec_synthesized(
    r: TunnelMessage,
    status: u16,
    msg: Seq<char>,
    cloud_request_id: Seq<char>,
) -> bool {
    r.message.payload matches MessagePayload::Http(HttpPayload::Response {
        status: s,
        status_text: st,
        headers: h,
        body: b,
        request_id: rid,
    }) && s == status && st@ == spec_status_text(status) && spec_error_headers(headers_view(h@))
        && (b matches Some(bytes) && bytes@ == encode_utf8(
        spec_error_html(status, spec_status_text(status), msg),
    )) && rid@ == cloud_request_id
}

/// Turns the outcome of one forwarded request into its single response
/// frame: the origin's response with scrubbed headers, or the synthesized
/// 503, 502 or 504 page. The frame always carries the request's cloud id.
pub fn response_for_outcome(
    tunnel_id: String,
    client_id: String,
    outcome: ForwardOutcome,
    timeout_ms: u64,
    cloud_request_id: String,
) -> (r: TunnelMessage)
    ensures
        spec_response_for_outcome(outcome, timeout_ms, cloud_request_id@, r),
        r.envelope.tunnel_id == tunnel_id,
        r.envelope.client_id == client_id,
{
    match outcome {
        ForwardOutcome::Success(resp) => {
            let scrubbed = filter_response_headers(resp.headers);
            TunnelMessage::http_response_with_id(
                tunnel_id,
                client_id,
                resp.status,
                resp.status_text,
                scrubbed,
                resp.body,
                cloud_request_id,
            )
        },
        ForwardOutcome::ConnectError(msg) => {
            let mut full = String::from_str("Local server is unreachable: ");
            full.append(msg.as_str());
            synthesize_error_response(tunnel_id, client_id, 503, full.as_str(), cloud_request_id)
        },
        ForwardOutcome::ServerError(msg) => {
            let mut full = String::from_str("Local server error: ");
            full.append(msg.as_str());
            synthesize_error_response(tunnel_id, client_id, 502, full.as_str(), cloud_request_id)
        },
        ForwardOutcome::Timeout => {
            let mut full = String::from_str("Local server did not respond within ");
            let dec = decimal_string(timeout_ms);
            full.append(dec.as_str());
            full.append(" ms");
            synthesize_error_response(tunnel_id, client_id, 504, full.as_str(), cloud_request_id)
        },
    }
}

/// Every outcome yields a response frame that echoes the request's cloud
/// id: the correlation half of the one-response-per-request law.
pub proof fn lemma_response_echoes_request_id(
    outcome: ForwardOutcome,
    timeout_ms: u64,
    cloud_request_id: Seq<char>,
    r: TunnelMessage,
)
    requires
        spec_response_for_outcome(outcome, timeout_ms, cloud_request_id, r),
    ensures
        crate::frame::spec_payload_request_id(r.message.payload) == Some(cloud_request_id),
{
}

/// Counters for the proxy forwarder. The running total of response times
/// supports the average without fractional arithmetic.
pub struct ProxyStats {
    pub requests_processed: u64,
    pub requests_successful: u64,
    pub requests_failed: u64,
    pub bytes_forwarded: u64,
    pub active_requests: u64,
    pub total_response_time_ms: u64,
}

impl Default for ProxyStats {
    /// Fresh counters, all zero.
    fn default() -> (r: Self)
        ensures
            r.requests_processed == 0,
            r.requests_successful == 0,
            r.requests_failed == 0,
            r.bytes_forwarded == 0,
            r.active_requests == 0,
            r.total_response_time_ms == 0,
    {
        ProxyStats {
            requests_processed: 0,
            requests_successful: 0,
            requests_failed: 0,
            bytes_forwarded: 0,
            active_requests: 0,
            total_response_time_ms: 0,
        }
    }
}

impl ProxyStats {
    /// Mean response time in whole milliseconds; zero before the first
    /// request.
    pub fn average_response_time_ms(&self) -> (r: u64)
        ensures
            self.requests_processed == 0 ==> r == 0,
            self.requests_processed > 0 ==> r as int == self.total_response_time_ms as int
                / self.requests_processed as int,
    {
        if self.requests_processed == 0 {
            0
        } else {
            self.total_response_time_ms / self.requests_processed
        }
    }

    /// Marks a request in flight.
    pub fn begin_request(&mut self)
        ensures
            final(self).active_requests as int == vstd::math::min(
                old(self).active_requests as int + 1,
                u64::MAX as int,
            ),
            *final(self) == (ProxyStats {
                active_requests: final(self).active_requests,
                ..*old(self)
            }),
    {
        self.active_requests = self.active_requests.saturating_add(1);
    }

    /// Records a completed forward: success or failure, its duration, and
    /// the response body size on success.
    pub fn finish_request(&mut self, success: bool, duration_ms: u64, body_len: u64)
        ensures
            final(self).requests_processed as int == vstd::math::min(
                old(self).requests_processed as int + 1,
                u64::MAX as int,
            ),
            success ==> ({
                &&& final(self).requests_successful as int == vstd::math::min(
                    old(self).requests_successful as int + 1,
                    u64::MAX as int,
                )
                &&& final(self).requests_failed == old(self).requests_failed
                &&& final(self).bytes_forwarded as int == vstd::math::min(
                    old(self).bytes_forwarded as int + body_len as int,
                    u64::MAX as int,
                )
            }),
            !success ==> ({
                &&& final(self).requests_failed as int == vstd::math::min(
                    old(self).requests_failed as int + 1,
                    u64::MAX as int,
                )
                &&& final(self).requests_successful == old(self).requests_successful
                &&& final(self).bytes_forwarded == old(self).bytes_forwarded
            }),
            final(self).active_requests as int == vstd::math::max(
                old(self).active_requests as int - 1,
                0,
            ),
            final(self).total_response_time_ms as int == vstd::math::min(
                old(self).total_response_time_ms as int + duration_ms as int,
                u64::MAX as int,
            ),
    {
        self.requests_processed = self.requests_processed.saturating_add(1);
        if success {
            self.requests_successful = self.requests_successful.saturating_add(1);
            self.bytes_forwarded = self.bytes_forwarded.saturating_add(body_len);
        } else {
            self.requests_failed = self.requests_failed.saturating_add(1);
        }
        self.active_requests = self.active_requests.saturating_sub(1);
        self.total_response_time_ms = self.total_response_time_ms.saturating_add(duration_ms);
    }
}

/// Prepares one incoming request for the local origin: the request target
/// derived from the frame URL, the hop-by-hop headers stripped, and the
/// tracking headers ensured.
pub fn prepare_origin_request(
    url: &str,
    headers: Vec<(String, String)>,
    cloud_request_id: &str,
    client_name: &str,
) -> (r: (String, Vec<(String, String)>))
    ensures
        r.0@ == spec_extract_path(url@),
        ({
            let scrubbed = crate::headers::spec_scrub_request_headers(headers_view(headers@));
            let with_id = if crate::headers::spec_contains_name(scrubbed, "x-request-id"@) {
                scrubbed
            } else {
                scrubbed.push(("x-request-id"@, cloud_request_id@))
            };
            let with_by = if crate::headers::spec_contains_name(with_id, "x-forwarded-by"@) {
                with_id
            } else {
                with_id.push(("x-forwarded-by"@, client_name@))
            };
            headers_view(r.1@) == with_by
        }),
{
    let path = extract_path_from_url(url);
    let mut scrubbed = crate::headers::filter_headers(headers);
    crate::headers::ensure_tracking_headers(&mut scrubbed, cloud_request_id, client_name);
    (path, scrubbed)
}

} // verus!
