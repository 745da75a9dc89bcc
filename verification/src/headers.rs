//! Header hygiene for forwarded requests and returned responses: the
//! hop-by-hop strip lists, case-insensitive name matching, the tracking
//! headers added on the way to the local origin, and request validation.
//!
//! A header map is an ordered list of `(name, value)` pairs.

use vstd::prelude::*;

verus! {

/// ASCII lowercasing of one character; everything outside `A`..`Z` is kept.
pub open spec fn spec_lower_char(c: char) -> char {
    if 'A' <= c && c <= 'Z' {
        ((c as u8) + 32) as char
    } else {
        c
    }
}

/// Case-insensitive equality of two character sequences, ASCII case folding.
pub open spec fn spec_eq_ignore_case(a: Seq<char>, b: Seq<char>) -> bool {
    a.len() == b.len() && forall|i: int|
        0 <= i < a.len() ==> spec_lower_char(a[i]) == spec_lower_char(b[i])
}

pub fn lower_char(c: char) -> (r: char)
    ensures
        r == spec_lower_char(c),
{
    if 'A' <= c && c <= 'Z' {
        ((c as u8) + 32) as char
    } else {
        c
    }
}

/// Case-insensitive string equality, ASCII case folding.
pub fn str_eq_ignore_case(a: &str, b: &str) -> (r: bool)
    ensures
        r == spec_eq_ignore_case(a@, b@),
{
    let alen = a.unicode_len();
    let blen = b.unicode_len();
    if alen != blen {
        return false;
    }
    let mut i: usize = 0;
    while i < alen
        invariant
            alen == a@.len(),
            blen == b@.len(),
            alen == blen,
            i <= alen,
            forall|j: int| 0 <= j < i ==> spec_lower_char(a@[j]) == spec_lower_char(b@[j]),
        decreases alen - i,
    {
        let ca = a.get_char(i);
        let cb = b.get_char(i);
        if lower_char(ca) != lower_char(cb) {
            return false;
        }
        i = i + 1;
    }
    true
}

/// Whether `name` begins with `prefix`, ASCII case-insensitively.
pub open spec fn spec_starts_with_ignore_case(name: Seq<char>, prefix: Seq<char>) -> bool {
    name.len() >= prefix.len() && forall|i: int|
        0 <= i < prefix.len() ==> spec_lower_char(name[i]) == spec_lower_char(prefix[i])
}

pub fn str_starts_with_ignore_case(name: &str, prefix: &str) -> (r: bool)
    ensures
        r == spec_starts_with_ignore_case(name@, prefix@),
{
    let nlen = name.unicode_len();
    let plen = prefix.unicode_len();
    if nlen < plen {
        return false;
    }
    let mut i: usize = 0;
    while i < plen
        invariant
            nlen == name@.len(),
            plen == prefix@.len(),
            plen <= nlen,
            i <= plen,
            forall|j: int| 0 <= j < i ==> spec_lower_char(name@[j]) == spec_lower_char(prefix@[j]),
        decreases plen - i,
    {
        let cn = name.get_char(i);
        let cp = prefix.get_char(i);
        if lower_char(cn) != lower_char(cp) {
            return false;
        }
        i = i + 1;
    }
    true
}

/// The hop-by-hop and ambiguous names stripped from a request before it is
/// forwarded to the local origin.
pub open spec fn spec_is_request_skip(name: Seq<char>) -> bool {
    ||| spec_eq_ignore_case(name, "host"@)
    ||| spec_eq_ignore_case(name, "connection"@)
    ||| spec_eq_ignore_case(name, "upgrade"@)
    ||| spec_eq_ignore_case(name, "proxy-connection"@)
    ||| spec_eq_ignore_case(name, "proxy-authorization"@)
    ||| spec_eq_ignore_case(name, "te"@)
    ||| spec_eq_ignore_case(name, "trailers"@)
    ||| spec_eq_ignore_case(name, "transfer-encoding"@)
    ||| spec_eq_ignore_case(name, "content-length"@)
}

/// Whether a request header is dropped before forwarding.
pub fn should_skip_header(name: &str) -> (r: bool)
    ensures
        r == spec_is_request_skip(name@),
{
    str_eq_ignore_case(name, "host") || str_eq_ignore_case(name, "connection")
        || str_eq_ignore_case(name, "upgrade")
        || str_eq_ignore_case(name, "proxy-connection")
        || str_eq_ignore_case(name, "proxy-authorization") || str_eq_ignore_case(name, "te")
        || str_eq_ignore_case(name, "trailers")
        || str_eq_ignore_case(name, "transfer-encoding")
        || str_eq_ignore_case(name, "content-length")
}

/// The names stripped from the origin's response before it is returned to
/// the cloud: the hop-by-hop set, the server identification headers, and
/// every `x-forwarded-*` tracking header.
pub open spec fn spec_is_response_skip(name: Seq<char>) -> bool {
    ||| spec_is_request_skip(name)
    ||| spec_eq_ignore_case(name, "server"@)
    ||| spec_eq_ignore_case(name, "x-powered-by"@)
    ||| spec_eq_ignore_case(name, "x-request-id"@)
    ||| spec_starts_with_ignore_case(name, "x-forwarded-"@)
}

/// Whether a response header is dropped before the response goes back to
/// the cloud.
pub fn should_skip_response_header(name: &str) -> (r: bool)
    ensures
        r == spec_is_response_skip(name@),
{
    should_skip_header(name) || str_eq_ignore_case(name, "server")
        || str_eq_ignore_case(name, "x-powered-by") || str_eq_ignore_case(name, "x-request-id")
        || str_starts_with_ignore_case(name, "x-forwarded-")
}

/// View of a header list as a sequence of `(name, value)` character pairs.
pub open spec fn headers_view(headers: Seq<(String, String)>) -> Seq<(Seq<char>, Seq<char>)> {
    headers.map(|i: int, p: (String, String)| (p.0@, p.1@))
}

/// The request header list after the hygiene scrub, as a view.
pub open spec fn spec_scrub_request_headers(
    hv: Seq<(Seq<char>, Seq<char>)>,
) -> Seq<(Seq<char>, Seq<char>)> {
    hv.filter(|p: (Seq<char>, Seq<char>)| !spec_is_request_skip(p.0))
}

/// The response header list after the hygiene scrub, as a view.
pub open spec fn spec_scrub_response_headers(
    hv: Seq<(Seq<char>, Seq<char>)>,
) -> Seq<(Seq<char>, Seq<char>)> {
    hv.filter(|p: (Seq<char>, Seq<char>)| !spec_is_response_skip(p.0))
}

/// Drops every request-skip header, keeping the rest in order.
pub fn filter_headers(headers: Vec<(String, String)>) -> (r: Vec<(String, String)>)
    ensures
        headers_view(r@) == spec_scrub_request_headers(headers_view(headers@)),
{
    let ghost hv = headers_view(headers@);
    let mut r: Vec<(String, String)> = Vec::new();
    let mut i: usize = 0;
    proof {
        reveal(Seq::filter);
        assert(hv.take(0) =~= Seq::<(Seq<char>, Seq<char>)>::empty());
        assert(headers_view(r@) =~= Seq::<(Seq<char>, Seq<char>)>::empty());
    }
    while i < headers.len()
        invariant
            i <= headers.len(),
            hv == headers_view(headers@),
            headers_view(r@) == spec_scrub_request_headers(hv.take(i as int)),
        decreases headers.len() - i,
    {
        let ghost prefix = hv.take(i as int);
        let ghost prefix1 = hv.take(i + 1);
        let ghost old_r = headers_view(r@);
        proof {
            reveal(Seq::filter);
            assert(prefix1.drop_last() =~= prefix);
            assert(prefix1.last() == hv[i as int]);
        }
        let name = headers[i].0.clone();
        let value = headers[i].1.clone();
        if !should_skip_header(name.as_str()) {
            r.push((name, value));
            proof {
                assert(headers_view(r@) =~= old_r.push((headers@[i as int].0@,
                    headers@[i as int].1@)));
                assert(headers_view(r@) =~= spec_scrub_request_headers(prefix1));
            }
        } else {
            proof {
                assert(headers_view(r@) =~= spec_scrub_request_headers(prefix1));
            }
        }
        i = i + 1;
    }
    proof {
        assert(hv.take(headers@.len() as int) =~= hv);
    }
    r
}

/// Drops every response-skip header, keeping the rest in order.
pub fn filter_response_headers(headers: Vec<(String, String)>) -> (r: Vec<(String, String)>)
    ensures
        headers_view(r@) == spec_scrub_response_headers(headers_view(headers@)),
{
    let ghost hv = headers_view(headers@);
    let mut r: Vec<(String, String)> = Vec::new();
    let mut i: usize = 0;
    proof {
        reveal(Seq::filter);
        assert(hv.take(0) =~= Seq::<(Seq<char>, Seq<char>)>::empty());
        assert(headers_view(r@) =~= Seq::<(Seq<char>, Seq<char>)>::empty());
    }
    while i < headers.len()
        invariant
            i <= headers.len(),
            hv == headers_view(headers@),
            headers_view(r@) == spec_scrub_response_headers(hv.take(i as int)),
        decreases headers.len() - i,
    {
        let ghost prefix = hv.take(i as int);
        let ghost prefix1 = hv.take(i + 1);
        let ghost old_r = headers_view(r@);
        proof {
            reveal(Seq::filter);
            assert(prefix1.drop_last() =~= prefix);
            assert(prefix1.last() == hv[i as int]);
        }
        let name = headers[i].0.clone();
        let value = headers[i].1.clone();
        if !should_skip_response_header(name.as_str()) {
            r.push((name, value));
            proof {
                assert(headers_view(r@) =~= old_r.push((headers@[i as int].0@,
                    headers@[i as int].1@)));
                assert(headers_view(r@) =~= spec_scrub_response_headers(prefix1));
            }
        } else {
            proof {
                assert(headers_view(r@) =~= spec_scrub_response_headers(prefix1));
            }
        }
        i = i + 1;
    }
    proof {
        assert(hv.take(headers@.len() as int) =~= hv);
    }
    r
}

/// Whether some header in the list has the given name, ASCII
/// case-insensitively.
pub open spec fn spec_contains_name(headers: Seq<(Seq<char>, Seq<char>)>, name: Seq<char>) -> bool {
    exists|i: int| 0 <= i < headers.len() && spec_eq_ignore_case(headers[i].0, name)
}

/// Case-insensitive lookup of a header name.
pub fn contains_header(headers: &Vec<(String, String)>, name: &str) -> (r: bool)
    ensures
        r == spec_contains_name(headers_view(headers@), name@),
{
    let mut i: usize = 0;
    while i < headers.len()
        invariant
            i <= headers.len(),
            forall|j: int| 0 <= j < i ==> !spec_eq_ignore_case(headers_view(headers@)[j].0, name@),
        decreases headers.len() - i,
    {
        if str_eq_ignore_case(headers[i].0.as_str(), name) {
            proof {
                assert(spec_eq_ignore_case(headers_view(headers@)[i as int].0, name@));
            }
            return true;
        }
        i = i + 1;
    }
    false
}

/// Adds the end-to-end tracking headers before a request is handed to the
/// local origin: `x-request-id` carrying the cloud's request id, and
/// `x-forwarded-by` naming this client — each only when no header of that
/// name (case-insensitively) is present already.
pub fn ensure_tracking_headers(
    headers: &mut Vec<(String, String)>,
    request_id: &str,
    client_name: &str,
)
    ensures
        ({
            let hv = headers_view(old(headers)@);
            let with_id = if spec_contains_name(hv, "x-request-id"@) {
                hv
            } else {
                hv.push(("x-request-id"@, request_id@))
            };
            let with_by = if spec_contains_name(with_id, "x-forwarded-by"@) {
                with_id
            } else {
                with_id.push(("x-forwarded-by"@, client_name@))
            };
            headers_view(final(headers)@) == with_by
        }),
{
    let ghost hv = headers_view(headers@);
    if !contains_header(headers, "x-request-id") {
        let pair = (new_string("x-request-id"), request_id.to_owned());
        headers.push(pair);
        proof {
            assert(headers_view(headers@) =~= hv.push(("x-request-id"@, request_id@)));
        }
    }
    let ghost mid = headers_view(headers@);
    if !contains_header(headers, "x-forwarded-by") {
        let pair = (new_string("x-forwarded-by"), client_name.to_owned());
        headers.push(pair);
        proof {
            assert(headers_view(headers@) =~= mid.push(("x-forwarded-by"@, client_name@)));
        }
    }
}

fn new_string(s: &str) -> (r: String)
    ensures
        r@ == s@,
{
    s.to_owned()
}

/// Why an incoming HTTP request frame was rejected before dispatch.
#[derive(Clone, Copy, Debug, PartialEq, Eq, Structural)]
pub enum ValidationError {
    InvalidMethod,
    EmptyUrl,
    EmptyHeaderName,
    InvalidHeaderName,
    InvalidHeaderValue,
}

/// The standard HTTP methods, matched case-insensitively.
pub open spec fn spec_valid_method(m: Seq<char>) -> bool {
    ||| spec_eq_ignore_case(m, "GET"@)
    ||| spec_eq_ignore_case(m, "POST"@)
    ||| spec_eq_ignore_case(m, "PUT"@)
    ||| spec_eq_ignore_case(m, "DELETE"@)
    ||| spec_eq_ignore_case(m, "HEAD"@)
    ||| spec_eq_ignore_case(m, "OPTIONS"@)
    ||| spec_eq_ignore_case(m, "PATCH"@)
    ||| spec_eq_ignore_case(m, "TRACE"@)
}

/// A character allowed in a header name: printable ASCII.
pub open spec fn spec_name_char_ok(c: char) -> bool {
    (c as int) >= 0x20 && (c as int) < 0x7f
}

/// A character allowed in a header value: ASCII, and neither CR nor LF.
pub open spec fn spec_value_char_ok(c: char) -> bool {
    (c as int) < 0x80 && c != '\r' && c != '\n'
}

/// Header names are ASCII without control characters; emptiness is
/// checked separately.
pub open spec fn spec_valid_header_name(n: Seq<char>) -> bool {
    forall|i: int| 0 <= i < n.len() ==> spec_name_char_ok(#[trigger] n[i])
}

/// Header values are ASCII and carry no CR or LF.
pub open spec fn spec_valid_header_value(v: Seq<char>) -> bool {
    forall|i: int| 0 <= i < v.len() ==> spec_value_char_ok(#[trigger] v[i])
}

/// The first defect in the header list, scanning in order; names are
/// checked before values within one pair.
pub open spec fn spec_validate_headers(
    hv: Seq<(Seq<char>, Seq<char>)>,
) -> Result<(), ValidationError>
    decreases hv.len(),
{
    if hv.len() == 0 {
        Ok(())
    } else if hv[0].0.len() == 0 {
        Err(ValidationError::EmptyHeaderName)
    } else if !spec_valid_header_name(hv[0].0) {
        Err(ValidationError::InvalidHeaderName)
    } else if !spec_valid_header_value(hv[0].1) {
        Err(ValidationError::InvalidHeaderValue)
    } else {
        spec_validate_headers(hv.drop_first())
    }
}

/// The validation verdict on a whole request: method first, then URL, then
/// the headers in order.
pub open spec fn spec_validate_request(
    method: Seq<char>,
    url: Seq<char>,
    hv: Seq<(Seq<char>, Seq<char>)>,
) -> Result<(), ValidationError> {
    if !spec_valid_method(method) {
        Err(ValidationError::InvalidMethod)
    } else if url.len() == 0 {
        Err(ValidationError::EmptyUrl)
    } else {
        spec_validate_headers(hv)
    }
}

fn valid_header_name(n: &str) -> (r: bool)
    ensures
        r == spec_valid_header_name(n@),
{
    let len = n.unicode_len();
    let mut i: usize = 0;
    while i < len
        invariant
            len == n@.len(),
            i <= len,
            forall|j: int| 0 <= j < i ==> spec_name_char_ok(#[trigger] n@[j]),
        decreases len - i,
    {
        let c = n.get_char(i);
        if c < '\u{20}' || c >= '\u{7f}' {
            return false;
        }
        i = i + 1;
    }
    true
}

fn valid_header_value(v: &str) -> (r: bool)
    ensures
        r == spec_valid_header_value(v@),
{
    let len = v.unicode_len();
    let mut i: usize = 0;
    while i < len
        invariant
            len == v@.len(),
            i <= len,
            forall|j: int| 0 <= j < i ==> spec_value_char_ok(#[trigger] v@[j]),
        decreases len - i,
    {
        let c = v.get_char(i);
        if c >= '\u{80}' || c == '\r' || c == '\n' {
            return false;
        }
        i = i + 1;
    }
    true
}

/// Checks an incoming request frame before dispatch: known HTTP method,
/// nonempty URL, and well-formed header names and values.
pub fn validate_http_request(
    method: &str,
    url: &str,
    headers: &Vec<(String, String)>,
) -> (r: Result<(), ValidationError>)
    ensures
        r == spec_validate_request(method@, url@, headers_view(headers@)),
{
    let valid_method = str_eq_ignore_case(method, "GET") || str_eq_ignore_case(method, "POST")
        || str_eq_ignore_case(method, "PUT") || str_eq_ignore_case(method, "DELETE")
        || str_eq_ignore_case(method, "HEAD") || str_eq_ignore_case(method, "OPTIONS")
        || str_eq_ignore_case(method, "PATCH") || str_eq_ignore_case(method, "TRACE");
    if !valid_method {
        return Err(ValidationError::InvalidMethod);
    }
    if url.unicode_len() == 0 {
        return Err(ValidationError::EmptyUrl);
    }
    let ghost hv = headers_view(headers@);
    proof {
        assert(hv.skip(0) =~= hv);
    }
    let mut i: usize = 0;
    while i < headers.len()
        invariant
            i <= headers.len(),
            hv == headers_view(headers@),
            spec_valid_method(method@),
            url@.len() > 0,
            spec_validate_headers(hv) == spec_validate_headers(hv.skip(i as int)),
        decreases headers.len() - i,
    {
        let ghost rest = hv.skip(i as int);
        proof {
            assert(rest.len() > 0);
            assert(hv[i as int] == (headers@[i as int].0@, headers@[i as int].1@));
            assert(rest[0] == hv[i as int]);
            assert(rest.drop_first() =~= hv.skip(i + 1));
        }
        let name = &headers[i].0;
        let value = &headers[i].1;
        if name.as_str().unicode_len() == 0 {
            return Err(ValidationError::EmptyHeaderName);
        }
        if !valid_header_name(name.as_str()) {
            return Err(ValidationError::InvalidHeaderName);
        }
        if !valid_header_value(value.as_str()) {
            return Err(ValidationError::InvalidHeaderValue);
        }
        i = i + 1;
    }
    proof {
        assert(hv.skip(headers@.len() as int) =~= Seq::<(Seq<char>, Seq<char>)>::empty());
    }
    Ok(())
}

/// Every header that survives the request scrub is outside the hop-by-hop
/// strip list; in particular none of `host`, `connection`, `upgrade`,
/// `proxy-connection`, `proxy-authorization`, `te`, `trailers`,
/// `transfer-encoding` or `content-length` is ever forwarded.
pub proof fn lemma_forwarded_headers_scrubbed(headers: Seq<(Seq<char>, Seq<char>)>)
    ensures
        ({
            let kept = spec_scrub_request_headers(headers);
            forall|i: int| 0 <= i < kept.len() ==> !spec_is_request_skip(#[trigger] kept[i].0)
        }),
{
    let pred = |p: (Seq<char>, Seq<char>)| !spec_is_request_skip(p.0);
    let kept = headers.filter(pred);
    assert forall|i: int| 0 <= i < kept.len() implies !spec_is_request_skip(kept[i].0) by {
        headers.lemma_filter_pred(pred, i);
    }
}

/// The same holds of the response scrub: nothing in the strip list — the
/// hop-by-hop names, `server`, `x-powered-by`, `x-request-id`, or any
/// `x-forwarded-*` name — survives it.
pub proof fn lemma_response_headers_scrubbed(headers: Seq<(Seq<char>, Seq<char>)>)
    ensures
        ({
            let kept = spec_scrub_response_headers(headers);
            forall|i: int| 0 <= i < kept.len() ==> !spec_is_response_skip(#[trigger] kept[i].0)
        }),
{
    let pred = |p: (Seq<char>, Seq<char>)| !spec_is_response_skip(p.0);
    let kept = headers.filter(pred);
    assert forall|i: int| 0 <= i < kept.len() implies !spec_is_response_skip(kept[i].0) by {
        headers.lemma_filter_pred(pred, i);
    }
}

} // verus!
