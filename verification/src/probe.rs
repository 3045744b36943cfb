use vstd::prelude::*;

use crate::config::Target;
use crate::health::HealthCheck;
use vstd::string::StringSliceAdditionalSpecFns;

verus! {

/// The HTTP methods a probe can be configured to use.
#[derive(Clone, Copy, Debug, PartialEq, Eq, Structural)]
pub enum HttpMethod {
    Get,
    Post,
    Put,
    Delete,
    Head,
    Options,
    Patch,
}

/// An ASCII lower-case letter mapped to upper case; any other byte unchanged.
pub open spec fn ascii_upper(b: u8) -> u8 {
    if 97 <= b <= 122 {
        (b - 32) as u8
    } else {
        b
    }
}

/// A byte sequence with every ASCII lower-case letter mapped to upper case.
pub open spec fn upper_bytes(s: Seq<u8>) -> Seq<u8> {
    s.map_values(|b: u8| ascii_upper(b))
}

pub open spec fn bytes3(u: Seq<u8>, a: u8, b: u8, c: u8) -> bool {
    u.len() == 3 && u[0] == a && u[1] == b && u[2] == c
}

pub open spec fn bytes4(u: Seq<u8>, a: u8, b: u8, c: u8, d: u8) -> bool {
    u.len() == 4 && u[0] == a && u[1] == b && u[2] == c && u[3] == d
}

pub open spec fn bytes5(u: Seq<u8>, a: u8, b: u8, c: u8, d: u8, e: u8) -> bool {
    u.len() == 5 && u[0] == a && u[1] == b && u[2] == c && u[3] == d && u[4] == e
}

pub open spec fn bytes6(u: Seq<u8>, a: u8, b: u8, c: u8, d: u8, e: u8, f: u8) -> bool {
    u.len() == 6 && u[0] == a && u[1] == b && u[2] == c && u[3] == d && u[4] == e && u[5] == f
}

pub open spec fn bytes7(u: Seq<u8>, a: u8, b: u8, c: u8, d: u8, e: u8, f: u8, g: u8) -> bool {
    u.len() == 7 && u[0] == a && u[1] == b && u[2] == c && u[3] == d && u[4] == e && u[5] == f
        && u[6] == g
}

/// Which method a configured method string selects: the string is read
/// case-insensitively, and anything unrecognised falls back to GET. The byte
/// values spell GET, POST, PUT, DELETE, HEAD, OPTIONS and PATCH.
pub open spec fn method_of(bytes: Seq<u8>) -> HttpMethod {
    let u = upper_bytes(bytes);
    if bytes3(u, 71, 69, 84) {
        HttpMethod::Get
    } else if bytes4(u, 80, 79, 83, 84) {
        HttpMethod::Post
    } else if bytes3(u, 80, 85, 84) {
        HttpMethod::Put
    } else if bytes6(u, 68, 69, 76, 69, 84, 69) {
        HttpMethod::Delete
    } else if bytes4(u, 72, 69, 65, 68) {
        HttpMethod::Head
    } else if bytes7(u, 79, 80, 84, 73, 79, 78, 83) {
        HttpMethod::Options
    } else if bytes5(u, 80, 65, 84, 67, 72) {
        HttpMethod::Patch
    } else {
        HttpMethod::Get
    }
}

fn ascii_upper_byte(b: u8) -> (r: u8)
    ensures
        r == ascii_upper(b),
{
    if 97 <= b && b <= 122 {
        b - 32
    } else {
        b
    }
}

fn upper_bytes_vec(s: &[u8]) -> (r: Vec<u8>)
    ensures
        r@ == upper_bytes(s@),
{
    let mut r: Vec<u8> = Vec::new();
    let mut i: usize = 0;
    while i < s.len()
        invariant
            i <= s@.len(),
            r@ =~= upper_bytes(s@).take(i as int),
        decreases s@.len() - i,
    {
        r.push(ascii_upper_byte(s[i]));
        i = i + 1;
        proof {
            assert(r@ =~= upper_bytes(s@).take(i as int));
        }
    }
    proof {
        assert(upper_bytes(s@).take(s@.len() as int) =~= upper_bytes(s@));
    }
    r
}

/// The HTTP method named by a target's configured method string,
/// case-insensitively, with GET as the fallback for anything unrecognised.
pub fn parse_method(method: &str) -> (m: HttpMethod)
    ensures
        m == method_of(method.spec_bytes()),
{
    let bytes = method.as_bytes();
    let up = upper_bytes_vec(bytes);
    if up.len() == 3 && up[0] == 71 && up[1] == 69 && up[2] == 84 {
        HttpMethod::Get
    } else if up.len() == 4 && up[0] == 80 && up[1] == 79 && up[2] == 83 && up[3] == 84 {
        HttpMethod::Post
    } else if up.len() == 3 && up[0] == 80 && up[1] == 85 && up[2] == 84 {
        HttpMethod::Put
    } else if up.len() == 6 && up[0] == 68 && up[1] == 69 && up[2] == 76 && up[3] == 69 && up[4]
        == 84 && up[5] == 69 {
        HttpMethod::Delete
    } else if up.len() == 4 && up[0] == 72 && up[1] == 69 && up[2] == 65 && up[3] == 68 {
        HttpMethod::Head
    } else if up.len() == 7 && up[0] == 79 && up[1] == 80 && up[2] == 84 && up[3] == 73 && up[4]
        == 79 && up[5] == 78 && up[6] == 83 {
        HttpMethod::Options
    } else if up.len() == 5 && up[0] == 80 && up[1] == 65 && up[2] == 84 && up[3] == 67 && up[4]
        == 72 {
        HttpMethod::Patch
    } else {
        HttpMethod::Get
    }
}

/// Whether a status code counts as expected: a member of the configured list,
/// or, with an empty list, any 2xx code.
pub open spec fn spec_status_ok(expected: Seq<u16>, code: u16) -> bool {
    if expected.len() == 0 {
        200 <= code < 300
    } else {
        expected.contains(code)
    }
}

/// Whether a response status code satisfies the target's expectations.
pub fn status_is_expected(expected: &Vec<u16>, code: u16) -> (r: bool)
    ensures
        r == spec_status_ok(expected@, code),
{
    if expected.len() == 0 {
        200 <= code && code < 300
    } else {
        let mut i: usize = 0;
        while i < expected.len()
            invariant
                i <= expected@.len(),
                forall|j: int| 0 <= j < i ==> expected@[j] != code,
            decreases expected@.len() - i,
        {
            if expected[i] == code {
                return true;
            }
            i = i + 1;
        }
        assert(!expected@.contains(code));
        false
    }
}

/// Whether a byte sequence occurs contiguously inside another.
pub open spec fn bytes_contain(hay: Seq<u8>, needle: Seq<u8>) -> bool {
    exists|i: int|
        0 <= i <= hay.len() - needle.len() && #[trigger] hay.subrange(i, i + needle.len())
            == needle
}

fn match_at(hay: &[u8], needle: &[u8], at: usize) -> (r: bool)
    requires
        at + needle@.len() <= hay@.len(),
    ensures
        r == (hay@.subrange(at as int, at + needle@.len()) == needle@),
{
    let nlen: usize = needle.len();
    let hlen: usize = hay.len();
    let mut j: usize = 0;
    while j < nlen
        invariant
            j <= nlen,
            nlen == needle@.len(),
            hlen == hay@.len(),
            at + nlen <= hlen,
            forall|j2: int| 0 <= j2 < j ==> hay@[at + j2] == needle@[j2],
        decreases nlen - j,
    {
        if hay[at + j] != needle[j] {
            proof {
                if hay@.subrange(at as int, at + needle@.len()) == needle@ {
                    assert(hay@.subrange(at as int, at + needle@.len())[j as int] == needle@[
                        j as int]);
                }
            }
            return false;
        }
        j = j + 1;
    }
    proof {
        assert(hay@.subrange(at as int, at + needle@.len()) =~= needle@);
    }
    true
}

/// Whether one string's text occurs inside another's, compared over their
/// UTF-8 bytes.
pub fn content_contains(body: &str, pattern: &str) -> (r: bool)
    ensures
        r == bytes_contain(body.spec_bytes(), pattern.spec_bytes()),
{
    let hay = body.as_bytes();
    let needle = pattern.as_bytes();
    let hlen: usize = hay.len();
    let nlen: usize = needle.len();
    if nlen > hlen {
        return false;
    }
    if nlen == 0 {
        proof {
            assert(hay@.subrange(0, 0 + needle@.len() as int) =~= needle@);
        }
        return true;
    }
    let mut i: usize = 0;
    while i <= hlen - nlen
        invariant
            hay@ == body.spec_bytes(),
            needle@ == pattern.spec_bytes(),
            nlen == needle@.len(),
            hlen == hay@.len(),
            0 < nlen <= hlen,
            i <= hlen - nlen + 1,
            forall|i2: int|
                0 <= i2 < i ==> #[trigger] hay@.subrange(i2, i2 + needle@.len()) != needle@,
        decreases hlen - nlen + 1 - i,
    {
        if match_at(hay, needle, i) {
            proof {
                assert(hay@.subrange(i as int, i as int + needle@.len()) == needle@);
            }
            return true;
        }
        i = i + 1;
    }
    false
}

/// Whether a header mapping already carries a User-Agent entry, under either
/// of the two spellings the prober looks for.
pub open spec fn has_user_agent(headers: Seq<(String, String)>) -> bool {
    exists|i: int|
        0 <= i < headers.len() && ((#[trigger] headers[i].0)@ == "User-Agent"@ || headers[i].0@
            == "user-agent"@)
}

/// Whether the prober must add a User-Agent header of its own before sending.
pub fn needs_user_agent(headers: &Vec<(String, String)>) -> (r: bool)
    ensures
        r == !has_user_agent(headers@),
{
    let canonical: String = "User-Agent".to_owned();
    let lower: String = "user-agent".to_owned();
    let mut i: usize = 0;
    while i < headers.len()
        invariant
            i <= headers@.len(),
            canonical@ == "User-Agent"@,
            lower@ == "user-agent"@,
            forall|j: int|
                0 <= j < i ==> !((#[trigger] headers@[j].0)@ == "User-Agent"@ || headers@[j].0@
                    == "user-agent"@),
        decreases headers@.len() - i,
    {
        let key = &headers[i].0;
        if *key == canonical || *key == lower {
            return false;
        }
        i = i + 1;
    }
    true
}

/// Whether a URL names an HTTPS endpoint: its UTF-8 bytes begin with the
/// eight bytes of "https://".
pub open spec fn is_https_url(b: Seq<u8>) -> bool {
    b.len() >= 8 && b[0] == 104 && b[1] == 116 && b[2] == 116 && b[3] == 112 && b[4] == 115
        && b[5] == 58 && b[6] == 47 && b[7] == 47
}

pub fn is_https(url: &str) -> (r: bool)
    ensures
        r == is_https_url(url.spec_bytes()),
{
    let b = url.as_bytes();
    b.len() >= 8 && b[0] == 104 && b[1] == 116 && b[2] == 116 && b[3] == 112 && b[4] == 115
        && b[5] == 58 && b[6] == 47 && b[7] == 47
}

/// Certificate-expiry inspection is a stub collaborator: it always answers
/// "unknown". A genuine TLS inspector sits outside the monitoring core.
pub fn check_cert_expiry(_url: &str) -> (r: Option<u32>)
    ensures
        r is None,
{
    None
}

/// What came back from reading a response body.
pub enum BodyOutcome {
    /// No expected-content substring is configured, so the body was not read.
    NotRequested,
    /// The body was read in full.
    Read(String),
    /// Reading the body failed; the message describes how.
    ReadFailed(String),
}

/// What one HTTP probe produced, as plain values: either a response with its
/// status code and (possibly) its body, or a network-level failure.
pub enum ProbeOutcome {
    Response { status_code: u16, body: BodyOutcome },
    NetworkError { message: String },
}

/// Whether the configured expected-content requirement is met by what the
/// body read produced. With no requirement it is met vacuously; a failed body
/// read never meets it.
pub open spec fn spec_content_ok(expected: Option<String>, body: BodyOutcome) -> bool {
    match expected {
        None => true,
        Some(p) => match body {
            BodyOutcome::Read(b) => bytes_contain(
                vstd::utf8::encode_utf8(b@),
                vstd::utf8::encode_utf8(p@),
            ),
            _ => false,
        },
    }
}

/// Turn one probe outcome into the immutable HealthCheck record, applying the
/// success criterion: the status code must satisfy the target's expectations
/// and, where an expected-content substring is configured, the body must
/// contain it. Network-level failures yield success == false with no status
/// code and a descriptive error; they are never fatal.
pub fn classify_probe(target: &Target, outcome: &ProbeOutcome, timestamp_ms: u64, elapsed_ms: u64)
    -> (hc: HealthCheck)
    requires
        (outcome matches ProbeOutcome::Response { body, .. } ==> (target.expected_content is None
            <==> body is NotRequested)),
    ensures
        hc.target == target.name,
        hc.timestamp_ms == timestamp_ms,
        hc.response_time_ms == elapsed_ms,
        hc.cert_expires_days is None,
        (match *outcome {
            ProbeOutcome::NetworkError { message } => {
                &&& hc.success == false
                &&& hc.status_code is None
                &&& hc.error matches Some(e) && e@ == message@
            },
            ProbeOutcome::Response { status_code, body } => {
                &&& hc.status_code == Some(status_code)
                &&& hc.success == (spec_status_ok(target.expected_status@, status_code)
                    && spec_content_ok(target.expected_content, body))
                &&& (match body {
                    BodyOutcome::Read(b) => {
                        if spec_content_ok(target.expected_content, body) {
                            hc.error is None
                        } else {
                            hc.error matches Some(e) && e@ == "Expected content '"@
                                + target.expected_content->0@ + "' not found in response"@
                        }
                    },
                    BodyOutcome::ReadFailed(m) => hc.error matches Some(e) && e@
                        == "Failed to read response body: "@ + m@,
                    BodyOutcome::NotRequested => hc.error is None,
                })
            },
        }),
{
    match outcome {
        ProbeOutcome::NetworkError { message } => HealthCheck {
            target: target.name.clone(),
            timestamp_ms,
            success: false,
            status_code: None,
            response_time_ms: elapsed_ms,
            error: Some(message.clone()),
            cert_expires_days: None,
        },
        ProbeOutcome::Response { status_code, body } => {
            let status_ok = status_is_expected(&target.expected_status, *status_code);
            let mut content_ok = true;
            let mut error: Option<String> = None;
            match (&target.expected_content, body) {
                (Some(p), BodyOutcome::Read(b)) => {
                    if !content_contains(b.as_str(), p.as_str()) {
                        content_ok = false;
                        error = Some(
                            "Expected content '".to_owned().concat(p.as_str()).concat(
                                "' not found in response",
                            ),
                        );
                    }
                },
                (Some(_), BodyOutcome::ReadFailed(m)) => {
                    content_ok = false;
                    error = Some("Failed to read response body: ".to_owned().concat(m.as_str()));
                },
                _ => {},
            }
            let cert_expires_days = if is_https(target.url.as_str()) {
                check_cert_expiry(target.url.as_str())
            } else {
                None
            };
            HealthCheck {
                target: target.name.clone(),
                timestamp_ms,
                success: status_ok && content_ok,
                status_code: Some(*status_code),
                response_time_ms: elapsed_ms,
                error,
                cert_expires_days,
            }
        },
    }
}

/// Whether the prober must read the response body for this target at all: it
/// reads the body only when an expected-content substring is configured.
pub fn body_required(target: &Target) -> (r: bool)
    ensures
        r == (target.expected_content is Some),
{
    match &target.expected_content {
        Some(_) => true,
        None => false,
    }
}

} // verus!
