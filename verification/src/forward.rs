//! Classification of one upstream write attempt, and the fixed request
//! parts — authorization header value, write URL, content type — that
//! every attempt carries. A single attempt per point: no outcome is
//! retried, and none is fatal to the connection that produced it.
use vstd::prelude::*;
use vstd::string::*;

verus! {

/// The outcome of one upstream write attempt.
pub enum ForwardOutcome {
    /// The upstream responded with a success status.
    Delivered,
    /// The upstream responded with a non-success status; the body text is
    /// kept for diagnostics.
    Rejected { status: u16, body: String },
    /// The request could not complete at all (connect, timeout, and the
    /// like); the error text is kept for diagnostics.
    TransportFailure { message: String },
}

/// A success status of the upstream write protocol: any 2xx.
pub open spec fn is_success_status(status: int) -> bool {
    200 <= status < 300
}

/// Classify an upstream HTTP response: a 2xx status means the point was
/// delivered; any other status is a rejection that keeps status and body.
pub fn classify_response(status: u16, body: String) -> (out: ForwardOutcome)
    ensures
        is_success_status(status as int) ==> out is Delivered,
        !is_success_status(status as int) ==> (out matches ForwardOutcome::Rejected {
            status: s,
            body: b,
        } && s == status && b == body),
{
    if 200 <= status && status < 300 {
        ForwardOutcome::Delivered
    } else {
        ForwardOutcome::Rejected { status, body }
    }
}

/// The authorization header value of every upstream write: the word
/// "Token", one space, then the credential.
pub fn auth_header_value(token: &str) -> (r: String)
    ensures
        r@ == "Token "@ + token@,
{
    let mut out = String::from_str("Token ");
    out.append(token);
    out
}

/// The upstream write URL: the base, the write path, then organization,
/// bucket and nanosecond precision as query parameters.
pub fn build_write_url(base: &str, org: &str, bucket: &str) -> (r: String)
    ensures
        r@ == base@ + "/api/v2/write?org="@ + org@ + "&bucket="@ + bucket@ + "&precision=ns"@,
{
    let mut out = String::from_str(base);
    out.append("/api/v2/write?org=");
    out.append(org);
    out.append("&bucket=");
    out.append(bucket);
    out.append("&precision=ns");
    proof {
        assert(out@ =~= base@ + "/api/v2/write?org="@ + org@ + "&bucket="@ + bucket@
            + "&precision=ns"@);
    }
    out
}

/// The content type of every upstream write request.
pub fn content_type() -> (r: &'static str)
    ensures
        r@ == "text/plain; charset=utf-8"@,
{
    "text/plain; charset=utf-8"
}

} // verus!
