//! Resolution of producer-supplied timestamp strings into nanosecond
//! epoch values, with the wall clock as the fallback for strings that do
//! not parse.
use vstd::prelude::*;

verus! {

/// The nanosecond epoch value an RFC 3339 timestamp string denotes, when
/// it parses and the instant fits in i64 nanoseconds; a function of the
/// string alone.
pub uninterp spec fn rfc3339_nanos(s: Seq<char>) -> Option<i64>;

/// Relies on chrono::DateTime::parse_from_rfc3339 and
/// chrono::DateTime::timestamp_nanos_opt: both are functions of the
/// string alone, so the call returns the string's nanosecond value —
/// `None` when the string is not valid RFC 3339 or the instant does not
/// fit in i64 nanoseconds.
#[verifier::external_body]
fn parse_rfc3339_nanos(s: &str) -> (r: Option<i64>)
    ensures
        r == rfc3339_nanos(s@),
{
    match chrono::DateTime::parse_from_rfc3339(s) {
        Ok(dt) => dt.timestamp_nanos_opt(),
        Err(_) => None,
    }
}

/// Relies on chrono::Utc::now and chrono::DateTime::timestamp_nanos_opt:
/// a wall-clock reading in nanoseconds since the epoch. Nothing is
/// assumed of the value; zero stands in if the clock ever leaves the i64
/// nanosecond range.
#[verifier::external_body]
fn now_nanos() -> i64 {
    chrono::Utc::now().timestamp_nanos_opt().unwrap_or(0)
}

/// A resolved timestamp: the nanosecond epoch value, and whether the
/// wall clock had to stand in for the producer's string.
pub struct ResolvedTimestamp {
    pub nanos: i64,
    pub used_fallback: bool,
}

/// Resolve a producer-supplied timestamp string: its RFC 3339 value when
/// it has one, else the current wall-clock time. Total: an unparseable
/// string is a recoverable condition, never a failure.
pub fn resolve_timestamp(s: &str) -> (r: ResolvedTimestamp)
    ensures
        r.used_fallback == (rfc3339_nanos(s@) is None),
        rfc3339_nanos(s@) matches Some(n) ==> r.nanos == n,
{
    match parse_rfc3339_nanos(s) {
        Some(n) => ResolvedTimestamp { nanos: n, used_fallback: false },
        None => ResolvedTimestamp { nanos: now_nanos(), used_fallback: true },
    }
}

} // verus!
