//! The per-connection handler's decisions: what to do with each received
//! line, and when the connection ends. The caller owns the sockets and
//! the decode of each line; every decision about a line's fate is made
//! here.
use vstd::prelude::*;
use vstd::string::*;
use crate::encode::encode_point;
use crate::encode::encoded_line;
use crate::reading::reading_in_range;
use crate::reading::spec_reject_reason;
use crate::reading::validate_reading;
use crate::reading::RejectReason;
use crate::reading::SensorReading;
use crate::timestamp::resolve_timestamp;
use crate::timestamp::rfc3339_nanos;

verus! {

/// What the handler does with one received line.
pub enum LineAction {
    /// The line did not decode as a reading: drop it, no forward, no echo.
    DropMalformed,
    /// The reading lies outside physical bounds: drop it, no forward, no
    /// echo, with the reason for the audit channel.
    DropInvalid { reason: RejectReason },
    /// Forward the encoded point upstream, then echo the original line,
    /// terminator restored, back to the client whatever the forward
    /// outcome was.
    Deliver { point: String, echo: String, used_fallback: bool },
}

/// What dispatching one line must produce: an undecodable line is
/// dropped as malformed; an out-of-range reading is dropped with its
/// reason; a valid reading becomes its encoded point at its resolved
/// timestamp, echoing the original line with a newline terminator.
pub open spec fn dispatch_spec(
    decoded: Option<SensorReading>,
    line: Seq<char>,
    a: LineAction,
) -> bool {
    match decoded {
        Option::None => a is DropMalformed,
        Option::Some(r) => {
            if !reading_in_range(r.temperature_centi_c as int, r.humidity_centi_pct as int) {
                a matches LineAction::DropInvalid { reason } && reason == spec_reject_reason(
                    r.temperature_centi_c as int,
                    r.humidity_centi_pct as int,
                )
            } else {
                a matches LineAction::Deliver { point, echo, used_fallback } && echo@ == line
                    + "\n"@ && used_fallback == (rfc3339_nanos(r.timestamp@) is None) && (match
                rfc3339_nanos(r.timestamp@) {
                    Option::Some(n) => point@ == encoded_line(r, n as int),
                    Option::None => exists|n: i64| point@ == encoded_line(r, n as int),
                })
            }
        },
    }
}

/// The acknowledgment text for one accepted line: the original bytes
/// with the newline terminator restored.
pub fn ack_line(line: &str) -> (r: String)
    ensures
        r@ == line@ + "\n"@,
{
    let mut out = String::from_str(line);
    out.append("\n");
    out
}

/// Decide the fate of one received line. The decode attempt is the
/// caller's (the JSON layer's); this function is total for every value
/// of it, so a failed decode or a bad reading never fails the handler.
pub fn dispatch_line(decoded: Option<SensorReading>, line: &str) -> (a: LineAction)
    ensures
        dispatch_spec(decoded, line@, a),
{
    match decoded {
        None => LineAction::DropMalformed,
        Some(r) => {
            match validate_reading(&r) {
                Some(reason) => LineAction::DropInvalid { reason },
                None => {
                    let resolved = resolve_timestamp(r.timestamp.as_str());
                    let point = encode_point(&r, resolved.nanos);
                    let echo = ack_line(line);
                    proof {
                        assert(point@ == encoded_line(r, resolved.nanos as int));
                    }
                    LineAction::Deliver { point, echo, used_fallback: resolved.used_fallback }
                },
            }
        },
    }
}

/// The states of one connection: reading the next line, or closed for
/// good.
pub enum ConnState {
    Reading,
    Closed,
}

/// What the connection's read half produced.
pub enum ReadEvent {
    /// One complete line, with the caller's attempt to decode it.
    Line { line: String, decoded: Option<SensorReading> },
    /// End of stream: the peer closed; terminal.
    Eof,
    /// An unrecoverable read error; terminal.
    ReadError,
}

/// One step of the connection handler's state machine: end of stream and
/// read errors close the connection; a received line is dispatched and
/// reading goes on. Echo write failures are tolerated by the caller and
/// never enter the state; a closed connection stays closed.
pub fn conn_step(state: ConnState, event: ReadEvent) -> (r: (ConnState, Option<LineAction>))
    ensures
        state is Closed ==> r.0 is Closed && r.1 is None,
        state is Reading ==> match event {
            ReadEvent::Line { line, decoded } => r.0 is Reading && (r.1 matches Some(a)
                && dispatch_spec(decoded, line@, a)),
            ReadEvent::Eof => r.0 is Closed && r.1 is None,
            ReadEvent::ReadError => r.0 is Closed && r.1 is None,
        },
{
    match state {
        ConnState::Closed => (ConnState::Closed, None),
        ConnState::Reading => match event {
            ReadEvent::Line { line, decoded } => {
                let a = dispatch_line(decoded, line.as_str());
                (ConnState::Reading, Some(a))
            },
            ReadEvent::Eof => (ConnState::Closed, None),
            ReadEvent::ReadError => (ConnState::Closed, None),
        },
    }
}

} // verus!
