use telemetry_bridge::conn::conn_step;
use telemetry_bridge::conn::dispatch_line;
use telemetry_bridge::conn::ConnState;
use telemetry_bridge::conn::LineAction;
use telemetry_bridge::conn::ReadEvent;
use telemetry_bridge::reading::RejectReason;
use telemetry_bridge::reading::SensorReading;

fn valid_reading() -> SensorReading {
    SensorReading {
        timestamp: "2023-11-14T22:13:20Z".to_string(),
        sensor_id: "S1".to_string(),
        location: "Room A".to_string(),
        process_stage: "Ferment".to_string(),
        temperature_centi_c: 2550,
        humidity_centi_pct: 6020,
    }
}

const LINE: &str = "{\"timestamp\":\"2023-11-14T22:13:20Z\",\"sensor_id\":\"S1\"}";

#[test]
fn valid_line_is_delivered_and_echoed() {
    match dispatch_line(Some(valid_reading()), LINE) {
        LineAction::Deliver { point, echo, used_fallback } => {
            assert_eq!(
                point,
                "SHT20,sensor_id=S1,location=Room\\ A,process_stage=Ferment \
                 temperature_celsius=25.5,humidity_percent=60.2 1700000000000000000"
            );
            assert_eq!(echo, format!("{}\n", LINE));
            assert!(!used_fallback);
        }
        _ => panic!("a valid reading must be delivered"),
    }
}

#[test]
fn out_of_range_reading_is_dropped_with_reason() {
    let mut r = valid_reading();
    r.humidity_centi_pct = 10010;
    match dispatch_line(Some(r), LINE) {
        LineAction::DropInvalid { reason } => {
            assert_eq!(reason, RejectReason::HumidityOutOfRange);
        }
        _ => panic!("an out-of-range reading must be dropped"),
    }
}

#[test]
fn undecodable_line_is_dropped_as_malformed() {
    match dispatch_line(None, "not json") {
        LineAction::DropMalformed => {}
        _ => panic!("an undecodable line must be dropped as malformed"),
    }
}

#[test]
fn handler_keeps_reading_after_a_malformed_line() {
    let (state, action) = conn_step(
        ConnState::Reading,
        ReadEvent::Line { line: "not json".to_string(), decoded: None },
    );
    assert!(matches!(state, ConnState::Reading));
    assert!(matches!(action, Some(LineAction::DropMalformed)));
    // The connection is still open: the next valid line goes through.
    let (state, action) = conn_step(
        state,
        ReadEvent::Line { line: LINE.to_string(), decoded: Some(valid_reading()) },
    );
    assert!(matches!(state, ConnState::Reading));
    assert!(matches!(action, Some(LineAction::Deliver { .. })));
}

#[test]
fn eof_closes_the_connection() {
    let (state, action) = conn_step(ConnState::Reading, ReadEvent::Eof);
    assert!(matches!(state, ConnState::Closed));
    assert!(action.is_none());
}

#[test]
fn read_error_closes_the_connection() {
    let (state, action) = conn_step(ConnState::Reading, ReadEvent::ReadError);
    assert!(matches!(state, ConnState::Closed));
    assert!(action.is_none());
}

#[test]
fn closed_connection_stays_closed() {
    let (state, action) = conn_step(
        ConnState::Closed,
        ReadEvent::Line { line: LINE.to_string(), decoded: Some(valid_reading()) },
    );
    assert!(matches!(state, ConnState::Closed));
    assert!(action.is_none());
}
