use telemetry_bridge::reading::RejectReason;
use telemetry_bridge::reading::SensorReading;
use telemetry_bridge::reading::validate_reading;

fn reading(temp_centi: i64, humidity_centi: i64) -> SensorReading {
    SensorReading {
        timestamp: "2023-11-14T22:13:20Z".to_string(),
        sensor_id: "S1".to_string(),
        location: "Room A".to_string(),
        process_stage: "Ferment".to_string(),
        temperature_centi_c: temp_centi,
        humidity_centi_pct: humidity_centi,
    }
}

#[test]
fn temperature_boundaries_are_valid() {
    assert_eq!(validate_reading(&reading(-4000, 5000)), None);
    assert_eq!(validate_reading(&reading(12500, 5000)), None);
}

#[test]
fn temperature_just_beyond_boundaries_is_invalid() {
    assert_eq!(
        validate_reading(&reading(-4010, 5000)),
        Some(RejectReason::TemperatureOutOfRange)
    );
    assert_eq!(
        validate_reading(&reading(12510, 5000)),
        Some(RejectReason::TemperatureOutOfRange)
    );
}

#[test]
fn humidity_boundaries_are_valid() {
    assert_eq!(validate_reading(&reading(2000, 0)), None);
    assert_eq!(validate_reading(&reading(2000, 10000)), None);
}

#[test]
fn humidity_just_beyond_boundaries_is_invalid() {
    assert_eq!(
        validate_reading(&reading(2000, -10)),
        Some(RejectReason::HumidityOutOfRange)
    );
    assert_eq!(
        validate_reading(&reading(2000, 10010)),
        Some(RejectReason::HumidityOutOfRange)
    );
}

#[test]
fn temperature_is_reported_before_humidity() {
    assert_eq!(
        validate_reading(&reading(20000, 20000)),
        Some(RejectReason::TemperatureOutOfRange)
    );
}
