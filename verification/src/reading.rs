//! The ingested measurement and the validity policy that decides whether
//! it may be forwarded upstream.
use vstd::prelude::*;

verus! {

/// One ingested sensor measurement. The physical values are held in
/// hundredths (centi-degrees Celsius and centi-percent relative
/// humidity), the resolution the sensor reports.
#[derive(Debug)]
pub struct SensorReading {
    /// Producer-supplied time of measurement, expected RFC 3339; not trusted.
    pub timestamp: String,
    pub sensor_id: String,
    pub location: String,
    pub process_stage: String,
    /// Temperature, in hundredths of a degree Celsius.
    pub temperature_centi_c: i64,
    /// Relative humidity, in hundredths of a percent.
    pub humidity_centi_pct: i64,
}

/// Lowest acceptable temperature: -40.00 degrees Celsius, in hundredths.
pub const TEMP_MIN_CENTI: i64 = -4000;

/// Highest acceptable temperature: 125.00 degrees Celsius, in hundredths.
pub const TEMP_MAX_CENTI: i64 = 12500;

/// Lowest acceptable relative humidity: 0.00 percent, in hundredths.
pub const HUMIDITY_MIN_CENTI: i64 = 0;

/// Highest acceptable relative humidity: 100.00 percent, in hundredths.
pub const HUMIDITY_MAX_CENTI: i64 = 10000;

/// The temperature lies within the sensor's physical bounds.
pub open spec fn temperature_in_range(temp_centi: int) -> bool {
    TEMP_MIN_CENTI <= temp_centi <= TEMP_MAX_CENTI
}

/// The humidity lies within the sensor's physical bounds.
pub open spec fn humidity_in_range(humidity_centi: int) -> bool {
    HUMIDITY_MIN_CENTI <= humidity_centi <= HUMIDITY_MAX_CENTI
}

/// A reading whose two physical values both lie within bounds; only such
/// readings are ever forwarded.
pub open spec fn reading_in_range(temp_centi: int, humidity_centi: int) -> bool {
    temperature_in_range(temp_centi) && humidity_in_range(humidity_centi)
}

/// Why a reading was rejected.
#[derive(Clone, Copy, Debug, PartialEq, Eq, Structural)]
pub enum RejectReason {
    TemperatureOutOfRange,
    HumidityOutOfRange,
}

/// The reason an out-of-range reading is rejected for: the temperature
/// bound is checked first.
pub open spec fn spec_reject_reason(temp_centi: int, humidity_centi: int) -> RejectReason {
    if !temperature_in_range(temp_centi) {
        RejectReason::TemperatureOutOfRange
    } else {
        RejectReason::HumidityOutOfRange
    }
}

/// Decide whether a reading lies within the sensor's physical bounds:
/// `None` for a valid reading, otherwise the reason it is rejected.
pub fn validate_reading(r: &SensorReading) -> (res: Option<RejectReason>)
    ensures
        res is None <==> reading_in_range(
            r.temperature_centi_c as int,
            r.humidity_centi_pct as int,
        ),
        !reading_in_range(r.temperature_centi_c as int, r.humidity_centi_pct as int) ==> res
            == Some(
            spec_reject_reason(r.temperature_centi_c as int, r.humidity_centi_pct as int),
        ),
{
    if r.temperature_centi_c < TEMP_MIN_CENTI || r.temperature_centi_c > TEMP_MAX_CENTI {
        Some(RejectReason::TemperatureOutOfRange)
    } else if r.humidity_centi_pct < HUMIDITY_MIN_CENTI || r.humidity_centi_pct
        > HUMIDITY_MAX_CENTI {
        Some(RejectReason::HumidityOutOfRange)
    } else {
        None
    }
}

} // verus!
