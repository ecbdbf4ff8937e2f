//! Assembly of one line-protocol point: fixed measurement name, the
//! three tags escaped and in fixed order, the two fields in fixed order,
//! then the resolved timestamp. Tags are escaped; field values are not —
//! the wire format's own asymmetry.
use vstd::prelude::*;
use vstd::string::*;
use crate::escape::escape_tag;
use crate::escape::escaped;
use crate::numfmt::centi_dec;
use crate::numfmt::centi_to_dec;
use crate::numfmt::dec_int;
use crate::numfmt::i64_to_dec;
use crate::reading::SensorReading;

verus! {

/// The line-protocol text for one point, from its parts: measurement,
/// escaped tags, decimal fields, and the timestamp, all in fixed order.
pub open spec fn line_of(
    sensor_id: Seq<char>,
    location: Seq<char>,
    process_stage: Seq<char>,
    temperature_centi_c: int,
    humidity_centi_pct: int,
    ts_ns: int,
) -> Seq<char> {
    "SHT20,sensor_id="@ + escaped(sensor_id) + ",location="@ + escaped(location)
        + ",process_stage="@ + escaped(process_stage) + " temperature_celsius="@ + centi_dec(
        temperature_centi_c,
    ) + ",humidity_percent="@ + centi_dec(humidity_centi_pct) + " "@ + dec_int(ts_ns)
}

/// The encoded line of a whole reading at a resolved timestamp.
pub open spec fn encoded_line(r: SensorReading, ts_ns: int) -> Seq<char> {
    line_of(
        r.sensor_id@,
        r.location@,
        r.process_stage@,
        r.temperature_centi_c as int,
        r.humidity_centi_pct as int,
        ts_ns,
    )
}

/// Encode one validated reading and its resolved timestamp as the wire
/// line sent upstream.
pub fn encode_point(r: &SensorReading, ts_ns: i64) -> (line: String)
    ensures
        line@ == encoded_line(*r, ts_ns as int),
{
    let mut out = String::from_str("SHT20,sensor_id=");
    let tag_sensor = escape_tag(r.sensor_id.as_str());
    out.append(tag_sensor.as_str());
    out.append(",location=");
    let tag_location = escape_tag(r.location.as_str());
    out.append(tag_location.as_str());
    out.append(",process_stage=");
    let tag_stage = escape_tag(r.process_stage.as_str());
    out.append(tag_stage.as_str());
    out.append(" temperature_celsius=");
    let field_temp = centi_to_dec(r.temperature_centi_c);
    out.append(field_temp.as_str());
    out.append(",humidity_percent=");
    let field_humidity = centi_to_dec(r.humidity_centi_pct);
    out.append(field_humidity.as_str());
    out.append(" ");
    let ts = i64_to_dec(ts_ns);
    out.append(ts.as_str());
    proof {
        assert(out@ =~= encoded_line(*r, ts_ns as int));
    }
    out
}

} // verus!
