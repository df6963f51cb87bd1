use std::time::{SystemTime, UNIX_EPOCH};

use chrono::DateTime;

use env_logger::clock::{
    local_time_string, MAX_CALENDAR_SECS, MAX_DISPLAY_SECS, MIN_CALENDAR_SECS,
};
use env_logger::record::{RecordFormatError, SensorRecord};

fn decoded(json: &str) -> SensorRecord {
    match SensorRecord::from_json_at(json, 1_700_000_000_000) {
        Ok(record) => record,
        Err(error) => panic!("{} is refused: {:?}", json, error),
    }
}

fn refused(json: &str) -> RecordFormatError {
    match SensorRecord::from_json_at(json, 1_700_000_000_000) {
        Ok(record) => panic!("{} is accepted: {:?}", json, record),
        Err(error) => error,
    }
}

fn number(bits: Option<u64>) -> Option<f64> {
    bits.map(f64::from_bits)
}

fn wall_clock_millis() -> u64 {
    SystemTime::now().duration_since(UNIX_EPOCH).unwrap().as_millis() as u64
}

#[test]
fn example_payload_over_the_stream() {
    let before = wall_clock_millis();
    let record = SensorRecord::from_json("{\"location\":\"lab-1\",\"temperature\":21.5}").unwrap();
    let after = wall_clock_millis();
    assert_eq!(record.location(), "lab-1");
    assert_eq!(record.device_id(), None);
    assert_eq!(number(record.temperature()), Some(21.5));
    assert_eq!(record.temperature().map(|bits| f64::from_bits(bits) as f32), Some(21.5f32));
    assert_eq!(record.humidity(), None);
    assert_eq!(record.air_pressure(), None);
    assert!(before <= record.timestamp());
    assert!(record.timestamp() <= after);
}

#[test]
fn every_field_is_taken_from_the_payload() {
    let record = decoded(
        "{\"location\":\"roof\",\"device_id\":\"esp-07\",\"temperature\":-3.25,\
         \"humidity\":81,\"air_pressure\":1013.5}",
    );
    assert_eq!(record.location(), "roof");
    assert_eq!(record.device_id(), Some(String::from("esp-07")));
    assert_eq!(record.timestamp(), 1_700_000_000_000);
    assert_eq!(number(record.temperature()), Some(-3.25));
    assert_eq!(number(record.humidity()), Some(81.0));
    assert_eq!(number(record.air_pressure()), Some(1013.5));
}

#[test]
fn the_time_of_reception_is_the_timestamp() {
    let json = "{\"location\":\"lab-1\"}";
    assert_eq!(SensorRecord::from_json_at(json, 0).unwrap().timestamp(), 0);
    assert_eq!(SensorRecord::from_json_at(json, 42).unwrap().timestamp(), 42);
    assert_eq!(SensorRecord::from_json_at(json, u64::MAX).unwrap().timestamp(), u64::MAX);
}

#[test]
fn a_timestamp_in_the_payload_is_ignored() {
    let plain = decoded("{\"location\":\"lab-1\",\"humidity\":40.5}");
    let claimed = decoded("{\"location\":\"lab-1\",\"timestamp\":12345,\"humidity\":40.5}");
    assert_eq!(claimed.timestamp(), 1_700_000_000_000);
    assert_eq!(claimed, plain);
    let odd = decoded("{\"location\":\"lab-1\",\"timestamp\":\"yesterday\",\"humidity\":40.5}");
    assert_eq!(odd, plain);
}

#[test]
fn unknown_fields_are_ignored() {
    let plain = decoded("{\"location\":\"lab-1\",\"temperature\":21.5}");
    let extra = decoded(
        "{\"firmware\":\"1.2.3\",\"location\":\"lab-1\",\"battery\":{\"volts\":3.3},\
         \"temperature\":21.5,\"tags\":[1,2,3],\"note\":null}",
    );
    assert_eq!(extra, plain);
}

#[test]
fn missing_location_is_refused() {
    assert_eq!(refused("{}"), RecordFormatError::MissingLocation);
    assert_eq!(refused("{\"temperature\":21.5}"), RecordFormatError::MissingLocation);
    assert_eq!(
        refused("{\"device_id\":\"esp-07\",\"humidity\":40,\"Location\":\"lab-1\"}"),
        RecordFormatError::MissingLocation
    );
}

#[test]
fn location_must_be_a_string() {
    assert_eq!(refused("{\"location\":null}"), RecordFormatError::InvalidLocation);
    assert_eq!(refused("{\"location\":5}"), RecordFormatError::InvalidLocation);
    assert_eq!(refused("{\"location\":[\"lab-1\"]}"), RecordFormatError::InvalidLocation);
    assert_eq!(refused("{\"location\":true}"), RecordFormatError::InvalidLocation);
}

#[test]
fn location_must_not_be_empty() {
    assert_eq!(refused("{\"location\":\"\"}"), RecordFormatError::EmptyLocation);
    assert_eq!(decoded("{\"location\":\" \"}").location(), " ");
}

#[test]
fn payload_must_be_json() {
    assert_eq!(refused(""), RecordFormatError::Syntax);
    assert_eq!(refused("lab-1"), RecordFormatError::Syntax);
    assert_eq!(refused("{\"location\":\"lab-1\""), RecordFormatError::Syntax);
    assert_eq!(refused("{\"location\":\"lab-1\"} trailing"), RecordFormatError::Syntax);
    assert_eq!(refused("{\"location\":\"lab-1\",}"), RecordFormatError::Syntax);
    assert_eq!(refused("{'location':'lab-1'}"), RecordFormatError::Syntax);
}

#[test]
fn payload_must_be_an_object() {
    assert_eq!(refused("[\"lab-1\"]"), RecordFormatError::NotAnObject);
    assert_eq!(refused("\"lab-1\""), RecordFormatError::NotAnObject);
    assert_eq!(refused("21.5"), RecordFormatError::NotAnObject);
    assert_eq!(refused("null"), RecordFormatError::NotAnObject);
    assert_eq!(refused("true"), RecordFormatError::NotAnObject);
}

#[test]
fn device_id_must_be_a_string_or_null() {
    assert_eq!(decoded("{\"location\":\"lab-1\",\"device_id\":null}").device_id(), None);
    assert_eq!(
        decoded("{\"location\":\"lab-1\",\"device_id\":\"\"}").device_id(),
        Some(String::new())
    );
    assert_eq!(
        refused("{\"location\":\"lab-1\",\"device_id\":7}"),
        RecordFormatError::InvalidDeviceId
    );
    assert_eq!(
        refused("{\"location\":\"lab-1\",\"device_id\":{\"id\":\"x\"}}"),
        RecordFormatError::InvalidDeviceId
    );
}

#[test]
fn measurements_must_be_numbers_or_null() {
    let nulls = decoded(
        "{\"location\":\"lab-1\",\"temperature\":null,\"humidity\":null,\"air_pressure\":null}",
    );
    assert_eq!(nulls.temperature(), None);
    assert_eq!(nulls.humidity(), None);
    assert_eq!(nulls.air_pressure(), None);
    assert_eq!(
        refused("{\"location\":\"lab-1\",\"temperature\":\"21.5\"}"),
        RecordFormatError::InvalidTemperature
    );
    assert_eq!(
        refused("{\"location\":\"lab-1\",\"humidity\":true}"),
        RecordFormatError::InvalidHumidity
    );
    assert_eq!(
        refused("{\"location\":\"lab-1\",\"air_pressure\":[1013]}"),
        RecordFormatError::InvalidAirPressure
    );
}

#[test]
fn the_first_fault_in_field_order_is_reported() {
    assert_eq!(
        refused("{\"air_pressure\":\"x\",\"humidity\":\"x\",\"temperature\":\"x\",\"device_id\":1}"),
        RecordFormatError::MissingLocation
    );
    assert_eq!(
        refused(
            "{\"air_pressure\":\"x\",\"humidity\":\"x\",\"temperature\":\"x\",\"device_id\":1,\
             \"location\":\"lab-1\"}"
        ),
        RecordFormatError::InvalidDeviceId
    );
    assert_eq!(
        refused("{\"air_pressure\":\"x\",\"humidity\":\"x\",\"temperature\":\"x\",\"location\":\"l\"}"),
        RecordFormatError::InvalidTemperature
    );
    assert_eq!(
        refused("{\"air_pressure\":\"x\",\"humidity\":\"x\",\"location\":\"l\"}"),
        RecordFormatError::InvalidHumidity
    );
}

#[test]
fn numbers_of_every_shape_are_measurements() {
    let record = decoded(
        "{\"location\":\"lab-1\",\"temperature\":-40,\"humidity\":1e2,\"air_pressure\":0}",
    );
    assert_eq!(number(record.temperature()), Some(-40.0));
    assert_eq!(number(record.humidity()), Some(100.0));
    assert_eq!(number(record.air_pressure()), Some(0.0));
    let large = decoded("{\"location\":\"lab-1\",\"temperature\":18446744073709551615}");
    assert_eq!(number(large.temperature()), Some(18446744073709551615u64 as f64));
}

#[test]
fn from_value_reads_a_parsed_document() {
    let doc = serde_json::from_str::<serde_json::Value>(
        "{\"location\":\"cellar\",\"device_id\":\"d1\",\"humidity\":55.5}",
    )
    .unwrap();
    let record = SensorRecord::from_value(&doc, 99).unwrap();
    assert_eq!(record.location(), "cellar");
    assert_eq!(record.device_id(), Some(String::from("d1")));
    assert_eq!(record.timestamp(), 99);
    assert_eq!(record.temperature(), None);
    assert_eq!(number(record.humidity()), Some(55.5));
    assert_eq!(
        SensorRecord::from_value(&serde_json::Value::Null, 99),
        Err(RecordFormatError::NotAnObject)
    );
    assert_eq!(
        SensorRecord::from_value(&serde_json::Value::Array(Vec::new()), 99),
        Err(RecordFormatError::NotAnObject)
    );
}

#[test]
fn from_json_fails_as_from_json_at_does() {
    assert_eq!(SensorRecord::from_json("{\"temperature\":1}"), Err(RecordFormatError::MissingLocation));
    assert_eq!(SensorRecord::from_json("not json"), Err(RecordFormatError::Syntax));
    assert_eq!(SensorRecord::from_json("[]"), Err(RecordFormatError::NotAnObject));
}

#[test]
fn format_error_messages() {
    assert_eq!(RecordFormatError::Syntax.message(), "payload is not a JSON document");
    assert_eq!(RecordFormatError::NotAnObject.message(), "payload is not a JSON object");
    assert_eq!(RecordFormatError::MissingLocation.message(), "missing field `location`");
    assert_eq!(RecordFormatError::InvalidLocation.message(), "field `location` is not a string");
    assert_eq!(RecordFormatError::EmptyLocation.message(), "field `location` is empty");
    assert_eq!(RecordFormatError::InvalidDeviceId.message(), "field `device_id` is not a string");
    assert_eq!(
        RecordFormatError::InvalidTemperature.message(),
        "field `temperature` is not a number"
    );
    assert_eq!(RecordFormatError::InvalidHumidity.message(), "field `humidity` is not a number");
    assert_eq!(
        RecordFormatError::InvalidAirPressure.message(),
        "field `air_pressure` is not a number"
    );
}

#[test]
fn render_lists_what_the_record_has() {
    let full = decoded(
        "{\"location\":\"roof\",\"device_id\":\"esp-07\",\"temperature\":-3.25,\
         \"humidity\":81,\"air_pressure\":1013.5}",
    );
    assert_eq!(
        full.render("2023-11-14 22:13:20 UTC", "-3.2", "81.0", "1013.5"),
        "\"roof\",2023-11-14 22:13:20 UTC,esp-07,-3.2\u{00b0}C,81.0%,1013.5hpa"
    );
    let bare = decoded("{\"location\":\"roof\"}");
    assert_eq!(bare.render("now", "1", "2", "3"), "\"roof\",now,");
    let one = decoded("{\"location\":\"roof\",\"humidity\":81}");
    assert_eq!(one.render("now", "1", "2", "3"), "\"roof\",now,2%");
    let two = decoded("{\"location\":\"roof\",\"temperature\":1,\"air_pressure\":3}");
    assert_eq!(two.render("now", "1.0", "2.0", "3.0"), "\"roof\",now,1.0\u{00b0}C,3.0hpa");
    let named = decoded("{\"location\":\"roof\",\"device_id\":\"d\"}");
    assert_eq!(named.render("now", "", "", ""), "\"roof\",now,d");
}

#[test]
fn to_string_writes_the_local_time() {
    let record = decoded("{\"location\":\"roof\",\"temperature\":21.5}");
    let time = local_time_string(1_700_000_000_000).unwrap();
    assert!(!time.is_empty());
    assert_eq!(
        record.to_string("21.5", "", ""),
        Some(format!("\"roof\",{},21.5\u{00b0}C", time))
    );
}

#[test]
fn local_time_covers_the_years_to_9999() {
    assert!(local_time_string(0).is_some());
    assert!(local_time_string(999).is_some());
    assert!(local_time_string(1_700_000_000_123).is_some());
    let last = (MAX_DISPLAY_SECS as u64) * 1000 + 999;
    assert!(local_time_string(last).is_some());
    assert_ne!(local_time_string(0), local_time_string(86_400_000));
    assert_eq!(local_time_string(u64::MAX), None);
}

#[test]
fn to_string_is_none_beyond_the_calendar() {
    let record = SensorRecord::from_json_at("{\"location\":\"roof\"}", u64::MAX).unwrap();
    assert_eq!(record.to_string("", "", ""), None);
}

#[test]
fn local_time_keeps_the_milliseconds() {
    let text = local_time_string(1_700_000_000_123).unwrap();
    assert!(text.contains(".123"), "{}", text);
    let whole = local_time_string(1_700_000_000_000).unwrap();
    assert!(!whole.contains(".123"), "{}", whole);
    assert_ne!(text, whole);
    assert_ne!(local_time_string(1_700_000_001_000), local_time_string(1_700_000_000_000));
}

#[test]
fn local_time_ends_with_the_calendar() {
    let last = (MAX_CALENDAR_SECS as u64) * 1000 + 999;
    assert!(local_time_string(last).is_some());
    assert!(local_time_string(last - 999).is_some());
    assert_eq!(local_time_string(last + 1), None);
    assert_eq!(local_time_string(last + 1000), None);
    let record = SensorRecord::from_json_at("{\"location\":\"roof\"}", last).unwrap();
    assert!(record.to_string("", "", "").is_some());
    let beyond = SensorRecord::from_json_at("{\"location\":\"roof\"}", last + 1).unwrap();
    assert_eq!(beyond.to_string("", "", ""), None);
}

#[test]
fn the_calendar_is_chronos() {
    assert!(DateTime::<chrono::Utc>::from_timestamp(MAX_CALENDAR_SECS, 999_999_999).is_some());
    assert!(DateTime::<chrono::Utc>::from_timestamp(MAX_CALENDAR_SECS + 1, 0).is_none());
    assert!(DateTime::<chrono::Utc>::from_timestamp(MIN_CALENDAR_SECS, 0).is_some());
    assert!(DateTime::<chrono::Utc>::from_timestamp(MIN_CALENDAR_SECS - 1, 999_999_999).is_none());
    assert!(DateTime::<chrono::Utc>::from_timestamp(MAX_DISPLAY_SECS, 0).is_some());
    assert!(DateTime::<chrono::Utc>::from_timestamp(0, 1_000_000_000).is_none());
    assert!(DateTime::<chrono::Utc>::from_timestamp(58, 1_000_000_000).is_none());
    assert!(DateTime::<chrono::Utc>::from_timestamp(59, 1_000_000_000).is_some());
    assert!(DateTime::<chrono::Utc>::from_timestamp(59, 1_999_999_999).is_some());
    assert!(DateTime::<chrono::Utc>::from_timestamp(59, 2_000_000_000).is_none());
    assert!(DateTime::<chrono::Utc>::from_timestamp(-1, 1_500_000_000).is_some());
    assert!(DateTime::<chrono::Utc>::from_timestamp(-2, 1_500_000_000).is_none());
    assert!(DateTime::<chrono::Utc>::from_timestamp(-61, 1_000_000_000).is_some());
    assert!(DateTime::<chrono::Utc>::from_timestamp(86_399, 1_000_000_000).is_some());
    assert!(DateTime::<chrono::Utc>::from_timestamp(86_400, 1_000_000_000).is_none());
}
