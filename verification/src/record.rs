//! The sensor record and the rule by which a payload becomes one.

use vstd::prelude::*;
use vstd::string::*;

use crate::clock::{
    displayable, in_calendar, local_time_string, now_millis, subsecond_nanos, whole_seconds,
};
use crate::json::{
    as_text, has_member, is_null, is_object, json_model, member, number_bits, parse_value,
    parsed_json, JsonModel,
};
use crate::text::{join, joined, views};

verus! {

/// Why a payload is no record.
#[derive(Debug, Clone, Copy, PartialEq, Eq, Structural)]
pub enum RecordFormatError {
    /// The payload is not one complete JSON document.
    Syntax,
    /// The payload is a JSON document, but not an object.
    NotAnObject,
    /// The object has no `location`.
    MissingLocation,
    /// `location` is not a string.
    InvalidLocation,
    /// `location` is the empty string.
    EmptyLocation,
    /// `device_id` is neither a string nor null.
    InvalidDeviceId,
    /// `temperature` is neither a number nor null.
    InvalidTemperature,
    /// `humidity` is neither a number nor null.
    InvalidHumidity,
    /// `air_pressure` is neither a number nor null.
    InvalidAirPressure,
}

/// The text logged for an error.
pub open spec fn format_error_text(error: RecordFormatError) -> Seq<char> {
    match error {
        RecordFormatError::Syntax => "payload is not a JSON document"@,
        RecordFormatError::NotAnObject => "payload is not a JSON object"@,
        RecordFormatError::MissingLocation => "missing field `location`"@,
        RecordFormatError::InvalidLocation => "field `location` is not a string"@,
        RecordFormatError::EmptyLocation => "field `location` is empty"@,
        RecordFormatError::InvalidDeviceId => "field `device_id` is not a string"@,
        RecordFormatError::InvalidTemperature => "field `temperature` is not a number"@,
        RecordFormatError::InvalidHumidity => "field `humidity` is not a number"@,
        RecordFormatError::InvalidAirPressure => "field `air_pressure` is not a number"@,
    }
}

impl RecordFormatError {
    /// The text logged for the error.
    pub fn message(&self) -> (text: &'static str)
        ensures
            text@ == format_error_text(*self),
    {
        match self {
            RecordFormatError::Syntax => "payload is not a JSON document",
            RecordFormatError::NotAnObject => "payload is not a JSON object",
            RecordFormatError::MissingLocation => "missing field `location`",
            RecordFormatError::InvalidLocation => "field `location` is not a string",
            RecordFormatError::EmptyLocation => "field `location` is empty",
            RecordFormatError::InvalidDeviceId => "field `device_id` is not a string",
            RecordFormatError::InvalidTemperature => "field `temperature` is not a number",
            RecordFormatError::InvalidHumidity => "field `humidity` is not a number",
            RecordFormatError::InvalidAirPressure => "field `air_pressure` is not a number",
        }
    }
}

/// What a record holds. A measurement is the bit pattern of the
/// double-precision number that the payload gave.
pub struct RecordModel {
    pub location: Seq<char>,
    pub device_id: Option<Seq<char>>,
    pub timestamp: u64,
    pub temperature: Option<u64>,
    pub humidity: Option<u64>,
    pub air_pressure: Option<u64>,
}

impl RecordModel {
    /// A record names the place it comes from.
    pub open spec fn wf(self) -> bool {
        self.location.len() > 0
    }
}

/// An optional member of a payload: left out or null, present with a value
/// of the expected kind, or present with something else.
pub enum Field<T> {
    Absent,
    Present(T),
    Invalid,
}

/// Name of the member that holds the place of installation.
pub open spec fn location_key() -> Seq<char> {
    "location"@
}

/// Name of the member that holds the sender's identifier.
pub open spec fn device_id_key() -> Seq<char> {
    "device_id"@
}

/// Name of the member that holds the temperature.
pub open spec fn temperature_key() -> Seq<char> {
    "temperature"@
}

/// Name of the member that holds the humidity.
pub open spec fn humidity_key() -> Seq<char> {
    "humidity"@
}

/// Name of the member that holds the air pressure.
pub open spec fn air_pressure_key() -> Seq<char> {
    "air_pressure"@
}

/// Whether a member name is one that decoding reads.
pub open spec fn is_record_key(key: Seq<char>) -> bool {
    ||| key == location_key()
    ||| key == device_id_key()
    ||| key == temperature_key()
    ||| key == humidity_key()
    ||| key == air_pressure_key()
}

/// The five member names that decoding reads differ from one another.
pub proof fn lemma_record_keys_distinct()
    ensures
        location_key() != device_id_key(),
        location_key() != temperature_key(),
        location_key() != humidity_key(),
        location_key() != air_pressure_key(),
        device_id_key() != temperature_key(),
        device_id_key() != humidity_key(),
        device_id_key() != air_pressure_key(),
        temperature_key() != humidity_key(),
        temperature_key() != air_pressure_key(),
        humidity_key() != air_pressure_key(),
{
    reveal_strlit("location");
    reveal_strlit("device_id");
    reveal_strlit("temperature");
    reveal_strlit("humidity");
    reveal_strlit("air_pressure");
    assert(location_key()[0] == 'l');
    assert(device_id_key()[0] == 'd');
    assert(temperature_key()[0] == 't');
    assert(humidity_key()[0] == 'h');
    assert(air_pressure_key()[0] == 'a');
}

/// The optional string member `key` of an object.
pub open spec fn text_field(doc: JsonModel, key: Seq<char>) -> Field<Seq<char>> {
    if !has_member(doc, key) {
        Field::Absent
    } else {
        match doc->Object_0[key] {
            JsonModel::Null => Field::Absent,
            JsonModel::Text(text) => Field::Present(text),
            _ => Field::Invalid,
        }
    }
}

/// The optional numeric member `key` of an object.
pub open spec fn number_field(doc: JsonModel, key: Seq<char>) -> Field<u64> {
    if !has_member(doc, key) {
        Field::Absent
    } else {
        match doc->Object_0[key] {
            JsonModel::Null => Field::Absent,
            JsonModel::Number(bits) => Field::Present(bits),
            _ => Field::Invalid,
        }
    }
}

/// The value of an optional member that is not invalid.
pub open spec fn field_value<T>(field: Field<T>) -> Option<T> {
    match field {
        Field::Present(value) => Some(value),
        _ => None,
    }
}

/// The first fault of a document as a record, if it has one. The members are
/// looked at in the order location, device_id, temperature, humidity,
/// air_pressure; no other member is looked at.
pub open spec fn document_fault(doc: JsonModel) -> Option<RecordFormatError> {
    if !(doc is Object) {
        Some(RecordFormatError::NotAnObject)
    } else if !has_member(doc, location_key()) {
        Some(RecordFormatError::MissingLocation)
    } else if !(doc->Object_0[location_key()] is Text) {
        Some(RecordFormatError::InvalidLocation)
    } else if doc->Object_0[location_key()]->Text_0.len() == 0 {
        Some(RecordFormatError::EmptyLocation)
    } else if text_field(doc, device_id_key()) is Invalid {
        Some(RecordFormatError::InvalidDeviceId)
    } else if number_field(doc, temperature_key()) is Invalid {
        Some(RecordFormatError::InvalidTemperature)
    } else if number_field(doc, humidity_key()) is Invalid {
        Some(RecordFormatError::InvalidHumidity)
    } else if number_field(doc, air_pressure_key()) is Invalid {
        Some(RecordFormatError::InvalidAirPressure)
    } else {
        None
    }
}

/// The record that a faultless document denotes when received at
/// `timestamp`.
pub open spec fn document_record(doc: JsonModel, timestamp: u64) -> RecordModel {
    RecordModel {
        location: doc->Object_0[location_key()]->Text_0,
        device_id: field_value(text_field(doc, device_id_key())),
        timestamp,
        temperature: field_value(number_field(doc, temperature_key())),
        humidity: field_value(number_field(doc, humidity_key())),
        air_pressure: field_value(number_field(doc, air_pressure_key())),
    }
}

/// Decoding of a document received at `timestamp`.
pub open spec fn decode_document(doc: JsonModel, timestamp: u64) -> Result<
    RecordModel,
    RecordFormatError,
> {
    match document_fault(doc) {
        Some(error) => Err(error),
        None => Ok(document_record(doc, timestamp)),
    }
}

/// Decoding of a parsed payload received at `timestamp`.
pub open spec fn decode(parsed: Option<JsonModel>, timestamp: u64) -> Result<
    RecordModel,
    RecordFormatError,
> {
    match parsed {
        None => Err(RecordFormatError::Syntax),
        Some(doc) => decode_document(doc, timestamp),
    }
}

/// The values listed at the end of a record's line: the sender's identifier
/// and each measurement that is present, written as the caller gives it and
/// followed by its unit.
pub open spec fn shown_values(
    record: RecordModel,
    temperature: Seq<char>,
    humidity: Seq<char>,
    air_pressure: Seq<char>,
) -> Seq<Seq<char>> {
    let ids = match record.device_id {
        Some(id) => seq![id],
        None => Seq::<Seq<char>>::empty(),
    };
    let temperatures = if record.temperature is Some {
        seq![temperature + "\u{00b0}C"@]
    } else {
        Seq::<Seq<char>>::empty()
    };
    let humidities = if record.humidity is Some {
        seq![humidity + "%"@]
    } else {
        Seq::<Seq<char>>::empty()
    };
    let pressures = if record.air_pressure is Some {
        seq![air_pressure + "hpa"@]
    } else {
        Seq::<Seq<char>>::empty()
    };
    ids + temperatures + humidities + pressures
}

/// The line that describes a record: the location in double quotes, the time
/// of reception and the values, separated by commas.
pub open spec fn record_line(
    record: RecordModel,
    time: Seq<char>,
    temperature: Seq<char>,
    humidity: Seq<char>,
    air_pressure: Seq<char>,
) -> Seq<char> {
    "\""@ + record.location + "\","@ + time + ","@ + joined(
        shown_values(record, temperature, humidity, air_pressure),
        ","@,
    )
}

/// Name of a member that senders may set and that decoding does not read:
/// the time of a record is the time of its reception.
pub open spec fn timestamp_key() -> Seq<char> {
    "timestamp"@
}

/// A member that decoding does not read changes nothing: with it or without
/// it a document decodes to the same record, or fails with the same error.
pub proof fn lemma_unknown_member_is_ignored(
    members: Map<Seq<char>, JsonModel>,
    key: Seq<char>,
    value: JsonModel,
    timestamp: u64,
)
    requires
        !is_record_key(key),
    ensures
        decode_document(JsonModel::Object(members.insert(key, value)), timestamp)
            == decode_document(JsonModel::Object(members), timestamp),
        decode_document(JsonModel::Object(members.remove(key)), timestamp) == decode_document(
            JsonModel::Object(members),
            timestamp,
        ),
{
}

/// A `timestamp` in the payload is not read: the record carries the time of
/// reception, whatever the sender claims.
pub proof fn lemma_sender_time_is_ignored(
    members: Map<Seq<char>, JsonModel>,
    claimed: JsonModel,
    timestamp: u64,
)
    ensures
        !is_record_key(timestamp_key()),
        decode_document(JsonModel::Object(members.insert(timestamp_key(), claimed)), timestamp)
            == decode_document(JsonModel::Object(members), timestamp),
        decode_document(JsonModel::Object(members), timestamp) matches Ok(record)
            ==> record.timestamp == timestamp,
{
    reveal_strlit("timestamp");
    reveal_strlit("location");
    reveal_strlit("device_id");
    reveal_strlit("temperature");
    reveal_strlit("humidity");
    reveal_strlit("air_pressure");
    assert(timestamp_key()[1] == 'i');
    assert(location_key()[1] == 'o');
    assert(device_id_key()[1] == 'e');
    assert(temperature_key()[1] == 'e');
    assert(humidity_key()[1] == 'u');
    assert(air_pressure_key()[1] == 'i');
    assert(air_pressure_key()[0] == 'a');
    assert(timestamp_key()[0] == 't');
    lemma_unknown_member_is_ignored(members, timestamp_key(), claimed, timestamp);
}

/// A document without `location` is no record, whatever else it holds.
pub proof fn lemma_location_is_required(members: Map<Seq<char>, JsonModel>, timestamp: u64)
    requires
        !members.dom().contains(location_key()),
    ensures
        decode_document(JsonModel::Object(members), timestamp) == Err::<
            RecordModel,
            RecordFormatError,
        >(RecordFormatError::MissingLocation),
{
}

/// Whether a payload is a record does not depend on when it is received,
/// and of the record only the time does.
pub proof fn lemma_time_only_stamps(parsed: Option<JsonModel>, first: u64, second: u64)
    ensures
        decode(parsed, first) is Ok <==> decode(parsed, second) is Ok,
        decode(parsed, first) matches Err(error) ==> decode(parsed, second) == Err::<
            RecordModel,
            RecordFormatError,
        >(error),
        decode(parsed, first) matches Ok(record) ==> decode(parsed, second) == Ok::<
            RecordModel,
            RecordFormatError,
        >(RecordModel { timestamp: second, ..record }),
        decode(parsed, first) matches Ok(record) ==> record.wf() && record.timestamp == first,
{
}

/// One reading of a sensor, as received.
#[derive(Debug, PartialEq, Eq)]
pub struct SensorRecord {
    location: String,
    device_id: Option<String>,
    timestamp: u64,
    temperature: Option<u64>,
    humidity: Option<u64>,
    air_pressure: Option<u64>,
}

/// The views of an optional string.
pub open spec fn optional_view(text: Option<String>) -> Option<Seq<char>> {
    match text {
        Some(text) => Some(text@),
        None => None,
    }
}

impl View for SensorRecord {
    type V = RecordModel;

    closed spec fn view(&self) -> RecordModel {
        RecordModel {
            location: self.location@,
            device_id: optional_view(self.device_id),
            timestamp: self.timestamp,
            temperature: self.temperature,
            humidity: self.humidity,
            air_pressure: self.air_pressure,
        }
    }
}

/// What the outcome of a decoding holds.
pub open spec fn outcome_model(outcome: Result<SensorRecord, RecordFormatError>) -> Result<
    RecordModel,
    RecordFormatError,
> {
    match outcome {
        Ok(record) => Ok(record@),
        Err(error) => Err(error),
    }
}

/// The time a decoding was stamped with, zero where it failed.
pub open spec fn outcome_time(outcome: Result<SensorRecord, RecordFormatError>) -> u64 {
    match outcome {
        Ok(record) => record@.timestamp,
        Err(_) => 0,
    }
}

fn read_text_field(doc: &serde_json::Value, key: &str) -> (field: Field<String>)
    ensures
        match field {
            Field::Absent => text_field(json_model(*doc), key@) is Absent,
            Field::Present(text) => text_field(json_model(*doc), key@) == Field::Present(text@),
            Field::Invalid => text_field(json_model(*doc), key@) is Invalid,
        },
{
    match member(doc, key) {
        None => Field::Absent,
        Some(value) => {
            if is_null(value) {
                Field::Absent
            } else {
                match as_text(value) {
                    Some(text) => Field::Present(String::from_str(text)),
                    None => Field::Invalid,
                }
            }
        },
    }
}

fn read_number_field(doc: &serde_json::Value, key: &str) -> (field: Field<u64>)
    ensures
        field == number_field(json_model(*doc), key@),
{
    match member(doc, key) {
        None => Field::Absent,
        Some(value) => {
            if is_null(value) {
                Field::Absent
            } else {
                match number_bits(value) {
                    Some(bits) => Field::Present(bits),
                    None => Field::Invalid,
                }
            }
        },
    }
}

impl SensorRecord {
    #[verifier::type_invariant]
    spec fn inv(self) -> bool {
        self.location@.len() > 0
    }

    /// Decodes a parsed payload received at `timestamp`.
    pub fn from_value(doc: &serde_json::Value, timestamp: u64) -> (outcome: Result<
        SensorRecord,
        RecordFormatError,
    >)
        ensures
            outcome_model(outcome) == decode_document(json_model(*doc), timestamp),
            outcome matches Ok(record) ==> record@.wf(),
    {
        if !is_object(doc) {
            return Err(RecordFormatError::NotAnObject);
        }
        let location = match member(doc, "location") {
            None => {
                return Err(RecordFormatError::MissingLocation);
            },
            Some(value) => match as_text(value) {
                None => {
                    return Err(RecordFormatError::InvalidLocation);
                },
                Some(text) => {
                    if text.is_empty() {
                        return Err(RecordFormatError::EmptyLocation);
                    }
                    String::from_str(text)
                },
            },
        };
        let device_id = match read_text_field(doc, "device_id") {
            Field::Invalid => {
                return Err(RecordFormatError::InvalidDeviceId);
            },
            Field::Present(text) => Some(text),
            Field::Absent => None,
        };
        let temperature = match read_number_field(doc, "temperature") {
            Field::Invalid => {
                return Err(RecordFormatError::InvalidTemperature);
            },
            Field::Present(bits) => Some(bits),
            Field::Absent => None,
        };
        let humidity = match read_number_field(doc, "humidity") {
            Field::Invalid => {
                return Err(RecordFormatError::InvalidHumidity);
            },
            Field::Present(bits) => Some(bits),
            Field::Absent => None,
        };
        let air_pressure = match read_number_field(doc, "air_pressure") {
            Field::Invalid => {
                return Err(RecordFormatError::InvalidAirPressure);
            },
            Field::Present(bits) => Some(bits),
            Field::Absent => None,
        };
        Ok(SensorRecord { location, device_id, timestamp, temperature, humidity, air_pressure })
    }

    /// Decodes a payload received at `timestamp`.
    pub fn from_json_at(json: &str, timestamp: u64) -> (outcome: Result<
        SensorRecord,
        RecordFormatError,
    >)
        ensures
            outcome_model(outcome) == decode(parsed_json(json@), timestamp),
            outcome matches Ok(record) ==> record@.wf(),
    {
        match parse_value(json) {
            Err(_) => Err(RecordFormatError::Syntax),
            Ok(doc) => SensorRecord::from_value(&doc, timestamp),
        }
    }

    /// Decodes a payload and stamps the record with the current time. Whether
    /// the payload decodes, and to which fields or with which error, is
    /// decided by the payload alone.
    pub fn from_json(json: &str) -> (outcome: Result<SensorRecord, RecordFormatError>)
        ensures
            outcome_model(outcome) == decode(parsed_json(json@), outcome_time(outcome)),
            outcome matches Ok(record) ==> record@.wf(),
    {
        let now: i64 = now_millis();
        SensorRecord::from_json_at(json, now as u64)
    }

    /// The place of installation.
    pub fn location(&self) -> (location: String)
        ensures
            location@ == self@.location,
            location@.len() > 0,
    {
        proof {
            use_type_invariant(self);
        }
        self.location.clone()
    }

    /// The sender's identifier, if it gave one.
    pub fn device_id(&self) -> (device_id: Option<String>)
        ensures
            optional_view(device_id) == self@.device_id,
    {
        match &self.device_id {
            Some(id) => Some(id.clone()),
            None => None,
        }
    }

    /// Milliseconds since the UNIX epoch at which the record was received.
    pub fn timestamp(&self) -> (timestamp: u64)
        ensures
            timestamp == self@.timestamp,
    {
        self.timestamp
    }

    /// The temperature, if it was read.
    pub fn temperature(&self) -> (bits: Option<u64>)
        ensures
            bits == self@.temperature,
    {
        self.temperature
    }

    /// The humidity, if it was read.
    pub fn humidity(&self) -> (bits: Option<u64>)
        ensures
            bits == self@.humidity,
    {
        self.humidity
    }

    /// The air pressure, if it was read.
    pub fn air_pressure(&self) -> (bits: Option<u64>)
        ensures
            bits == self@.air_pressure,
    {
        self.air_pressure
    }
    /// Writes the record's line with the time of reception given as `time`.
    /// The texts of the measurements are the caller's; each is used only
    /// where the record has that measurement.
    pub fn render(&self, time: &str, temperature: &str, humidity: &str, air_pressure: &str) -> (line:
        String)
        ensures
            line@ == record_line(self@, time@, temperature@, humidity@, air_pressure@),
    {
        let ghost shown = shown_values(self@, temperature@, humidity@, air_pressure@);
        let mut vals: Vec<String> = Vec::new();
        assert(views(vals@) =~= Seq::<Seq<char>>::empty());
        if let Some(id) = &self.device_id {
            vals.push(id.clone());
            assert(views(vals@) =~= seq![id@]);
        }
        let ghost after_id = views(vals@);
        if self.temperature.is_some() {
            let mut val = String::from_str(temperature);
            val.append("\u{00b0}C");
            vals.push(val);
            assert(views(vals@) =~= after_id + seq![temperature@ + "\u{00b0}C"@]);
        }
        let ghost after_temperature = views(vals@);
        if self.humidity.is_some() {
            let mut val = String::from_str(humidity);
            val.append("%");
            vals.push(val);
            assert(views(vals@) =~= after_temperature + seq![humidity@ + "%"@]);
        }
        let ghost after_humidity = views(vals@);
        if self.air_pressure.is_some() {
            let mut val = String::from_str(air_pressure);
            val.append("hpa");
            vals.push(val);
            assert(views(vals@) =~= after_humidity + seq![air_pressure@ + "hpa"@]);
        }
        assert(views(vals@) =~= shown);
        let mut line = String::from_str("\"");
        line.append(self.location.as_str());
        line.append("\",");
        line.append(time);
        line.append(",");
        let list = join(&vals, ",");
        line.append(list.as_str());
        line
    }

    /// Writes the record's line with the time of reception in the local time
    /// zone. The result is `None` exactly where the calendar does not hold
    /// that time.
    pub fn to_string(&self, temperature: &str, humidity: &str, air_pressure: &str) -> (line:
        Option<String>)
        ensures
            line is Some <==> in_calendar(
                whole_seconds(self@.timestamp),
                subsecond_nanos(self@.timestamp),
            ),
            displayable(self@.timestamp) ==> line is Some,
            line matches Some(text) ==> exists|time: Seq<char>|
                text@ == #[trigger] record_line(
                    self@,
                    time,
                    temperature@,
                    humidity@,
                    air_pressure@,
                ),
    {
        match local_time_string(self.timestamp) {
            None => None,
            Some(time) => {
                let text = self.render(time.as_str(), temperature, humidity, air_pressure);
                assert(text@ == record_line(
                    self@,
                    time@,
                    temperature@,
                    humidity@,
                    air_pressure@,
                ));
                Some(text)
            },
        }
    }
}

} // verus!
