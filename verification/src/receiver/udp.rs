//! The datagram receiver: one payload per datagram, decoded and forwarded.

use std::string::FromUtf8Error;
use vstd::prelude::*;
use vstd::utf8::{decode_utf8, valid_utf8};

use crate::clock::now_millis;
use crate::json::parsed_json;
use crate::record::{decode, RecordFormatError, RecordModel, SensorRecord};

verus! {

/// Size of the buffer a datagram is received into. What a longer datagram
/// holds beyond it is lost.
pub const MAX_DATAGRAM: usize = 1024;

/// `std::string::FromUtf8Error`, carried through verified code as an opaque
/// value.
#[verifier::external_type_specification]
#[verifier::external_body]
pub struct ExFromUtf8Error(FromUtf8Error);

/// `String::from_utf8` accepts exactly the byte sequences that are valid
/// UTF-8, and the string then holds the characters they encode.
pub assume_specification[ String::from_utf8 ](vec: Vec<u8>) -> (r: Result<String, FromUtf8Error>)
    ensures
        r is Ok <==> valid_utf8(vec@),
        r matches Ok(text) ==> text@ == decode_utf8(vec@),
;

/// Why a datagram yields no record, or why forwarding came to nothing.
#[derive(Debug, Clone, Copy, PartialEq, Eq, Structural)]
pub enum DatagramError {
    /// The payload is not valid UTF-8.
    Encoding,
    /// The payload is no record.
    Format(RecordFormatError),
    /// The channel to the relay is closed.
    Forward,
}

/// The text logged for an error.
pub open spec fn datagram_error_text(error: DatagramError) -> Seq<char> {
    match error {
        DatagramError::Encoding => "invalid JSON received"@,
        DatagramError::Format(_) => "invalid JSON received"@,
        DatagramError::Forward => "send sensor result failed"@,
    }
}

impl DatagramError {
    /// The text logged for the error.
    pub fn message(&self) -> (text: &'static str)
        ensures
            text@ == datagram_error_text(*self),
    {
        match self {
            DatagramError::Encoding => "invalid JSON received",
            DatagramError::Format(_) => "invalid JSON received",
            DatagramError::Forward => "send sensor result failed",
        }
    }
}

/// What the unit of work of one datagram does.
#[derive(Debug, PartialEq, Eq)]
pub enum DatagramAction {
    /// Hand the record to the relay.
    Forward(SensorRecord),
    /// Log the error, once, and end.
    Report(DatagramError),
}

/// What a payload yields at `timestamp`: the record it decodes to, or the
/// reason why there is none.
pub open spec fn datagram_record(data: Seq<u8>, timestamp: u64) -> Result<
    RecordModel,
    DatagramError,
> {
    if !valid_utf8(data) {
        Err(DatagramError::Encoding)
    } else {
        match decode(parsed_json(decode_utf8(data)), timestamp) {
            Ok(record) => Ok(record),
            Err(error) => Err(DatagramError::Format(error)),
        }
    }
}

/// What an action holds.
pub open spec fn action_model(action: DatagramAction) -> Result<RecordModel, DatagramError> {
    match action {
        DatagramAction::Forward(record) => Ok(record@),
        DatagramAction::Report(error) => Err(error),
    }
}

/// The time an action's record was stamped with, zero where there is none.
pub open spec fn action_time(action: DatagramAction) -> u64 {
    match action {
        DatagramAction::Forward(record) => record@.timestamp,
        DatagramAction::Report(_) => 0,
    }
}

/// What a unit of work reports once its record was handed to the channel:
/// nothing where the relay took it, the loss where the channel is closed.
pub open spec fn forward_report(delivered: bool) -> Option<DatagramError> {
    if delivered {
        None
    } else {
        Some(DatagramError::Forward)
    }
}

/// Decides what a unit of work reports once its record was handed to the
/// channel.
pub fn after_forward(delivered: bool) -> (report: Option<DatagramError>)
    ensures
        report == forward_report(delivered),
{
    if delivered {
        None
    } else {
        Some(DatagramError::Forward)
    }
}

/// The part of the receive buffer that a datagram of `len` bytes filled.
pub fn datagram_payload(buffer: &Vec<u8>, len: usize) -> (data: Vec<u8>)
    requires
        len <= buffer.len(),
    ensures
        data@ == buffer@.take(len as int),
{
    let mut data: Vec<u8> = Vec::new();
    let mut i: usize = 0;
    while i < len
        invariant
            i <= len <= buffer.len(),
            data@ == buffer@.take(i as int),
        decreases len - i,
    {
        data.push(buffer[i]);
        i = i + 1;
        assert(data@ =~= buffer@.take(i as int));
    }
    data
}

/// Decides what the unit of work of a datagram received at `timestamp` does.
pub fn receive_task_at(data: Vec<u8>, timestamp: u64) -> (action: DatagramAction)
    ensures
        action_model(action) == datagram_record(data@, timestamp),
        action matches DatagramAction::Forward(record) ==> record@.wf(),
{
    match String::from_utf8(data) {
        Ok(json) => match SensorRecord::from_json_at(json.as_str(), timestamp) {
            Ok(record) => DatagramAction::Forward(record),
            Err(error) => DatagramAction::Report(DatagramError::Format(error)),
        },
        Err(_) => DatagramAction::Report(DatagramError::Encoding),
    }
}

/// Decides what the unit of work of a datagram does, stamping the record
/// with the current time. Whether there is a record, with which fields or
/// which error, is decided by the payload alone.
pub fn receive_task(data: Vec<u8>) -> (action: DatagramAction)
    ensures
        action_model(action) == datagram_record(data@, action_time(action)),
        action matches DatagramAction::Forward(record) ==> record@.wf(),
{
    let now: i64 = now_millis();
    receive_task_at(data, now as u64)
}

} // verus!
