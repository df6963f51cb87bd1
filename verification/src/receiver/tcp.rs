//! The stream receiver: one line per connection, decoded and forwarded.

use vstd::prelude::*;
use vstd::utf8::{decode_utf8, valid_utf8};

use crate::clock::now_millis;
use crate::json::parsed_json;
use crate::record::{decode, RecordFormatError, RecordModel, SensorRecord};

verus! {

/// Seconds a connection is given to deliver its line and close.
pub const DATA_TIMEOUT: u64 = 10;

/// The byte that ends a line.
pub const LINE_FEED: u8 = 10;

/// The byte that may stand before the line feed and is taken off with it.
pub const CARRIAGE_RETURN: u8 = 13;

/// How reading from a connection ended.
#[derive(Debug, PartialEq, Eq)]
pub enum LineRead {
    /// What arrived up to and including the first line feed, or up to the
    /// end of the stream where the peer closed it before one came.
    Data(Vec<u8>),
    /// Reading failed.
    Failed,
}

/// Why a connection yields no record.
#[derive(Debug, Clone, Copy, PartialEq, Eq, Structural)]
pub enum ReceiveError {
    /// The line is no record.
    Parse(RecordFormatError),
    /// Nothing was received.
    Empty,
    /// The peer closed the connection before the line was complete.
    Unterminated,
    /// The line is not valid UTF-8.
    Encoding,
    /// Reading from the connection failed.
    Read,
    /// Closing the connection failed.
    Shutdown,
}

/// The text logged for an error.
pub open spec fn receive_error_text(error: ReceiveError) -> Seq<char> {
    match error {
        ReceiveError::Parse(_) => "parse JSON failed"@,
        ReceiveError::Empty => "receive data is empty"@,
        ReceiveError::Unterminated => "receive data is not a complete line"@,
        ReceiveError::Encoding => "receive data is not UTF-8"@,
        ReceiveError::Read => "TCP receive failed"@,
        ReceiveError::Shutdown => "TCP socket shutdown failed"@,
    }
}

impl ReceiveError {
    /// The text logged for the error.
    pub fn message(&self) -> (text: &'static str)
        ensures
            text@ == receive_error_text(*self),
    {
        match self {
            ReceiveError::Parse(_) => "parse JSON failed",
            ReceiveError::Empty => "receive data is empty",
            ReceiveError::Unterminated => "receive data is not a complete line",
            ReceiveError::Encoding => "receive data is not UTF-8",
            ReceiveError::Read => "TCP receive failed",
            ReceiveError::Shutdown => "TCP socket shutdown failed",
        }
    }
}

/// The payload of what was read: the bytes before the line feed that ends
/// them, without a carriage return that stands right before it. Bytes that
/// do not end in a line feed are no complete line and have no payload.
pub open spec fn line_payload(data: Seq<u8>) -> Result<Seq<u8>, ReceiveError> {
    if data.len() == 0 {
        Err(ReceiveError::Empty)
    } else if data.last() != LINE_FEED {
        Err(ReceiveError::Unterminated)
    } else {
        let body = data.drop_last();
        if body.len() > 0 && body.last() == CARRIAGE_RETURN {
            Ok(body.drop_last())
        } else {
            Ok(body)
        }
    }
}

/// What a payload yields at `timestamp`: the record it decodes to, or the
/// reason why there is none.
pub open spec fn payload_record(payload: Seq<u8>, timestamp: u64) -> Result<
    RecordModel,
    ReceiveError,
> {
    if !valid_utf8(payload) {
        Err(ReceiveError::Encoding)
    } else {
        match decode(parsed_json(decode_utf8(payload)), timestamp) {
            Ok(record) => Ok(record),
            Err(error) => Err(ReceiveError::Parse(error)),
        }
    }
}

/// What a read yields at `timestamp`: the record that its line decodes to,
/// or the reason why there is none.
pub open spec fn line_record(read: LineRead, timestamp: u64) -> Result<RecordModel, ReceiveError> {
    match read {
        LineRead::Data(data) => match line_payload(data@) {
            Ok(payload) => payload_record(payload, timestamp),
            Err(error) => Err(error),
        },
        LineRead::Failed => Err(ReceiveError::Read),
    }
}

/// What the outcome of a reception holds.
pub open spec fn reception_model(outcome: Result<SensorRecord, ReceiveError>) -> Result<
    RecordModel,
    ReceiveError,
> {
    match outcome {
        Ok(record) => Ok(record@),
        Err(error) => Err(error),
    }
}

/// The time a reception was stamped with, zero where it failed.
pub open spec fn reception_time(outcome: Result<SensorRecord, ReceiveError>) -> u64 {
    match outcome {
        Ok(record) => record@.timestamp,
        Err(_) => 0,
    }
}

/// Turns what was read from a connection at `timestamp` into a record.
pub fn receive_record_at(read: LineRead, timestamp: u64) -> (outcome: Result<
    SensorRecord,
    ReceiveError,
>)
    ensures
        reception_model(outcome) == line_record(read, timestamp),
        outcome matches Ok(record) ==> record@.wf(),
{
    match read {
        LineRead::Failed => Err(ReceiveError::Read),
        LineRead::Data(data) => {
            let mut payload = data;
            let len = payload.len();
            if len == 0 {
                return Err(ReceiveError::Empty);
            }
            if payload[len - 1] != LINE_FEED {
                return Err(ReceiveError::Unterminated);
            }
            payload.pop();
            let rest = payload.len();
            if rest > 0 && payload[rest - 1] == CARRIAGE_RETURN {
                payload.pop();
            }
            assert(line_payload(data@) == Ok::<Seq<u8>, ReceiveError>(payload@)) by {
                assert(data@.drop_last() =~= data@.subrange(0, data@.len() - 1));
                let body = data@.drop_last();
                if body.len() > 0 {
                    assert(body.drop_last() =~= body.subrange(0, body.len() - 1));
                }
            }
            match String::from_utf8(payload) {
                Err(_) => Err(ReceiveError::Encoding),
                Ok(json) => match SensorRecord::from_json_at(json.as_str(), timestamp) {
                    Ok(record) => Ok(record),
                    Err(error) => Err(ReceiveError::Parse(error)),
                },
            }
        },
    }
}

/// Turns what was read from a connection into a record stamped with the
/// current time. Whether there is a record, with which fields or which
/// error, is decided by what was read alone.
pub fn receive_record(read: LineRead) -> (outcome: Result<SensorRecord, ReceiveError>)
    ensures
        reception_model(outcome) == line_record(read, reception_time(outcome)),
        outcome matches Ok(record) ==> record@.wf(),
{
    let now: i64 = now_millis();
    receive_record_at(read, now as u64)
}

/// What a reception comes to once the connection has been closed: a failure
/// to close takes the place of whatever was received.
pub open spec fn closed_session(
    received: Result<SensorRecord, ReceiveError>,
    shutdown_ok: bool,
) -> Result<SensorRecord, ReceiveError> {
    if shutdown_ok {
        received
    } else {
        Err(ReceiveError::Shutdown)
    }
}

/// Settles a reception after the connection was closed.
pub fn close_session(received: Result<SensorRecord, ReceiveError>, shutdown_ok: bool) -> (outcome:
    Result<SensorRecord, ReceiveError>)
    ensures
        outcome == closed_session(received, shutdown_ok),
{
    if shutdown_ok {
        received
    } else {
        Err(ReceiveError::Shutdown)
    }
}

/// How the work on one connection ended.
#[derive(Debug, PartialEq, Eq)]
pub enum SessionOutcome {
    /// Reception and closing came to an end within the time allowed.
    Finished(Result<SensorRecord, ReceiveError>),
    /// The time allowed ran out first.
    TimedOut,
}

/// Why a session forwards nothing, or why forwarding came to nothing.
#[derive(Debug, Clone, Copy, PartialEq, Eq, Structural)]
pub enum SessionError {
    /// There is no record.
    Receive(ReceiveError),
    /// No complete line arrived in time.
    Timeout,
    /// The channel to the relay is closed.
    Forward,
}

/// The text logged for an error.
pub open spec fn session_error_text(error: SessionError) -> Seq<char> {
    match error {
        SessionError::Receive(inner) => receive_error_text(inner),
        SessionError::Timeout => "data receive timeout"@,
        SessionError::Forward => "send sensor result failed"@,
    }
}

impl SessionError {
    /// The text logged for the error.
    pub fn message(&self) -> (text: &'static str)
        ensures
            text@ == session_error_text(*self),
    {
        match self {
            SessionError::Receive(inner) => inner.message(),
            SessionError::Timeout => "data receive timeout",
            SessionError::Forward => "send sensor result failed",
        }
    }
}

/// What a session does with its outcome.
#[derive(Debug, PartialEq, Eq)]
pub enum SessionAction {
    /// Hand the record to the relay.
    Forward(SensorRecord),
    /// Log the error, once, and end.
    Report(SessionError),
}

/// A session forwards the record it received, unchanged, and reports
/// anything else.
pub open spec fn session_action(outcome: SessionOutcome) -> SessionAction {
    match outcome {
        SessionOutcome::Finished(Ok(record)) => SessionAction::Forward(record),
        SessionOutcome::Finished(Err(error)) => SessionAction::Report(SessionError::Receive(error)),
        SessionOutcome::TimedOut => SessionAction::Report(SessionError::Timeout),
    }
}

/// What a session reports once its record was handed to the channel: nothing
/// where the relay took it, the loss where the channel is closed.
pub open spec fn forward_report(delivered: bool) -> Option<SessionError> {
    if delivered {
        None
    } else {
        Some(SessionError::Forward)
    }
}

/// Decides what a session reports once its record was handed to the channel.
pub fn after_forward(delivered: bool) -> (report: Option<SessionError>)
    ensures
        report == forward_report(delivered),
{
    if delivered {
        None
    } else {
        Some(SessionError::Forward)
    }
}

/// Decides what a session does with its outcome.
pub fn session_task(outcome: SessionOutcome) -> (action: SessionAction)
    ensures
        action == session_action(outcome),
{
    match outcome {
        SessionOutcome::Finished(Ok(record)) => SessionAction::Forward(record),
        SessionOutcome::Finished(Err(error)) => SessionAction::Report(SessionError::Receive(error)),
        SessionOutcome::TimedOut => SessionAction::Report(SessionError::Timeout),
    }
}

} // verus!
