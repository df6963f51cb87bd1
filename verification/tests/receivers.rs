use env_logger::receiver::tcp::{
    after_forward as after_stream_forward, close_session, receive_record, receive_record_at, session_task, LineRead, ReceiveError,
    SessionAction, SessionError, SessionOutcome, CARRIAGE_RETURN, DATA_TIMEOUT, LINE_FEED,
};
use env_logger::receiver::udp::{
    after_forward as after_datagram_forward, datagram_payload, receive_task, receive_task_at, DatagramAction, DatagramError, MAX_DATAGRAM,
};
use env_logger::receiver::{
    Listener, ListenerAction, ListenerEvent, TaskRequest, PIPELINE_CAPACITY, REQUEST_CAPACITY,
};
use env_logger::record::{RecordFormatError, SensorRecord};

fn record(json: &str, timestamp: u64) -> SensorRecord {
    SensorRecord::from_json_at(json, timestamp).unwrap()
}

fn line(text: &str) -> LineRead {
    LineRead::Data(text.as_bytes().to_vec())
}

#[test]
fn reference_configuration() {
    assert_eq!(DATA_TIMEOUT, 10);
    assert_eq!(LINE_FEED, b'\n');
    assert_eq!(CARRIAGE_RETURN, b'\r');
    assert_eq!(PIPELINE_CAPACITY, 10);
    assert_eq!(REQUEST_CAPACITY, 5);
    assert_eq!(MAX_DATAGRAM, 1024);
}

#[test]
fn listener_spawns_for_every_arrival() {
    let mut listener = Listener::new();
    assert!(listener.is_accepting());
    for _ in 0..100 {
        assert_eq!(listener.step(ListenerEvent::Arrival), ListenerAction::Spawn);
    }
    assert!(listener.is_accepting());
}

#[test]
fn listener_survives_failures_and_a_closed_request_channel() {
    let mut listener = Listener::new();
    assert_eq!(listener.step(ListenerEvent::Failure), ListenerAction::ReportFailure);
    assert!(listener.is_accepting());
    assert_eq!(listener.step(ListenerEvent::Request(None)), ListenerAction::Ignore);
    assert!(listener.is_accepting());
    assert_eq!(listener.step(ListenerEvent::Arrival), ListenerAction::Spawn);
    assert_eq!(Listener::failure_message(), "accept failed");
}

#[test]
fn listener_accepts_nothing_after_shutdown() {
    let mut listener = Listener::new();
    assert_eq!(listener.step(ListenerEvent::Arrival), ListenerAction::Spawn);
    assert_eq!(
        listener.step(ListenerEvent::Request(Some(TaskRequest::Shutdown))),
        ListenerAction::Stop
    );
    assert!(!listener.is_accepting());
    assert_eq!(listener.step(ListenerEvent::Arrival), ListenerAction::Ignore);
    assert_eq!(listener.step(ListenerEvent::Failure), ListenerAction::Ignore);
    assert_eq!(
        listener.step(ListenerEvent::Request(Some(TaskRequest::Shutdown))),
        ListenerAction::Ignore
    );
    assert_eq!(listener.step(ListenerEvent::Request(None)), ListenerAction::Ignore);
    assert!(!listener.is_accepting());
}

#[test]
fn a_line_becomes_a_record() {
    let received =
        receive_record_at(line("{\"location\":\"lab-1\",\"temperature\":21.5}\n"), 1234).unwrap();
    assert_eq!(received, record("{\"temperature\":21.5,\"location\":\"lab-1\"}", 1234));
    assert_eq!(received.timestamp(), 1234);
}

#[test]
fn the_line_end_is_taken_off() {
    let plain = record("{\"location\":\"lab-1\"}", 1);
    assert_eq!(receive_record_at(line("{\"location\":\"lab-1\"}\n"), 1), Ok(record("{\"location\":\"lab-1\"}", 1)));
    assert_eq!(receive_record_at(line("{\"location\":\"lab-1\"}\r\n"), 1).as_ref(), Ok(&plain));
    assert_eq!(receive_record_at(line("{\"location\":\"lab-1\"} \r\n"), 1).as_ref(), Ok(&plain));
    assert_eq!(
        receive_record_at(line("{\"location\":\"lab-1\"}\r\r\n"), 1).as_ref(),
        Ok(&plain)
    );
    assert_eq!(
        receive_record_at(line("{\"location\":\"lab\r\n"), 1),
        Err(ReceiveError::Parse(RecordFormatError::Syntax))
    );
}

#[test]
fn an_unterminated_line_is_no_record() {
    assert_eq!(
        receive_record_at(line("{\"location\":\"lab-1\"}"), 1),
        Err(ReceiveError::Unterminated)
    );
    assert_eq!(
        receive_record_at(line("{\"location\":\"lab-1\"}\r"), 1),
        Err(ReceiveError::Unterminated)
    );
    assert_eq!(
        receive_record_at(line("{\"location\":\"lab-1\"}\n "), 1),
        Err(ReceiveError::Unterminated)
    );
    assert_eq!(receive_record_at(line("x"), 1), Err(ReceiveError::Unterminated));
    assert_eq!(receive_record(line("{\"location\":\"lab-1\"}")), Err(ReceiveError::Unterminated));
    assert_eq!(
        receive_record_at(LineRead::Data(vec![0xff, 0xfe]), 1),
        Err(ReceiveError::Unterminated)
    );
}

#[test]
fn an_unterminated_line_is_reported_and_not_forwarded() {
    let received = close_session(receive_record_at(line("{\"location\":\"lab-1\"}"), 1), true);
    assert_eq!(
        session_task(SessionOutcome::Finished(received)),
        SessionAction::Report(SessionError::Receive(ReceiveError::Unterminated))
    );
}

#[test]
fn a_line_that_is_no_record_is_a_parse_error() {
    assert_eq!(
        receive_record_at(line("{\"temperature\":21.5}\n"), 1),
        Err(ReceiveError::Parse(RecordFormatError::MissingLocation))
    );
    assert_eq!(
        receive_record_at(line("garbage\n"), 1),
        Err(ReceiveError::Parse(RecordFormatError::Syntax))
    );
    assert_eq!(
        receive_record_at(line("\n"), 1),
        Err(ReceiveError::Parse(RecordFormatError::Syntax))
    );
    assert_eq!(
        receive_record_at(line("\r\n"), 1),
        Err(ReceiveError::Parse(RecordFormatError::Syntax))
    );
    assert_eq!(
        receive_record(line("[1,2]\n")),
        Err(ReceiveError::Parse(RecordFormatError::NotAnObject))
    );
}

#[test]
fn a_line_that_is_not_utf8_is_an_error() {
    assert_eq!(
        receive_record_at(LineRead::Data(vec![0xff, 0xfe, b'\n']), 1),
        Err(ReceiveError::Encoding)
    );
    assert_eq!(
        receive_record_at(LineRead::Data(vec![b'{', 0xc3, b'\r', b'\n']), 1),
        Err(ReceiveError::Encoding)
    );
    assert_eq!(receive_record(LineRead::Data(vec![0x80, b'\n'])), Err(ReceiveError::Encoding));
}

#[test]
fn a_line_with_text_beyond_ascii() {
    let received =
        receive_record_at(line("{\"location\":\"Gew\u{00e4}chshaus \u{6e29}\u{5ba4}\"}\n"), 1).unwrap();
    assert_eq!(received.location(), "Gew\u{00e4}chshaus \u{6e29}\u{5ba4}");
}

#[test]
fn nothing_read_is_an_error() {
    assert_eq!(receive_record_at(LineRead::Data(Vec::new()), 1), Err(ReceiveError::Empty));
    assert_eq!(receive_record_at(LineRead::Failed, 1), Err(ReceiveError::Read));
    assert_eq!(receive_record(LineRead::Data(Vec::new())), Err(ReceiveError::Empty));
    assert_eq!(receive_record(LineRead::Failed), Err(ReceiveError::Read));
}

#[test]
fn receive_record_stamps_with_the_current_time() {
    let received = receive_record(line("{\"location\":\"lab-1\"}\n")).unwrap();
    assert!(received.timestamp() > 1_600_000_000_000);
    assert_eq!(received.location(), "lab-1");
}

#[test]
fn a_failed_close_overrides_the_reception() {
    let json = "{\"location\":\"lab-1\"}";
    assert_eq!(close_session(Ok(record(json, 5)), true), Ok(record(json, 5)));
    assert_eq!(close_session(Ok(record(json, 5)), false), Err(ReceiveError::Shutdown));
    assert_eq!(close_session(Err(ReceiveError::Empty), true), Err(ReceiveError::Empty));
    assert_eq!(close_session(Err(ReceiveError::Empty), false), Err(ReceiveError::Shutdown));
    assert_eq!(
        close_session(Err(ReceiveError::Parse(RecordFormatError::Syntax)), true),
        Err(ReceiveError::Parse(RecordFormatError::Syntax))
    );
}

#[test]
fn a_session_forwards_its_record() {
    let json = "{\"location\":\"lab-1\",\"humidity\":40}";
    assert_eq!(
        session_task(SessionOutcome::Finished(Ok(record(json, 7)))),
        SessionAction::Forward(record(json, 7))
    );
}

#[test]
fn a_session_reports_what_went_wrong() {
    assert_eq!(
        session_task(SessionOutcome::Finished(Err(ReceiveError::Read))),
        SessionAction::Report(SessionError::Receive(ReceiveError::Read))
    );
    assert_eq!(
        session_task(SessionOutcome::Finished(Err(ReceiveError::Parse(
            RecordFormatError::MissingLocation
        )))),
        SessionAction::Report(SessionError::Receive(ReceiveError::Parse(
            RecordFormatError::MissingLocation
        )))
    );
    assert_eq!(
        session_task(SessionOutcome::TimedOut),
        SessionAction::Report(SessionError::Timeout)
    );
}

#[test]
fn a_stalled_connection_does_not_stop_the_listener() {
    let mut listener = Listener::new();
    assert_eq!(listener.step(ListenerEvent::Arrival), ListenerAction::Spawn);
    assert_eq!(
        session_task(SessionOutcome::TimedOut),
        SessionAction::Report(SessionError::Timeout)
    );
    assert_eq!(listener.step(ListenerEvent::Arrival), ListenerAction::Spawn);
    assert!(listener.is_accepting());
}

#[test]
fn stream_error_messages() {
    assert_eq!(ReceiveError::Parse(RecordFormatError::Syntax).message(), "parse JSON failed");
    assert_eq!(ReceiveError::Empty.message(), "receive data is empty");
    assert_eq!(ReceiveError::Unterminated.message(), "receive data is not a complete line");
    assert_eq!(ReceiveError::Encoding.message(), "receive data is not UTF-8");
    assert_eq!(ReceiveError::Read.message(), "TCP receive failed");
    assert_eq!(ReceiveError::Shutdown.message(), "TCP socket shutdown failed");
    assert_eq!(SessionError::Receive(ReceiveError::Empty).message(), "receive data is empty");
    assert_eq!(SessionError::Timeout.message(), "data receive timeout");
    assert_eq!(SessionError::Forward.message(), "send sensor result failed");
}

#[test]
fn a_datagram_becomes_a_record() {
    let data = b"{\"location\":\"lab-1\",\"air_pressure\":1001.25}".to_vec();
    assert_eq!(
        receive_task_at(data, 77),
        DatagramAction::Forward(record("{\"location\":\"lab-1\",\"air_pressure\":1001.25}", 77))
    );
}

#[test]
fn a_datagram_with_text_beyond_ascii() {
    let data = "{\"location\":\"Gew\u{00e4}chshaus \u{6e29}\u{5ba4}\"}".as_bytes().to_vec();
    match receive_task_at(data, 1) {
        DatagramAction::Forward(found) => {
            assert_eq!(found.location(), "Gew\u{00e4}chshaus \u{6e29}\u{5ba4}")
        }
        other => panic!("unexpected: {:?}", other),
    }
}

#[test]
fn a_datagram_that_is_not_utf8_is_dropped() {
    assert_eq!(
        receive_task_at(vec![0xff, 0xfe, 0x7b, 0x7d], 1),
        DatagramAction::Report(DatagramError::Encoding)
    );
    assert_eq!(
        receive_task_at(vec![0x7b, 0x22, 0xc3], 1),
        DatagramAction::Report(DatagramError::Encoding)
    );
    assert_eq!(receive_task(vec![0x80]), DatagramAction::Report(DatagramError::Encoding));
}

#[test]
fn a_datagram_that_is_no_record_is_dropped() {
    assert_eq!(
        receive_task_at(b"{\"humidity\":40}".to_vec(), 1),
        DatagramAction::Report(DatagramError::Format(RecordFormatError::MissingLocation))
    );
    assert_eq!(
        receive_task_at(Vec::new(), 1),
        DatagramAction::Report(DatagramError::Format(RecordFormatError::Syntax))
    );
    assert_eq!(
        receive_task(b"{\"location\":\"lab-1\",\"humidity\":\"wet\"}".to_vec()),
        DatagramAction::Report(DatagramError::Format(RecordFormatError::InvalidHumidity))
    );
}

#[test]
fn receive_task_stamps_with_the_current_time() {
    match receive_task(b"{\"location\":\"lab-1\"}".to_vec()) {
        DatagramAction::Forward(found) => assert!(found.timestamp() > 1_600_000_000_000),
        other => panic!("unexpected: {:?}", other),
    }
}

#[test]
fn the_payload_is_what_the_datagram_filled() {
    let mut buffer = vec![0u8; MAX_DATAGRAM];
    buffer[0] = b'{';
    buffer[1] = b'}';
    assert_eq!(datagram_payload(&buffer, 2), vec![b'{', b'}']);
    assert_eq!(datagram_payload(&buffer, 0), Vec::<u8>::new());
    assert_eq!(datagram_payload(&buffer, MAX_DATAGRAM), buffer);
    assert_eq!(datagram_payload(&buffer, 3), vec![b'{', b'}', 0]);
}

#[test]
fn a_truncated_datagram_is_no_record() {
    let mut text = String::from("{\"location\":\"");
    while text.len() < 2 * MAX_DATAGRAM {
        text.push('x');
    }
    text.push_str("\"}");
    let mut buffer = vec![0u8; MAX_DATAGRAM];
    buffer.copy_from_slice(&text.as_bytes()[..MAX_DATAGRAM]);
    let data = datagram_payload(&buffer, MAX_DATAGRAM);
    assert_eq!(data.len(), MAX_DATAGRAM);
    assert_eq!(
        receive_task_at(data, 1),
        DatagramAction::Report(DatagramError::Format(RecordFormatError::Syntax))
    );
}

#[test]
fn datagram_error_messages() {
    assert_eq!(DatagramError::Encoding.message(), "invalid JSON received");
    assert_eq!(
        DatagramError::Format(RecordFormatError::Syntax).message(),
        "invalid JSON received"
    );
    assert_eq!(DatagramError::Forward.message(), "send sensor result failed");
}

#[test]
fn a_closed_channel_is_reported() {
    assert_eq!(after_stream_forward(true), None);
    assert_eq!(after_stream_forward(false), Some(SessionError::Forward));
    assert_eq!(after_datagram_forward(true), None);
    assert_eq!(after_datagram_forward(false), Some(DatagramError::Forward));
}
