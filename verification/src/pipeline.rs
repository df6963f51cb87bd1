//! What holds of the pipeline as a whole: the way of a payload from a
//! receiver through the relay into the store.

use vstd::prelude::*;
use vstd::utf8::{decode_utf8, valid_utf8};

use crate::database::{
    input_open, inserted, lemma_stage_inserts_every_record, received, stage_run, stage_step,
    StageAction, StageEvent, StageState,
};
use crate::json::{parsed_json, JsonModel};
use crate::orchestrator::{
    coordinator_run, coordinator_start, coordinator_step, lemma_orderly_shutdown,
    saw_all_finished, saw_signal, CoordinatorEvent, Phase, Signal,
};
use crate::receiver::tcp::{
    closed_session, line_payload, line_record, reception_model, session_action, LineRead,
    ReceiveError, SessionAction, SessionError, SessionOutcome, LINE_FEED,
};
use crate::receiver::udp::{action_model, datagram_record, DatagramAction, DatagramError};
use crate::receiver::{
    lemma_accepting_until_shutdown, lemma_nothing_accepted_after_shutdown, listener_run,
    listener_step, ListenerAction, ListenerEvent, ListenerState, TaskRequest, Transport,
};
use crate::record::{
    document_fault, document_record, location_key, RecordFormatError, SensorRecord,
};
use crate::relay::{
    forwarded, items, items_from, lemma_relay_forwards_every_record, relay_run, relay_step,
    RelayAction, RelayEvent, RelayState,
};

verus! {

/// What reaches the persistence stage when `records` are delivered in order
/// and the insert of each ends as `written` says.
pub open spec fn deliveries(records: Seq<SensorRecord>, written: Seq<bool>) -> Seq<StageEvent>
    recommends
        written.len() == records.len(),
    decreases records.len(),
{
    if records.len() == 0 {
        Seq::empty()
    } else {
        deliveries(records.drop_last(), written.drop_last()).push(
            StageEvent::Received(Some(records.last())),
        ).push(StageEvent::Written(written.last()))
    }
}

proof fn lemma_deliveries(records: Seq<SensorRecord>, written: Seq<bool>)
    requires
        written.len() == records.len(),
    ensures
        input_open(deliveries(records, written)),
        received(deliveries(records, written)) == records,
        deliveries(records, written).len() == 2 * records.len(),
    decreases records.len(),
{
    if records.len() > 0 {
        let earlier = deliveries(records.drop_last(), written.drop_last());
        lemma_deliveries(records.drop_last(), written.drop_last());
        let one = earlier.push(StageEvent::Received(Some(records.last())));
        let two = one.push(StageEvent::Written(written.last()));
        assert(two.drop_last() =~= one);
        assert(one.drop_last() =~= earlier);
        assert(received(one) == received(earlier).push(records.last()));
        assert(received(two) == received(one));
        assert(records.drop_last().push(records.last()) =~= records);
        assert forall|i: int| 0 <= i < two.len() implies two[i] != StageEvent::Received(None) by {
            if i < earlier.len() {
                assert(two[i] == earlier[i]);
            }
        }
    } else {
        assert(received(deliveries(records, written)) =~= records);
    }
}

/// A complete line whose payload is a record, received over the stream
/// transport, is handed on unchanged at every stage: the session forwards
/// the very record that decoding gave, the relay forwards it, and the
/// persistence stage inserts it. Its fields are those of the payload and its
/// time is the time of reception.
pub proof fn lemma_stream_payload_is_persisted(
    data: Vec<u8>,
    payload: Seq<u8>,
    doc: JsonModel,
    timestamp: u64,
    outcome: Result<SensorRecord, ReceiveError>,
    relay: RelayState,
)
    requires
        line_payload(data@) == Ok::<Seq<u8>, ReceiveError>(payload),
        valid_utf8(payload),
        parsed_json(decode_utf8(payload)) == Some(doc),
        document_fault(doc) is None,
        reception_model(outcome) == line_record(LineRead::Data(data), timestamp),
    ensures
        outcome is Ok,
        outcome->Ok_0@ == document_record(doc, timestamp),
        session_action(SessionOutcome::Finished(closed_session(outcome, true)))
            == SessionAction::Forward(outcome->Ok_0),
        relay_step(relay, RelayEvent::Item(Transport::Stream, outcome->Ok_0)).1
            == RelayAction::Forward(outcome->Ok_0),
        stage_step(StageState::Running, StageEvent::Received(Some(outcome->Ok_0))).1
            == StageAction::Insert(outcome->Ok_0),
{
}

/// A payload that is a record, received as a datagram, is handed on
/// unchanged at every stage, as one received over the stream transport is.
pub proof fn lemma_datagram_payload_is_persisted(
    data: Seq<u8>,
    doc: JsonModel,
    timestamp: u64,
    action: DatagramAction,
    relay: RelayState,
)
    requires
        valid_utf8(data),
        parsed_json(decode_utf8(data)) == Some(doc),
        document_fault(doc) is None,
        action_model(action) == datagram_record(data, timestamp),
    ensures
        action is Forward,
        action->Forward_0@ == document_record(doc, timestamp),
        relay_step(relay, RelayEvent::Item(Transport::Datagram, action->Forward_0)).1
            == RelayAction::Forward(action->Forward_0),
        stage_step(StageState::Running, StageEvent::Received(Some(action->Forward_0))).1
            == StageAction::Insert(action->Forward_0),
{
}

/// A payload without `location` yields no record on either transport: the
/// unit of work that received it forwards nothing and reports the decode
/// failure, once.
pub proof fn lemma_payload_without_location_is_dropped(
    line: Vec<u8>,
    data: Seq<u8>,
    members: Map<Seq<char>, JsonModel>,
    timestamp: u64,
    outcome: Result<SensorRecord, ReceiveError>,
    action: DatagramAction,
)
    requires
        !members.dom().contains(location_key()),
        valid_utf8(data),
        parsed_json(decode_utf8(data)) == Some(JsonModel::Object(members)),
        line_payload(line@) == Ok::<Seq<u8>, ReceiveError>(data),
        reception_model(outcome) == line_record(LineRead::Data(line), timestamp),
        action_model(action) == datagram_record(data, timestamp),
    ensures
        session_action(SessionOutcome::Finished(closed_session(outcome, true)))
            == SessionAction::Report(
            SessionError::Receive(ReceiveError::Parse(RecordFormatError::MissingLocation)),
        ),
        action == DatagramAction::Report(
            DatagramError::Format(RecordFormatError::MissingLocation),
        ),
{
}

/// A connection that is closed before its line is complete forwards
/// nothing, whatever had arrived by then and whenever: bytes that do not end
/// in a line feed are no payload, even where they would decode to a record.
pub proof fn lemma_unterminated_line_is_dropped(
    data: Vec<u8>,
    timestamp: u64,
    outcome: Result<SensorRecord, ReceiveError>,
    shutdown_ok: bool,
)
    requires
        data@.len() > 0,
        data@.last() != LINE_FEED,
        reception_model(outcome) == line_record(LineRead::Data(data), timestamp),
    ensures
        outcome == Err::<SensorRecord, ReceiveError>(ReceiveError::Unterminated),
        session_action(SessionOutcome::Finished(closed_session(outcome, shutdown_ok)))
            is Report,
{
}

/// A connection that delivers no complete line in time forwards nothing, and
/// the loop that accepted it is not touched by that: as long as no shutdown
/// is requested, it accepts the next connection.
pub proof fn lemma_stalled_connection_is_harmless(events: Seq<ListenerEvent>)
    requires
        forall|i: int|
            0 <= i < events.len() ==> events[i] != ListenerEvent::Request(
                Some(TaskRequest::Shutdown),
            ),
    ensures
        session_action(SessionOutcome::TimedOut) == SessionAction::Report(SessionError::Timeout),
        listener_step(listener_run(ListenerState::Accepting, events), ListenerEvent::Arrival) == (
            ListenerState::Accepting,
            ListenerAction::Spawn,
        ),
{
    lemma_accepting_until_shutdown(events);
}

/// Whatever the two receivers forward, in whatever interleaving, and
/// whatever becomes of the single inserts: the persistence stage inserts
/// exactly the records that were forwarded, each once, unchanged and in the
/// order in which the relay got them. With N records from the stream
/// transport and M from the datagram transport that makes N + M inserts.
pub proof fn lemma_every_forwarded_record_is_inserted(
    relay: RelayState,
    events: Seq<RelayEvent>,
    written: Seq<bool>,
)
    requires
        written.len() == items(events).len(),
    ensures
        ({
            let sent = forwarded(relay_run(relay, events).1);
            let stored = inserted(stage_run(StageState::Running, deliveries(sent, written)).1);
            &&& stored == items(events)
            &&& stored.len() == items_from(events, Transport::Stream).len() + items_from(
                events,
                Transport::Datagram,
            ).len()
        }),
{
    lemma_relay_forwards_every_record(relay, events);
    let sent = forwarded(relay_run(relay, events).1);
    lemma_deliveries(sent, written);
    lemma_stage_inserts_every_record(deliveries(sent, written));
}

/// The first signal of a run, of either kind, makes the coordinator send the
/// shutdown request and start draining; a receiver's loop that takes the
/// request stops, and from then on starts no unit of work, whatever arrives.
pub proof fn lemma_signal_ends_acceptance(
    before: Seq<CoordinatorEvent>,
    signal: Signal,
    receiver: ListenerState,
    later: Seq<ListenerEvent>,
    arrival: ListenerEvent,
)
    requires
        !saw_signal(before),
        !saw_all_finished(before),
    ensures
        ({
            let turn = coordinator_step(
                coordinator_run(coordinator_start(), before).0,
                CoordinatorEvent::Signal(signal),
            );
            let stopped = listener_step(
                receiver,
                ListenerEvent::Request(Some(TaskRequest::Shutdown)),
            ).0;
            &&& turn.1.request_shutdown
            &&& turn.1.exit is None
            &&& turn.0.phase == Phase::Draining
            &&& listener_step(listener_run(stopped, later), arrival) == (
                ListenerState::Stopped,
                ListenerAction::Ignore,
            )
        }),
{
    lemma_orderly_shutdown(before);
    lemma_nothing_accepted_after_shutdown(receiver, later, arrival);
    let state = coordinator_run(coordinator_start(), before).0;
    assert(state.phase is Running);
}

} // verus!
