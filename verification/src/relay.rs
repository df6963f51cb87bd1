//! The relay: merges what the two receivers forward into the one stream that
//! feeds the persistence stage.

use vstd::prelude::*;

use crate::receiver::Transport;
use crate::record::SensorRecord;

verus! {

/// Capacity of the channel between the relay and the persistence stage.
pub const RELAY_CAPACITY: usize = 10;

/// Which of the two upstream channels are still open.
#[derive(Debug, Clone, Copy, PartialEq, Eq, Structural)]
pub struct RelayState {
    pub stream_open: bool,
    pub datagram_open: bool,
}

/// What the relay waits for.
#[derive(Debug, PartialEq, Eq)]
pub enum RelayEvent {
    /// A receiver forwarded a record.
    Item(Transport, SensorRecord),
    /// A receiver's channel is closed and drained.
    Closed(Transport),
    /// The record forwarded last could not be delivered: the consumer is
    /// gone.
    Undelivered,
}

/// What the relay does about an event.
#[derive(Debug, PartialEq, Eq)]
pub enum RelayAction {
    /// Send the record downstream.
    Forward(SensorRecord),
    /// Go on waiting.
    Wait,
    /// Log that a record could not be delivered, and go on draining.
    ReportUndelivered,
    /// Close the downstream channel and end.
    Close,
}

/// Number of upstream channels that are still open.
pub open spec fn open_upstreams(state: RelayState) -> nat {
    (if state.stream_open {
        1nat
    } else {
        0nat
    }) + (if state.datagram_open {
        1nat
    } else {
        0nat
    })
}

/// Whether the channel of `transport` is still open.
pub open spec fn is_open(state: RelayState, transport: Transport) -> bool {
    match transport {
        Transport::Stream => state.stream_open,
        Transport::Datagram => state.datagram_open,
    }
}

/// The state after the channel of `transport` has closed.
pub open spec fn without(state: RelayState, transport: Transport) -> RelayState {
    match transport {
        Transport::Stream => RelayState { stream_open: false, ..state },
        Transport::Datagram => RelayState { datagram_open: false, ..state },
    }
}

/// One turn of the relay. A record is forwarded as it came; a closure is
/// noted, and the one that leaves no upstream open closes the downstream.
pub open spec fn relay_step(state: RelayState, event: RelayEvent) -> (RelayState, RelayAction) {
    match event {
        RelayEvent::Item(_, record) => (state, RelayAction::Forward(record)),
        RelayEvent::Undelivered => (state, RelayAction::ReportUndelivered),
        RelayEvent::Closed(transport) => {
            let next = without(state, transport);
            if open_upstreams(state) > 0 && open_upstreams(next) == 0 {
                (next, RelayAction::Close)
            } else {
                (next, RelayAction::Wait)
            }
        },
    }
}

/// The state after a sequence of events, and what was done about each.
pub open spec fn relay_run(state: RelayState, events: Seq<RelayEvent>) -> (
    RelayState,
    Seq<RelayAction>,
)
    decreases events.len(),
{
    if events.len() == 0 {
        (state, Seq::empty())
    } else {
        let earlier = relay_run(state, events.drop_last());
        let turn = relay_step(earlier.0, events.last());
        (turn.0, earlier.1.push(turn.1))
    }
}

/// The records among a sequence of events, in the order of arrival.
pub open spec fn items(events: Seq<RelayEvent>) -> Seq<SensorRecord>
    decreases events.len(),
{
    if events.len() == 0 {
        Seq::empty()
    } else {
        match events.last() {
            RelayEvent::Item(_, record) => items(events.drop_last()).push(record),
            _ => items(events.drop_last()),
        }
    }
}

/// The records that came over one transport, in the order of arrival.
pub open spec fn items_from(events: Seq<RelayEvent>, transport: Transport) -> Seq<SensorRecord>
    decreases events.len(),
{
    if events.len() == 0 {
        Seq::empty()
    } else {
        match events.last() {
            RelayEvent::Item(source, record) if source == transport => items_from(
                events.drop_last(),
                transport,
            ).push(record),
            _ => items_from(events.drop_last(), transport),
        }
    }
}

/// Whether the channel of `transport` closed during a sequence of events.
pub open spec fn saw_closed(events: Seq<RelayEvent>, transport: Transport) -> bool {
    exists|i: int| 0 <= i < events.len() && events[i] == RelayEvent::Closed(transport)
}

/// The records sent downstream by a sequence of actions, in order.
pub open spec fn forwarded(actions: Seq<RelayAction>) -> Seq<SensorRecord>
    decreases actions.len(),
{
    if actions.len() == 0 {
        Seq::empty()
    } else {
        match actions.last() {
            RelayAction::Forward(record) => forwarded(actions.drop_last()).push(record),
            _ => forwarded(actions.drop_last()),
        }
    }
}

/// How often a sequence of actions closes the downstream channel.
pub open spec fn closings(actions: Seq<RelayAction>) -> nat
    decreases actions.len(),
{
    if actions.len() == 0 {
        0
    } else {
        closings(actions.drop_last()) + (if actions.last() is Close {
            1nat
        } else {
            0nat
        })
    }
}

/// The fan-in of the two receivers.
pub struct Relay {
    state: RelayState,
}

impl View for Relay {
    type V = RelayState;

    closed spec fn view(&self) -> RelayState {
        self.state
    }
}

impl Relay {
    /// A relay with both upstream channels open.
    pub fn new() -> (relay: Relay)
        ensures
            relay@ == (RelayState { stream_open: true, datagram_open: true }),
    {
        Relay { state: RelayState { stream_open: true, datagram_open: true } }
    }

    /// Whether the channel of `transport` is still open.
    pub fn is_open(&self, transport: Transport) -> (open: bool)
        ensures
            open == is_open(self@, transport),
    {
        match transport {
            Transport::Stream => self.state.stream_open,
            Transport::Datagram => self.state.datagram_open,
        }
    }

    /// Number of upstream channels that are still open.
    pub fn open_upstreams(&self) -> (count: usize)
        ensures
            count == open_upstreams(self@),
    {
        let stream: usize = if self.state.stream_open {
            1
        } else {
            0
        };
        let datagram: usize = if self.state.datagram_open {
            1
        } else {
            0
        };
        stream + datagram
    }

    /// Takes one event and says what to do about it.
    pub fn step(&mut self, event: RelayEvent) -> (action: RelayAction)
        ensures
            (final(self)@, action) == relay_step(old(self)@, event),
    {
        match event {
            RelayEvent::Item(_, record) => RelayAction::Forward(record),
            RelayEvent::Undelivered => RelayAction::ReportUndelivered,
            RelayEvent::Closed(transport) => {
                let was_open = self.state.stream_open || self.state.datagram_open;
                match transport {
                    Transport::Stream => {
                        self.state.stream_open = false;
                    },
                    Transport::Datagram => {
                        self.state.datagram_open = false;
                    },
                }
                if was_open && !self.state.stream_open && !self.state.datagram_open {
                    RelayAction::Close
                } else {
                    RelayAction::Wait
                }
            },
        }
    }

    /// The text logged when a record could not be delivered.
    pub fn undelivered_message() -> (text: &'static str)
        ensures
            text@ == "record send failed"@,
    {
        "record send failed"
    }
}

/// Whatever arrives and in whatever order, the relay sends downstream
/// exactly the records it was given: each one once, unchanged, in the order
/// of arrival. Their number is that of the stream's records plus that of the
/// datagrams' records.
pub proof fn lemma_relay_forwards_every_record(state: RelayState, events: Seq<RelayEvent>)
    ensures
        relay_run(state, events).1.len() == events.len(),
        forwarded(relay_run(state, events).1) == items(events),
        items(events).len() == items_from(events, Transport::Stream).len() + items_from(
            events,
            Transport::Datagram,
        ).len(),
    decreases events.len(),
{
    if events.len() > 0 {
        let earlier = events.drop_last();
        lemma_relay_forwards_every_record(state, earlier);
        let before = relay_run(state, earlier);
        let turn = relay_step(before.0, events.last());
        let actions = before.1.push(turn.1);
        assert(relay_run(state, events).1 == actions);
        assert(actions.drop_last() =~= before.1);
        assert(actions.last() == turn.1);
        if let RelayEvent::Item(source, _) = events.last() {
            assert(source is Stream || source is Datagram);
        }
    }
}

/// The relay's state after a run records exactly the closures it saw.
pub proof fn lemma_relay_tracks_closures(state: RelayState, events: Seq<RelayEvent>)
    ensures
        relay_run(state, events).0 == (RelayState {
            stream_open: state.stream_open && !saw_closed(events, Transport::Stream),
            datagram_open: state.datagram_open && !saw_closed(events, Transport::Datagram),
        }),
    decreases events.len(),
{
    if events.len() > 0 {
        let earlier = events.drop_last();
        lemma_relay_tracks_closures(state, earlier);
        lemma_saw_closed_step(events, Transport::Stream);
        lemma_saw_closed_step(events, Transport::Datagram);
        if let RelayEvent::Closed(transport) = events.last() {
            assert(transport is Stream || transport is Datagram);
        }
    }
}

proof fn lemma_saw_closed_step(events: Seq<RelayEvent>, transport: Transport)
    requires
        events.len() > 0,
    ensures
        saw_closed(events, transport) == (saw_closed(events.drop_last(), transport)
            || events.last() == RelayEvent::Closed(transport)),
{
    let earlier = events.drop_last();
    if saw_closed(events, transport) {
        let i = choose|i: int| 0 <= i < events.len() && events[i] == RelayEvent::Closed(transport);
        if i < earlier.len() {
            assert(earlier[i] == events[i]);
        }
    }
    if saw_closed(earlier, transport) {
        let i = choose|i: int|
            0 <= i < earlier.len() && earlier[i] == RelayEvent::Closed(transport);
        assert(events[i] == earlier[i]);
    }
    if events.last() == RelayEvent::Closed(transport) {
        assert(events[events.len() - 1] == RelayEvent::Closed(transport));
    }
}

/// The relay closes its downstream when both upstream channels have closed,
/// not before, and once only: a relay that starts with both open has closed
/// the downstream exactly when it has seen both closures.
pub proof fn lemma_relay_closes_after_both(events: Seq<RelayEvent>)
    ensures
        ({
            let start = RelayState { stream_open: true, datagram_open: true };
            closings(relay_run(start, events).1) == (if saw_closed(events, Transport::Stream)
                && saw_closed(events, Transport::Datagram) {
                1nat
            } else {
                0nat
            })
        }),
    decreases events.len(),
{
    let start = RelayState { stream_open: true, datagram_open: true };
    if events.len() > 0 {
        let earlier = events.drop_last();
        lemma_relay_closes_after_both(earlier);
        lemma_relay_tracks_closures(start, earlier);
        lemma_saw_closed_step(events, Transport::Stream);
        lemma_saw_closed_step(events, Transport::Datagram);
        let before = relay_run(start, earlier);
        let turn = relay_step(before.0, events.last());
        let actions = before.1.push(turn.1);
        assert(relay_run(start, events).1 == actions);
        assert(actions.drop_last() =~= before.1);
        assert(actions.last() == turn.1);
        if let RelayEvent::Closed(transport) = events.last() {
            assert(transport is Stream || transport is Datagram);
        }
    } else {
        assert(!saw_closed(events, Transport::Stream));
    }
}

} // verus!
