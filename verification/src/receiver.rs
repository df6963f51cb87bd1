//! What the two receivers have in common: the loop that takes in traffic and
//! listens for a shutdown request.

use vstd::prelude::*;

pub mod tcp;
pub mod udp;

verus! {

/// Capacity of the channel over which a receiver forwards records.
pub const PIPELINE_CAPACITY: usize = 10;

/// Capacity of the channel over which a receiver is sent requests.
pub const REQUEST_CAPACITY: usize = 5;

/// A request to a receiver's loop.
#[derive(Debug, Clone, Copy, PartialEq, Eq, Structural)]
pub enum TaskRequest {
    /// Stop taking in traffic.
    Shutdown,
}

/// The two ways in which payloads arrive.
#[derive(Debug, Clone, Copy, PartialEq, Eq, Structural)]
pub enum Transport {
    /// One line per connection.
    Stream,
    /// One payload per datagram.
    Datagram,
}

/// Whether a receiver's loop still takes in traffic.
#[derive(Debug, Clone, Copy, PartialEq, Eq, Structural)]
pub enum ListenerState {
    Accepting,
    Stopped,
}

/// What a receiver's loop waits for.
#[derive(Debug, Clone, Copy, PartialEq, Eq, Structural)]
pub enum ListenerEvent {
    /// A connection was accepted, or a datagram was received.
    Arrival,
    /// Accepting or receiving failed.
    Failure,
    /// The request channel gave a request, or `None` when it is closed.
    Request(Option<TaskRequest>),
}

/// What a receiver's loop does about an event.
#[derive(Debug, Clone, Copy, PartialEq, Eq, Structural)]
pub enum ListenerAction {
    /// Start a unit of work of its own for what arrived.
    Spawn,
    /// Log the failure and go on.
    ReportFailure,
    /// Go on.
    Ignore,
    /// Leave the loop.
    Stop,
}

/// One turn of a receiver's loop. A loop that accepts starts a unit of work
/// for every arrival, survives failures, and stops on a shutdown request; a
/// stopped loop does nothing any more.
pub open spec fn listener_step(state: ListenerState, event: ListenerEvent) -> (
    ListenerState,
    ListenerAction,
) {
    match state {
        ListenerState::Stopped => (ListenerState::Stopped, ListenerAction::Ignore),
        ListenerState::Accepting => match event {
            ListenerEvent::Arrival => (ListenerState::Accepting, ListenerAction::Spawn),
            ListenerEvent::Failure => (ListenerState::Accepting, ListenerAction::ReportFailure),
            ListenerEvent::Request(Some(TaskRequest::Shutdown)) => (
                ListenerState::Stopped,
                ListenerAction::Stop,
            ),
            ListenerEvent::Request(None) => (ListenerState::Accepting, ListenerAction::Ignore),
        },
    }
}

/// The state after a sequence of events.
pub open spec fn listener_run(state: ListenerState, events: Seq<ListenerEvent>) -> ListenerState
    decreases events.len(),
{
    if events.len() == 0 {
        state
    } else {
        listener_step(listener_run(state, events.drop_last()), events.last()).0
    }
}

/// The text logged when accepting or receiving fails.
pub open spec fn accept_failure_text() -> Seq<char> {
    "accept failed"@
}

/// The loop of one receiver.
pub struct Listener {
    state: ListenerState,
}

impl View for Listener {
    type V = ListenerState;

    closed spec fn view(&self) -> ListenerState {
        self.state
    }
}

impl Listener {
    /// A loop that accepts.
    pub fn new() -> (listener: Listener)
        ensures
            listener@ == ListenerState::Accepting,
    {
        Listener { state: ListenerState::Accepting }
    }

    /// Whether the loop still takes in traffic.
    pub fn is_accepting(&self) -> (accepting: bool)
        ensures
            accepting == (self@ == ListenerState::Accepting),
    {
        match self.state {
            ListenerState::Accepting => true,
            ListenerState::Stopped => false,
        }
    }

    /// Takes one event and says what to do about it.
    pub fn step(&mut self, event: ListenerEvent) -> (action: ListenerAction)
        ensures
            (final(self)@, action) == listener_step(old(self)@, event),
    {
        match self.state {
            ListenerState::Stopped => ListenerAction::Ignore,
            ListenerState::Accepting => match event {
                ListenerEvent::Arrival => ListenerAction::Spawn,
                ListenerEvent::Failure => ListenerAction::ReportFailure,
                ListenerEvent::Request(Some(TaskRequest::Shutdown)) => {
                    self.state = ListenerState::Stopped;
                    ListenerAction::Stop
                },
                ListenerEvent::Request(None) => ListenerAction::Ignore,
            },
        }
    }

    /// The text logged when accepting or receiving fails.
    pub fn failure_message() -> (text: &'static str)
        ensures
            text@ == accept_failure_text(),
    {
        "accept failed"
    }
}

/// Once a shutdown request has been taken, no later event starts a unit of
/// work: the loop stays stopped and ignores whatever comes.
pub proof fn lemma_nothing_accepted_after_shutdown(
    state: ListenerState,
    later: Seq<ListenerEvent>,
    event: ListenerEvent,
)
    ensures
        ({
            let stopped = listener_step(state, ListenerEvent::Request(Some(TaskRequest::Shutdown))).0;
            &&& stopped == ListenerState::Stopped
            &&& listener_run(stopped, later) == ListenerState::Stopped
            &&& listener_step(listener_run(stopped, later), event) == (
                ListenerState::Stopped,
                ListenerAction::Ignore,
            )
        }),
    decreases later.len(),
{
    if later.len() > 0 {
        lemma_nothing_accepted_after_shutdown(state, later.drop_last(), later.last());
    }
}

/// A loop that accepts keeps accepting whatever arrives or fails, as long as
/// no shutdown is requested: every arrival gets its unit of work.
pub proof fn lemma_accepting_until_shutdown(events: Seq<ListenerEvent>)
    requires
        forall|i: int|
            0 <= i < events.len() ==> events[i] != ListenerEvent::Request(
                Some(TaskRequest::Shutdown),
            ),
    ensures
        listener_run(ListenerState::Accepting, events) == ListenerState::Accepting,
        listener_step(listener_run(ListenerState::Accepting, events), ListenerEvent::Arrival) == (
            ListenerState::Accepting,
            ListenerAction::Spawn,
        ),
    decreases events.len(),
{
    if events.len() > 0 {
        let earlier = events.drop_last();
        assert forall|i: int| 0 <= i < earlier.len() implies earlier[i] != ListenerEvent::Request(
            Some(TaskRequest::Shutdown),
        ) by {
            assert(earlier[i] == events[i]);
        }
        lemma_accepting_until_shutdown(earlier);
        let last = events[events.len() - 1];
        if let ListenerEvent::Request(Some(request)) = last {
            assert(request is Shutdown);
        }
    }
}

} // verus!
