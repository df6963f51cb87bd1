//! Bringing the pipeline up, and taking it down in order when the process is
//! told to end.

use vstd::prelude::*;

use crate::cmd_args::ConfigError;
use crate::database::StorageOpenError;
use crate::receiver::Transport;

verus! {

/// Exit code of a run that ended with an orderly shutdown.
pub const EXIT_OK: i32 = 0;

/// Exit code of a run that could not be started.
pub const EXIT_FAILURE: i32 = 1;

/// The steps of bringing the pipeline up, in the order in which they are
/// taken. The steps that can fail come first, and none of them starts
/// anything; the steps that start a loop follow, and none of them can fail.
#[derive(Debug, Clone, Copy, PartialEq, Eq, Structural)]
pub enum StartupStep {
    /// Bind the address for the stream transport.
    BindStream,
    /// Bind the address for the datagram transport.
    BindDatagram,
    /// Open the store.
    OpenStore,
    /// Install the watch for termination signals.
    WatchSignals,
    /// Start the loop that accepts connections.
    StartStreamReceiver,
    /// Start the loop that receives datagrams.
    StartDatagramReceiver,
    /// Start the persistence stage.
    StartPersistence,
    /// Start waiting for a termination signal.
    StartSignalWatch,
    /// Start the relay between the receivers and the persistence stage.
    StartRelay,
}

/// Why the process cannot start.
#[derive(Debug, Clone, Copy, PartialEq, Eq, Structural)]
pub enum StartupError {
    /// The options are refused.
    Config(ConfigError),
    /// The address cannot be bound for a transport.
    Bind(Transport),
    /// The store cannot be used.
    Storage(StorageOpenError),
    /// The signals cannot be watched.
    Signals,
}

/// The text shown to the operator for an error, before its cause.
pub open spec fn startup_error_text(error: StartupError) -> Seq<char> {
    match error {
        StartupError::Config(_) => "invalid configuration"@,
        StartupError::Bind(_) => "bind failed"@,
        StartupError::Storage(_) => "storage open failed"@,
        StartupError::Signals => "signal watch failed"@,
    }
}

impl StartupError {
    /// The text shown to the operator, before the cause.
    pub fn message(&self) -> (text: &'static str)
        ensures
            text@ == startup_error_text(*self),
    {
        match self {
            StartupError::Config(_) => "invalid configuration",
            StartupError::Bind(_) => "bind failed",
            StartupError::Storage(_) => "storage open failed",
            StartupError::Signals => "signal watch failed",
        }
    }
}

/// Where starting the pipeline stands after a step.
#[derive(Debug, Clone, Copy, PartialEq, Eq, Structural)]
pub enum StartupProgress {
    /// Take this step next.
    Next(StartupStep),
    /// Every part runs.
    Started,
    /// Starting has failed; nothing more is started.
    Failed(StartupError),
}

/// Whether a step starts a loop. From the first such step on, payloads may
/// be taken in.
pub open spec fn starts_loop(step: StartupStep) -> bool {
    match step {
        StartupStep::BindStream => false,
        StartupStep::BindDatagram => false,
        StartupStep::OpenStore => false,
        StartupStep::WatchSignals => false,
        StartupStep::StartStreamReceiver => true,
        StartupStep::StartDatagramReceiver => true,
        StartupStep::StartPersistence => true,
        StartupStep::StartSignalWatch => true,
        StartupStep::StartRelay => true,
    }
}

/// The step that follows a step, if one does.
pub open spec fn step_after(step: StartupStep) -> Option<StartupStep> {
    match step {
        StartupStep::BindStream => Some(StartupStep::BindDatagram),
        StartupStep::BindDatagram => Some(StartupStep::OpenStore),
        StartupStep::OpenStore => Some(StartupStep::WatchSignals),
        StartupStep::WatchSignals => Some(StartupStep::StartStreamReceiver),
        StartupStep::StartStreamReceiver => Some(StartupStep::StartDatagramReceiver),
        StartupStep::StartDatagramReceiver => Some(StartupStep::StartPersistence),
        StartupStep::StartPersistence => Some(StartupStep::StartSignalWatch),
        StartupStep::StartSignalWatch => Some(StartupStep::StartRelay),
        StartupStep::StartRelay => None,
    }
}

/// The steps of a start in which nothing fails.
pub open spec fn startup_plan() -> Seq<StartupStep> {
    seq![
        StartupStep::BindStream,
        StartupStep::BindDatagram,
        StartupStep::OpenStore,
        StartupStep::WatchSignals,
        StartupStep::StartStreamReceiver,
        StartupStep::StartDatagramReceiver,
        StartupStep::StartPersistence,
        StartupStep::StartSignalWatch,
        StartupStep::StartRelay,
    ]
}

/// Number of steps that can fail; they are the first of the plan.
pub open spec fn preparations() -> nat {
    4
}

/// What follows a step. A step that can fail and did ends the start with its
/// error. Otherwise the next step of the plan follows, and after the last
/// every part runs. Starting a loop cannot fail, so an outcome reported for
/// such a step is not looked at.
pub open spec fn startup_progress(step: StartupStep, outcome: Result<(), StartupError>)
    -> StartupProgress {
    if !starts_loop(step) && outcome is Err {
        StartupProgress::Failed(outcome->Err_0)
    } else {
        match step_after(step) {
            Some(next) => StartupProgress::Next(next),
            None => StartupProgress::Started,
        }
    }
}

/// Where a start stands after the steps whose outcomes are given, taken in
/// order from `progress` on, and which steps were taken. Outcomes beyond the
/// end of the start change nothing.
pub open spec fn startup_run(progress: StartupProgress, outcomes: Seq<Result<(), StartupError>>)
    -> (StartupProgress, Seq<StartupStep>)
    decreases outcomes.len(),
{
    if outcomes.len() == 0 {
        (progress, Seq::empty())
    } else {
        let earlier = startup_run(progress, outcomes.drop_last());
        match earlier.0 {
            StartupProgress::Next(step) => (
                startup_progress(step, outcomes.last()),
                earlier.1.push(step),
            ),
            _ => earlier,
        }
    }
}

/// Whether none of the steps taken starts a loop.
pub open spec fn nothing_runs(steps: Seq<StartupStep>) -> bool {
    forall|i: int| 0 <= i < steps.len() ==> !starts_loop(#[trigger] steps[i])
}

/// The exit code of a process whose start failed, if it did.
pub open spec fn startup_exit(progress: StartupProgress) -> Option<i32> {
    match progress {
        StartupProgress::Failed(_) => Some(EXIT_FAILURE),
        _ => None,
    }
}

/// The first step of starting the pipeline.
pub fn startup_start() -> (progress: StartupProgress)
    ensures
        progress == StartupProgress::Next(StartupStep::BindStream),
{
    StartupProgress::Next(StartupStep::BindStream)
}

/// Decides what follows a step of starting the pipeline.
pub fn startup_next(step: StartupStep, outcome: Result<(), StartupError>) -> (progress:
    StartupProgress)
    ensures
        progress == startup_progress(step, outcome),
{
    let failure = match step {
        StartupStep::BindStream | StartupStep::BindDatagram | StartupStep::OpenStore
        | StartupStep::WatchSignals => match outcome {
            Err(error) => Some(error),
            Ok(()) => None,
        },
        _ => None,
    };
    match failure {
        Some(error) => StartupProgress::Failed(error),
        None => match step {
            StartupStep::BindStream => StartupProgress::Next(StartupStep::BindDatagram),
            StartupStep::BindDatagram => StartupProgress::Next(StartupStep::OpenStore),
            StartupStep::OpenStore => StartupProgress::Next(StartupStep::WatchSignals),
            StartupStep::WatchSignals => StartupProgress::Next(StartupStep::StartStreamReceiver),
            StartupStep::StartStreamReceiver => StartupProgress::Next(
                StartupStep::StartDatagramReceiver,
            ),
            StartupStep::StartDatagramReceiver => StartupProgress::Next(
                StartupStep::StartPersistence,
            ),
            StartupStep::StartPersistence => StartupProgress::Next(StartupStep::StartSignalWatch),
            StartupStep::StartSignalWatch => StartupProgress::Next(StartupStep::StartRelay),
            StartupStep::StartRelay => StartupProgress::Started,
        },
    }
}

/// Whether a step starts a loop.
pub fn step_starts_loop(step: StartupStep) -> (starts: bool)
    ensures
        starts == starts_loop(step),
{
    match step {
        StartupStep::BindStream | StartupStep::BindDatagram | StartupStep::OpenStore
        | StartupStep::WatchSignals => false,
        _ => true,
    }
}

/// The exit code of a process whose start stands at `progress`: a failure
/// ends it with `EXIT_FAILURE`, anything else does not end it.
pub fn exit_code(progress: StartupProgress) -> (code: Option<i32>)
    ensures
        code == startup_exit(progress),
{
    match progress {
        StartupProgress::Failed(_) => Some(EXIT_FAILURE),
        _ => None,
    }
}

/// Position of a step in the plan.
pub open spec fn step_index(step: StartupStep) -> nat {
    match step {
        StartupStep::BindStream => 0,
        StartupStep::BindDatagram => 1,
        StartupStep::OpenStore => 2,
        StartupStep::WatchSignals => 3,
        StartupStep::StartStreamReceiver => 4,
        StartupStep::StartDatagramReceiver => 5,
        StartupStep::StartPersistence => 6,
        StartupStep::StartSignalWatch => 7,
        StartupStep::StartRelay => 8,
    }
}

/// Whether the first `count` outcomes are all successes.
pub open spec fn all_succeeded(outcomes: Seq<Result<(), StartupError>>, count: nat) -> bool {
    forall|i: int| 0 <= i < count && i < outcomes.len() ==> (#[trigger] outcomes[i]) is Ok
}

/// A start keeps to the plan, whatever the outcomes: the steps taken are the
/// first of the plan, one for each outcome until the start ends. It fails
/// exactly at the first preparation whose outcome is an error, with that
/// error, and then no step that starts a loop has been taken: a failed start
/// ends before any receiver begins running. A loop is started only after
/// every preparation has succeeded, and from then on the start cannot fail.
pub proof fn lemma_failed_start_runs_nothing(outcomes: Seq<Result<(), StartupError>>)
    ensures
        ({
            let run = startup_run(StartupProgress::Next(StartupStep::BindStream), outcomes);
            &&& run.1.len() <= outcomes.len()
            &&& run.1.len() <= startup_plan().len()
            &&& run.1 == startup_plan().take(run.1.len() as int)
            &&& run.0 matches StartupProgress::Next(step) ==> {
                &&& run.1.len() == outcomes.len()
                &&& step_index(step) == outcomes.len()
                &&& all_succeeded(outcomes, preparations())
            }
            &&& run.0 is Started ==> {
                &&& run.1 == startup_plan()
                &&& all_succeeded(outcomes, preparations())
            }
            &&& run.0 matches StartupProgress::Failed(error) ==> {
                &&& 0 < run.1.len() <= preparations()
                &&& outcomes[run.1.len() - 1] == Err::<(), StartupError>(error)
                &&& all_succeeded(outcomes, (run.1.len() - 1) as nat)
                &&& nothing_runs(run.1)
            }
            &&& !nothing_runs(run.1) ==> !(run.0 is Failed) && all_succeeded(
                outcomes,
                preparations(),
            )
        }),
    decreases outcomes.len(),
{
    let start = StartupProgress::Next(StartupStep::BindStream);
    let plan = startup_plan();
    if outcomes.len() == 0 {
        assert(startup_run(start, outcomes).1 =~= plan.take(0));
    } else {
        let earlier_outcomes = outcomes.drop_last();
        lemma_failed_start_runs_nothing(earlier_outcomes);
        let earlier = startup_run(start, earlier_outcomes);
        let run = startup_run(start, outcomes);
        assert forall|i: int| 0 <= i < earlier_outcomes.len() implies earlier_outcomes[i]
            == outcomes[i] by {}
        match earlier.0 {
            StartupProgress::Next(step) => {
                let last = outcomes[outcomes.len() - 1];
                assert(outcomes.last() == last);
                assert(plan[step_index(step) as int] == step);
                assert(run.1 == earlier.1.push(step));
                assert(run.1 =~= plan.take(run.1.len() as int));
                assert(run.0 == startup_progress(step, last));
                if run.0 is Failed {
                    assert(!starts_loop(step));
                    assert forall|i: int| 0 <= i < run.1.len() implies !starts_loop(
                        #[trigger] run.1[i],
                    ) by {
                        assert(run.1[i] == plan[i]);
                    }
                    assert forall|i: int|
                        0 <= i < run.1.len() - 1 && i < outcomes.len() implies (
                    #[trigger] outcomes[i]) is Ok by {
                        assert(earlier_outcomes[i] == outcomes[i]);
                    }
                } else {
                    assert forall|i: int|
                        0 <= i < preparations() && i < outcomes.len() implies (
                    #[trigger] outcomes[i]) is Ok by {
                        if i < earlier_outcomes.len() {
                            assert(earlier_outcomes[i] == outcomes[i]);
                        }
                    }
                }
                if !nothing_runs(run.1) {
                    if run.0 is Failed {
                        assert(nothing_runs(run.1));
                    }
                }
            },
            StartupProgress::Started => {
                assert(run == earlier);
                assert forall|i: int|
                    0 <= i < preparations() && i < outcomes.len() implies (
                #[trigger] outcomes[i]) is Ok by {
                    assert(earlier.1.len() == 9);
                    assert(earlier_outcomes[i] == outcomes[i]);
                }
            },
            StartupProgress::Failed(error) => {
                assert(run == earlier);
                assert(outcomes[earlier.1.len() - 1] == earlier_outcomes[earlier.1.len() - 1]);
                assert forall|i: int|
                    0 <= i < earlier.1.len() - 1 && i < outcomes.len() implies (
                #[trigger] outcomes[i]) is Ok by {
                    assert(earlier_outcomes[i] == outcomes[i]);
                }
            },
        }
    }
}

/// The tasks that make up the running process.
#[derive(Debug, Clone, Copy, PartialEq, Eq, Structural)]
pub enum Task {
    Relay,
    StreamReceiver,
    DatagramReceiver,
    Persistence,
    SignalWatch,
}

/// The signals that end the process. Both mean the same.
#[derive(Debug, Clone, Copy, PartialEq, Eq, Structural)]
pub enum Signal {
    Interrupt,
    Terminate,
}

/// The text logged when a signal is caught.
pub open spec fn signal_text(signal: Signal) -> Seq<char> {
    match signal {
        Signal::Interrupt => "caught SIGINT"@,
        Signal::Terminate => "caught SIGTERM"@,
    }
}

impl Signal {
    /// The text logged when the signal is caught.
    pub fn message(&self) -> (text: &'static str)
        ensures
            text@ == signal_text(*self),
    {
        match self {
            Signal::Interrupt => "caught SIGINT",
            Signal::Terminate => "caught SIGTERM",
        }
    }
}

/// The text logged, as a warning, when a task has failed.
pub open spec fn task_failure_text(task: Task) -> Seq<char> {
    match task {
        Task::Relay => "relay task has been troubled"@,
        Task::StreamReceiver => "TCP receiver task has been troubled"@,
        Task::DatagramReceiver => "UDP receiver task has been troubled"@,
        Task::Persistence => "database task has been troubled"@,
        Task::SignalWatch => "signal-trap task has been troubled"@,
    }
}

impl Task {
    /// The text logged, as a warning, when the task has failed.
    pub fn failure_message(&self) -> (text: &'static str)
        ensures
            text@ == task_failure_text(*self),
    {
        match self {
            Task::Relay => "relay task has been troubled",
            Task::StreamReceiver => "TCP receiver task has been troubled",
            Task::DatagramReceiver => "UDP receiver task has been troubled",
            Task::Persistence => "database task has been troubled",
            Task::SignalWatch => "signal-trap task has been troubled",
        }
    }
}

/// The phases of a run.
#[derive(Debug, Clone, Copy, PartialEq, Eq, Structural)]
pub enum Phase {
    /// Every part is active.
    Running,
    /// A signal came; the receivers were asked to stop and the pipeline runs
    /// empty.
    Draining,
    /// Every task has ended.
    Terminated,
}

/// Which tasks have ended.
#[derive(Debug, Clone, Copy, PartialEq, Eq, Structural)]
pub struct Joined {
    pub relay: bool,
    pub stream_receiver: bool,
    pub datagram_receiver: bool,
    pub persistence: bool,
    pub signal_watch: bool,
}

/// What the coordinator knows.
#[derive(Debug, Clone, Copy, PartialEq, Eq, Structural)]
pub struct CoordinatorState {
    pub phase: Phase,
    pub joined: Joined,
}

/// What the coordinator waits for.
#[derive(Debug, Clone, Copy, PartialEq, Eq, Structural)]
pub enum CoordinatorEvent {
    /// The process was sent a signal.
    Signal(Signal),
    /// A task has ended, cleanly or not.
    Finished(Task, bool),
}

/// What the coordinator does about an event.
#[derive(Debug, Clone, Copy, PartialEq, Eq, Structural)]
pub struct CoordinatorAction {
    /// Send a shutdown request to both receivers.
    pub request_shutdown: bool,
    /// Log a warning that the named task has failed.
    pub warn: Option<Task>,
    /// Let the process exit with this code.
    pub exit: Option<i32>,
}

/// Whether a task has ended.
pub open spec fn has_joined(joined: Joined, task: Task) -> bool {
    match task {
        Task::Relay => joined.relay,
        Task::StreamReceiver => joined.stream_receiver,
        Task::DatagramReceiver => joined.datagram_receiver,
        Task::Persistence => joined.persistence,
        Task::SignalWatch => joined.signal_watch,
    }
}

/// Whether every task has ended.
pub open spec fn all_joined(joined: Joined) -> bool {
    joined.relay && joined.stream_receiver && joined.datagram_receiver && joined.persistence
        && joined.signal_watch
}

/// The tasks that have ended once `task` has.
pub open spec fn with_joined(joined: Joined, task: Task) -> Joined {
    match task {
        Task::Relay => Joined { relay: true, ..joined },
        Task::StreamReceiver => Joined { stream_receiver: true, ..joined },
        Task::DatagramReceiver => Joined { datagram_receiver: true, ..joined },
        Task::Persistence => Joined { persistence: true, ..joined },
        Task::SignalWatch => Joined { signal_watch: true, ..joined },
    }
}

/// The state in which a run begins.
pub open spec fn coordinator_start() -> CoordinatorState {
    CoordinatorState {
        phase: Phase::Running,
        joined: Joined {
            relay: false,
            stream_receiver: false,
            datagram_receiver: false,
            persistence: false,
            signal_watch: false,
        },
    }
}

/// An action that does nothing.
pub open spec fn no_action() -> CoordinatorAction {
    CoordinatorAction { request_shutdown: false, warn: None, exit: None }
}

/// One turn of the coordinator. The first signal of a run sends the shutdown
/// request to both receivers; a task that ended badly is warned about; the
/// process is allowed to exit, with `EXIT_OK`, when the last task has ended.
pub open spec fn coordinator_step(state: CoordinatorState, event: CoordinatorEvent) -> (
    CoordinatorState,
    CoordinatorAction,
) {
    match event {
        CoordinatorEvent::Signal(_) => match state.phase {
            Phase::Running => (
                CoordinatorState { phase: Phase::Draining, ..state },
                CoordinatorAction { request_shutdown: true, ..no_action() },
            ),
            _ => (state, no_action()),
        },
        CoordinatorEvent::Finished(task, clean) => {
            let joined = with_joined(state.joined, task);
            let warn = if clean {
                None
            } else {
                Some(task)
            };
            if all_joined(joined) && !(state.phase is Terminated) {
                (
                    CoordinatorState { phase: Phase::Terminated, joined },
                    CoordinatorAction { request_shutdown: false, warn, exit: Some(EXIT_OK) },
                )
            } else {
                (
                    CoordinatorState { phase: state.phase, joined },
                    CoordinatorAction { request_shutdown: false, warn, exit: None },
                )
            }
        },
    }
}

/// The state after a sequence of events, and what was done about each.
pub open spec fn coordinator_run(state: CoordinatorState, events: Seq<CoordinatorEvent>) -> (
    CoordinatorState,
    Seq<CoordinatorAction>,
)
    decreases events.len(),
{
    if events.len() == 0 {
        (state, Seq::empty())
    } else {
        let earlier = coordinator_run(state, events.drop_last());
        let turn = coordinator_step(earlier.0, events.last());
        (turn.0, earlier.1.push(turn.1))
    }
}

/// Whether a task's end is among a sequence of events.
pub open spec fn saw_finished(events: Seq<CoordinatorEvent>, task: Task) -> bool {
    exists|i: int|
        0 <= i < events.len() && (#[trigger] events[i] matches CoordinatorEvent::Finished(t, _)
            && t == task)
}

/// Whether a signal is among a sequence of events.
pub open spec fn saw_signal(events: Seq<CoordinatorEvent>) -> bool {
    exists|i: int| 0 <= i < events.len() && #[trigger] events[i] is Signal
}

/// How often a sequence of actions sends the shutdown request.
pub open spec fn shutdown_requests(actions: Seq<CoordinatorAction>) -> nat
    decreases actions.len(),
{
    if actions.len() == 0 {
        0
    } else {
        shutdown_requests(actions.drop_last()) + (if actions.last().request_shutdown {
            1nat
        } else {
            0nat
        })
    }
}

/// How often a sequence of actions lets the process exit.
pub open spec fn exits(actions: Seq<CoordinatorAction>) -> nat
    decreases actions.len(),
{
    if actions.len() == 0 {
        0
    } else {
        exits(actions.drop_last()) + (if actions.last().exit is Some {
            1nat
        } else {
            0nat
        })
    }
}

/// The coordinator of one run.
pub struct Coordinator {
    state: CoordinatorState,
}

impl View for Coordinator {
    type V = CoordinatorState;

    closed spec fn view(&self) -> CoordinatorState {
        self.state
    }
}

impl Coordinator {
    /// The coordinator of a run in which every part is active.
    pub fn new() -> (coordinator: Coordinator)
        ensures
            coordinator@ == coordinator_start(),
    {
        Coordinator {
            state: CoordinatorState {
                phase: Phase::Running,
                joined: Joined {
                    relay: false,
                    stream_receiver: false,
                    datagram_receiver: false,
                    persistence: false,
                    signal_watch: false,
                },
            },
        }
    }

    /// The phase of the run.
    pub fn phase(&self) -> (phase: Phase)
        ensures
            phase == self@.phase,
    {
        self.state.phase
    }

    /// Whether a task has ended.
    pub fn has_joined(&self, task: Task) -> (joined: bool)
        ensures
            joined == has_joined(self@.joined, task),
    {
        match task {
            Task::Relay => self.state.joined.relay,
            Task::StreamReceiver => self.state.joined.stream_receiver,
            Task::DatagramReceiver => self.state.joined.datagram_receiver,
            Task::Persistence => self.state.joined.persistence,
            Task::SignalWatch => self.state.joined.signal_watch,
        }
    }

    /// Takes one event and says what to do about it.
    pub fn step(&mut self, event: CoordinatorEvent) -> (action: CoordinatorAction)
        ensures
            (final(self)@, action) == coordinator_step(old(self)@, event),
    {
        match event {
            CoordinatorEvent::Signal(_) => match self.state.phase {
                Phase::Running => {
                    self.state.phase = Phase::Draining;
                    CoordinatorAction { request_shutdown: true, warn: None, exit: None }
                },
                _ => CoordinatorAction { request_shutdown: false, warn: None, exit: None },
            },
            CoordinatorEvent::Finished(task, clean) => {
                match task {
                    Task::Relay => {
                        self.state.joined.relay = true;
                    },
                    Task::StreamReceiver => {
                        self.state.joined.stream_receiver = true;
                    },
                    Task::DatagramReceiver => {
                        self.state.joined.datagram_receiver = true;
                    },
                    Task::Persistence => {
                        self.state.joined.persistence = true;
                    },
                    Task::SignalWatch => {
                        self.state.joined.signal_watch = true;
                    },
                }
                let warn = if clean {
                    None
                } else {
                    Some(task)
                };
                let joined = self.state.joined;
                let all = joined.relay && joined.stream_receiver && joined.datagram_receiver
                    && joined.persistence && joined.signal_watch;
                let terminated = match self.state.phase {
                    Phase::Terminated => true,
                    _ => false,
                };
                if all && !terminated {
                    self.state.phase = Phase::Terminated;
                    CoordinatorAction { request_shutdown: false, warn, exit: Some(EXIT_OK) }
                } else {
                    CoordinatorAction { request_shutdown: false, warn, exit: None }
                }
            },
        }
    }
}

/// Whether the end of every task is among a sequence of events.
pub open spec fn saw_all_finished(events: Seq<CoordinatorEvent>) -> bool {
    &&& saw_finished(events, Task::Relay)
    &&& saw_finished(events, Task::StreamReceiver)
    &&& saw_finished(events, Task::DatagramReceiver)
    &&& saw_finished(events, Task::Persistence)
    &&& saw_finished(events, Task::SignalWatch)
}

proof fn lemma_saw_finished_step(events: Seq<CoordinatorEvent>, task: Task)
    requires
        events.len() > 0,
    ensures
        saw_finished(events, task) == (saw_finished(events.drop_last(), task) || (
        events.last() matches CoordinatorEvent::Finished(t, _) && t == task)),
{
    let earlier = events.drop_last();
    if saw_finished(events, task) {
        let i = choose|i: int|
            0 <= i < events.len() && (#[trigger] events[i] matches CoordinatorEvent::Finished(t, _)
                && t == task);
        if i < earlier.len() {
            assert(earlier[i] == events[i]);
        }
    }
    if saw_finished(earlier, task) {
        let i = choose|i: int|
            0 <= i < earlier.len() && (#[trigger] earlier[i] matches CoordinatorEvent::Finished(
                t,
                _,
            ) && t == task);
        assert(events[i] == earlier[i]);
    }
    if events.last() matches CoordinatorEvent::Finished(t, _) && t == task {
        assert(events[events.len() - 1] == events.last());
    }
}

proof fn lemma_saw_signal_step(events: Seq<CoordinatorEvent>)
    requires
        events.len() > 0,
    ensures
        saw_signal(events) == (saw_signal(events.drop_last()) || events.last() is Signal),
{
    let earlier = events.drop_last();
    if saw_signal(events) {
        let i = choose|i: int| 0 <= i < events.len() && #[trigger] events[i] is Signal;
        if i < earlier.len() {
            assert(earlier[i] == events[i]);
        }
    }
    if saw_signal(earlier) {
        let i = choose|i: int| 0 <= i < earlier.len() && #[trigger] earlier[i] is Signal;
        assert(events[i] == earlier[i]);
    }
    if events.last() is Signal {
        assert(events[events.len() - 1] == events.last());
    }
}

/// Whatever happens in a run, and in whatever order: the shutdown request
/// goes out at most once, only upon a signal, and has gone out whenever the
/// run is draining; the run is terminated exactly when every task has ended,
/// and the process is allowed to exit at that moment, once, and not before;
/// until then a run that saw a signal is draining.
pub proof fn lemma_orderly_shutdown(events: Seq<CoordinatorEvent>)
    ensures
        ({
            let run = coordinator_run(coordinator_start(), events);
            &&& run.1.len() == events.len()
            &&& forall|task: Task| has_joined(run.0.joined, task) == saw_finished(events, task)
            &&& run.0.phase is Terminated <==> saw_all_finished(events)
            &&& run.0.phase is Draining <==> saw_signal(events) && !saw_all_finished(events)
            &&& exits(run.1) == (if saw_all_finished(events) {
                1nat
            } else {
                0nat
            })
            &&& shutdown_requests(run.1) <= 1
            &&& shutdown_requests(run.1) == 1 ==> saw_signal(events)
            &&& run.0.phase is Draining ==> shutdown_requests(run.1) == 1
            &&& run.0.phase is Running ==> shutdown_requests(run.1) == 0
        }),
    decreases events.len(),
{
    let start = coordinator_start();
    if events.len() == 0 {
        assert(!saw_finished(events, Task::Relay));
        assert(!saw_signal(events));
        assert forall|task: Task| has_joined(start.joined, task) == saw_finished(
            events,
            task,
        ) by {
            assert(!saw_finished(events, task));
        }
    } else {
        let earlier = events.drop_last();
        lemma_orderly_shutdown(earlier);
        lemma_saw_signal_step(events);
        lemma_saw_finished_step(events, Task::Relay);
        lemma_saw_finished_step(events, Task::StreamReceiver);
        lemma_saw_finished_step(events, Task::DatagramReceiver);
        lemma_saw_finished_step(events, Task::Persistence);
        lemma_saw_finished_step(events, Task::SignalWatch);
        let before = coordinator_run(start, earlier);
        assert(has_joined(before.0.joined, Task::Relay) == saw_finished(earlier, Task::Relay));
        assert(has_joined(before.0.joined, Task::StreamReceiver) == saw_finished(
            earlier,
            Task::StreamReceiver,
        ));
        assert(has_joined(before.0.joined, Task::DatagramReceiver) == saw_finished(
            earlier,
            Task::DatagramReceiver,
        ));
        assert(has_joined(before.0.joined, Task::Persistence) == saw_finished(
            earlier,
            Task::Persistence,
        ));
        assert(has_joined(before.0.joined, Task::SignalWatch) == saw_finished(
            earlier,
            Task::SignalWatch,
        ));
        let turn = coordinator_step(before.0, events.last());
        let actions = before.1.push(turn.1);
        assert(coordinator_run(start, events).1 == actions);
        assert(actions.drop_last() =~= before.1);
        assert(actions.last() == turn.1);
        assert forall|task: Task| has_joined(turn.0.joined, task) == saw_finished(
            events,
            task,
        ) by {
            lemma_saw_finished_step(events, task);
            assert(has_joined(before.0.joined, task) == saw_finished(earlier, task));
        }
    }
}

} // verus!
