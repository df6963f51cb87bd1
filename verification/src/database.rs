//! The persistence stage: opening the store, and writing what the relay
//! delivers, one record at a time.

use vstd::prelude::*;

use crate::record::SensorRecord;

verus! {

/// A step of opening the store.
#[derive(Debug, Clone, Copy, PartialEq, Eq, Structural)]
pub enum OpenStep {
    /// Open the file, creating it where there is none.
    Connect,
    /// Make sure the table of records exists.
    CreateTable,
    /// Let the store tidy itself up.
    Vacuum,
}

/// Why the store cannot be used. Any of these ends the start of the
/// process.
#[derive(Debug, Clone, Copy, PartialEq, Eq, Structural)]
pub enum StorageOpenError {
    Open,
    CreateTable,
    Vacuum,
}

/// The text shown to the operator for an error.
pub open spec fn open_error_text(error: StorageOpenError) -> Seq<char> {
    match error {
        StorageOpenError::Open => "database open failed"@,
        StorageOpenError::CreateTable => "create table failed"@,
        StorageOpenError::Vacuum => "vacuum failed"@,
    }
}

impl StorageOpenError {
    /// The text shown to the operator.
    pub fn message(&self) -> (text: &'static str)
        ensures
            text@ == open_error_text(*self),
    {
        match self {
            StorageOpenError::Open => "database open failed",
            StorageOpenError::CreateTable => "create table failed",
            StorageOpenError::Vacuum => "vacuum failed",
        }
    }
}

/// Where opening the store stands after a step.
#[derive(Debug, Clone, Copy, PartialEq, Eq, Structural)]
pub enum OpenProgress {
    /// Take this step next.
    Next(OpenStep),
    /// The store is ready for records.
    Ready,
    /// Opening has failed.
    Failed(StorageOpenError),
}

/// The error that a failed step stands for.
pub open spec fn open_failure(step: OpenStep) -> StorageOpenError {
    match step {
        OpenStep::Connect => StorageOpenError::Open,
        OpenStep::CreateTable => StorageOpenError::CreateTable,
        OpenStep::Vacuum => StorageOpenError::Vacuum,
    }
}

/// What follows a step: after a success the next step in the order connect,
/// create table, vacuum, and readiness after the last; after a failure the
/// error of that step.
pub open spec fn open_progress(step: OpenStep, succeeded: bool) -> OpenProgress {
    if !succeeded {
        OpenProgress::Failed(open_failure(step))
    } else {
        match step {
            OpenStep::Connect => OpenProgress::Next(OpenStep::CreateTable),
            OpenStep::CreateTable => OpenProgress::Next(OpenStep::Vacuum),
            OpenStep::Vacuum => OpenProgress::Ready,
        }
    }
}

/// Where opening stands after the steps whose results are given, taken in
/// order from `progress` on. Results beyond the end of opening change
/// nothing.
pub open spec fn open_run(progress: OpenProgress, results: Seq<bool>) -> OpenProgress
    decreases results.len(),
{
    if results.len() == 0 {
        progress
    } else {
        match open_run(progress, results.drop_last()) {
            OpenProgress::Next(step) => open_progress(step, results.last()),
            done => done,
        }
    }
}

/// The first step of opening the store.
pub fn open_start() -> (progress: OpenProgress)
    ensures
        progress == OpenProgress::Next(OpenStep::Connect),
{
    OpenProgress::Next(OpenStep::Connect)
}

/// Decides what follows a step of opening the store.
pub fn open_database(step: OpenStep, succeeded: bool) -> (progress: OpenProgress)
    ensures
        progress == open_progress(step, succeeded),
{
    if !succeeded {
        match step {
            OpenStep::Connect => OpenProgress::Failed(StorageOpenError::Open),
            OpenStep::CreateTable => OpenProgress::Failed(StorageOpenError::CreateTable),
            OpenStep::Vacuum => OpenProgress::Failed(StorageOpenError::Vacuum),
        }
    } else {
        match step {
            OpenStep::Connect => OpenProgress::Next(OpenStep::CreateTable),
            OpenStep::CreateTable => OpenProgress::Next(OpenStep::Vacuum),
            OpenStep::Vacuum => OpenProgress::Ready,
        }
    }
}

/// The store is ready exactly after three steps that all succeeded; the
/// first failure among them is the error, and no step is taken after it.
pub proof fn lemma_open_needs_every_step(results: Seq<bool>)
    requires
        results.len() == 3,
    ensures
        ({
            let end = open_run(OpenProgress::Next(OpenStep::Connect), results);
            &&& end is Ready <==> results[0] && results[1] && results[2]
            &&& !results[0] ==> end == OpenProgress::Failed(StorageOpenError::Open)
            &&& results[0] && !results[1] ==> end == OpenProgress::Failed(
                StorageOpenError::CreateTable,
            )
            &&& results[0] && results[1] && !results[2] ==> end == OpenProgress::Failed(
                StorageOpenError::Vacuum,
            )
        }),
{
    let start = OpenProgress::Next(OpenStep::Connect);
    let two = results.drop_last();
    let one = two.drop_last();
    assert(open_run(start, one.drop_last()) == start);
    assert(open_run(start, one) == open_progress(OpenStep::Connect, results[0]));
    assert(open_run(start, two) == match open_run(start, one) {
        OpenProgress::Next(step) => open_progress(step, results[1]),
        done => done,
    });
    assert(open_run(start, results) == match open_run(start, two) {
        OpenProgress::Next(step) => open_progress(step, results[2]),
        done => done,
    });
}

/// Whether the stage still consumes its input.
#[derive(Debug, Clone, Copy, PartialEq, Eq, Structural)]
pub enum StageState {
    Running,
    Stopped,
}

/// What the stage waits for.
#[derive(Debug, PartialEq, Eq)]
pub enum StageEvent {
    /// The input gave a record, or `None` when it is closed and drained.
    Received(Option<SensorRecord>),
    /// The insert asked for last has succeeded or failed.
    Written(bool),
}

/// Why a record was not stored.
#[derive(Debug, Clone, Copy, PartialEq, Eq, Structural)]
pub enum StorageWriteError {
    /// The store refused the insert.
    Insert,
}

/// The text logged for an error.
pub open spec fn write_error_text(error: StorageWriteError) -> Seq<char> {
    match error {
        StorageWriteError::Insert => "insert record failed"@,
    }
}

impl StorageWriteError {
    /// The text logged for the error.
    pub fn message(&self) -> (text: &'static str)
        ensures
            text@ == write_error_text(*self),
    {
        match self {
            StorageWriteError::Insert => "insert record failed",
        }
    }
}

/// What the stage does about an event.
#[derive(Debug, PartialEq, Eq)]
pub enum StageAction {
    /// Insert the record, once.
    Insert(SensorRecord),
    /// Log that the record was stored.
    Announce,
    /// Log that the record is lost, and go on with the next.
    Report(StorageWriteError),
    /// Release the store and end.
    Stop,
    /// Nothing.
    Ignore,
}

/// One turn of the stage. Every record received is inserted, whatever came
/// of the inserts before it; the stage ends when its input does.
pub open spec fn stage_step(state: StageState, event: StageEvent) -> (StageState, StageAction) {
    match state {
        StageState::Stopped => (StageState::Stopped, StageAction::Ignore),
        StageState::Running => match event {
            StageEvent::Received(Some(record)) => (StageState::Running, StageAction::Insert(record)),
            StageEvent::Received(None) => (StageState::Stopped, StageAction::Stop),
            StageEvent::Written(true) => (StageState::Running, StageAction::Announce),
            StageEvent::Written(false) => (
                StageState::Running,
                StageAction::Report(StorageWriteError::Insert),
            ),
        },
    }
}

/// The state after a sequence of events, and what was done about each.
pub open spec fn stage_run(state: StageState, events: Seq<StageEvent>) -> (
    StageState,
    Seq<StageAction>,
)
    decreases events.len(),
{
    if events.len() == 0 {
        (state, Seq::empty())
    } else {
        let earlier = stage_run(state, events.drop_last());
        let turn = stage_step(earlier.0, events.last());
        (turn.0, earlier.1.push(turn.1))
    }
}

/// The records among a sequence of events, in the order of arrival.
pub open spec fn received(events: Seq<StageEvent>) -> Seq<SensorRecord>
    decreases events.len(),
{
    if events.len() == 0 {
        Seq::empty()
    } else {
        match events.last() {
            StageEvent::Received(Some(record)) => received(events.drop_last()).push(record),
            _ => received(events.drop_last()),
        }
    }
}

/// The records that a sequence of actions inserts, in order.
pub open spec fn inserted(actions: Seq<StageAction>) -> Seq<SensorRecord>
    decreases actions.len(),
{
    if actions.len() == 0 {
        Seq::empty()
    } else {
        match actions.last() {
            StageAction::Insert(record) => inserted(actions.drop_last()).push(record),
            _ => inserted(actions.drop_last()),
        }
    }
}

/// Whether the input is still open after a sequence of events.
pub open spec fn input_open(events: Seq<StageEvent>) -> bool {
    forall|i: int| 0 <= i < events.len() ==> events[i] != StageEvent::Received(None)
}

/// The single writer of the store.
pub struct DatabaseTask {
    state: StageState,
}

impl View for DatabaseTask {
    type V = StageState;

    closed spec fn view(&self) -> StageState {
        self.state
    }
}

impl DatabaseTask {
    /// A stage that consumes its input.
    pub fn new() -> (task: DatabaseTask)
        ensures
            task@ == StageState::Running,
    {
        DatabaseTask { state: StageState::Running }
    }

    /// Whether the stage still consumes its input.
    pub fn is_running(&self) -> (running: bool)
        ensures
            running == (self@ == StageState::Running),
    {
        match self.state {
            StageState::Running => true,
            StageState::Stopped => false,
        }
    }

    /// Takes one event and says what to do about it.
    pub fn step(&mut self, event: StageEvent) -> (action: StageAction)
        ensures
            (final(self)@, action) == stage_step(old(self)@, event),
    {
        match self.state {
            StageState::Stopped => StageAction::Ignore,
            StageState::Running => match event {
                StageEvent::Received(Some(record)) => StageAction::Insert(record),
                StageEvent::Received(None) => {
                    self.state = StageState::Stopped;
                    StageAction::Stop
                },
                StageEvent::Written(true) => StageAction::Announce,
                StageEvent::Written(false) => StageAction::Report(StorageWriteError::Insert),
            },
        }
    }
}

/// As long as its input is open the stage keeps running and inserts exactly
/// the records it received: each one once, unchanged, in the order of
/// arrival, and whatever became of the inserts in between.
pub proof fn lemma_stage_inserts_every_record(events: Seq<StageEvent>)
    requires
        input_open(events),
    ensures
        stage_run(StageState::Running, events).0 == StageState::Running,
        stage_run(StageState::Running, events).1.len() == events.len(),
        inserted(stage_run(StageState::Running, events).1) == received(events),
    decreases events.len(),
{
    if events.len() > 0 {
        let earlier = events.drop_last();
        assert forall|i: int| 0 <= i < earlier.len() implies earlier[i] != StageEvent::Received(
            None,
        ) by {
            assert(earlier[i] == events[i]);
        }
        lemma_stage_inserts_every_record(earlier);
        let before = stage_run(StageState::Running, earlier);
        let last = events[events.len() - 1];
        assert(last != StageEvent::Received(None));
        let turn = stage_step(before.0, last);
        let actions = before.1.push(turn.1);
        assert(stage_run(StageState::Running, events).1 == actions);
        assert(actions.drop_last() =~= before.1);
        assert(actions.last() == turn.1);
    }
}

/// A failed insert costs the record it was for and nothing else: the record
/// received right after it is inserted like any other.
pub proof fn lemma_write_failure_is_local(
    earlier: Seq<StageEvent>,
    lost: SensorRecord,
    next: SensorRecord,
)
    requires
        input_open(earlier),
    ensures
        ({
            let events = earlier.push(StageEvent::Received(Some(lost))).push(
                StageEvent::Written(false),
            ).push(StageEvent::Received(Some(next)));
            let run = stage_run(StageState::Running, events);
            &&& run.0 == StageState::Running
            &&& run.1.len() == earlier.len() + 3
            &&& run.1[earlier.len() as int] == StageAction::Insert(lost)
            &&& run.1[earlier.len() as int + 1] == StageAction::Report(StorageWriteError::Insert)
            &&& run.1[earlier.len() as int + 2] == StageAction::Insert(next)
        }),
{
    let one = earlier.push(StageEvent::Received(Some(lost)));
    let two = one.push(StageEvent::Written(false));
    let three = two.push(StageEvent::Received(Some(next)));
    lemma_stage_inserts_every_record(earlier);
    assert(one.drop_last() =~= earlier);
    assert(two.drop_last() =~= one);
    assert(three.drop_last() =~= two);
    let run0 = stage_run(StageState::Running, earlier);
    let run1 = stage_run(StageState::Running, one);
    let run2 = stage_run(StageState::Running, two);
    let run3 = stage_run(StageState::Running, three);
    assert(run1.1 == run0.1.push(StageAction::Insert(lost)));
    assert(run2.1 == run1.1.push(StageAction::Report(StorageWriteError::Insert)));
    assert(run3.1 == run2.1.push(StageAction::Insert(next)));
}

/// The stage ends when its input does, and not before it has dealt with
/// everything the input gave: when the input closes after a sequence of
/// events, every record among them has been inserted, the last action is to
/// stop, and nothing is inserted any more.
pub proof fn lemma_stage_drains_before_stopping(events: Seq<StageEvent>, later: StageEvent)
    requires
        input_open(events),
    ensures
        ({
            let run = stage_run(StageState::Running, events.push(StageEvent::Received(None)));
            &&& run.0 == StageState::Stopped
            &&& run.1.last() == StageAction::Stop
            &&& inserted(run.1) == received(events)
            &&& stage_step(run.0, later) == (StageState::Stopped, StageAction::Ignore)
        }),
{
    lemma_stage_inserts_every_record(events);
    let closing = events.push(StageEvent::Received(None));
    assert(closing.drop_last() =~= events);
    let before = stage_run(StageState::Running, events);
    let run = stage_run(StageState::Running, closing);
    assert(run.1 == before.1.push(StageAction::Stop));
    assert(run.1.drop_last() =~= before.1);
}

} // verus!
