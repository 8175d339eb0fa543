//! The control loop as a state machine.
//!
//! [`RunLoop`] decides; the caller performs the action that [`RunLoop::action`]
//! names and reports what came of it through [`RunLoop::step`].
use crate::gpio::{
    fact_of, level_to_fact, BeamDebouncer, EdgeDecision, GpioEdge, Level, Refractory,
    BEAM_ACTIVE_LOW, REFRACTORY,
};
use crate::instrumentation::{span_ns, Instrumentation, Sample};
use crate::time::{elapsed, Duration, Instant};
use crate::{schedule_write, write_due, ConnectionEvent, WriteDecision, KEEPALIVE};
use vstd::prelude::*;

verus! {

/// The two clock readings that anchor a latency sample.
#[derive(Debug, Clone, Copy, PartialEq, Eq, Structural)]
pub struct WriteStamp {
    /// Kernel timestamp of the edge.
    pub edge_ns: u64,
    /// Clock reading taken just before the write.
    pub write_ns: u64,
}

/// Where the loop stands: the operation whose outcome it waits for.
#[derive(Debug, Clone, Copy, PartialEq, Eq, Structural)]
pub enum Phase {
    /// Establishing the first link.
    Connecting,
    /// Asking for the connection interval.
    Enforcing,
    /// Starting the guard that keeps the interval.
    Guarding,
    /// Sampling the line for the first time.
    Sampling,
    /// Waiting for an edge, a reconnect or the keepalive.
    Waiting,
    /// Sampling the line again after the refractory window; decided at `now`.
    Resampling { now: Instant },
    /// Reading the clock before an instrumented write.
    Stamping { value: bool, now: Instant, edge_ns: u64 },
    /// Writing `value`, a decision taken at `now`.
    Writing { value: bool, now: Instant, latency: Option<WriteStamp> },
    /// Reporting that the clock ran behind the edge's timestamp.
    ReportingSkew { stamp: WriteStamp },
    /// Reading the clock before the read-back.
    StartingReadBack { stamp: WriteStamp },
    /// Reading the fact back.
    ReadingBack { stamp: WriteStamp, start_ns: u64 },
    /// Reading the clock after the read-back.
    EndingReadBack { stamp: WriteStamp, start_ns: u64, byte: u8 },
    /// Reporting a latency sample.
    Reporting { sample: Sample, read_back: Option<u8> },
    /// The run is over: an operation it cannot do without has failed.
    Stopped,
}

/// What the caller is to do next.
#[derive(Debug, Clone, Copy, PartialEq, Eq, Structural)]
pub enum RunAction {
    Connect,
    EnforceInterval,
    StartGuard,
    SampleLevel,
    /// Wait for whichever comes first: an edge (for `window` at most, where one is
    /// given), a reconnect, or `deadline`.
    Wait { window: Option<Duration>, deadline: Instant },
    ReadClock,
    Write(bool),
    ReadBack,
    ReportSkew { edge_ns: u64, write_ns: u64 },
    ReportSample { sample: Sample, read_back: Option<u8> },
    /// Return the failure that was reported last.
    Stop,
}

/// What came of the action.
#[derive(Debug, Clone, Copy, PartialEq, Eq, Structural)]
pub enum RunEvent {
    /// The operation succeeded and has nothing to tell.
    Done,
    /// The operation failed.
    Failed,
    /// The line was sampled; `now` is the time after the sample.
    Sampled { level: Level, now: Instant },
    /// The monotonic clock was read.
    Clock(u64),
    /// The fact characteristic was read.
    ReadBack(u8),
    /// An edge was reported.
    Edge { edge: GpioEdge, now: Instant },
    /// The wait for an edge ran into the end of the refractory window.
    WindowElapsed { now: Instant },
    /// A fresh link was established.
    Reconnected { now: Instant },
    /// The keepalive deadline came.
    DeadlineReached { now: Instant },
}

/// The keepalive deadline after a write at `now` can be represented.
pub open spec fn has_room(now: Instant) -> bool {
    now + KEEPALIVE <= Instant::MAX
}

impl RunEvent {
    /// The instant that the event carries leaves room for the keepalive.
    pub open spec fn has_room(self) -> bool {
        match self {
            RunEvent::Sampled { now, .. } => has_room(now),
            RunEvent::Edge { now, .. } => has_room(now),
            RunEvent::WindowElapsed { now } => has_room(now),
            RunEvent::Reconnected { now } => has_room(now),
            RunEvent::DeadlineReached { now } => has_room(now),
            _ => true,
        }
    }
}

/// All that the loop remembers.
pub struct RunState {
    /// Whether the beam is broken, as last believed.
    pub fact: bool,
    /// The fact written last.
    pub last_fact: Option<bool>,
    /// When the last write was decided.
    pub last_write: Option<Instant>,
    /// The debouncer.
    pub refractory: Refractory,
    /// Whether latency is being measured.
    pub instrumented: bool,
    pub phase: Phase,
}

impl RunState {
    /// The loop before anything has happened.
    pub open spec fn initial(instrumented: bool) -> RunState {
        RunState {
            fact: false,
            last_fact: None,
            last_write: None,
            refractory: Refractory { window: REFRACTORY, anchor: None },
            instrumented,
            phase: Phase::Connecting,
        }
    }

    pub open spec fn at(self, phase: Phase) -> RunState {
        RunState { phase, ..self }
    }

    /// The next phase once a write has been scheduled (or not) at `now`.
    pub open spec fn scheduled(self, event: ConnectionEvent, now: Instant) -> RunState {
        if write_due(event, self.last_fact, self.last_write, self.fact, now) {
            self.at(Phase::Writing { value: self.fact, now, latency: None })
        } else {
            self.at(Phase::Waiting)
        }
    }

    /// As `scheduled`, for the write that an edge stamped `edge_ns` causes: an
    /// instrumented one is preceded by a reading of the clock.
    pub open spec fn scheduled_by_edge(self, edge_ns: u64, now: Instant) -> RunState {
        if self.instrumented && write_due(
            ConnectionEvent::Steady,
            self.last_fact,
            self.last_write,
            self.fact,
            now,
        ) {
            self.at(Phase::Stamping { value: self.fact, now, edge_ns })
        } else {
            self.scheduled(ConnectionEvent::Steady, now)
        }
    }

    /// The loop after `value`, decided at `now`, has been written.
    pub open spec fn written(
        self,
        value: bool,
        now: Instant,
        latency: Option<WriteStamp>,
    ) -> RunState {
        RunState {
            last_fact: Some(value),
            last_write: Some(now),
            phase: match latency {
                None => Phase::Waiting,
                Some(stamp) => if stamp.write_ns < stamp.edge_ns {
                    Phase::ReportingSkew { stamp }
                } else {
                    Phase::StartingReadBack { stamp }
                },
            },
            ..self
        }
    }

    /// The loop after `event`. An event that the phase does not wait for changes
    /// nothing.
    pub open spec fn next(self, event: RunEvent) -> RunState {
        match (self.phase, event) {
            // The run needs the link; it can do without the interval.
            (Phase::Connecting, RunEvent::Done) => self.at(Phase::Enforcing),
            (Phase::Connecting, RunEvent::Failed) => self.at(Phase::Stopped),
            (Phase::Enforcing, RunEvent::Done) => self.at(Phase::Guarding),
            (Phase::Enforcing, RunEvent::Failed) => self.at(Phase::Guarding),
            (Phase::Guarding, RunEvent::Done) => self.at(Phase::Sampling),
            (Phase::Guarding, RunEvent::Failed) => self.at(Phase::Sampling),
            (Phase::Sampling, RunEvent::Failed) => self.at(Phase::Stopped),
            (Phase::Sampling, RunEvent::Sampled { level, now }) => {
                RunState { fact: fact_of(level, BEAM_ACTIVE_LOW), ..self }.scheduled(
                    ConnectionEvent::Connected,
                    now,
                )
            },
            (Phase::Waiting, RunEvent::Failed) => self.at(Phase::Stopped),
            (Phase::Waiting, RunEvent::Reconnected { now }) => self.scheduled(
                ConnectionEvent::Connected,
                now,
            ),
            (Phase::Waiting, RunEvent::DeadlineReached { now }) => self.scheduled(
                ConnectionEvent::Steady,
                now,
            ),
            (Phase::Waiting, RunEvent::Edge { edge, now }) => if self.refractory.open_at(now) {
                self
            } else {
                RunState {
                    fact: fact_of(edge.level, BEAM_ACTIVE_LOW),
                    refractory: self.refractory.offer(now),
                    ..self
                }.scheduled_by_edge(edge.timestamp_ns, now)
            },
            (Phase::Waiting, RunEvent::WindowElapsed { now }) => if self.refractory.anchor is Some
                && !self.refractory.open_at(now) {
                self.at(Phase::Resampling { now })
            } else {
                self
            },
            (Phase::Resampling { .. }, RunEvent::Failed) => self.at(Phase::Stopped),
            (Phase::Resampling { now }, RunEvent::Sampled { level, .. }) => {
                RunState { fact: fact_of(level, BEAM_ACTIVE_LOW), ..self }.scheduled(
                    ConnectionEvent::Steady,
                    now,
                )
            },
            (Phase::Stamping { value, now, edge_ns }, RunEvent::Clock(write_ns)) => self.at(
                Phase::Writing { value, now, latency: Some(WriteStamp { edge_ns, write_ns }) },
            ),
            (Phase::Writing { .. }, RunEvent::Failed) => self.at(Phase::Stopped),
            (Phase::Writing { value, now, latency }, RunEvent::Done) => self.written(
                value,
                now,
                latency,
            ),
            (Phase::ReportingSkew { stamp }, RunEvent::Done) => self.at(
                Phase::StartingReadBack { stamp },
            ),
            (Phase::StartingReadBack { stamp }, RunEvent::Clock(start_ns)) => self.at(
                Phase::ReadingBack { stamp, start_ns },
            ),
            (Phase::ReadingBack { stamp, start_ns }, RunEvent::ReadBack(byte)) => self.at(
                Phase::EndingReadBack { stamp, start_ns, byte },
            ),
            (Phase::ReadingBack { stamp, .. }, RunEvent::Failed) => self.at(
                Phase::Reporting {
                    sample: Sample {
                        edge_to_write_ns: span_ns(stamp.edge_ns, stamp.write_ns),
                        write_to_read_ns: None,
                    },
                    read_back: None,
                },
            ),
            (Phase::EndingReadBack { stamp, start_ns, byte }, RunEvent::Clock(end_ns)) => self.at(
                Phase::Reporting {
                    sample: Sample {
                        edge_to_write_ns: span_ns(stamp.edge_ns, stamp.write_ns),
                        write_to_read_ns: Some(span_ns(start_ns, end_ns)),
                    },
                    read_back: Some(byte),
                },
            ),
            (Phase::Reporting { .. }, RunEvent::Done) => self.at(Phase::Waiting),
            _ => self,
        }
    }

    /// What the caller is asked to do, at the time `now`.
    pub open spec fn action(self, now: Instant) -> RunAction {
        match self.phase {
            Phase::Connecting => RunAction::Connect,
            Phase::Enforcing => RunAction::EnforceInterval,
            Phase::Guarding => RunAction::StartGuard,
            Phase::Sampling => RunAction::SampleLevel,
            Phase::Waiting => RunAction::Wait {
                window: if self.refractory.open_at(now) {
                    Some(
                        (self.refractory.window - elapsed(
                            now,
                            self.refractory.anchor->0,
                        )) as Duration,
                    )
                } else {
                    None
                },
                deadline: (self.last_write->0 + KEEPALIVE) as Instant,
            },
            Phase::Resampling { .. } => RunAction::SampleLevel,
            Phase::Stamping { .. } => RunAction::ReadClock,
            Phase::Writing { value, .. } => RunAction::Write(value),
            Phase::ReportingSkew { stamp } => RunAction::ReportSkew {
                edge_ns: stamp.edge_ns,
                write_ns: stamp.write_ns,
            },
            Phase::StartingReadBack { .. } => RunAction::ReadClock,
            Phase::ReadingBack { .. } => RunAction::ReadBack,
            Phase::EndingReadBack { .. } => RunAction::ReadClock,
            Phase::Reporting { sample, read_back } => RunAction::ReportSample { sample, read_back },
            Phase::Stopped => RunAction::Stop,
        }
    }

    /// The lamp has been told the current fact, at a time that leaves room for the
    /// keepalive.
    pub open spec fn in_step(self) -> bool {
        &&& self.last_fact == Some(self.fact)
        &&& self.last_write is Some
        &&& has_room(self.last_write->0)
    }

    /// Something has been written before, at a time that leaves room for the
    /// keepalive.
    pub open spec fn has_written(self) -> bool {
        self.last_write is Some && has_room(self.last_write->0)
    }

    /// Holds of the loop at all times.
    pub open spec fn inv(self) -> bool {
        &&& self.refractory.window == REFRACTORY
        &&& match self.phase {
            Phase::Connecting | Phase::Enforcing | Phase::Guarding | Phase::Sampling => {
                &&& self.last_fact is None
                &&& self.last_write is None
                &&& self.refractory.anchor is None
            },
            Phase::Waiting => self.in_step(),
            Phase::Resampling { now } => self.in_step() && has_room(now),
            Phase::Stamping { value, now, .. } => {
                self.instrumented && value == self.fact && has_room(now) && self.has_written()
            },
            Phase::Writing { value, now, latency } => {
                &&& value == self.fact
                &&& has_room(now)
                &&& latency is Some ==> self.instrumented
            },
            Phase::ReportingSkew { .. } => self.instrumented && self.in_step(),
            Phase::StartingReadBack { .. } => self.instrumented && self.in_step(),
            Phase::ReadingBack { .. } => self.instrumented && self.in_step(),
            Phase::EndingReadBack { .. } => self.instrumented && self.in_step(),
            Phase::Reporting { .. } => self.instrumented && self.in_step(),
            Phase::Stopped => true,
        }
    }
}

/// The control loop.
#[derive(Debug, Clone, Copy)]
pub struct RunLoop {
    fact: bool,
    last_fact: Option<bool>,
    last_write: Option<Instant>,
    debouncer: BeamDebouncer,
    instrumentation: Instrumentation,
    phase: Phase,
}

impl View for RunLoop {
    type V = RunState;

    closed spec fn view(&self) -> RunState {
        RunState {
            fact: self.fact,
            last_fact: self.last_fact,
            last_write: self.last_write,
            refractory: self.debouncer@,
            instrumented: self.instrumentation@,
            phase: self.phase,
        }
    }
}

impl RunLoop {
    /// A loop that is about to connect.
    pub fn new(instrumentation: Instrumentation) -> (run: Self)
        ensures
            run@ == RunState::initial(instrumentation@),
            run@.inv(),
    {
        Self {
            fact: false,
            last_fact: None,
            last_write: None,
            debouncer: BeamDebouncer::new(REFRACTORY),
            instrumentation,
            phase: Phase::Connecting,
        }
    }

    /// What to do next, at the time `now`.
    pub fn action(&self, now: Instant) -> (action: RunAction)
        requires
            self@.inv(),
        ensures
            action == self@.action(now),
    {
        match self.phase {
            Phase::Connecting => RunAction::Connect,
            Phase::Enforcing => RunAction::EnforceInterval,
            Phase::Guarding => RunAction::StartGuard,
            Phase::Sampling => RunAction::SampleLevel,
            Phase::Waiting => {
                let deadline: Instant = match self.last_write {
                    Some(at) => at + KEEPALIVE,
                    None => now,
                };
                RunAction::Wait { window: self.debouncer.remaining(now), deadline }
            },
            Phase::Resampling { .. } => RunAction::SampleLevel,
            Phase::Stamping { .. } => RunAction::ReadClock,
            Phase::Writing { value, .. } => RunAction::Write(value),
            Phase::ReportingSkew { stamp } => RunAction::ReportSkew {
                edge_ns: stamp.edge_ns,
                write_ns: stamp.write_ns,
            },
            Phase::StartingReadBack { .. } => RunAction::ReadClock,
            Phase::ReadingBack { .. } => RunAction::ReadBack,
            Phase::EndingReadBack { .. } => RunAction::ReadClock,
            Phase::Reporting { sample, read_back } => RunAction::ReportSample { sample, read_back },
            Phase::Stopped => RunAction::Stop,
        }
    }

    /// Whether an edge that comes at `now` will be believed.
    pub fn accepts_edge(&self, now: Instant) -> (accepts: bool)
        ensures
            accepts == (self@.phase is Waiting && !self@.refractory.open_at(now)),
    {
        match self.phase {
            Phase::Waiting => self.debouncer.remaining(now).is_none(),
            _ => false,
        }
    }

    /// Schedules a write of the current fact at `now`. The write that an edge causes
    /// comes with the edge's timestamp.
    fn schedule(&mut self, event: ConnectionEvent, now: Instant, edge_ns: Option<u64>)
        requires
            edge_ns is Some ==> event is Steady,
        ensures
            final(self)@ == (match edge_ns {
                Some(edge_ns) => old(self)@.scheduled_by_edge(edge_ns, now),
                None => old(self)@.scheduled(event, now),
            }),
    {
        self.phase = match schedule_write(event, self.last_fact, self.last_write, self.fact, now) {
            WriteDecision::Idle => Phase::Waiting,
            WriteDecision::Write(value) => match edge_ns {
                Some(edge_ns) if self.instrumentation.enabled() => {
                    Phase::Stamping { value, now, edge_ns }
                },
                _ => Phase::Writing { value, now, latency: None },
            },
        };
    }

    /// Takes in what came of the action.
    pub fn step(&mut self, event: RunEvent)
        requires
            old(self)@.inv(),
            event.has_room(),
        ensures
            final(self)@ == old(self)@.next(event),
            final(self)@.inv(),
    {
        match (self.phase, event) {
            (Phase::Connecting, RunEvent::Done) => {
                self.phase = Phase::Enforcing;
            },
            (Phase::Enforcing, RunEvent::Done) | (Phase::Enforcing, RunEvent::Failed) => {
                self.phase = Phase::Guarding;
            },
            (Phase::Guarding, RunEvent::Done) | (Phase::Guarding, RunEvent::Failed) => {
                self.phase = Phase::Sampling;
            },
            (Phase::Sampling, RunEvent::Sampled { level, now }) => {
                self.fact = level_to_fact(level, BEAM_ACTIVE_LOW);
                self.schedule(ConnectionEvent::Connected, now, None);
            },
            (Phase::Waiting, RunEvent::Reconnected { now }) => {
                self.schedule(ConnectionEvent::Connected, now, None);
            },
            (Phase::Waiting, RunEvent::DeadlineReached { now }) => {
                self.schedule(ConnectionEvent::Steady, now, None);
            },
            (Phase::Waiting, RunEvent::Edge { edge, now }) => {
                if self.debouncer.on_edge(now) == EdgeDecision::Accept {
                    self.fact = level_to_fact(edge.level, BEAM_ACTIVE_LOW);
                    self.schedule(ConnectionEvent::Steady, now, Some(edge.timestamp_ns));
                }
            },
            (Phase::Waiting, RunEvent::WindowElapsed { now }) => {
                if self.debouncer.window_expired(now) {
                    self.phase = Phase::Resampling { now };
                }
            },
            (Phase::Resampling { now }, RunEvent::Sampled { level, .. }) => {
                self.fact = level_to_fact(level, BEAM_ACTIVE_LOW);
                self.schedule(ConnectionEvent::Steady, now, None);
            },
            (Phase::Stamping { value, now, edge_ns }, RunEvent::Clock(write_ns)) => {
                self.phase = Phase::Writing {
                    value,
                    now,
                    latency: Some(WriteStamp { edge_ns, write_ns }),
                };
            },
            (Phase::Writing { value, now, latency }, RunEvent::Done) => {
                self.last_fact = Some(value);
                self.last_write = Some(now);
                self.phase = match latency {
                    None => Phase::Waiting,
                    Some(stamp) => {
                        if stamp.write_ns < stamp.edge_ns {
                            Phase::ReportingSkew { stamp }
                        } else {
                            Phase::StartingReadBack { stamp }
                        }
                    },
                };
            },
            (Phase::ReportingSkew { stamp }, RunEvent::Done) => {
                self.phase = Phase::StartingReadBack { stamp };
            },
            (Phase::StartingReadBack { stamp }, RunEvent::Clock(start_ns)) => {
                self.phase = Phase::ReadingBack { stamp, start_ns };
            },
            (Phase::ReadingBack { stamp, start_ns }, RunEvent::ReadBack(byte)) => {
                self.phase = Phase::EndingReadBack { stamp, start_ns, byte };
            },
            (Phase::ReadingBack { stamp, .. }, RunEvent::Failed) => {
                self.phase = Phase::Reporting {
                    sample: Sample::of_write(stamp.edge_ns, stamp.write_ns),
                    read_back: None,
                };
            },
            (Phase::EndingReadBack { stamp, start_ns, byte }, RunEvent::Clock(end_ns)) => {
                self.phase = Phase::Reporting {
                    sample: Sample::of_write(stamp.edge_ns, stamp.write_ns).with_read_back(
                        start_ns,
                        end_ns,
                    ),
                    read_back: Some(byte),
                };
            },
            (Phase::Reporting { .. }, RunEvent::Done) => {
                self.phase = Phase::Waiting;
            },
            (Phase::Connecting, RunEvent::Failed)
            | (Phase::Sampling, RunEvent::Failed)
            | (Phase::Waiting, RunEvent::Failed)
            | (Phase::Resampling { .. }, RunEvent::Failed)
            | (Phase::Writing { .. }, RunEvent::Failed) => {
                self.phase = Phase::Stopped;
            },
            _ => {},
        }
    }
}

/// The loop after a run of events.
pub open spec fn run(state: RunState, events: Seq<RunEvent>) -> RunState
    decreases events.len(),
{
    if events.len() == 0 {
        state
    } else {
        run(state, events.drop_last()).next(events.last())
    }
}

/// Every event carries an instant that leaves room for the keepalive.
pub open spec fn all_have_room(events: Seq<RunEvent>) -> bool {
    forall|i: int| 0 <= i < events.len() ==> (#[trigger] events[i]).has_room()
}

/// The invariant survives every event.
pub proof fn law_next_keeps_the_invariant(state: RunState, event: RunEvent)
    requires
        state.inv(),
        event.has_room(),
    ensures
        state.next(event).inv(),
{
}

/// The invariant holds after any run of events from the start.
pub proof fn law_invariant_always_holds(instrumented: bool, events: Seq<RunEvent>)
    requires
        all_have_room(events),
    ensures
        run(RunState::initial(instrumented), events).inv(),
        run(RunState::initial(instrumented), events).instrumented == instrumented,
    decreases events.len(),
{
    if events.len() > 0 {
        let before = events.drop_last();
        assert forall|i: int| 0 <= i < before.len() implies (#[trigger] before[i]).has_room() by {
            assert(before[i] == events[i]);
        }
        law_invariant_always_holds(instrumented, before);
        law_next_keeps_the_invariant(
            run(RunState::initial(instrumented), before),
            events.last(),
        );
    }
}

/// Whenever the loop waits, the lamp has been told the current fact.
pub proof fn law_waiting_loop_has_written_the_current_fact(
    instrumented: bool,
    events: Seq<RunEvent>,
)
    requires
        all_have_room(events),
        run(RunState::initial(instrumented), events).phase is Waiting,
    ensures
        ({
            let state = run(RunState::initial(instrumented), events);
            state.last_fact == Some(state.fact) && state.last_write is Some
        }),
{
    law_invariant_always_holds(instrumented, events);
}

/// Every write carries the current fact.
pub proof fn law_writes_carry_the_current_fact(
    instrumented: bool,
    events: Seq<RunEvent>,
    now: Instant,
    value: bool,
)
    requires
        all_have_room(events),
        run(RunState::initial(instrumented), events).action(now) == RunAction::Write(value),
    ensures
        value == run(RunState::initial(instrumented), events).fact,
{
    law_invariant_always_holds(instrumented, events);
}

/// The level that a run of events has had the loop adopt last: the first sample, an
/// edge that was accepted, or a sample after the refractory window.
pub open spec fn adopted(state: RunState, events: Seq<RunEvent>) -> Option<Level>
    decreases events.len(),
{
    if events.len() == 0 {
        None
    } else {
        let before = run(state, events.drop_last());
        match (before.phase, events.last()) {
            (Phase::Sampling, RunEvent::Sampled { level, .. }) => Some(level),
            (Phase::Resampling { .. }, RunEvent::Sampled { level, .. }) => Some(level),
            (Phase::Waiting, RunEvent::Edge { edge, now }) => if before.refractory.open_at(now) {
                adopted(state, events.drop_last())
            } else {
                Some(edge.level)
            },
            _ => adopted(state, events.drop_last()),
        }
    }
}

/// Whatever happens, a write carries the fact of the level that was adopted last.
pub proof fn law_writes_carry_the_level_adopted_last(
    instrumented: bool,
    events: Seq<RunEvent>,
    now: Instant,
    value: bool,
)
    requires
        run(RunState::initial(instrumented), events).action(now) == RunAction::Write(value),
    ensures
        adopted(RunState::initial(instrumented), events) matches Some(level) && value == fact_of(
            level,
            BEAM_ACTIVE_LOW,
        ),
{
    lemma_fact_is_of_the_level_adopted_last(instrumented, events);
}

proof fn lemma_fact_is_of_the_level_adopted_last(instrumented: bool, events: Seq<RunEvent>)
    ensures
        ({
            let start = RunState::initial(instrumented);
            let state = run(start, events);
            &&& match adopted(start, events) {
                Some(level) => state.fact == fact_of(level, BEAM_ACTIVE_LOW),
                None => state.phase is Connecting || state.phase is Enforcing || state.phase
                    is Guarding || state.phase is Sampling || state.phase is Stopped,
            }
            &&& state.phase matches Phase::Stamping { value, .. } ==> value == state.fact
            &&& state.phase matches Phase::Writing { value, .. } ==> value == state.fact
        }),
    decreases events.len(),
{
    if events.len() > 0 {
        lemma_fact_is_of_the_level_adopted_last(instrumented, events.drop_last());
    }
}

/// A write as it was decided: its value, when, and whether a fresh link called for it.
pub struct Decision {
    pub value: bool,
    pub now: Instant,
    pub resync: bool,
}

impl RunState {
    /// The write that the loop is about to make or making.
    pub open spec fn pending_write(self) -> Option<(bool, Instant)> {
        match self.phase {
            Phase::Stamping { value, now, .. } => Some((value, now)),
            Phase::Writing { value, now, .. } => Some((value, now)),
            _ => None,
        }
    }
}

/// The writes that a run of events has had the loop decide on, in order.
pub open spec fn decisions(state: RunState, events: Seq<RunEvent>) -> Seq<Decision>
    decreases events.len(),
{
    if events.len() == 0 {
        Seq::empty()
    } else {
        let before = run(state, events.drop_last());
        let earlier = decisions(state, events.drop_last());
        match (before.pending_write(), before.next(events.last()).pending_write()) {
            (None, Some((value, now))) => earlier.push(
                Decision {
                    value,
                    now,
                    resync: before.phase is Sampling || events.last() is Reconnected,
                },
            ),
            _ => earlier,
        }
    }
}

/// No write is idle: of two writes in a row, unless a reconnect called for the second,
/// either the values differ or they were decided at least the keepalive apart. Only the
/// first write of all comes without a write before it, and every write made is the one
/// decided last.
pub proof fn law_no_write_is_idle(
    instrumented: bool,
    events: Seq<RunEvent>,
    index: int,
    asked_at: Instant,
)
    requires
        0 <= index < decisions(RunState::initial(instrumented), events).len(),
    ensures
        ({
            let start = RunState::initial(instrumented);
            let writes = decisions(start, events);
            &&& index > 0 && !writes[index].resync ==> writes[index].value != writes[index
                - 1].value || elapsed(writes[index].now, writes[index - 1].now) >= KEEPALIVE
            &&& index == 0 ==> writes[index].resync
            &&& run(start, events).action(asked_at) matches RunAction::Write(value) ==> value
                == writes.last().value
        }),
{
    lemma_decisions(instrumented, events);
}

proof fn lemma_decisions(instrumented: bool, events: Seq<RunEvent>)
    ensures
        ({
            let start = RunState::initial(instrumented);
            let state = run(start, events);
            let writes = decisions(start, events);
            &&& match state.phase {
                Phase::Connecting | Phase::Enforcing | Phase::Guarding | Phase::Sampling => {
                    writes.len() == 0
                },
                Phase::Stamping { value, now, .. } => writes.len() > 0 && writes.last().value
                    == value && writes.last().now == now,
                Phase::Writing { value, now, .. } => writes.len() > 0 && writes.last().value
                    == value && writes.last().now == now,
                Phase::Stopped => true,
                _ => writes.len() > 0 && state.last_fact == Some(writes.last().value)
                    && state.last_write == Some(writes.last().now),
            }
            &&& writes.len() > 0 ==> writes[0].resync
            &&& forall|i: int|
                0 < i < writes.len() && !(#[trigger] writes[i]).resync ==> writes[i].value
                    != writes[i - 1].value || elapsed(writes[i].now, writes[i - 1].now)
                    >= KEEPALIVE
        }),
    decreases events.len(),
{
    if events.len() > 0 {
        lemma_decisions(instrumented, events.drop_last());
    }
}

/// The link is up, its interval has been asked for and the guard has been started,
/// in this order, before the line is sampled and the first write is made.
pub proof fn law_startup_order(state: RunState, event: RunEvent)
    ensures
        state.phase is Connecting ==> (state.next(event).phase is Connecting || state.next(
            event,
        ).phase is Enforcing || state.next(event).phase is Stopped),
        state.phase is Enforcing ==> (state.next(event).phase is Enforcing || state.next(
            event,
        ).phase is Guarding),
        state.phase is Guarding ==> (state.next(event).phase is Guarding || state.next(
            event,
        ).phase is Sampling),
        state.phase is Sampling ==> (state.next(event).phase is Sampling || state.next(
            event,
        ).phase is Writing || state.next(event).phase is Stopped),
{
}

/// The start-up, whether or not the interval could be had, ends in a write of the
/// sampled fact.
pub proof fn law_startup_samples_and_writes(
    instrumented: bool,
    enforced: RunEvent,
    guarded: RunEvent,
    level: Level,
    now: Instant,
)
    requires
        enforced is Done || enforced is Failed,
        guarded is Done || guarded is Failed,
    ensures
        ({
            let state = RunState::initial(instrumented).next(RunEvent::Done).next(enforced).next(
                guarded,
            ).next(RunEvent::Sampled { level, now });
            let fact = fact_of(level, BEAM_ACTIVE_LOW);
            &&& state.fact == fact
            &&& state.phase == Phase::Writing { value: fact, now, latency: None }
            &&& state.next(RunEvent::Done).phase is Waiting
            &&& state.next(RunEvent::Done).last_fact == Some(fact)
            &&& state.next(RunEvent::Done).last_write == Some(now)
        }),
{
}

/// Failing to set or to guard the connection interval changes nothing.
pub proof fn law_interval_failures_are_ignored(state: RunState)
    requires
        state.phase is Enforcing || state.phase is Guarding,
    ensures
        state.next(RunEvent::Failed) == state.next(RunEvent::Done),
{
}

/// A stopped loop stays stopped.
pub proof fn law_stopped_is_final(state: RunState, event: RunEvent)
    requires
        state.phase is Stopped,
    ensures
        state.next(event) == state,
{
}

/// A reconnect is always answered with a write of the current fact.
pub proof fn law_reconnect_resyncs(state: RunState, now: Instant)
    requires
        state.phase is Waiting,
    ensures
        state.next(RunEvent::Reconnected { now }) == state.at(
            Phase::Writing { value: state.fact, now, latency: None },
        ),
{
}

/// At the deadline that the loop gave out it writes the current fact; before it,
/// it stays silent.
pub proof fn law_keepalive(state: RunState, asked_at: Instant, now: Instant)
    requires
        state.inv(),
        state.phase is Waiting,
    ensures
        state.action(asked_at) matches RunAction::Wait { deadline, .. } && state.next(
            RunEvent::DeadlineReached { now },
        ) == (if now >= deadline {
            state.at(Phase::Writing { value: state.fact, now, latency: None })
        } else {
            state
        }),
{
}

/// Once a keepalive write is through, the next one is due one period after it.
pub proof fn law_keepalive_repeats(state: RunState, asked_at: Instant)
    requires
        state.inv(),
        state.phase is Writing,
        state.phase->Writing_latency is None,
    ensures
        state.next(RunEvent::Done).action(asked_at) matches RunAction::Wait { deadline, .. }
            && deadline == state.phase->Writing_now + KEEPALIVE,
{
}

/// An edge inside the refractory window is as if it had never come.
pub proof fn law_suppressed_edge_changes_nothing(state: RunState, edge: GpioEdge, now: Instant)
    requires
        state.refractory.open_at(now),
    ensures
        state.next(RunEvent::Edge { edge, now }) == state,
{
}

/// An accepted edge is believed, opens the refractory window, and is written if
/// and only if it changed the fact or the keepalive was due.
pub proof fn law_accepted_edge(state: RunState, edge: GpioEdge, now: Instant)
    requires
        state.inv(),
        state.phase is Waiting,
        !state.refractory.open_at(now),
    ensures
        ({
            let after = state.next(RunEvent::Edge { edge, now });
            let due = after.fact != state.fact || elapsed(now, state.last_write->0) >= KEEPALIVE;
            &&& after.fact == fact_of(edge.level, BEAM_ACTIVE_LOW)
            &&& after.refractory.anchor == Some(now)
            &&& due && !state.instrumented ==> after.phase == Phase::Writing {
                value: after.fact,
                now,
                latency: None,
            }
            &&& due && state.instrumented ==> after.phase == Phase::Stamping {
                value: after.fact,
                now,
                edge_ns: edge.timestamp_ns,
            }
            &&& !due ==> after.phase is Waiting
        }),
{
}

/// The sample taken once the refractory window has elapsed is believed, and a
/// changed one is written; an unchanged one is written if the keepalive was due.
pub proof fn law_resample_adopts_the_level(
    state: RunState,
    now: Instant,
    level: Level,
    later: Instant,
)
    requires
        state.inv(),
        state.phase is Waiting,
        state.refractory.anchor is Some,
        !state.refractory.open_at(now),
    ensures
        ({
            let sampling = state.next(RunEvent::WindowElapsed { now });
            let after = sampling.next(RunEvent::Sampled { level, now: later });
            &&& sampling.action(later) == RunAction::SampleLevel
            &&& after.fact == fact_of(level, BEAM_ACTIVE_LOW)
            &&& after.fact != state.fact ==> after.phase == Phase::Writing {
                value: after.fact,
                now,
                latency: None,
            }
            &&& after.fact == state.fact && elapsed(now, state.last_write->0) < KEEPALIVE
                ==> after == state
            &&& after.fact == state.fact && elapsed(now, state.last_write->0) >= KEEPALIVE
                ==> after.phase == Phase::Writing { value: after.fact, now, latency: None }
        }),
{
}

impl RunState {
    /// The loop is busy measuring, before or after a write.
    pub open spec fn measuring(self) -> bool {
        ||| self.phase is Stamping
        ||| self.phase is ReportingSkew
        ||| self.phase is StartingReadBack
        ||| self.phase is ReadingBack
        ||| self.phase is EndingReadBack
        ||| self.phase is Reporting
    }

    /// The loop as it would stand without instrumentation.
    pub open spec fn unmeasured(self) -> RunState {
        RunState {
            instrumented: false,
            phase: match self.phase {
                Phase::Stamping { value, now, .. } => Phase::Writing { value, now, latency: None },
                Phase::Writing { value, now, .. } => Phase::Writing { value, now, latency: None },
                Phase::ReportingSkew { .. } => Phase::Waiting,
                Phase::StartingReadBack { .. } => Phase::Waiting,
                Phase::ReadingBack { .. } => Phase::Waiting,
                Phase::EndingReadBack { .. } => Phase::Waiting,
                Phase::Reporting { .. } => Phase::Waiting,
                phase => phase,
            },
            ..self
        }
    }
}

/// The events of a run that did not serve a measurement.
pub open spec fn control_events(state: RunState, events: Seq<RunEvent>) -> Seq<RunEvent>
    decreases events.len(),
{
    if events.len() == 0 {
        Seq::empty()
    } else {
        let before = control_events(state, events.drop_last());
        if run(state, events.drop_last()).measuring() {
            before
        } else {
            before.push(events.last())
        }
    }
}

/// Measuring never gates or alters a write: take the measurements out of an
/// instrumented run, and what is left is the run without instrumentation.
pub proof fn law_measuring_never_alters_a_run(state: RunState, events: Seq<RunEvent>)
    ensures
        run(state, events).unmeasured() == run(
            state.unmeasured(),
            control_events(state, events),
        ),
    decreases events.len(),
{
    if events.len() > 0 {
        let before = events.drop_last();
        law_measuring_never_alters_a_run(state, before);
        let control = control_events(state, before);
        if !run(state, before).measuring() {
            assert(control.push(events.last()).drop_last() =~= control);
            assert(control.push(events.last()).last() == events.last());
        }
    }
}

/// Without instrumentation no clock is read for a sample, nothing is read back and
/// nothing is reported.
pub proof fn law_disabled_instrumentation_never_measures(events: Seq<RunEvent>, now: Instant)
    requires
        all_have_room(events),
    ensures
        ({
            let state = run(RunState::initial(false), events);
            &&& !state.measuring()
            &&& !(state.action(now) is ReadClock)
            &&& !(state.action(now) is ReadBack)
            &&& !(state.action(now) is ReportSample)
            &&& !(state.action(now) is ReportSkew)
        }),
{
    law_invariant_always_holds(false, events);
}

/// A waiting loop asks to be woken one keepalive after its last write. While the window of
/// an accepted edge is open, it also asks for the wait to end with the window: the time
/// asked at and the window it names add up to the edge's time and the refractory window.
/// Outside a window it names none.
pub proof fn law_wait_ends_with_the_window(
    state: RunState,
    anchor: Instant,
    written: Instant,
    now: Instant,
)
    requires
        state.phase is Waiting,
        state.refractory.window == REFRACTORY,
        state.last_write == Some(written),
        written + KEEPALIVE <= Instant::MAX,
    ensures
        state.action(now) matches RunAction::Wait { window, deadline } && {
            &&& deadline == written + KEEPALIVE
            &&& state.refractory.anchor is None ==> window is None
            &&& state.refractory.anchor == Some(anchor) ==> {
                &&& now >= anchor + REFRACTORY <==> window is None
                &&& anchor <= now < anchor + REFRACTORY ==> window is Some && now + window->0
                    == anchor + REFRACTORY
                &&& now < anchor ==> window == Some(REFRACTORY)
            }
        },
{
}

/// No change of the line is lost to the refractory window: when the window that an
/// accepted edge opened has passed, the line is sampled again, and a level that differs
/// from what the lamp was told is written, whatever edges were suppressed before.
pub proof fn law_change_inside_the_window_is_told(
    state: RunState,
    anchor: Instant,
    now: Instant,
    level: Level,
    later: Instant,
)
    requires
        state.phase is Waiting,
        state.refractory == (Refractory { window: REFRACTORY, anchor: Some(anchor) }),
        state.last_fact == Some(state.fact),
        now >= anchor + REFRACTORY,
        (level is Low) != state.fact,
    ensures
        ({
            let sampling = state.next(RunEvent::WindowElapsed { now });
            let writing = sampling.next(RunEvent::Sampled { level, now: later });
            &&& sampling == (RunState { phase: Phase::Resampling { now }, ..state })
            &&& sampling.action(later) == RunAction::SampleLevel
            &&& writing == (RunState {
                fact: level is Low,
                phase: Phase::Writing { value: level is Low, now, latency: None },
                ..state
            })
            &&& writing.action(later) == RunAction::Write(level is Low)
        }),
{
}

/// The end of the window is acted upon at its time and at any time after, and at none
/// before; without an accepted edge there is none.
pub proof fn law_window_ends_on_time(state: RunState, anchor: Instant, now: Instant)
    requires
        state.phase is Waiting,
        state.refractory.window == REFRACTORY,
    ensures
        state.refractory.anchor == Some(anchor) ==> state.next(RunEvent::WindowElapsed { now }) == (
        RunState {
            phase: if now >= anchor + REFRACTORY {
                Phase::Resampling { now }
            } else {
                Phase::Waiting
            },
            ..state
        }),
        state.refractory.anchor is None ==> state.next(RunEvent::WindowElapsed { now }) == state,
{
}

/// A sample after the window is always believed. It is written when it changed the fact or
/// a keepalive has passed since the last write, and otherwise the loop waits on.
pub proof fn law_sample_after_the_window(
    state: RunState,
    now: Instant,
    written: Instant,
    level: Level,
    later: Instant,
)
    requires
        state.phase == (Phase::Resampling { now }),
        state.last_fact == Some(state.fact),
        state.last_write == Some(written),
    ensures
        state.next(RunEvent::Sampled { level, now: later }) == (RunState {
            fact: level is Low,
            phase: if (level is Low) != state.fact || now >= written + KEEPALIVE {
                Phase::Writing { value: level is Low, now, latency: None }
            } else {
                Phase::Waiting
            },
            ..state
        }),
{
}

/// An edge is believed exactly when no accepted edge came less than the refractory window
/// before it. It then opens a window of its own, and is written, after a reading of the
/// clock where latency is measured, when it changed the fact or a keepalive has passed
/// since the last write. An edge that is not believed changes nothing.
pub proof fn law_edge_is_believed_outside_the_window(
    state: RunState,
    written: Instant,
    edge: GpioEdge,
    now: Instant,
)
    requires
        state.phase is Waiting,
        state.refractory.window == REFRACTORY,
        state.last_fact == Some(state.fact),
        state.last_write == Some(written),
    ensures
        ({
            let believed = state.refractory.anchor is None || now >= state.refractory.anchor->0
                + REFRACTORY;
            let broken = edge.level is Low;
            let due = broken != state.fact || now >= written + KEEPALIVE;
            let after = state.next(RunEvent::Edge { edge, now });
            &&& !believed ==> after == state
            &&& believed ==> after == (RunState {
                fact: broken,
                refractory: Refractory { window: REFRACTORY, anchor: Some(now) },
                phase: if !due {
                    Phase::Waiting
                } else if state.instrumented {
                    Phase::Stamping { value: broken, now, edge_ns: edge.timestamp_ns }
                } else {
                    Phase::Writing { value: broken, now, latency: None }
                },
                ..state
            })
        }),
{
}

/// The keepalive is written from one keepalive after the last write on, however late, and
/// not before; a reconnect has the fact written at any time.
pub proof fn law_silence_is_broken_on_time(state: RunState, written: Instant, now: Instant)
    requires
        state.phase is Waiting,
        state.last_fact == Some(state.fact),
        state.last_write == Some(written),
    ensures
        ({
            let writing = RunState {
                phase: Phase::Writing { value: state.fact, now, latency: None },
                ..state
            };
            &&& state.next(RunEvent::DeadlineReached { now }) == (if now >= written + KEEPALIVE {
                writing
            } else {
                state
            })
            &&& state.next(RunEvent::Reconnected { now }) == writing
        }),
{
}

/// The start-up takes its steps one after the other, and its first sample, whatever it is
/// and whenever it comes, is believed and written.
pub proof fn law_startup_steps(state: RunState, level: Level, now: Instant, instrumented: bool)
    ensures
        ({
            let at = |phase: Phase| RunState { phase, ..state };
            &&& at(Phase::Connecting).next(RunEvent::Done) == at(Phase::Enforcing)
            &&& at(Phase::Enforcing).next(RunEvent::Done) == at(Phase::Guarding)
            &&& at(Phase::Enforcing).next(RunEvent::Failed) == at(Phase::Guarding)
            &&& at(Phase::Guarding).next(RunEvent::Done) == at(Phase::Sampling)
            &&& at(Phase::Guarding).next(RunEvent::Failed) == at(Phase::Sampling)
            &&& at(Phase::Sampling).next(RunEvent::Sampled { level, now }) == (RunState {
                fact: level is Low,
                phase: Phase::Writing { value: level is Low, now, latency: None },
                ..state
            })
        }),
        RunState::initial(instrumented) == (RunState {
            fact: false,
            last_fact: None,
            last_write: None,
            refractory: Refractory { window: REFRACTORY, anchor: None },
            instrumented,
            phase: Phase::Connecting,
        }),
{
}

/// A run stops when the link cannot be had, the line cannot be sampled, a wait fails or a
/// write fails, and then remembers all that it did before.
pub proof fn law_failures_that_stop_the_run(
    state: RunState,
    value: bool,
    now: Instant,
    latency: Option<WriteStamp>,
)
    ensures
        ({
            let at = |phase: Phase| RunState { phase, ..state };
            let stopped = at(Phase::Stopped);
            &&& at(Phase::Connecting).next(RunEvent::Failed) == stopped
            &&& at(Phase::Sampling).next(RunEvent::Failed) == stopped
            &&& at(Phase::Waiting).next(RunEvent::Failed) == stopped
            &&& at(Phase::Resampling { now }).next(RunEvent::Failed) == stopped
            &&& at(Phase::Writing { value, now, latency }).next(RunEvent::Failed) == stopped
        }),
{
}

/// A write that is through is remembered by its value and by the time it was decided at,
/// and nothing else changes. A write that is not measured is followed by the next wait,
/// and a measured one by its measurement, begun with a report of the skew where the clock
/// lay behind the edge.
pub proof fn law_write_is_remembered(
    state: RunState,
    value: bool,
    now: Instant,
    latency: Option<WriteStamp>,
)
    requires
        state.phase == (Phase::Writing { value, now, latency }),
    ensures
        state.next(RunEvent::Done) == (RunState {
            last_fact: Some(value),
            last_write: Some(now),
            phase: match latency {
                None => Phase::Waiting,
                Some(stamp) => if stamp.edge_ns > stamp.write_ns {
                    Phase::ReportingSkew { stamp }
                } else {
                    Phase::StartingReadBack { stamp }
                },
            },
            ..state
        }),
{
}

/// A measurement takes its steps one after the other: the clock before the write, the
/// write, the clock, the read-back and the clock again. The sample holds the time from
/// edge to write and, where the read-back succeeded, the time it took, neither of them
/// below zero; then the loop waits on.
pub proof fn law_measurement_steps(
    state: RunState,
    value: bool,
    now: Instant,
    stamp: WriteStamp,
    start_ns: u64,
    end_ns: u64,
    byte: u8,
    sample: Sample,
    read_back: Option<u8>,
)
    ensures
        ({
            let at = |phase: Phase| RunState { phase, ..state };
            let reading = at(Phase::ReadingBack { stamp, start_ns });
            let ending = at(Phase::EndingReadBack { stamp, start_ns, byte });
            let unread = reading.next(RunEvent::Failed);
            let read = ending.next(RunEvent::Clock(end_ns));
            &&& at(Phase::Stamping { value, now, edge_ns: stamp.edge_ns }).next(
                RunEvent::Clock(stamp.write_ns),
            ) == at(Phase::Writing { value, now, latency: Some(stamp) })
            &&& at(Phase::ReportingSkew { stamp }).next(RunEvent::Done) == at(
                Phase::StartingReadBack { stamp },
            )
            &&& at(Phase::StartingReadBack { stamp }).next(RunEvent::Clock(start_ns)) == reading
            &&& reading.next(RunEvent::ReadBack(byte)) == ending
            &&& unread == at(unread.phase)
            &&& unread.phase matches Phase::Reporting { sample: taken, read_back: None } && {
                &&& taken.write_to_read_ns is None
                &&& stamp.write_ns >= stamp.edge_ns ==> stamp.edge_ns + taken.edge_to_write_ns
                    == stamp.write_ns
                &&& stamp.write_ns <= stamp.edge_ns ==> taken.edge_to_write_ns == 0
            }
            &&& read == at(read.phase)
            &&& read.phase matches Phase::Reporting { sample: taken, read_back: Some(told) } && {
                &&& told == byte
                &&& stamp.write_ns >= stamp.edge_ns ==> stamp.edge_ns + taken.edge_to_write_ns
                    == stamp.write_ns
                &&& stamp.write_ns <= stamp.edge_ns ==> taken.edge_to_write_ns == 0
                &&& taken.write_to_read_ns is Some
                &&& end_ns >= start_ns ==> start_ns + taken.write_to_read_ns->0 == end_ns
                &&& end_ns <= start_ns ==> taken.write_to_read_ns->0 == 0
            }
            &&& at(Phase::Reporting { sample, read_back }).next(RunEvent::Done) == at(
                Phase::Waiting,
            )
        }),
{
}

/// What the loop does not wait for changes nothing.
pub proof fn law_loop_passes_over_the_unexpected(state: RunState, event: RunEvent)
    requires
        match event {
            RunEvent::Done => state.phase is Sampling || state.phase is Waiting || state.phase
                is Resampling || state.phase is Stamping || state.phase is StartingReadBack
                || state.phase is ReadingBack || state.phase is EndingReadBack || state.phase
                is Stopped,
            RunEvent::Failed => state.phase is Stamping || state.phase is ReportingSkew
                || state.phase is StartingReadBack || state.phase is EndingReadBack || state.phase
                is Reporting || state.phase is Stopped,
            RunEvent::Sampled { .. } => !(state.phase is Sampling) && !(state.phase is Resampling),
            RunEvent::Clock(_) => !(state.phase is Stamping) && !(state.phase is StartingReadBack)
                && !(state.phase is EndingReadBack),
            RunEvent::ReadBack(_) => !(state.phase is ReadingBack),
            _ => !(state.phase is Waiting),
        },
    ensures
        state.next(event) == state,
{
}

/// Each phase but the wait asks for its own operation, at any time and whatever the loop
/// remembers.
pub proof fn law_loop_asks_for_its_operation(
    state: RunState,
    asked_at: Instant,
    value: bool,
    now: Instant,
    latency: Option<WriteStamp>,
    stamp: WriteStamp,
    start_ns: u64,
    byte: u8,
    sample: Sample,
    read_back: Option<u8>,
)
    ensures
        ({
            let asks = |phase: Phase| RunState { phase, ..state }.action(asked_at);
            &&& asks(Phase::Connecting) == RunAction::Connect
            &&& asks(Phase::Enforcing) == RunAction::EnforceInterval
            &&& asks(Phase::Guarding) == RunAction::StartGuard
            &&& asks(Phase::Sampling) == RunAction::SampleLevel
            &&& asks(Phase::Resampling { now }) == RunAction::SampleLevel
            &&& asks(Phase::Stamping { value, now, edge_ns: stamp.edge_ns })
                == RunAction::ReadClock
            &&& asks(Phase::Writing { value, now, latency }) == RunAction::Write(value)
            &&& asks(Phase::ReportingSkew { stamp }) == (RunAction::ReportSkew {
                edge_ns: stamp.edge_ns,
                write_ns: stamp.write_ns,
            })
            &&& asks(Phase::StartingReadBack { stamp }) == RunAction::ReadClock
            &&& asks(Phase::ReadingBack { stamp, start_ns }) == RunAction::ReadBack
            &&& asks(Phase::EndingReadBack { stamp, start_ns, byte }) == RunAction::ReadClock
            &&& asks(Phase::Reporting { sample, read_back }) == (RunAction::ReportSample {
                sample,
                read_back,
            })
            &&& asks(Phase::Stopped) == RunAction::Stop
        }),
{
}

} // verus!
