//! The link supervisor as a state machine.
//!
//! [`Supervisor`] decides; the caller performs the action that
//! [`Supervisor::action`] names and reports what came of it through
//! [`Supervisor::step`]. The supervisor never ends: it acquires the lamp, holds the
//! link until it is lost, and starts over.
use crate::ble::{
    backoff, backoff_delay, connect_choice, connect_decision, should_reinit, ConnectDecision,
    CONNECT_BOUND, MAX_ATTEMPTS_BEFORE_REINIT,
};
use crate::text::lower;
use crate::time::{Duration, SECOND};
use vstd::prelude::*;

verus! {

/// How a scan ended.
#[derive(Debug, Clone, Copy, PartialEq, Eq, Structural)]
pub enum ScanOutcome {
    /// The lamp is connected.
    Acquired,
    /// The lamp was not found in time, or could not be connected to.
    Missed,
    /// The adapter delivers no more events.
    StreamEnded,
}

/// What the supervisor makes known of the link.
#[derive(Debug, Clone, Copy, PartialEq, Eq, Structural)]
pub enum Publication {
    /// The session could not be set up.
    SetupFailed,
    /// The adapter delivers no more events.
    StreamEnded,
    /// The link is up.
    Connected,
    /// The link is down and being looked for.
    Waiting,
}

/// Where the supervisor stands: the operation whose outcome it waits for.
#[derive(Debug, Clone, Copy, PartialEq, Eq, Structural)]
pub enum SupervisorPhase {
    /// Building a fresh session: manager, adapter and event stream.
    SettingUp,
    /// Making known that the session could not be set up.
    ReportingSetupFailure { delay: Duration },
    /// Holding off before the next set-up.
    SetupBackoff { delay: Duration },
    /// Starting to scan.
    StartingScan,
    /// Waiting for the lamp to be discovered.
    Scanning,
    /// Connecting to the discovered lamp.
    Connecting,
    /// Letting go of a lamp that could not be connected to.
    DroppingCandidate,
    /// Stopping the scan.
    StoppingScan { outcome: ScanOutcome },
    /// Holding off before the next scan.
    ScanBackoff { delay: Duration },
    /// Handing the connection to the client.
    Storing,
    /// Announcing a fresh connection.
    AdvancingEpoch,
    /// Making known that the link is up.
    ReportingConnected,
    /// Dropping the requests to reconnect that the previous link left behind.
    Draining,
    /// Holding the link.
    Holding,
    /// Taking the connection back and closing it.
    Releasing { stream_ended: bool },
    /// Making known that the adapter delivers no more events.
    ReportingStreamEnd,
    /// Making known that the link is down.
    ReportingWaiting,
}

/// What the caller is to do next.
#[derive(Debug, Clone, Copy, PartialEq, Eq, Structural)]
pub enum SupervisorAction {
    SetUp,
    Publish(Publication),
    Sleep(Duration),
    /// Start the clock of the acquisition and the scan.
    StartScan,
    /// Wait for an adapter event or the end of the acquisition.
    AwaitDiscovery,
    ConnectCandidate,
    DropCandidate,
    StopScan,
    StoreConnection,
    AdvanceEpoch,
    DrainReconnects,
    /// Wait for an adapter event or a request to reconnect.
    AwaitLoss,
    ReleaseConnection,
}

/// What came of the action.
#[derive(Debug, Clone, Copy)]
pub enum SupervisorEvent<'a> {
    /// The operation is done, and succeeded where it can fail.
    Done,
    /// The operation failed.
    Failed,
    /// A device was discovered, `elapsed` into the acquisition.
    Discovered { address: &'a str, elapsed: Duration },
    /// The acquisition has taken as long as it may.
    DeadlineReached,
    /// A device was disconnected: the one held, or another.
    Disconnected { ours: bool },
    /// Any other adapter event, or a discovered device that could not be looked up.
    Unrelated,
    /// The adapter's event stream ended.
    StreamEnded,
    /// The client asked for a fresh link.
    ReconnectRequested,
}

/// All that the supervisor remembers.
pub struct SupervisorState {
    /// Address of the lamp.
    pub address: Seq<char>,
    /// Consecutive failures so far.
    pub attempt: u32,
    pub phase: SupervisorPhase,
}

/// One more than `attempt`, as far as that can be counted.
pub open spec fn one_more(attempt: u32) -> u32 {
    if attempt == u32::MAX {
        attempt
    } else {
        (attempt + 1) as u32
    }
}

impl SupervisorState {
    /// The supervisor before anything has happened.
    pub open spec fn initial(address: Seq<char>) -> SupervisorState {
        SupervisorState { address, attempt: 0, phase: SupervisorPhase::SettingUp }
    }

    pub open spec fn at(self, phase: SupervisorPhase) -> SupervisorState {
        SupervisorState { phase, ..self }
    }

    /// The next phase with the count of failures cleared.
    pub open spec fn afresh_at(self, phase: SupervisorPhase) -> SupervisorState {
        SupervisorState { attempt: 0, phase, ..self }
    }

    /// The next phase with one more failure counted.
    pub open spec fn failed_at(self, phase: SupervisorPhase) -> SupervisorState {
        SupervisorState { attempt: one_more(self.attempt), phase, ..self }
    }

    /// The supervisor after `event`. An event that the phase does not wait for
    /// changes nothing.
    pub open spec fn next(self, event: SupervisorEvent<'_>) -> SupervisorState {
        match (self.phase, event) {
            (SupervisorPhase::SettingUp, SupervisorEvent::Done) => self.afresh_at(
                SupervisorPhase::StartingScan,
            ),
            (SupervisorPhase::SettingUp, SupervisorEvent::Failed) => self.failed_at(
                SupervisorPhase::ReportingSetupFailure { delay: backoff(self.attempt) },
            ),
            (SupervisorPhase::ReportingSetupFailure { delay }, SupervisorEvent::Done) => self.at(
                SupervisorPhase::SetupBackoff { delay },
            ),
            (SupervisorPhase::SetupBackoff { .. }, SupervisorEvent::Done) => self.at(
                SupervisorPhase::SettingUp,
            ),
            (SupervisorPhase::StartingScan, SupervisorEvent::Done) => self.at(
                SupervisorPhase::Scanning,
            ),
            (SupervisorPhase::StartingScan, SupervisorEvent::Failed) => self.at(
                SupervisorPhase::StoppingScan { outcome: ScanOutcome::Missed },
            ),
            (SupervisorPhase::Scanning, SupervisorEvent::Discovered { address, elapsed }) => {
                match connect_choice(self.address, address@, elapsed) {
                    ConnectDecision::Connect => self.at(SupervisorPhase::Connecting),
                    ConnectDecision::Wait => self,
                    ConnectDecision::GiveUp => self.at(
                        SupervisorPhase::StoppingScan { outcome: ScanOutcome::Missed },
                    ),
                }
            },
            (SupervisorPhase::Scanning, SupervisorEvent::DeadlineReached) => self.at(
                SupervisorPhase::StoppingScan { outcome: ScanOutcome::Missed },
            ),
            (SupervisorPhase::Scanning, SupervisorEvent::StreamEnded) => self.at(
                SupervisorPhase::StoppingScan { outcome: ScanOutcome::StreamEnded },
            ),
            (SupervisorPhase::Connecting, SupervisorEvent::Done) => self.at(
                SupervisorPhase::StoppingScan { outcome: ScanOutcome::Acquired },
            ),
            (SupervisorPhase::Connecting, SupervisorEvent::Failed) => self.at(
                SupervisorPhase::DroppingCandidate,
            ),
            (SupervisorPhase::DroppingCandidate, SupervisorEvent::Done) => self.at(
                SupervisorPhase::StoppingScan { outcome: ScanOutcome::Missed },
            ),
            (SupervisorPhase::StoppingScan { outcome }, SupervisorEvent::Done) => match outcome {
                ScanOutcome::Acquired => self.afresh_at(SupervisorPhase::Storing),
                ScanOutcome::Missed => self.failed_at(
                    SupervisorPhase::ScanBackoff { delay: backoff(self.attempt) },
                ),
                ScanOutcome::StreamEnded => self.afresh_at(SupervisorPhase::ReportingStreamEnd),
            },
            (SupervisorPhase::ScanBackoff { .. }, SupervisorEvent::Done) => if self.attempt
                >= MAX_ATTEMPTS_BEFORE_REINIT {
                self.afresh_at(SupervisorPhase::SettingUp)
            } else {
                self.at(SupervisorPhase::StartingScan)
            },
            (SupervisorPhase::Storing, SupervisorEvent::Done) => self.at(
                SupervisorPhase::AdvancingEpoch,
            ),
            (SupervisorPhase::AdvancingEpoch, SupervisorEvent::Done) => self.at(
                SupervisorPhase::ReportingConnected,
            ),
            (SupervisorPhase::ReportingConnected, SupervisorEvent::Done) => self.at(
                SupervisorPhase::Draining,
            ),
            (SupervisorPhase::Draining, SupervisorEvent::Done) => self.at(SupervisorPhase::Holding),
            (SupervisorPhase::Holding, SupervisorEvent::Disconnected { ours: true }) => self.at(
                SupervisorPhase::Releasing { stream_ended: false },
            ),
            (SupervisorPhase::Holding, SupervisorEvent::ReconnectRequested) => self.at(
                SupervisorPhase::Releasing { stream_ended: false },
            ),
            (SupervisorPhase::Holding, SupervisorEvent::StreamEnded) => self.at(
                SupervisorPhase::Releasing { stream_ended: true },
            ),
            (SupervisorPhase::Releasing { stream_ended }, SupervisorEvent::Done) => if stream_ended {
                self.at(SupervisorPhase::ReportingStreamEnd)
            } else {
                self.at(SupervisorPhase::ReportingWaiting)
            },
            (SupervisorPhase::ReportingStreamEnd, SupervisorEvent::Done) => self.at(
                SupervisorPhase::SettingUp,
            ),
            (SupervisorPhase::ReportingWaiting, SupervisorEvent::Done) => self.at(
                SupervisorPhase::StartingScan,
            ),
            _ => self,
        }
    }

    /// What the caller is asked to do.
    pub open spec fn action(self) -> SupervisorAction {
        match self.phase {
            SupervisorPhase::SettingUp => SupervisorAction::SetUp,
            SupervisorPhase::ReportingSetupFailure { .. } => SupervisorAction::Publish(
                Publication::SetupFailed,
            ),
            SupervisorPhase::SetupBackoff { delay } => SupervisorAction::Sleep(delay),
            SupervisorPhase::StartingScan => SupervisorAction::StartScan,
            SupervisorPhase::Scanning => SupervisorAction::AwaitDiscovery,
            SupervisorPhase::Connecting => SupervisorAction::ConnectCandidate,
            SupervisorPhase::DroppingCandidate => SupervisorAction::DropCandidate,
            SupervisorPhase::StoppingScan { .. } => SupervisorAction::StopScan,
            SupervisorPhase::ScanBackoff { delay } => SupervisorAction::Sleep(delay),
            SupervisorPhase::Storing => SupervisorAction::StoreConnection,
            SupervisorPhase::AdvancingEpoch => SupervisorAction::AdvanceEpoch,
            SupervisorPhase::ReportingConnected => SupervisorAction::Publish(
                Publication::Connected,
            ),
            SupervisorPhase::Draining => SupervisorAction::DrainReconnects,
            SupervisorPhase::Holding => SupervisorAction::AwaitLoss,
            SupervisorPhase::Releasing { .. } => SupervisorAction::ReleaseConnection,
            SupervisorPhase::ReportingStreamEnd => SupervisorAction::Publish(
                Publication::StreamEnded,
            ),
            SupervisorPhase::ReportingWaiting => SupervisorAction::Publish(Publication::Waiting),
        }
    }
}

/// The link supervisor.
#[derive(Debug)]
pub struct Supervisor {
    address: String,
    attempt: u32,
    phase: SupervisorPhase,
}

impl View for Supervisor {
    type V = SupervisorState;

    closed spec fn view(&self) -> SupervisorState {
        SupervisorState { address: self.address@, attempt: self.attempt, phase: self.phase }
    }
}

impl Supervisor {
    /// A supervisor of the link to the lamp at `address`, about to set up its session.
    pub fn new(address: String) -> (supervisor: Self)
        ensures
            supervisor@ == SupervisorState::initial(address@),
    {
        Self { address, attempt: 0, phase: SupervisorPhase::SettingUp }
    }

    /// What to do next.
    pub fn action(&self) -> (action: SupervisorAction)
        ensures
            action == self@.action(),
    {
        match self.phase {
            SupervisorPhase::SettingUp => SupervisorAction::SetUp,
            SupervisorPhase::ReportingSetupFailure { .. } => SupervisorAction::Publish(
                Publication::SetupFailed,
            ),
            SupervisorPhase::SetupBackoff { delay } => SupervisorAction::Sleep(delay),
            SupervisorPhase::StartingScan => SupervisorAction::StartScan,
            SupervisorPhase::Scanning => SupervisorAction::AwaitDiscovery,
            SupervisorPhase::Connecting => SupervisorAction::ConnectCandidate,
            SupervisorPhase::DroppingCandidate => SupervisorAction::DropCandidate,
            SupervisorPhase::StoppingScan { .. } => SupervisorAction::StopScan,
            SupervisorPhase::ScanBackoff { delay } => SupervisorAction::Sleep(delay),
            SupervisorPhase::Storing => SupervisorAction::StoreConnection,
            SupervisorPhase::AdvancingEpoch => SupervisorAction::AdvanceEpoch,
            SupervisorPhase::ReportingConnected => SupervisorAction::Publish(
                Publication::Connected,
            ),
            SupervisorPhase::Draining => SupervisorAction::DrainReconnects,
            SupervisorPhase::Holding => SupervisorAction::AwaitLoss,
            SupervisorPhase::Releasing { .. } => SupervisorAction::ReleaseConnection,
            SupervisorPhase::ReportingStreamEnd => SupervisorAction::Publish(
                Publication::StreamEnded,
            ),
            SupervisorPhase::ReportingWaiting => SupervisorAction::Publish(Publication::Waiting),
        }
    }

    /// Counts a failure and gives the delay that it earns.
    fn fail(&mut self) -> (delay: Duration)
        ensures
            delay == backoff(old(self)@.attempt),
            final(self)@ == (SupervisorState {
                attempt: one_more(old(self)@.attempt),
                ..old(self)@
            }),
    {
        let delay: Duration = backoff_delay(self.attempt);
        self.attempt = self.attempt.saturating_add(1);
        delay
    }

    /// Takes in what came of the action.
    pub fn step(&mut self, event: SupervisorEvent<'_>)
        ensures
            final(self)@ == old(self)@.next(event),
    {
        match (self.phase, event) {
            (SupervisorPhase::SettingUp, SupervisorEvent::Done) => {
                // A fresh adapter and event stream start the acquisition run clean.
                self.attempt = 0;
                self.phase = SupervisorPhase::StartingScan;
            },
            (SupervisorPhase::SettingUp, SupervisorEvent::Failed) => {
                let delay: Duration = self.fail();
                self.phase = SupervisorPhase::ReportingSetupFailure { delay };
            },
            (SupervisorPhase::ReportingSetupFailure { delay }, SupervisorEvent::Done) => {
                self.phase = SupervisorPhase::SetupBackoff { delay };
            },
            (SupervisorPhase::SetupBackoff { .. }, SupervisorEvent::Done) => {
                self.phase = SupervisorPhase::SettingUp;
            },
            (SupervisorPhase::StartingScan, SupervisorEvent::Done) => {
                self.phase = SupervisorPhase::Scanning;
            },
            (SupervisorPhase::StartingScan, SupervisorEvent::Failed) => {
                self.phase = SupervisorPhase::StoppingScan { outcome: ScanOutcome::Missed };
            },
            (SupervisorPhase::Scanning, SupervisorEvent::Discovered { address, elapsed }) => {
                match connect_decision(self.address.as_str(), address, elapsed) {
                    ConnectDecision::Connect => {
                        self.phase = SupervisorPhase::Connecting;
                    },
                    ConnectDecision::Wait => {},
                    ConnectDecision::GiveUp => {
                        self.phase = SupervisorPhase::StoppingScan { outcome: ScanOutcome::Missed };
                    },
                }
            },
            (SupervisorPhase::Scanning, SupervisorEvent::DeadlineReached) => {
                self.phase = SupervisorPhase::StoppingScan { outcome: ScanOutcome::Missed };
            },
            (SupervisorPhase::Scanning, SupervisorEvent::StreamEnded) => {
                self.phase = SupervisorPhase::StoppingScan { outcome: ScanOutcome::StreamEnded };
            },
            (SupervisorPhase::Connecting, SupervisorEvent::Done) => {
                self.phase = SupervisorPhase::StoppingScan { outcome: ScanOutcome::Acquired };
            },
            (SupervisorPhase::Connecting, SupervisorEvent::Failed) => {
                self.phase = SupervisorPhase::DroppingCandidate;
            },
            (SupervisorPhase::DroppingCandidate, SupervisorEvent::Done) => {
                self.phase = SupervisorPhase::StoppingScan { outcome: ScanOutcome::Missed };
            },
            (SupervisorPhase::StoppingScan { outcome }, SupervisorEvent::Done) => {
                match outcome {
                    ScanOutcome::Acquired => {
                        self.attempt = 0;
                        self.phase = SupervisorPhase::Storing;
                    },
                    ScanOutcome::Missed => {
                        let delay: Duration = self.fail();
                        self.phase = SupervisorPhase::ScanBackoff { delay };
                    },
                    ScanOutcome::StreamEnded => {
                        self.attempt = 0;
                        self.phase = SupervisorPhase::ReportingStreamEnd;
                    },
                }
            },
            (SupervisorPhase::ScanBackoff { .. }, SupervisorEvent::Done) => {
                if should_reinit(self.attempt) {
                    self.attempt = 0;
                    self.phase = SupervisorPhase::SettingUp;
                } else {
                    self.phase = SupervisorPhase::StartingScan;
                }
            },
            (SupervisorPhase::Storing, SupervisorEvent::Done) => {
                self.phase = SupervisorPhase::AdvancingEpoch;
            },
            (SupervisorPhase::AdvancingEpoch, SupervisorEvent::Done) => {
                self.phase = SupervisorPhase::ReportingConnected;
            },
            (SupervisorPhase::ReportingConnected, SupervisorEvent::Done) => {
                // A write failure while the supervisor was still acquiring left a
                // request to reconnect behind; it must not tear down this fresh link.
                self.phase = SupervisorPhase::Draining;
            },
            (SupervisorPhase::Draining, SupervisorEvent::Done) => {
                self.phase = SupervisorPhase::Holding;
            },
            (SupervisorPhase::Holding, SupervisorEvent::Disconnected { ours }) => {
                if ours {
                    self.phase = SupervisorPhase::Releasing { stream_ended: false };
                }
            },
            (SupervisorPhase::Holding, SupervisorEvent::ReconnectRequested) => {
                self.phase = SupervisorPhase::Releasing { stream_ended: false };
            },
            (SupervisorPhase::Holding, SupervisorEvent::StreamEnded) => {
                self.phase = SupervisorPhase::Releasing { stream_ended: true };
            },
            (SupervisorPhase::Releasing { stream_ended }, SupervisorEvent::Done) => {
                self.phase = if stream_ended {
                    SupervisorPhase::ReportingStreamEnd
                } else {
                    SupervisorPhase::ReportingWaiting
                };
            },
            (SupervisorPhase::ReportingStreamEnd, SupervisorEvent::Done) => {
                self.phase = SupervisorPhase::SettingUp;
            },
            (SupervisorPhase::ReportingWaiting, SupervisorEvent::Done) => {
                self.phase = SupervisorPhase::StartingScan;
            },
            _ => {},
        }
    }
}

impl SupervisorState {
    /// Holds of the supervisor at all times: the failures counted on one session stay
    /// below the bound, a delay is the one that the count has earned, and a link
    /// clears the count.
    pub open spec fn inv(self) -> bool {
        match self.phase {
            SupervisorPhase::SettingUp => true,
            SupervisorPhase::ReportingSetupFailure { delay } => 0 < delay <= 8 * SECOND,
            SupervisorPhase::SetupBackoff { delay } => 0 < delay <= 8 * SECOND,
            SupervisorPhase::StartingScan => self.attempt < MAX_ATTEMPTS_BEFORE_REINIT,
            SupervisorPhase::Scanning => self.attempt < MAX_ATTEMPTS_BEFORE_REINIT,
            SupervisorPhase::Connecting => self.attempt < MAX_ATTEMPTS_BEFORE_REINIT,
            SupervisorPhase::DroppingCandidate => self.attempt < MAX_ATTEMPTS_BEFORE_REINIT,
            SupervisorPhase::StoppingScan { .. } => self.attempt < MAX_ATTEMPTS_BEFORE_REINIT,
            SupervisorPhase::ScanBackoff { delay } => {
                &&& 1 <= self.attempt <= MAX_ATTEMPTS_BEFORE_REINIT
                &&& delay == backoff((self.attempt - 1) as u32)
            },
            _ => self.attempt == 0,
        }
    }
}

/// The supervisor after a run of events.
pub open spec fn run(state: SupervisorState, events: Seq<SupervisorEvent<'_>>) -> SupervisorState
    decreases events.len(),
{
    if events.len() == 0 {
        state
    } else {
        run(state, events.drop_last()).next(events.last())
    }
}

/// How often a run of events has completed an action.
pub open spec fn completed(
    state: SupervisorState,
    events: Seq<SupervisorEvent<'_>>,
    action: SupervisorAction,
) -> nat
    decreases events.len(),
{
    if events.len() == 0 {
        0
    } else {
        let before = run(state, events.drop_last());
        completed(state, events.drop_last(), action) + if before.action() == action
            && events.last() is Done {
            1nat
        } else {
            0nat
        }
    }
}

/// The invariant holds after any run of events, and the lamp looked for stays the same.
pub proof fn law_invariant_always_holds(address: Seq<char>, events: Seq<SupervisorEvent<'_>>)
    ensures
        run(SupervisorState::initial(address), events).inv(),
        run(SupervisorState::initial(address), events).address == address,
    decreases events.len(),
{
    if events.len() > 0 {
        law_invariant_always_holds(address, events.drop_last());
    }
}

/// Every delay that the supervisor asks for is positive and at most eight seconds.
pub proof fn law_delays_are_bounded(
    address: Seq<char>,
    events: Seq<SupervisorEvent<'_>>,
    delay: Duration,
)
    requires
        run(SupervisorState::initial(address), events).action() == SupervisorAction::Sleep(delay),
    ensures
        0 < delay <= 8 * SECOND,
{
    law_invariant_always_holds(address, events);
}

/// A missed scan is followed by the delay that the failures before it have earned,
/// and then by another scan, or, at the bound, by a rebuilt session.
pub proof fn law_missed_scan(state: SupervisorState)
    requires
        state.inv(),
        state.phase == (SupervisorPhase::StoppingScan { outcome: ScanOutcome::Missed }),
    ensures
        ({
            let holding_off = state.next(SupervisorEvent::Done);
            let after = holding_off.next(SupervisorEvent::Done);
            &&& holding_off.action() == SupervisorAction::Sleep(backoff(state.attempt))
            &&& state.attempt + 1 < MAX_ATTEMPTS_BEFORE_REINIT ==> after.phase is StartingScan
                && after.attempt == state.attempt + 1
            &&& state.attempt + 1 == MAX_ATTEMPTS_BEFORE_REINIT ==> after.phase is SettingUp
                && after.attempt == 0
        }),
{
}

/// A run on which no connection came about, no set-up failed and the adapter's event
/// stream did not end, whatever else made its scans miss.
pub open spec fn without_a_link(
    state: SupervisorState,
    events: Seq<SupervisorEvent<'_>>,
) -> bool
    decreases events.len(),
{
    events.len() == 0 || {
        let before = run(state, events.drop_last());
        &&& without_a_link(state, events.drop_last())
        &&& !(before.phase is Connecting && events.last() is Done)
        &&& !(before.phase is SettingUp && events.last() is Failed)
        &&& !(before.phase is Scanning && events.last() is StreamEnded)
    }
}

/// The supervisor is somewhere between the start of a scan and its end.
pub open spec fn acquiring(state: SupervisorState) -> bool {
    ||| state.phase is StartingScan
    ||| state.phase is Scanning
    ||| state.phase is Connecting
    ||| state.phase is DroppingCandidate
    ||| state.phase is StoppingScan
}

/// As long as no link comes about, the delay after a scan that missed, whatever made it
/// miss, is the one that its place among the scans of the session has earned, and the
/// session is rebuilt after exactly as many scans as the bound says. The run begins
/// with a set-up, or with a scan on a session at hand.
pub proof fn law_session_is_rebuilt_at_the_bound(
    start: SupervisorState,
    events: Seq<SupervisorEvent<'_>>,
)
    requires
        start.attempt == 0,
        start.phase is SettingUp || start.phase is StartingScan,
        without_a_link(start, events),
    ensures
        ({
            let state = run(start, events);
            let bound = MAX_ATTEMPTS_BEFORE_REINIT as nat;
            // The scans that have missed, and the sessions that have been set up.
            let missed = completed(start, events, SupervisorAction::StopScan);
            let sessions = completed(start, events, SupervisorAction::SetUp)
                + if start.phase is StartingScan {
                1nat
            } else {
                0nat
            };
            &&& acquiring(state) || state.phase is ScanBackoff || state.phase is SettingUp
            &&& acquiring(state) ==> state.attempt == missed % bound && sessions == missed / bound
                + 1
            &&& state.phase is ScanBackoff ==> missed > 0 && sessions == (missed - 1) as nat / bound
                + 1 && state.action() == SupervisorAction::Sleep(
                backoff(((missed - 1) as nat % bound) as u32),
            ) && state.attempt == (missed - 1) as nat % bound + 1
            &&& state.phase is SettingUp ==> state.attempt == 0 && missed % bound == 0 && sessions
                == missed / bound
        }),
    decreases events.len(),
{
    if events.len() > 0 {
        law_session_is_rebuilt_at_the_bound(start, events.drop_last());
        lemma_scans_miss(start, events.drop_last());
    }
}

/// Without a link, every scan that ends has missed.
proof fn lemma_scans_miss(start: SupervisorState, events: Seq<SupervisorEvent<'_>>)
    requires
        start.phase is SettingUp || start.phase is StartingScan,
        without_a_link(start, events),
    ensures
        run(start, events).phase matches SupervisorPhase::StoppingScan { outcome } ==> outcome
            is Missed,
    decreases events.len(),
{
    if events.len() > 0 {
        lemma_scans_miss(start, events.drop_last());
    }
}

/// Within an acquisition only the configured lamp is connected to, and only before
/// the time is up.
pub proof fn law_connects_only_to_the_lamp(
    state: SupervisorState,
    event: SupervisorEvent<'_>,
)
    requires
        !(state.phase is Connecting),
        state.next(event).phase is Connecting,
    ensures
        event matches SupervisorEvent::Discovered { address, elapsed } && connect_choice(
            state.address,
            address@,
            elapsed,
        ) is Connect,
{
}

/// A scan is always stopped before anything else is begun, even one that could not be
/// started.
pub proof fn law_scan_is_always_stopped(state: SupervisorState, event: SupervisorEvent<'_>)
    ensures
        ({
            let after = state.next(event).phase;
            &&& state.phase is Scanning || state.phase is Connecting || state.phase
                is DroppingCandidate ==> after is Scanning || after is Connecting || after
                is DroppingCandidate || after is StoppingScan
            &&& state.phase is StartingScan ==> after is StartingScan || after is Scanning || (
            after is StoppingScan && event is Failed)
            &&& state.phase is StoppingScan ==> state.action() == SupervisorAction::StopScan && (
            event is Done || after == state.phase)
        }),
{
}

/// Once acquired, a link is handed over, announced and made known in this order, and
/// the requests to reconnect left behind are dropped before it is held.
pub proof fn law_acquired_link_is_announced_in_order(state: SupervisorState)
    requires
        state.phase == (SupervisorPhase::StoppingScan { outcome: ScanOutcome::Acquired }),
    ensures
        ({
            let storing = state.next(SupervisorEvent::Done);
            let advancing = storing.next(SupervisorEvent::Done);
            let reporting = advancing.next(SupervisorEvent::Done);
            let draining = reporting.next(SupervisorEvent::Done);
            &&& storing.action() == SupervisorAction::StoreConnection
            &&& advancing.action() == SupervisorAction::AdvanceEpoch
            &&& reporting.action() == SupervisorAction::Publish(Publication::Connected)
            &&& draining.action() == SupervisorAction::DrainReconnects
            &&& draining.next(SupervisorEvent::Done).phase is Holding
            &&& draining.next(SupervisorEvent::Done).attempt == 0
        }),
{
}

/// The epoch advances once for every time that the link is made known to be up, and
/// always before it.
pub proof fn law_epoch_advances_once_per_link(address: Seq<char>, events: Seq<SupervisorEvent<'_>>)
    ensures
        ({
            let start = SupervisorState::initial(address);
            let links = completed(
                start,
                events,
                SupervisorAction::Publish(Publication::Connected),
            );
            completed(start, events, SupervisorAction::AdvanceEpoch) == links + if run(
                start,
                events,
            ).phase is ReportingConnected {
                1nat
            } else {
                0nat
            }
        }),
    decreases events.len(),
{
    if events.len() > 0 {
        law_epoch_advances_once_per_link(address, events.drop_last());
    }
}

/// A held link is given up when it is lost, when the client asks for a fresh one, or
/// when the adapter falls silent, and for nothing else. It is always closed, and the
/// loss made known, before the lamp is looked for again.
pub proof fn law_held_link_is_released(state: SupervisorState, event: SupervisorEvent<'_>)
    requires
        state.phase is Holding,
    ensures
        ({
            let lost = event is ReconnectRequested || event == (SupervisorEvent::Disconnected {
                ours: true,
            });
            let after = state.next(event);
            let reporting = after.next(SupervisorEvent::Done);
            &&& lost ==> {
                &&& after.action() == SupervisorAction::ReleaseConnection
                &&& reporting.action() == SupervisorAction::Publish(Publication::Waiting)
                &&& reporting.next(SupervisorEvent::Done).phase is StartingScan
            }
            &&& event is StreamEnded ==> {
                &&& after.action() == SupervisorAction::ReleaseConnection
                &&& reporting.action() == SupervisorAction::Publish(Publication::StreamEnded)
                &&& reporting.next(SupervisorEvent::Done).phase is SettingUp
            }
            &&& !lost && !(event is StreamEnded) ==> after == state
        }),
{
}

/// A session that cannot be set up is made known, waited out and tried again.
pub proof fn law_failed_setup_is_retried(state: SupervisorState)
    requires
        state.phase is SettingUp,
    ensures
        ({
            let reporting = state.next(SupervisorEvent::Failed);
            let holding_off = reporting.next(SupervisorEvent::Done);
            let after = holding_off.next(SupervisorEvent::Done);
            &&& reporting.action() == SupervisorAction::Publish(Publication::SetupFailed)
            &&& holding_off.action() == SupervisorAction::Sleep(backoff(state.attempt))
            &&& after.phase is SettingUp
            &&& after.attempt == one_more(state.attempt)
        }),
{
}

/// Whatever failures came before, the configured lamp is connected to as soon as it is
/// discovered within the bound, in whichever case its address is written; any other
/// device is passed over; and past the bound the scan is given up whatever is discovered.
pub proof fn law_discovered_lamp_is_connected_to(
    state: SupervisorState,
    address: &str,
    elapsed: Duration,
)
    requires
        state.phase is Scanning,
    ensures
        ({
            let after = state.next(SupervisorEvent::Discovered { address, elapsed });
            let lamp = lower(address@) == lower(state.address);
            &&& elapsed < CONNECT_BOUND && lamp ==> after == (SupervisorState {
                phase: SupervisorPhase::Connecting,
                ..state
            }) && after.action() == SupervisorAction::ConnectCandidate
            &&& elapsed < CONNECT_BOUND && !lamp ==> after == state
            &&& elapsed >= CONNECT_BOUND ==> after == (SupervisorState {
                phase: SupervisorPhase::StoppingScan { outcome: ScanOutcome::Missed },
                ..state
            })
        }),
{
}

/// A session that is set up is scanned on with a clean count. One that is not is made
/// known, and tried again after the delay that the failures before it have earned, each
/// of which counts.
pub proof fn law_setup_steps(address: Seq<char>, attempt: u32, delay: Duration)
    ensures
        ({
            let setting_up = SupervisorState {
                address,
                attempt,
                phase: SupervisorPhase::SettingUp,
            };
            &&& setting_up.next(SupervisorEvent::Done) == (SupervisorState {
                address,
                attempt: 0,
                phase: SupervisorPhase::StartingScan,
            })
            &&& setting_up.next(SupervisorEvent::Failed) == (SupervisorState {
                address,
                attempt: if attempt < u32::MAX {
                    (attempt + 1) as u32
                } else {
                    attempt
                },
                phase: SupervisorPhase::ReportingSetupFailure { delay: backoff(attempt) },
            })
        }),
        (SupervisorState {
            address,
            attempt,
            phase: SupervisorPhase::ReportingSetupFailure { delay },
        }).next(SupervisorEvent::Done) == (SupervisorState {
            address,
            attempt,
            phase: SupervisorPhase::SetupBackoff { delay },
        }),
        (SupervisorState {
            address,
            attempt,
            phase: SupervisorPhase::SetupBackoff { delay },
        }).next(SupervisorEvent::Done) == (SupervisorState {
            address,
            attempt,
            phase: SupervisorPhase::SettingUp,
        }),
        SupervisorState::initial(address) == (SupervisorState {
            address,
            attempt: 0,
            phase: SupervisorPhase::SettingUp,
        }),
{
}

/// However many failures came before, a scan that is started waits for the lamp, and one
/// that cannot be started, runs out of time or loses its adapter is stopped with that
/// outcome; so is one whose lamp is connected to, and one whose lamp could not be, once
/// it has been let go.
pub proof fn law_scan_steps(address: Seq<char>, attempt: u32)
    ensures
        ({
            let at = |phase: SupervisorPhase| SupervisorState { address, attempt, phase };
            let missed = at(SupervisorPhase::StoppingScan { outcome: ScanOutcome::Missed });
            &&& at(SupervisorPhase::StartingScan).next(SupervisorEvent::Done) == at(
                SupervisorPhase::Scanning,
            )
            &&& at(SupervisorPhase::StartingScan).next(SupervisorEvent::Failed) == missed
            &&& at(SupervisorPhase::Scanning).next(SupervisorEvent::DeadlineReached) == missed
            &&& at(SupervisorPhase::Scanning).next(SupervisorEvent::StreamEnded) == at(
                SupervisorPhase::StoppingScan { outcome: ScanOutcome::StreamEnded },
            )
            &&& at(SupervisorPhase::Connecting).next(SupervisorEvent::Done) == at(
                SupervisorPhase::StoppingScan { outcome: ScanOutcome::Acquired },
            )
            &&& at(SupervisorPhase::Connecting).next(SupervisorEvent::Failed) == at(
                SupervisorPhase::DroppingCandidate,
            )
            &&& at(SupervisorPhase::DroppingCandidate).next(SupervisorEvent::Done) == missed
        }),
{
}

/// A stopped scan that has the lamp leads to its link and clears the count, one that
/// missed counts and earns its delay, and one whose adapter fell silent leads to a fresh
/// session. After the delay there is another scan until the bound is reached, and a fresh
/// session from then on.
pub proof fn law_scan_ends(address: Seq<char>, attempt: u32, delay: Duration)
    ensures
        ({
            let at = |attempt: u32, phase: SupervisorPhase|
                SupervisorState { address, attempt, phase };
            &&& at(
                attempt,
                SupervisorPhase::StoppingScan { outcome: ScanOutcome::Acquired },
            ).next(SupervisorEvent::Done) == at(0, SupervisorPhase::Storing)
            &&& at(attempt, SupervisorPhase::StoppingScan { outcome: ScanOutcome::Missed }).next(
                SupervisorEvent::Done,
            ) == at(
                if attempt < u32::MAX {
                    (attempt + 1) as u32
                } else {
                    attempt
                },
                SupervisorPhase::ScanBackoff { delay: backoff(attempt) },
            )
            &&& at(
                attempt,
                SupervisorPhase::StoppingScan { outcome: ScanOutcome::StreamEnded },
            ).next(SupervisorEvent::Done) == at(0, SupervisorPhase::ReportingStreamEnd)
            &&& attempt < 5 ==> at(attempt, SupervisorPhase::ScanBackoff { delay }).next(
                SupervisorEvent::Done,
            ) == at(attempt, SupervisorPhase::StartingScan)
            &&& attempt >= 5 ==> at(attempt, SupervisorPhase::ScanBackoff { delay }).next(
                SupervisorEvent::Done,
            ) == at(0, SupervisorPhase::SettingUp)
        }),
{
}

/// A link is stored, announced, made known and rid of old requests one after the other,
/// then held until it is lost, asked to be renewed, or the adapter falls silent; it is
/// then closed and its loss made known.
pub proof fn law_link_steps(address: Seq<char>, attempt: u32)
    ensures
        ({
            let at = |phase: SupervisorPhase| SupervisorState { address, attempt, phase };
            let released = at(SupervisorPhase::Releasing { stream_ended: false });
            let cut_off = at(SupervisorPhase::Releasing { stream_ended: true });
            &&& at(SupervisorPhase::Storing).next(SupervisorEvent::Done) == at(
                SupervisorPhase::AdvancingEpoch,
            )
            &&& at(SupervisorPhase::AdvancingEpoch).next(SupervisorEvent::Done) == at(
                SupervisorPhase::ReportingConnected,
            )
            &&& at(SupervisorPhase::ReportingConnected).next(SupervisorEvent::Done) == at(
                SupervisorPhase::Draining,
            )
            &&& at(SupervisorPhase::Draining).next(SupervisorEvent::Done) == at(
                SupervisorPhase::Holding,
            )
            &&& at(SupervisorPhase::Holding).next(SupervisorEvent::Disconnected { ours: true })
                == released
            &&& at(SupervisorPhase::Holding).next(SupervisorEvent::ReconnectRequested) == released
            &&& at(SupervisorPhase::Holding).next(SupervisorEvent::StreamEnded) == cut_off
            &&& released.next(SupervisorEvent::Done) == at(SupervisorPhase::ReportingWaiting)
            &&& cut_off.next(SupervisorEvent::Done) == at(SupervisorPhase::ReportingStreamEnd)
            &&& at(SupervisorPhase::ReportingWaiting).next(SupervisorEvent::Done) == at(
                SupervisorPhase::StartingScan,
            )
            &&& at(SupervisorPhase::ReportingStreamEnd).next(SupervisorEvent::Done) == at(
                SupervisorPhase::SettingUp,
            )
        }),
{
}

/// What the supervisor does not wait for changes nothing.
pub proof fn law_supervisor_passes_over_the_unexpected(
    state: SupervisorState,
    event: SupervisorEvent<'_>,
)
    requires
        match event {
            SupervisorEvent::Done => state.phase is Scanning || state.phase is Holding,
            SupervisorEvent::Failed => !(state.phase is SettingUp) && !(
            state.phase is StartingScan) && !(state.phase is Connecting),
            SupervisorEvent::Discovered { .. } => !(state.phase is Scanning),
            SupervisorEvent::DeadlineReached => !(state.phase is Scanning),
            SupervisorEvent::Disconnected { ours } => !(state.phase is Holding) || !ours,
            SupervisorEvent::Unrelated => true,
            SupervisorEvent::StreamEnded => !(state.phase is Scanning) && !(
            state.phase is Holding),
            SupervisorEvent::ReconnectRequested => !(state.phase is Holding),
        },
    ensures
        state.next(event) == state,
{
}

/// Each phase asks for its own operation, whatever failures came before, and a phase that
/// holds off asks for the delay that it was entered with.
pub proof fn law_supervisor_asks_for_its_operation(
    address: Seq<char>,
    attempt: u32,
    delay: Duration,
    outcome: ScanOutcome,
    stream_ended: bool,
)
    ensures
        ({
            let asks = |phase: SupervisorPhase| SupervisorState { address, attempt, phase }.action();
            &&& asks(SupervisorPhase::SettingUp) == SupervisorAction::SetUp
            &&& asks(SupervisorPhase::ReportingSetupFailure { delay }) == SupervisorAction::Publish(
                Publication::SetupFailed,
            )
            &&& asks(SupervisorPhase::SetupBackoff { delay }) == SupervisorAction::Sleep(delay)
            &&& asks(SupervisorPhase::StartingScan) == SupervisorAction::StartScan
            &&& asks(SupervisorPhase::Scanning) == SupervisorAction::AwaitDiscovery
            &&& asks(SupervisorPhase::Connecting) == SupervisorAction::ConnectCandidate
            &&& asks(SupervisorPhase::DroppingCandidate) == SupervisorAction::DropCandidate
            &&& asks(SupervisorPhase::StoppingScan { outcome }) == SupervisorAction::StopScan
            &&& asks(SupervisorPhase::ScanBackoff { delay }) == SupervisorAction::Sleep(delay)
            &&& asks(SupervisorPhase::Storing) == SupervisorAction::StoreConnection
            &&& asks(SupervisorPhase::AdvancingEpoch) == SupervisorAction::AdvanceEpoch
            &&& asks(SupervisorPhase::ReportingConnected) == SupervisorAction::Publish(
                Publication::Connected,
            )
            &&& asks(SupervisorPhase::Draining) == SupervisorAction::DrainReconnects
            &&& asks(SupervisorPhase::Holding) == SupervisorAction::AwaitLoss
            &&& asks(SupervisorPhase::Releasing { stream_ended })
                == SupervisorAction::ReleaseConnection
            &&& asks(SupervisorPhase::ReportingStreamEnd) == SupervisorAction::Publish(
                Publication::StreamEnded,
            )
            &&& asks(SupervisorPhase::ReportingWaiting) == SupervisorAction::Publish(
                Publication::Waiting,
            )
        }),
{
}

} // verus!
