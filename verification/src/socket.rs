//! Opening sockets to the host controller, and the two jobs that own one: asking for
//! the interval once, and starting the guard that keeps it.
//!
//! Each is a state machine that decides; the caller performs the action of its phase
//! and reports what came of it. A descriptor that was opened is always accounted for.
use crate::hci::{
    HciError, HCI_CHANNEL_MONITOR, HCI_CHANNEL_RAW, HCI_DEV, HCI_DEV_NONE,
};
use vstd::prelude::*;

verus! {

/// Which socket to open.
#[derive(Debug, Clone, Copy, PartialEq, Eq, Structural)]
pub enum SocketKind {
    /// Commands and their events, on the adapter.
    Raw,
    /// A copy of all traffic.
    Monitor,
}

impl SocketKind {
    /// The device that the socket is bound to.
    pub open spec fn bound_dev(self) -> u16 {
        match self {
            SocketKind::Raw => HCI_DEV,
            SocketKind::Monitor => HCI_DEV_NONE,
        }
    }

    /// The channel that the socket is bound to.
    pub open spec fn bound_channel(self) -> u16 {
        match self {
            SocketKind::Raw => HCI_CHANNEL_RAW,
            SocketKind::Monitor => HCI_CHANNEL_MONITOR,
        }
    }

    /// The device that the socket is bound to.
    pub fn dev(&self) -> (dev: u16)
        ensures
            dev == self.bound_dev(),
    {
        match self {
            SocketKind::Raw => HCI_DEV,
            SocketKind::Monitor => HCI_DEV_NONE,
        }
    }

    /// The channel that the socket is bound to.
    pub fn channel(&self) -> (channel: u16)
        ensures
            channel == self.bound_channel(),
    {
        match self {
            SocketKind::Raw => HCI_CHANNEL_RAW,
            SocketKind::Monitor => HCI_CHANNEL_MONITOR,
        }
    }
}

/// Where the opening of a socket stands.
#[derive(Debug, Clone, Copy, PartialEq, Eq, Structural)]
pub enum SocketPhase {
    /// Creating the socket.
    Creating,
    /// Binding it to its device and channel.
    Binding { fd: i32 },
    /// Letting events through.
    Filtering { fd: i32 },
    /// Closing a socket that could not be made ready.
    Closing { fd: i32, error: HciError },
    /// The socket is ready.
    Ready { fd: i32 },
    /// There is no socket.
    Failed { error: HciError },
}

/// The opening of a socket.
#[derive(Debug, Clone, Copy, PartialEq, Eq, Structural)]
pub struct SocketSetup {
    pub kind: SocketKind,
    pub phase: SocketPhase,
}

impl SocketSetup {
    /// A socket about to be created.
    pub fn new(kind: SocketKind) -> (setup: Self)
        ensures
            setup == (SocketSetup { kind, phase: SocketPhase::Creating }),
    {
        Self { kind, phase: SocketPhase::Creating }
    }

    /// The opening once the system call of its phase has returned `ret`: negative for
    /// a failure, and for a created socket its descriptor. A raw socket is filtered
    /// once it is bound, a monitor socket is ready.
    pub open spec fn next(self, ret: i32) -> SocketSetup {
        SocketSetup {
            phase: match self.phase {
                SocketPhase::Creating => if ret < 0 {
                    SocketPhase::Failed {
                        error: match self.kind {
                            SocketKind::Raw => HciError::OpenRaw,
                            SocketKind::Monitor => HciError::OpenMonitor,
                        },
                    }
                } else {
                    SocketPhase::Binding { fd: ret }
                },
                SocketPhase::Binding { fd } => if ret < 0 {
                    SocketPhase::Closing {
                        fd,
                        error: HciError::Bind {
                            dev: self.kind.bound_dev(),
                            channel: self.kind.bound_channel(),
                        },
                    }
                } else {
                    match self.kind {
                        SocketKind::Raw => SocketPhase::Filtering { fd },
                        SocketKind::Monitor => SocketPhase::Ready { fd },
                    }
                },
                SocketPhase::Filtering { fd } => if ret < 0 {
                    SocketPhase::Closing { fd, error: HciError::Filter }
                } else {
                    SocketPhase::Ready { fd }
                },
                SocketPhase::Closing { error, .. } => SocketPhase::Failed { error },
                phase => phase,
            },
            ..self
        }
    }

    /// The descriptor that is open.
    pub open spec fn open_fd(self) -> Option<i32> {
        match self.phase {
            SocketPhase::Binding { fd } => Some(fd),
            SocketPhase::Filtering { fd } => Some(fd),
            SocketPhase::Closing { fd, .. } => Some(fd),
            SocketPhase::Ready { fd } => Some(fd),
            _ => None,
        }
    }

    /// Takes in what the system call of the phase returned.
    pub fn step(&mut self, ret: i32)
        ensures
            *final(self) == old(self).next(ret),
    {
        self.phase = match self.phase {
            SocketPhase::Creating => {
                if ret < 0 {
                    SocketPhase::Failed {
                        error: match self.kind {
                            SocketKind::Raw => HciError::OpenRaw,
                            SocketKind::Monitor => HciError::OpenMonitor,
                        },
                    }
                } else {
                    SocketPhase::Binding { fd: ret }
                }
            },
            SocketPhase::Binding { fd } => {
                if ret < 0 {
                    SocketPhase::Closing {
                        fd,
                        error: HciError::Bind { dev: self.kind.dev(), channel: self.kind.channel() },
                    }
                } else {
                    match self.kind {
                        SocketKind::Raw => SocketPhase::Filtering { fd },
                        SocketKind::Monitor => SocketPhase::Ready { fd },
                    }
                }
            },
            SocketPhase::Filtering { fd } => {
                if ret < 0 {
                    SocketPhase::Closing { fd, error: HciError::Filter }
                } else {
                    SocketPhase::Ready { fd }
                }
            },
            SocketPhase::Closing { error, .. } => SocketPhase::Failed { error },
            phase => phase,
        };
    }
}

/// A descriptor comes from the call that creates the socket, and goes only with the
/// call that closes it: a socket that could not be made ready leaves none behind.
pub proof fn law_socket_setup_leaks_no_descriptor(setup: SocketSetup, ret: i32)
    ensures
        setup.phase is Creating && ret >= 0 ==> setup.next(ret).open_fd() == Some(ret),
        setup.phase is Creating && ret < 0 ==> setup.next(ret).open_fd() is None,
        setup.phase is Closing ==> setup.next(ret).open_fd() is None,
        !(setup.phase is Creating) && !(setup.phase is Closing) ==> setup.next(ret).open_fd()
            == setup.open_fd(),
        setup.phase is Failed ==> setup.open_fd() is None,
{
}

/// Where a request for the interval stands.
#[derive(Debug, Clone, Copy, PartialEq, Eq, Structural)]
pub enum ApplyPhase {
    /// Opening a raw socket.
    Opening,
    /// Finding the connection.
    Resolving { fd: i32 },
    /// Requesting the update and waiting for it to be confirmed.
    Updating { fd: i32, handle: u16 },
    /// Closing the socket.
    Closing { fd: i32, applied: bool },
    /// The interval has been set, or an operation has failed.
    Finished { applied: bool },
}

/// What came of an operation of a request for the interval.
#[derive(Debug, Clone, Copy, PartialEq, Eq, Structural)]
pub enum ApplyEvent {
    Opened { fd: i32 },
    Resolved { handle: u16 },
    Done,
    Failed,
}

impl ApplyPhase {
    /// The request after `event`. An event that the phase does not wait for changes
    /// nothing.
    pub open spec fn next(self, event: ApplyEvent) -> ApplyPhase {
        match (self, event) {
            (ApplyPhase::Opening, ApplyEvent::Opened { fd }) => ApplyPhase::Resolving { fd },
            (ApplyPhase::Opening, ApplyEvent::Failed) => ApplyPhase::Finished { applied: false },
            (ApplyPhase::Resolving { fd }, ApplyEvent::Resolved { handle }) => {
                ApplyPhase::Updating { fd, handle }
            },
            (ApplyPhase::Resolving { fd }, ApplyEvent::Failed) => ApplyPhase::Closing {
                fd,
                applied: false,
            },
            (ApplyPhase::Updating { fd, .. }, ApplyEvent::Done) => ApplyPhase::Closing {
                fd,
                applied: true,
            },
            (ApplyPhase::Updating { fd, .. }, ApplyEvent::Failed) => ApplyPhase::Closing {
                fd,
                applied: false,
            },
            (ApplyPhase::Closing { applied, .. }, ApplyEvent::Done) => ApplyPhase::Finished {
                applied,
            },
            _ => self,
        }
    }

    /// The descriptor that is open.
    pub open spec fn open_fd(self) -> Option<i32> {
        match self {
            ApplyPhase::Resolving { fd } => Some(fd),
            ApplyPhase::Updating { fd, .. } => Some(fd),
            ApplyPhase::Closing { fd, .. } => Some(fd),
            _ => None,
        }
    }

    /// Takes in what came of the operation.
    pub fn step(&mut self, event: ApplyEvent)
        ensures
            *final(self) == old(self).next(event),
    {
        *self = match (*self, event) {
            (ApplyPhase::Opening, ApplyEvent::Opened { fd }) => ApplyPhase::Resolving { fd },
            (ApplyPhase::Opening, ApplyEvent::Failed) => ApplyPhase::Finished { applied: false },
            (ApplyPhase::Resolving { fd }, ApplyEvent::Resolved { handle }) => {
                ApplyPhase::Updating { fd, handle }
            },
            (ApplyPhase::Resolving { fd }, ApplyEvent::Failed) => {
                ApplyPhase::Closing { fd, applied: false }
            },
            (ApplyPhase::Updating { fd, .. }, ApplyEvent::Done) => {
                ApplyPhase::Closing { fd, applied: true }
            },
            (ApplyPhase::Updating { fd, .. }, ApplyEvent::Failed) => {
                ApplyPhase::Closing { fd, applied: false }
            },
            (ApplyPhase::Closing { applied, .. }, ApplyEvent::Done) => {
                ApplyPhase::Finished { applied }
            },
            (phase, _) => phase,
        };
    }
}

/// The socket of a request is open from the moment it is handed over until it is
/// closed, and a request finishes with nothing open, whatever failed.
pub proof fn law_request_closes_its_socket(phase: ApplyPhase, event: ApplyEvent)
    ensures
        phase is Opening ==> (event matches ApplyEvent::Opened { fd } ==> phase.next(
            event,
        ).open_fd() == Some(fd)),
        phase is Finished ==> phase.open_fd() is None && phase.next(event) == phase,
        phase.open_fd() is Some && phase.next(event).open_fd() is None ==> phase is Closing
            && event is Done,
        phase.open_fd() is Some && phase.next(event).open_fd() is Some ==> phase.open_fd()
            == phase.next(event).open_fd(),
{
}

/// A request after a run of events, from its beginning.
pub open spec fn apply_run(events: Seq<ApplyEvent>) -> ApplyPhase
    decreases events.len(),
{
    if events.len() == 0 {
        ApplyPhase::Opening
    } else {
        apply_run(events.drop_last()).next(events.last())
    }
}

/// The run has had the update confirmed.
pub open spec fn confirmed(events: Seq<ApplyEvent>) -> bool
    decreases events.len(),
{
    events.len() > 0 && (confirmed(events.drop_last()) || (apply_run(events.drop_last()) is Updating
        && events.last() is Done))
}

/// A request that is over counts as applied if and only if the update was confirmed, and
/// one that goes on has had nothing confirmed yet.
pub proof fn law_request_is_applied_only_when_confirmed(events: Seq<ApplyEvent>)
    ensures
        match apply_run(events) {
            ApplyPhase::Closing { applied, .. } => applied == confirmed(events),
            ApplyPhase::Finished { applied } => applied == confirmed(events),
            _ => !confirmed(events),
        },
    decreases events.len(),
{
    if events.len() > 0 {
        law_request_is_applied_only_when_confirmed(events.drop_last());
    }
}

/// Where the start of the guard stands.
#[derive(Debug, Clone, Copy, PartialEq, Eq, Structural)]
pub enum StartPhase {
    /// Taking the lock, before anything is opened, so that a poisoned one leaves
    /// neither a socket nor a thread behind.
    Locking,
    /// Opening a raw socket.
    OpeningRaw,
    /// Finding the connection.
    Resolving { fd: i32 },
    /// Closing the raw socket.
    ClosingRaw { fd: i32, resolved: Option<u16> },
    /// Opening a monitor socket.
    OpeningMonitor { handle: u16 },
    /// Starting the guard's thread, which then owns the socket.
    Spawning { fd: i32, handle: u16 },
    /// Closing the monitor socket of a thread that could not be started.
    ClosingMonitor { fd: i32 },
    /// Stopping the previous guard, if there is one.
    StoppingPrevious,
    /// Remembering the new guard.
    Storing,
    /// The guard runs.
    Active,
    /// The guard does not run.
    Failed,
}

/// What came of an operation of the start.
#[derive(Debug, Clone, Copy, PartialEq, Eq, Structural)]
pub enum StartEvent {
    Opened { fd: i32 },
    Resolved { handle: u16 },
    Done,
    Failed,
}

impl StartPhase {
    /// The start after `event`. An event that the phase does not wait for changes
    /// nothing.
    pub open spec fn next(self, event: StartEvent) -> StartPhase {
        match (self, event) {
            (StartPhase::Locking, StartEvent::Done) => StartPhase::OpeningRaw,
            (StartPhase::Locking, StartEvent::Failed) => StartPhase::Failed,
            (StartPhase::OpeningRaw, StartEvent::Opened { fd }) => StartPhase::Resolving { fd },
            (StartPhase::OpeningRaw, StartEvent::Failed) => StartPhase::Failed,
            (StartPhase::Resolving { fd }, StartEvent::Resolved { handle }) => {
                StartPhase::ClosingRaw { fd, resolved: Some(handle) }
            },
            (StartPhase::Resolving { fd }, StartEvent::Failed) => StartPhase::ClosingRaw {
                fd,
                resolved: None,
            },
            (StartPhase::ClosingRaw { resolved, .. }, StartEvent::Done) => match resolved {
                Some(handle) => StartPhase::OpeningMonitor { handle },
                None => StartPhase::Failed,
            },
            (StartPhase::OpeningMonitor { handle }, StartEvent::Opened { fd }) => {
                StartPhase::Spawning { fd, handle }
            },
            (StartPhase::OpeningMonitor { .. }, StartEvent::Failed) => StartPhase::Failed,
            (StartPhase::Spawning { .. }, StartEvent::Done) => StartPhase::StoppingPrevious,
            (StartPhase::Spawning { fd, .. }, StartEvent::Failed) => StartPhase::ClosingMonitor {
                fd,
            },
            (StartPhase::ClosingMonitor { .. }, StartEvent::Done) => StartPhase::Failed,
            (StartPhase::StoppingPrevious, StartEvent::Done) => StartPhase::Storing,
            (StartPhase::Storing, StartEvent::Done) => StartPhase::Active,
            _ => self,
        }
    }

    /// The descriptor that the start owns.
    pub open spec fn open_fd(self) -> Option<i32> {
        match self {
            StartPhase::Resolving { fd } => Some(fd),
            StartPhase::ClosingRaw { fd, .. } => Some(fd),
            StartPhase::Spawning { fd, .. } => Some(fd),
            StartPhase::ClosingMonitor { fd } => Some(fd),
            _ => None,
        }
    }

    /// Takes in what came of the operation.
    pub fn step(&mut self, event: StartEvent)
        ensures
            *final(self) == old(self).next(event),
    {
        *self = match (*self, event) {
            (StartPhase::Locking, StartEvent::Done) => StartPhase::OpeningRaw,
            (StartPhase::Locking, StartEvent::Failed) => StartPhase::Failed,
            (StartPhase::OpeningRaw, StartEvent::Opened { fd }) => StartPhase::Resolving { fd },
            (StartPhase::OpeningRaw, StartEvent::Failed) => StartPhase::Failed,
            (StartPhase::Resolving { fd }, StartEvent::Resolved { handle }) => {
                StartPhase::ClosingRaw { fd, resolved: Some(handle) }
            },
            (StartPhase::Resolving { fd }, StartEvent::Failed) => {
                StartPhase::ClosingRaw { fd, resolved: None }
            },
            (StartPhase::ClosingRaw { resolved, .. }, StartEvent::Done) => match resolved {
                Some(handle) => StartPhase::OpeningMonitor { handle },
                None => StartPhase::Failed,
            },
            (StartPhase::OpeningMonitor { handle }, StartEvent::Opened { fd }) => {
                StartPhase::Spawning { fd, handle }
            },
            (StartPhase::OpeningMonitor { .. }, StartEvent::Failed) => StartPhase::Failed,
            (StartPhase::Spawning { .. }, StartEvent::Done) => StartPhase::StoppingPrevious,
            (StartPhase::Spawning { fd, .. }, StartEvent::Failed) => {
                StartPhase::ClosingMonitor { fd }
            },
            (StartPhase::ClosingMonitor { .. }, StartEvent::Done) => StartPhase::Failed,
            (StartPhase::StoppingPrevious, StartEvent::Done) => StartPhase::Storing,
            (StartPhase::Storing, StartEvent::Done) => StartPhase::Active,
            (phase, _) => phase,
        };
    }
}

/// A descriptor that the start owns is given up only by closing it or by handing it to
/// the guard's thread, so that a start that fails leaves none behind.
pub proof fn law_guard_start_leaks_no_descriptor(phase: StartPhase, event: StartEvent)
    ensures
        phase is OpeningRaw || phase is OpeningMonitor ==> (event matches StartEvent::Opened {
            fd,
        } ==> phase.next(event).open_fd() == Some(fd)),
        phase is Failed || phase is Active ==> phase.open_fd() is None && phase.next(event)
            == phase,
        phase.open_fd() is Some && phase.next(event).open_fd() is None ==> event is Done && (
        phase is ClosingRaw || phase is ClosingMonitor || phase is Spawning),
        phase.open_fd() is Some && phase.next(event).open_fd() is Some ==> phase.open_fd()
            == phase.next(event).open_fd(),
{
}

/// The start after a run of events, from its beginning.
pub open spec fn start_run(events: Seq<StartEvent>) -> StartPhase
    decreases events.len(),
{
    if events.len() == 0 {
        StartPhase::Locking
    } else {
        start_run(events.drop_last()).next(events.last())
    }
}

/// The run has started the new guard's thread.
pub open spec fn spawned(events: Seq<StartEvent>) -> bool
    decreases events.len(),
{
    events.len() > 0 && (spawned(events.drop_last()) || (start_run(events.drop_last()) is Spawning
        && events.last() is Done))
}

/// The run has stopped the previous guard.
pub open spec fn stopped_previous(events: Seq<StartEvent>) -> bool
    decreases events.len(),
{
    events.len() > 0 && (stopped_previous(events.drop_last()) || (start_run(events.drop_last())
        is StoppingPrevious && events.last() is Done))
}

impl StartPhase {
    /// The new guard runs: what is left to do cannot fail.
    pub open spec fn past_spawning(self) -> bool {
        self is StoppingPrevious || self is Storing || self is Active
    }
}

/// Once the new guard's thread has been started, no event fails the start any more.
pub proof fn law_started_guard_cannot_fail(phase: StartPhase, event: StartEvent)
    requires
        phase.past_spawning(),
    ensures
        !(phase.next(event) is Failed),
        phase.next(event).past_spawning(),
{
}

/// A start that fails has neither started a thread nor stopped the previous guard,
/// which is stopped only once a new one runs.
pub proof fn law_previous_guard_outlives_a_failed_start(events: Seq<StartEvent>)
    ensures
        start_run(events) is Failed ==> !spawned(events) && !stopped_previous(events),
        stopped_previous(events) ==> spawned(events),
        spawned(events) <==> start_run(events).past_spawning(),
        stopped_previous(events) <==> start_run(events) is Storing || start_run(events) is Active,
    decreases events.len(),
{
    if events.len() > 0 {
        law_previous_guard_outlives_a_failed_start(events.drop_last());
    }
}

/// A call that returns anything but a negative number has succeeded. A created socket, of
/// whatever descriptor, is bound next, a bound raw socket is filtered, and what is then
/// left is ready; the descriptor stays the same.
pub proof fn law_successful_calls_make_a_socket_ready(kind: SocketKind, fd: i32, ret: i32)
    requires
        ret >= 0,
    ensures
        (SocketSetup { kind, phase: SocketPhase::Creating }).next(ret) == (SocketSetup {
            kind,
            phase: SocketPhase::Binding { fd: ret },
        }),
        (SocketSetup { kind: SocketKind::Raw, phase: SocketPhase::Binding { fd } }).next(ret) == (
        SocketSetup { kind: SocketKind::Raw, phase: SocketPhase::Filtering { fd } }),
        (SocketSetup { kind: SocketKind::Monitor, phase: SocketPhase::Binding { fd } }).next(ret)
            == (SocketSetup { kind: SocketKind::Monitor, phase: SocketPhase::Ready { fd } }),
        (SocketSetup { kind, phase: SocketPhase::Filtering { fd } }).next(ret) == (SocketSetup {
            kind,
            phase: SocketPhase::Ready { fd },
        }),
{
}

/// A call that returns any negative number has failed, and the error names the call. A
/// socket that is there is closed first, whatever closing it returns.
pub proof fn law_failed_calls_are_named(
    kind: SocketKind,
    fd: i32,
    error: HciError,
    ret: i32,
    any: i32,
)
    requires
        ret < 0,
    ensures
        (SocketSetup { kind: SocketKind::Raw, phase: SocketPhase::Creating }).next(ret) == (
        SocketSetup {
            kind: SocketKind::Raw,
            phase: SocketPhase::Failed { error: HciError::OpenRaw },
        }),
        (SocketSetup { kind: SocketKind::Monitor, phase: SocketPhase::Creating }).next(ret) == (
        SocketSetup {
            kind: SocketKind::Monitor,
            phase: SocketPhase::Failed { error: HciError::OpenMonitor },
        }),
        (SocketSetup { kind: SocketKind::Raw, phase: SocketPhase::Binding { fd } }).next(ret) == (
        SocketSetup {
            kind: SocketKind::Raw,
            phase: SocketPhase::Closing {
                fd,
                error: HciError::Bind { dev: HCI_DEV, channel: HCI_CHANNEL_RAW },
            },
        }),
        (SocketSetup { kind: SocketKind::Monitor, phase: SocketPhase::Binding { fd } }).next(ret)
            == (SocketSetup {
            kind: SocketKind::Monitor,
            phase: SocketPhase::Closing {
                fd,
                error: HciError::Bind { dev: HCI_DEV_NONE, channel: HCI_CHANNEL_MONITOR },
            },
        }),
        (SocketSetup { kind, phase: SocketPhase::Filtering { fd } }).next(ret) == (SocketSetup {
            kind,
            phase: SocketPhase::Closing { fd, error: HciError::Filter },
        }),
        (SocketSetup { kind, phase: SocketPhase::Closing { fd, error } }).next(any) == (
        SocketSetup { kind, phase: SocketPhase::Failed { error } }),
        (SocketSetup { kind, phase: SocketPhase::Ready { fd } }).next(any).phase == (
        SocketPhase::Ready { fd }),
        (SocketSetup { kind, phase: SocketPhase::Failed { error } }).next(any).phase == (
        SocketPhase::Failed { error }),
{
}

/// A request goes on with whatever descriptor it was handed and whatever connection was
/// found, and ends by closing that descriptor, with what came of the update.
pub proof fn law_request_steps(fd: i32, handle: u16, applied: bool)
    ensures
        ApplyPhase::Opening.next(ApplyEvent::Opened { fd }) == (ApplyPhase::Resolving { fd }),
        ApplyPhase::Opening.next(ApplyEvent::Failed) == (ApplyPhase::Finished { applied: false }),
        (ApplyPhase::Resolving { fd }).next(ApplyEvent::Resolved { handle }) == (
        ApplyPhase::Updating { fd, handle }),
        (ApplyPhase::Resolving { fd }).next(ApplyEvent::Failed) == (ApplyPhase::Closing {
            fd,
            applied: false,
        }),
        (ApplyPhase::Updating { fd, handle }).next(ApplyEvent::Done) == (ApplyPhase::Closing {
            fd,
            applied: true,
        }),
        (ApplyPhase::Updating { fd, handle }).next(ApplyEvent::Failed) == (ApplyPhase::Closing {
            fd,
            applied: false,
        }),
        (ApplyPhase::Closing { fd, applied }).next(ApplyEvent::Done) == (ApplyPhase::Finished {
            applied,
        }),
{
}

/// What a request does not wait for changes nothing.
pub proof fn law_request_passes_over_the_unexpected(phase: ApplyPhase, event: ApplyEvent)
    requires
        match event {
            ApplyEvent::Opened { .. } => !(phase is Opening),
            ApplyEvent::Resolved { .. } => !(phase is Resolving),
            ApplyEvent::Done => !(phase is Updating) && !(phase is Closing),
            ApplyEvent::Failed => !(phase is Opening) && !(phase is Resolving) && !(
            phase is Updating),
        },
    ensures
        phase.next(event) == phase,
{
}

/// A start goes on with whatever descriptors it was handed and whatever connection was
/// found: the raw socket is closed before the monitor socket is opened, and the thread is
/// given the monitor socket and the connection.
pub proof fn law_start_steps(fd: i32, handle: u16)
    ensures
        StartPhase::Locking.next(StartEvent::Done) == StartPhase::OpeningRaw,
        StartPhase::OpeningRaw.next(StartEvent::Opened { fd }) == (StartPhase::Resolving { fd }),
        (StartPhase::Resolving { fd }).next(StartEvent::Resolved { handle }) == (
        StartPhase::ClosingRaw { fd, resolved: Some(handle) }),
        (StartPhase::ClosingRaw { fd, resolved: Some(handle) }).next(StartEvent::Done) == (
        StartPhase::OpeningMonitor { handle }),
        (StartPhase::OpeningMonitor { handle }).next(StartEvent::Opened { fd }) == (
        StartPhase::Spawning { fd, handle }),
        (StartPhase::Spawning { fd, handle }).next(StartEvent::Done)
            == StartPhase::StoppingPrevious,
        StartPhase::StoppingPrevious.next(StartEvent::Done) == StartPhase::Storing,
        StartPhase::Storing.next(StartEvent::Done) == StartPhase::Active,
{
}

/// A start in which something fails closes what it has open and ends.
pub proof fn law_start_ends_on_a_failure(fd: i32, handle: u16)
    ensures
        StartPhase::Locking.next(StartEvent::Failed) == StartPhase::Failed,
        StartPhase::OpeningRaw.next(StartEvent::Failed) == StartPhase::Failed,
        (StartPhase::Resolving { fd }).next(StartEvent::Failed) == (StartPhase::ClosingRaw {
            fd,
            resolved: None,
        }),
        (StartPhase::ClosingRaw { fd, resolved: None }).next(StartEvent::Done)
            == StartPhase::Failed,
        (StartPhase::OpeningMonitor { handle }).next(StartEvent::Failed) == StartPhase::Failed,
        (StartPhase::Spawning { fd, handle }).next(StartEvent::Failed) == (
        StartPhase::ClosingMonitor { fd }),
        (StartPhase::ClosingMonitor { fd }).next(StartEvent::Done) == StartPhase::Failed,
{
}

/// What a start does not wait for changes nothing.
pub proof fn law_start_passes_over_the_unexpected(phase: StartPhase, event: StartEvent)
    requires
        match event {
            StartEvent::Opened { .. } => !(phase is OpeningRaw) && !(phase is OpeningMonitor),
            StartEvent::Resolved { .. } => !(phase is Resolving),
            StartEvent::Done => phase is OpeningRaw || phase is Resolving || phase is OpeningMonitor
                || phase is Active || phase is Failed,
            StartEvent::Failed => phase is ClosingRaw || phase is ClosingMonitor || phase
                is StoppingPrevious || phase is Storing || phase is Active || phase is Failed,
        },
    ensures
        phase.next(event) == phase,
{
}

} // verus!
