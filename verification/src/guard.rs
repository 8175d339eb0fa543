//! The guard that watches the connection interval and has it set again.
use crate::interval::{
    encoded_frame, encoded_update_complete, interval_for, law_only_our_connection_is_targeted, reapply_due, should_reapply, targeted_interval, IntervalDecision,
    REAPPLY_RATE_LIMIT, TARGET_INTERVAL,
};
use crate::time::{Duration, Instant, SECOND};
use vstd::prelude::*;

verus! {

/// Longest wait for traffic before the guard looks whether it is to stop: 500 ms.
pub const GUARD_POLL_TIMEOUT: Duration = 500_000_000;

/// Where the guard stands.
#[derive(Debug, Clone, Copy, PartialEq, Eq, Structural)]
pub enum GuardPhase {
    /// Waiting for traffic.
    Polling,
    /// Reading a frame.
    Reading,
    /// Having the interval set again, a decision taken at `now`.
    Reapplying { now: Instant },
    /// Closing the socket.
    Closing,
    /// Over.
    Closed,
}

/// What came of the guard's operation.
#[derive(Debug, Clone, Copy)]
pub enum GuardEvent<'a> {
    /// The guard was asked to stop.
    StopRequested,
    /// Polling returned: negative for a failure, zero when nothing came in time.
    Polled { ret: i32 },
    /// A frame was read.
    Frame { frame: &'a [u8], now: Instant },
    /// Reading failed or the stream ended.
    ReadEnded,
    /// The request for the interval was made, at `now`.
    Requested { now: Instant },
    /// The socket was closed.
    Closed,
}

/// The guard of one connection's interval.
#[derive(Debug, Clone, Copy, PartialEq, Eq, Structural)]
pub struct IntervalGuard {
    pub handle: u16,
    pub last_attempt: Option<Instant>,
    pub phase: GuardPhase,
}

/// A guard of the connection `handle` that has asked for nothing yet.
pub open spec fn fresh(handle: u16) -> IntervalGuard {
    IntervalGuard { handle, last_attempt: None, phase: GuardPhase::Polling }
}

impl IntervalGuard {
    /// A guard of the connection `handle` that has asked for nothing yet.
    pub fn new(handle: u16) -> (guard: Self)
        ensures
            guard == fresh(handle),
    {
        Self { handle, last_attempt: None, phase: GuardPhase::Polling }
    }

    pub open spec fn at(self, phase: GuardPhase) -> IntervalGuard {
        IntervalGuard { phase, ..self }
    }

    /// A frame read at `now` calls for the interval to be set again.
    pub open spec fn calls_for_reapply(self, frame: Seq<u8>, now: Instant) -> bool {
        match interval_for(self.handle, frame) {
            Some(interval) => reapply_due(interval, self.last_attempt, now),
            None => false,
        }
    }

    /// The guard after `event`. An event that the phase does not wait for changes
    /// nothing.
    pub open spec fn next(self, event: GuardEvent<'_>) -> IntervalGuard {
        match (self.phase, event) {
            (GuardPhase::Polling, GuardEvent::StopRequested) => self.at(GuardPhase::Closing),
            (GuardPhase::Polling, GuardEvent::Polled { ret }) => if ret < 0 {
                self.at(GuardPhase::Closing)
            } else if ret == 0 {
                self
            } else {
                self.at(GuardPhase::Reading)
            },
            (GuardPhase::Reading, GuardEvent::ReadEnded) => self.at(GuardPhase::Closing),
            (GuardPhase::Reading, GuardEvent::Frame { frame, now }) => if self.calls_for_reapply(
                frame@,
                now,
            ) {
                self.at(GuardPhase::Reapplying { now })
            } else {
                self.at(GuardPhase::Polling)
            },
            (GuardPhase::Reapplying { .. }, GuardEvent::Requested { now }) => IntervalGuard {
                last_attempt: Some(now),
                phase: GuardPhase::Polling,
                ..self
            },
            (GuardPhase::Closing, GuardEvent::Closed) => self.at(GuardPhase::Closed),
            _ => self,
        }
    }

    /// Takes in what came of the operation.
    pub fn step(&mut self, event: GuardEvent<'_>)
        ensures
            *final(self) == old(self).next(event),
    {
        match (self.phase, event) {
            (GuardPhase::Polling, GuardEvent::StopRequested) => {
                self.phase = GuardPhase::Closing;
            },
            (GuardPhase::Polling, GuardEvent::Polled { ret }) => {
                if ret < 0 {
                    self.phase = GuardPhase::Closing;
                } else if ret > 0 {
                    self.phase = GuardPhase::Reading;
                }
            },
            (GuardPhase::Reading, GuardEvent::ReadEnded) => {
                self.phase = GuardPhase::Closing;
            },
            (GuardPhase::Reading, GuardEvent::Frame { frame, now }) => {
                let decision: IntervalDecision = match targeted_interval(self.handle, frame) {
                    Some(interval) => should_reapply(interval, self.last_attempt, now),
                    None => IntervalDecision::Skip,
                };
                self.phase = match decision {
                    IntervalDecision::Apply => GuardPhase::Reapplying { now },
                    IntervalDecision::Skip => GuardPhase::Polling,
                };
            },
            (GuardPhase::Reapplying { .. }, GuardEvent::Requested { now }) => {
                self.last_attempt = Some(now);
                self.phase = GuardPhase::Polling;
            },
            (GuardPhase::Closing, GuardEvent::Closed) => {
                self.phase = GuardPhase::Closed;
            },
            _ => {},
        }
    }
}

/// The guard after a run of events.
pub open spec fn run(guard: IntervalGuard, events: Seq<GuardEvent<'_>>) -> IntervalGuard
    decreases events.len(),
{
    if events.len() == 0 {
        guard
    } else {
        run(guard, events.drop_last()).next(events.last())
    }
}

/// A request for the interval: when it was decided on, and when it was made.
pub struct Request {
    pub decided: Instant,
    pub made: Instant,
}

/// The requests of a run, in order.
pub open spec fn requests(guard: IntervalGuard, events: Seq<GuardEvent<'_>>) -> Seq<Request>
    decreases events.len(),
{
    if events.len() == 0 {
        Seq::empty()
    } else {
        let before = requests(guard, events.drop_last());
        match (run(guard, events.drop_last()).phase, events.last()) {
            (GuardPhase::Reapplying { now }, GuardEvent::Requested { now: made }) => before.push(
                Request { decided: now, made },
            ),
            _ => before,
        }
    }
}

proof fn lemma_requests(handle: u16, events: Seq<GuardEvent<'_>>)
    ensures
        ({
            let guard = run(fresh(handle), events);
            let made = requests(fresh(handle), events);
            &&& guard.handle == handle
            &&& guard.last_attempt == (if made.len() > 0 {
                Some(made.last().made)
            } else {
                None
            })
            &&& guard.phase matches GuardPhase::Reapplying { now } ==> (guard.last_attempt is Some
                ==> now >= guard.last_attempt->0 + REAPPLY_RATE_LIMIT)
            &&& forall|i: int|
                0 < i < made.len() ==> (#[trigger] made[i]).decided >= made[i - 1].made
                    + REAPPLY_RATE_LIMIT
        }),
    decreases events.len(),
{
    if events.len() > 0 {
        lemma_requests(handle, events.drop_last());
    }
}

/// Whatever traffic comes in, a request for the interval is decided on no sooner than
/// the limit after the request before it was made. On a clock that does not run
/// backwards between the decision and the request, the requests themselves are at least
/// the limit apart.
pub proof fn law_requests_are_rate_limited(handle: u16, events: Seq<GuardEvent<'_>>, index: int)
    requires
        0 < index < requests(fresh(handle), events).len(),
    ensures
        ({
            let request = requests(fresh(handle), events)[index];
            let earlier = requests(fresh(handle), events)[index - 1];
            &&& request.decided >= earlier.made + REAPPLY_RATE_LIMIT
            &&& request.made >= request.decided ==> request.made >= earlier.made
                + REAPPLY_RATE_LIMIT
        }),
{
    lemma_requests(handle, events);
}

/// Only a report of our own connection's interval, and only one off target, has the
/// interval set again.
pub proof fn law_only_our_interval_off_target_is_reapplied(
    guard: IntervalGuard,
    event: GuardEvent<'_>,
)
    requires
        !(guard.phase is Reapplying),
        guard.next(event).phase is Reapplying,
    ensures
        event matches GuardEvent::Frame { frame, now } && interval_for(guard.handle, frame@) is Some
            && interval_for(guard.handle, frame@)->0 != TARGET_INTERVAL,
{
}

/// The first report off target is acted upon.
pub proof fn law_first_report_off_target_is_acted_upon(
    guard: IntervalGuard,
    frame: &[u8],
    now: Instant,
)
    requires
        guard.phase is Reading,
        guard.last_attempt is None,
        interval_for(guard.handle, frame@) is Some,
        interval_for(guard.handle, frame@)->0 != TARGET_INTERVAL,
    ensures
        guard.next(GuardEvent::Frame { frame, now }).phase == (GuardPhase::Reapplying { now }),
{
}

/// Polling that brings nothing, and a frame that does not call for it, leave all but
/// the phase as it was, and the guard polls on.
pub proof fn law_other_traffic_does_nothing(
    guard: IntervalGuard,
    frame: &[u8],
    now: Instant,
)
    ensures
        guard.next(GuardEvent::Polled { ret: 0 }) == guard,
        guard.phase is Reading && !guard.calls_for_reapply(frame@, now) ==> guard.next(
            GuardEvent::Frame { frame, now },
        ) == guard.at(GuardPhase::Polling),
{
}

/// A guard goes on until it is asked to stop, polling fails or reading ends: nothing
/// else, and no request, has it close its socket.
pub proof fn law_guard_ends_only_when_stopped_or_cut_off(
    guard: IntervalGuard,
    event: GuardEvent<'_>,
)
    requires
        !(guard.phase is Closing),
        !(guard.phase is Closed),
    ensures
        !(guard.next(event).phase is Closed),
        guard.next(event).phase is Closing <==> match event {
            GuardEvent::StopRequested => guard.phase is Polling,
            GuardEvent::Polled { ret } => guard.phase is Polling && ret < 0,
            GuardEvent::ReadEnded => guard.phase is Reading,
            _ => false,
        },
{
}

/// How often a run has closed the socket.
pub open spec fn closings(guard: IntervalGuard, events: Seq<GuardEvent<'_>>) -> nat
    decreases events.len(),
{
    if events.len() == 0 {
        0
    } else {
        closings(guard, events.drop_last()) + if run(guard, events.drop_last()).phase is Closing
            && events.last() is Closed {
            1nat
        } else {
            0nat
        }
    }
}

/// The socket is closed exactly once, at the guard's end.
pub proof fn law_guard_closes_its_socket_once(handle: u16, events: Seq<GuardEvent<'_>>)
    ensures
        closings(fresh(handle), events) == (if run(fresh(handle), events).phase is Closed {
            1nat
        } else {
            0nat
        }),
    decreases events.len(),
{
    if events.len() > 0 {
        law_guard_closes_its_socket_once(handle, events.drop_last());
    }
}

/// A report of the guarded connection has the interval set again exactly when it is off
/// target and the limit has passed since the last request, however long ago that was, or
/// there was none. A report of another connection never does. Nothing else changes.
pub proof fn law_drift_of_our_connection_is_answered(
    guard: IntervalGuard,
    frame: &[u8],
    now: Instant,
    index: u16,
    handle: u16,
    status: u8,
    interval: u16,
    length: u8,
    params: Seq<u8>,
    rest: Seq<u8>,
)
    requires
        guard.phase is Reading,
        params.len() + 8 <= u16::MAX,
        frame@ == encoded_frame(
            index,
            encoded_update_complete(handle, status, interval, length, params),
            rest,
        ),
    ensures
        ({
            let waited = guard.last_attempt is None || now >= guard.last_attempt->0
                + REAPPLY_RATE_LIMIT;
            guard.next(GuardEvent::Frame { frame, now }) == (IntervalGuard {
                handle: guard.handle,
                last_attempt: guard.last_attempt,
                phase: if handle == guard.handle && interval != TARGET_INTERVAL && waited {
                    GuardPhase::Reapplying { now }
                } else {
                    GuardPhase::Polling
                },
            })
        }),
{
    law_only_our_connection_is_targeted(
        guard.handle,
        index,
        handle,
        status,
        interval,
        length,
        params,
        rest,
    );
}

/// A frame without a report of the guarded connection is passed over.
pub proof fn law_other_frames_are_passed_over(guard: IntervalGuard, frame: &[u8], now: Instant)
    requires
        guard.phase is Reading,
        interval_for(guard.handle, frame@) is None,
    ensures
        guard.next(GuardEvent::Frame { frame, now }) == (IntervalGuard {
            phase: GuardPhase::Polling,
            ..guard
        }),
{
}

/// Traffic of any amount is read, a request is remembered by the time it was made, and a
/// guard that is to end closes its socket; the connection stays the same throughout, and
/// the last request is forgotten by nothing.
pub proof fn law_guard_steps(
    guard: IntervalGuard,
    ret: i32,
    decided: Instant,
    made: Instant,
    event: GuardEvent<'_>,
)
    ensures
        ret > 0 ==> (IntervalGuard { phase: GuardPhase::Polling, ..guard }).next(
            GuardEvent::Polled { ret },
        ) == (IntervalGuard { phase: GuardPhase::Reading, ..guard }),
        ret < 0 ==> (IntervalGuard { phase: GuardPhase::Polling, ..guard }).next(
            GuardEvent::Polled { ret },
        ) == (IntervalGuard { phase: GuardPhase::Closing, ..guard }),
        (IntervalGuard { phase: GuardPhase::Polling, ..guard }).next(GuardEvent::StopRequested) == (
        IntervalGuard { phase: GuardPhase::Closing, ..guard }),
        (IntervalGuard { phase: GuardPhase::Reading, ..guard }).next(GuardEvent::ReadEnded) == (
        IntervalGuard { phase: GuardPhase::Closing, ..guard }),
        (IntervalGuard { phase: GuardPhase::Reapplying { now: decided }, ..guard }).next(
            GuardEvent::Requested { now: made },
        ) == (IntervalGuard {
            handle: guard.handle,
            last_attempt: Some(made),
            phase: GuardPhase::Polling,
        }),
        (IntervalGuard { phase: GuardPhase::Closing, ..guard }).next(GuardEvent::Closed) == (
        IntervalGuard { phase: GuardPhase::Closed, ..guard }),
        guard.next(event).handle == guard.handle,
        !(event is Requested) ==> guard.next(event).last_attempt == guard.last_attempt,
        fresh(guard.handle) == (IntervalGuard {
            handle: guard.handle,
            last_attempt: None,
            phase: GuardPhase::Polling,
        }),
{
}

/// What the guard does not wait for changes nothing.
pub proof fn law_guard_passes_over_the_unexpected(guard: IntervalGuard, event: GuardEvent<'_>)
    requires
        match event {
            GuardEvent::StopRequested => !(guard.phase is Polling),
            GuardEvent::Polled { .. } => !(guard.phase is Polling),
            GuardEvent::Frame { .. } => !(guard.phase is Reading),
            GuardEvent::ReadEnded => !(guard.phase is Reading),
            GuardEvent::Requested { .. } => !(guard.phase is Reapplying),
            GuardEvent::Closed => !(guard.phase is Closing),
        },
    ensures
        guard.next(event) == guard,
{
}

/// A guard that is asked to stop in silence notices twice a second, and well within the
/// time between two requests.
pub proof fn law_stop_is_noticed_twice_a_second()
    ensures
        2 * GUARD_POLL_TIMEOUT == SECOND,
        GUARD_POLL_TIMEOUT < REAPPLY_RATE_LIMIT,
{
}

} // verus!
