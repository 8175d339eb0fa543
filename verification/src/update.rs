//! The exchange by which a connection update is requested and confirmed.
use crate::hci::{HciError, HCI_LE_CONN_UPDATE, HCI_READ_TIMEOUT};
use crate::interval::{
    encoded_update_complete, law_le_bytes_round_trip, law_only_reports_are_decoded,
    law_update_complete_round_trip, le_bytes, le_update_complete_event, le_word, update_complete,
    without_length, word,
};
use crate::time::{Duration, Instant, SECOND};
use vstd::prelude::*;

verus! {

/// Event code of a completed command.
pub const HCI_EVENT_COMMAND_COMPLETE: u8 = 0x0e;

/// Event code of a command's status.
pub const HCI_EVENT_COMMAND_STATUS: u8 = 0x0f;

/// Longest wait for a connection update to be confirmed: 15 s.
pub const CONN_UPDATE_TIMEOUT: Duration = 15_000_000_000;

/// What an event says of the connection update.
#[derive(Debug, Clone, Copy, PartialEq, Eq, Structural)]
pub enum Signal {
    /// Nothing.
    Unrelated,
    /// The command was accepted.
    CommandAccepted,
    /// The update took place.
    Completed,
    /// The update failed.
    Failed(HciError),
}

/// What an event says of the connection update on the connection `handle`.
pub open spec fn signal(handle: u16, evt: Seq<u8>) -> Signal {
    if evt.len() >= 6 && evt[0] == HCI_EVENT_COMMAND_STATUS {
        if le_word(evt[4], evt[5]) != HCI_LE_CONN_UPDATE {
            Signal::Unrelated
        } else if evt[2] != 0 {
            Signal::Failed(HciError::CommandStatus { status: evt[2] })
        } else {
            Signal::CommandAccepted
        }
    } else if evt.len() >= 6 && evt[0] == HCI_EVENT_COMMAND_COMPLETE {
        if le_word(evt[3], evt[4]) != HCI_LE_CONN_UPDATE {
            Signal::Unrelated
        } else if evt[5] != 0 {
            Signal::Failed(HciError::CommandComplete { status: evt[5] })
        } else {
            Signal::CommandAccepted
        }
    } else {
        match update_complete(without_length(evt)) {
            Some((reported, status, interval)) => if reported != handle {
                Signal::Unrelated
            } else if status != 0 {
                Signal::Failed(HciError::Rejected { status })
            } else {
                Signal::Completed
            },
            None => Signal::Unrelated,
        }
    }
}

/// What an event says of the connection update on the connection `handle`.
pub fn read_signal(handle: u16, evt: &[u8]) -> (result: Signal)
    ensures
        result == signal(handle, evt@),
{
    if evt.len() < 3 {
        return Signal::Unrelated;
    }
    if evt[0] == HCI_EVENT_COMMAND_STATUS && evt.len() >= 6 {
        let opcode: u16 = word(evt[4], evt[5]);
        if opcode != HCI_LE_CONN_UPDATE {
            Signal::Unrelated
        } else if evt[2] != 0 {
            Signal::Failed(HciError::CommandStatus { status: evt[2] })
        } else {
            Signal::CommandAccepted
        }
    } else if evt[0] == HCI_EVENT_COMMAND_COMPLETE && evt.len() >= 6 {
        let opcode: u16 = word(evt[3], evt[4]);
        if opcode != HCI_LE_CONN_UPDATE {
            Signal::Unrelated
        } else if evt[5] != 0 {
            Signal::Failed(HciError::CommandComplete { status: evt[5] })
        } else {
            Signal::CommandAccepted
        }
    } else {
        match le_update_complete_event(evt) {
            Some((reported, status, _)) => {
                if reported != handle {
                    Signal::Unrelated
                } else if status != 0 {
                    Signal::Failed(HciError::Rejected { status })
                } else {
                    Signal::Completed
                }
            },
            None => Signal::Unrelated,
        }
    }
}

/// What has been heard of the update so far.
#[derive(Debug, Clone, Copy, PartialEq, Eq, Structural)]
pub enum Progress {
    /// The update is not confirmed yet.
    Pending { command_ok: bool, complete: bool },
    /// The command was accepted and the update took place.
    Confirmed,
    /// The update failed.
    Failed(HciError),
}

impl Progress {
    /// Nothing has been heard.
    pub open spec fn start() -> Progress {
        Progress::Pending { command_ok: false, complete: false }
    }

    /// What has been heard once `signal` has come in. A confirmed or failed update is
    /// over.
    pub open spec fn next(self, signal: Signal) -> Progress {
        match self {
            Progress::Pending { command_ok, complete } => match signal {
                Signal::Unrelated => self,
                Signal::CommandAccepted => if complete {
                    Progress::Confirmed
                } else {
                    Progress::Pending { command_ok: true, complete }
                },
                Signal::Completed => if command_ok {
                    Progress::Confirmed
                } else {
                    Progress::Pending { command_ok, complete: true }
                },
                Signal::Failed(error) => Progress::Failed(error),
            },
            _ => self,
        }
    }
}

/// What to do next about the update.
#[derive(Debug, Clone, Copy, PartialEq, Eq)]
pub enum UpdateAction {
    /// Read the next event. One that cannot be read is passed over.
    ReadEvent,
    /// The update is through, or has failed.
    Finish(Result<(), HciError>),
}

/// A connection update that has been requested and waits to be confirmed.
#[derive(Debug, Clone, Copy, PartialEq, Eq, Structural)]
pub struct ConnectionUpdate {
    pub handle: u16,
    pub deadline: Instant,
    pub progress: Progress,
}

impl ConnectionUpdate {
    /// The update on the connection `handle`, requested at `now`.
    pub fn new(handle: u16, now: Instant) -> (update: Self)
        requires
            now + CONN_UPDATE_TIMEOUT <= Instant::MAX,
        ensures
            update == (ConnectionUpdate {
                handle,
                deadline: (now + CONN_UPDATE_TIMEOUT) as Instant,
                progress: Progress::start(),
            }),
            update == Self::requested(handle, now),
    {
        Self {
            handle,
            deadline: now + CONN_UPDATE_TIMEOUT,
            progress: Progress::Pending { command_ok: false, complete: false },
        }
    }

    /// The update on a connection, as requested at a time, with nothing heard of it yet.
    pub open spec fn requested(handle: u16, now: Instant) -> ConnectionUpdate {
        ConnectionUpdate {
            handle,
            deadline: (now + CONN_UPDATE_TIMEOUT) as Instant,
            progress: Progress::start(),
        }
    }

    /// The update once an event has been read.
    pub open spec fn after_event(self, evt: Seq<u8>) -> ConnectionUpdate {
        ConnectionUpdate { progress: self.progress.next(signal(self.handle, evt)), ..self }
    }

    /// What is to be done at the time `now`.
    pub open spec fn next_action(self, now: Instant) -> UpdateAction {
        match self.progress {
            Progress::Confirmed => UpdateAction::Finish(Ok(())),
            Progress::Failed(error) => UpdateAction::Finish(Err(error)),
            Progress::Pending { complete, .. } => if now < self.deadline {
                UpdateAction::ReadEvent
            } else if complete {
                UpdateAction::Finish(Err(HciError::NoCommandStatus))
            } else {
                UpdateAction::Finish(Err(HciError::NoUpdateComplete))
            },
        }
    }

    /// What to do at the time `now`: read on until the update is confirmed, fails, or
    /// runs out of time.
    pub fn action(&self, now: Instant) -> (action: UpdateAction)
        ensures
            action == self.next_action(now),
    {
        match self.progress {
            Progress::Confirmed => UpdateAction::Finish(Ok(())),
            Progress::Failed(error) => UpdateAction::Finish(Err(error)),
            Progress::Pending { complete, .. } => {
                if now < self.deadline {
                    UpdateAction::ReadEvent
                } else if complete {
                    UpdateAction::Finish(Err(HciError::NoCommandStatus))
                } else {
                    UpdateAction::Finish(Err(HciError::NoUpdateComplete))
                }
            },
        }
    }

    /// Takes in an event that was read.
    pub fn on_event(&mut self, evt: &[u8])
        ensures
            *final(self) == (ConnectionUpdate {
                progress: old(self).progress.next(signal(old(self).handle, evt@)),
                ..*old(self)
            }),
            *final(self) == old(self).after_event(evt@),
    {
        if let Progress::Pending { command_ok, complete } = self.progress {
            self.progress = match read_signal(self.handle, evt) {
                Signal::Unrelated => Progress::Pending { command_ok, complete },
                Signal::CommandAccepted => {
                    if complete {
                        Progress::Confirmed
                    } else {
                        Progress::Pending { command_ok: true, complete }
                    }
                },
                Signal::Completed => {
                    if command_ok {
                        Progress::Confirmed
                    } else {
                        Progress::Pending { command_ok, complete: true }
                    }
                },
                Signal::Failed(error) => Progress::Failed(error),
            };
        }
    }
}

/// What has been heard after a run of events.
pub open spec fn heard(handle: u16, events: Seq<Seq<u8>>) -> Progress
    decreases events.len(),
{
    if events.len() == 0 {
        Progress::start()
    } else {
        heard(handle, events.drop_last()).next(signal(handle, events.last()))
    }
}

/// One of the events carries the given signal.
pub open spec fn signalled(handle: u16, events: Seq<Seq<u8>>, wanted: Signal) -> bool {
    exists|i: int| 0 <= i < events.len() && #[trigger] signal(handle, events[i]) == wanted
}

/// One of the events says that the update failed.
pub open spec fn failure_signalled(handle: u16, events: Seq<Seq<u8>>) -> bool {
    exists|i: int| 0 <= i < events.len() && #[trigger] signal(handle, events[i]) is Failed
}

proof fn lemma_signalled_extends(handle: u16, events: Seq<Seq<u8>>, wanted: Signal)
    requires
        events.len() > 0,
    ensures
        signalled(handle, events, wanted) == (signalled(handle, events.drop_last(), wanted)
            || signal(handle, events.last()) == wanted),
{
    let before = events.drop_last();
    if signalled(handle, events, wanted) {
        let i = choose|i: int|
            0 <= i < events.len() && #[trigger] signal(handle, events[i]) == wanted;
        if i < before.len() {
            assert(signal(handle, before[i]) == wanted);
        }
    }
    if signalled(handle, before, wanted) {
        let i = choose|i: int|
            0 <= i < before.len() && #[trigger] signal(handle, before[i]) == wanted;
        assert(signal(handle, events[i]) == wanted);
    }
    if signal(handle, events.last()) == wanted {
        assert(signal(handle, events[events.len() - 1]) == wanted);
    }
}

/// An update without a failure is confirmed once the command has been accepted and
/// the update has taken place, in either order, and not before.
pub proof fn law_update_is_confirmed_by_both_signals(handle: u16, events: Seq<Seq<u8>>)
    requires
        !failure_signalled(handle, events),
    ensures
        heard(handle, events) is Confirmed <==> signalled(handle, events, Signal::CommandAccepted)
            && signalled(handle, events, Signal::Completed),
        !(heard(handle, events) is Failed),
        heard(handle, events) matches Progress::Pending { command_ok, complete } ==> command_ok
            == signalled(handle, events, Signal::CommandAccepted) && complete == signalled(
            handle,
            events,
            Signal::Completed,
        ),
    decreases events.len(),
{
    if events.len() > 0 {
        let before = events.drop_last();
        assert(!failure_signalled(handle, before)) by {
            if failure_signalled(handle, before) {
                let i = choose|i: int|
                    0 <= i < before.len() && #[trigger] signal(handle, before[i]) is Failed;
                assert(signal(handle, events[i]) is Failed);
            }
        }
        assert(!(signal(handle, events[events.len() - 1]) is Failed));
        law_update_is_confirmed_by_both_signals(handle, before);
        lemma_signalled_extends(handle, events, Signal::CommandAccepted);
        lemma_signalled_extends(handle, events, Signal::Completed);
    }
}

/// The first failure ends an update that is not confirmed yet, and nothing that comes
/// later changes the outcome of one that is over.
pub proof fn law_outcome_is_final(handle: u16, events: Seq<Seq<u8>>, evt: Seq<u8>)
    ensures
        heard(handle, events) is Pending ==> match signal(handle, evt) {
            Signal::Failed(error) => heard(handle, events.push(evt)) == Progress::Failed(error),
            _ => !(heard(handle, events.push(evt)) is Failed),
        },
        !(heard(handle, events) is Pending) ==> heard(handle, events.push(evt)) == heard(
            handle,
            events,
        ),
{
    assert(events.push(evt).drop_last() =~= events);
}

/// An update that runs out of time fails for what it still lacked.
pub proof fn law_timeout_names_what_is_missing(update: ConnectionUpdate, now: Instant)
    requires
        update.progress is Pending,
        now >= update.deadline,
    ensures
        update.next_action(now) == UpdateAction::Finish(
            Err(
                if update.progress->complete {
                    HciError::NoCommandStatus
                } else {
                    HciError::NoUpdateComplete
                },
            ),
        ),
{
}

/// The event by which a controller answers the update command with a status, and whatever
/// follows it.
pub open spec fn encoded_command_status(
    length: u8,
    status: u8,
    packets: u8,
    opcode: u16,
    rest: Seq<u8>,
) -> Seq<u8> {
    seq![0x0fu8, length, status, packets] + le_bytes(opcode) + rest
}

/// The event by which a controller answers the update command once it is complete, and
/// whatever follows it.
pub open spec fn encoded_command_complete(
    length: u8,
    packets: u8,
    opcode: u16,
    status: u8,
    rest: Seq<u8>,
) -> Seq<u8> {
    seq![0x0eu8, length, packets] + le_bytes(opcode) + seq![status] + rest
}

/// A report of an update says that the update took place or was rejected on its own
/// connection, and nothing of any other, whatever interval came about and however many
/// parameters follow it.
pub proof fn law_report_is_heard_on_its_connection(
    our_handle: u16,
    handle: u16,
    status: u8,
    interval: u16,
    length: u8,
    rest: Seq<u8>,
)
    ensures
        signal(our_handle, encoded_update_complete(handle, status, interval, length, rest)) == (
        if our_handle != handle {
            Signal::Unrelated
        } else if status == 0 {
            Signal::Completed
        } else {
            Signal::Failed(HciError::Rejected { status })
        }),
{
    law_update_complete_round_trip(handle, status, interval, length, rest);
    let evt = encoded_update_complete(handle, status, interval, length, rest);
    assert(evt[0] == 0x3e);
}

/// An answer to the update command says that it was accepted or failed, whichever of the
/// two events it comes in and whatever follows; an answer to another command says
/// nothing.
pub proof fn law_answer_to_the_command_is_heard(
    handle: u16,
    length: u8,
    status: u8,
    packets: u8,
    opcode: u16,
    rest: Seq<u8>,
)
    ensures
        signal(handle, encoded_command_status(length, status, packets, opcode, rest)) == (
        if opcode != HCI_LE_CONN_UPDATE {
            Signal::Unrelated
        } else if status == 0 {
            Signal::CommandAccepted
        } else {
            Signal::Failed(HciError::CommandStatus { status })
        }),
        signal(handle, encoded_command_complete(length, packets, opcode, status, rest)) == (
        if opcode != HCI_LE_CONN_UPDATE {
            Signal::Unrelated
        } else if status == 0 {
            Signal::CommandAccepted
        } else {
            Signal::Failed(HciError::CommandComplete { status })
        }),
{
    law_le_bytes_round_trip(opcode, 0, 0);
    let answered = encoded_command_status(length, status, packets, opcode, rest);
    assert(answered[4] == le_bytes(opcode)[0] && answered[5] == le_bytes(opcode)[1]);
    let completed = encoded_command_complete(length, packets, opcode, status, rest);
    assert(completed[3] == le_bytes(opcode)[0] && completed[4] == le_bytes(opcode)[1]);
    assert(completed[5] == status);
}

/// Nothing else is heard: an event that says anything of the update is an answer to the
/// update command or a report of our connection.
pub proof fn law_only_answers_and_reports_are_heard(handle: u16, evt: Seq<u8>)
    ensures
        !(signal(handle, evt) is Unrelated) ==> {
            ||| evt.len() >= 6 && evt == encoded_command_status(
                evt[1],
                evt[2],
                evt[3],
                HCI_LE_CONN_UPDATE,
                evt.skip(6),
            )
            ||| evt.len() >= 6 && evt == encoded_command_complete(
                evt[1],
                evt[2],
                HCI_LE_CONN_UPDATE,
                evt[5],
                evt.skip(6),
            )
            ||| evt.len() >= 8 && evt == encoded_update_complete(
                handle,
                evt[3],
                le_word(evt[6], evt[7]),
                evt[1],
                evt.skip(8),
            )
        },
{
    if !(signal(handle, evt) is Unrelated) {
        if evt.len() >= 6 && evt[0] == HCI_EVENT_COMMAND_STATUS {
            law_le_bytes_round_trip(0, evt[4], evt[5]);
            assert(evt =~= encoded_command_status(
                evt[1],
                evt[2],
                evt[3],
                HCI_LE_CONN_UPDATE,
                evt.skip(6),
            ));
        } else if evt.len() >= 6 && evt[0] == HCI_EVENT_COMMAND_COMPLETE {
            law_le_bytes_round_trip(0, evt[3], evt[4]);
            assert(evt =~= encoded_command_complete(
                evt[1],
                evt[2],
                HCI_LE_CONN_UPDATE,
                evt[5],
                evt.skip(6),
            ));
        } else {
            law_only_reports_are_decoded(evt);
            assert(evt.len() >= 8);
            let compact = without_length(evt);
            assert(compact[2] == evt[3] && compact[5] == evt[6] && compact[6] == evt[7]);
        }
    }
}

/// Whatever was heard before, a failure ends an update that is not over with just that
/// failure; the acceptance and the report each count once heard, and confirm the update
/// once both are; anything unrelated changes nothing; and an update that is over stays
/// as it is.
pub proof fn law_signals_add_up(
    command_ok: bool,
    complete: bool,
    error: HciError,
    heard: Signal,
)
    ensures
        ({
            let pending = Progress::Pending { command_ok, complete };
            &&& pending.next(Signal::Unrelated) == pending
            &&& pending.next(Signal::Failed(error)) == Progress::Failed(error)
            &&& pending.next(Signal::CommandAccepted) == (if complete {
                Progress::Confirmed
            } else {
                Progress::Pending { command_ok: true, complete: false }
            })
            &&& pending.next(Signal::Completed) == (if command_ok {
                Progress::Confirmed
            } else {
                Progress::Pending { command_ok: false, complete: true }
            })
            &&& Progress::Confirmed.next(heard) == Progress::Confirmed
            &&& Progress::Failed(error).next(heard) == Progress::Failed(error)
            &&& Progress::start() == (Progress::Pending { command_ok: false, complete: false })
        }),
{
}

/// An update that is over finishes at any time with its outcome. One that is not has the
/// next event read at every time before its deadline, whatever has been heard, and fails
/// at every time from then on.
pub proof fn law_update_is_waited_for_until_its_deadline(
    handle: u16,
    deadline: Instant,
    command_ok: bool,
    complete: bool,
    error: HciError,
    now: Instant,
)
    ensures
        (ConnectionUpdate { handle, deadline, progress: Progress::Confirmed }).next_action(now)
            == UpdateAction::Finish(Ok(())),
        (ConnectionUpdate { handle, deadline, progress: Progress::Failed(error) }).next_action(now)
            == UpdateAction::Finish(Err(error)),
        ({
            let action = (ConnectionUpdate {
                handle,
                deadline,
                progress: Progress::Pending { command_ok, complete },
            }).next_action(now);
            &&& now < deadline <==> action == UpdateAction::ReadEvent
            &&& now >= deadline && complete ==> action == UpdateAction::Finish(
                Err(HciError::NoCommandStatus),
            )
            &&& now >= deadline && !complete ==> action == UpdateAction::Finish(
                Err(HciError::NoUpdateComplete),
            )
        }),
{
}

/// An update has fifteen seconds from its request, whenever that was and whatever its
/// connection, and reading an event changes neither the connection nor the deadline.
pub proof fn law_update_has_its_time(handle: u16, now: Instant, evt: Seq<u8>)
    requires
        now + CONN_UPDATE_TIMEOUT <= Instant::MAX,
    ensures
        ({
            let update = ConnectionUpdate::requested(handle, now);
            &&& update.handle == handle
            &&& update.deadline == now + 15_000_000_000
            &&& update.progress == (Progress::Pending { command_ok: false, complete: false })
            &&& update.after_event(evt).handle == handle
            &&& update.after_event(evt).deadline == update.deadline
        }),
{
}

/// An update is through, whatever its connection, whichever of its two events is read
/// first, and however long they are: the acceptance of the command and the report of the
/// connection finish it, at any time.
pub proof fn law_update_goes_through(
    handle: u16,
    requested_at: Instant,
    now: Instant,
    length: u8,
    packets: u8,
    interval: u16,
    params: Seq<u8>,
    rest: Seq<u8>,
)
    ensures
        ({
            let update = ConnectionUpdate::requested(handle, requested_at);
            let accepted = encoded_command_status(length, 0, packets, HCI_LE_CONN_UPDATE, rest);
            let report = encoded_update_complete(handle, 0, interval, length, params);
            &&& update.after_event(accepted).after_event(report).next_action(now)
                == UpdateAction::Finish(Ok(()))
            &&& update.after_event(report).after_event(accepted).next_action(now)
                == UpdateAction::Finish(Ok(()))
        }),
{
    law_report_is_heard_on_its_connection(handle, handle, 0, interval, length, params);
    law_answer_to_the_command_is_heard(handle, length, 0, packets, HCI_LE_CONN_UPDATE, rest);
}

/// A wait for one event ends after two seconds, so that an update whose events stay out
/// has been waited for several times over when its own time is up.
pub proof fn law_single_waits_fit_into_an_update()
    ensures
        HCI_READ_TIMEOUT == 2 * SECOND,
        CONN_UPDATE_TIMEOUT == 15 * SECOND,
        7 * HCI_READ_TIMEOUT <= CONN_UPDATE_TIMEOUT,
{
}

} // verus!
