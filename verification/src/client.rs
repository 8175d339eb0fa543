//! The client's side of the link: waiting for it, writing the fact to it, reading the
//! fact back, and taking it down.
use crate::ble::{characteristic_uuid, fact_byte, uuid_number, CHARACTERISTIC_UUID};
use crate::ble::{FACT_BROKEN, FACT_INTACT};
use crate::supervisor::Publication;
use vstd::prelude::*;

verus! {

/// What is known of the link.
#[derive(Debug, Clone)]
pub enum LinkStatus {
    Waiting,
    Connected,
    Fatal(String),
}

/// What is known of the link, with the message as text.
pub enum LinkView {
    Waiting,
    Connected,
    Fatal(Seq<char>),
}

impl View for LinkStatus {
    type V = LinkView;

    open spec fn view(&self) -> LinkView {
        match self {
            LinkStatus::Waiting => LinkView::Waiting,
            LinkStatus::Connected => LinkView::Connected,
            LinkStatus::Fatal(message) => LinkView::Fatal(message@),
        }
    }
}

impl LinkStatus {
    /// The status that a publication stands for, with the message as text.
    pub open spec fn published(publication: Publication, setup_error: Seq<char>) -> LinkView {
        match publication {
            Publication::SetupFailed => LinkView::Fatal(setup_error),
            Publication::StreamEnded => LinkView::Fatal("adapter event stream ended"@),
            Publication::Connected => LinkView::Connected,
            Publication::Waiting => LinkView::Waiting,
        }
    }

    /// The status that a publication stands for; `setup_error` is what kept the
    /// session from being set up.
    pub fn of(publication: Publication, setup_error: &str) -> (status: Self)
        ensures
            status@ == (match publication {
                Publication::SetupFailed => LinkView::Fatal(setup_error@),
                Publication::StreamEnded => LinkView::Fatal("adapter event stream ended"@),
                Publication::Connected => LinkView::Connected,
                Publication::Waiting => LinkView::Waiting,
            }),
            status@ == Self::published(publication, setup_error@),
    {
        match publication {
            Publication::SetupFailed => LinkStatus::Fatal(setup_error.to_owned()),
            Publication::StreamEnded => LinkStatus::Fatal("adapter event stream ended".to_owned()),
            Publication::Connected => LinkStatus::Connected,
            Publication::Waiting => LinkStatus::Waiting,
        }
    }
}

/// Why the client could not do what it was asked.
#[derive(Debug, Clone)]
pub enum ClientError {
    /// There is no link.
    NotConnected,
    /// The lamp lacks the characteristic that holds the fact.
    NoCharacteristic,
    /// The characteristic held no bytes.
    NoBytes,
    /// The supervisor reported a failure.
    Fatal(String),
}

impl ClientError {
    /// The message that goes with the error.
    pub open spec fn text(self) -> Seq<char> {
        match self {
            ClientError::NotConnected => "not connected"@,
            ClientError::NoCharacteristic => "Characteristic "@ + CHARACTERISTIC_UUID@
                + " not found"@,
            ClientError::NoBytes => "state characteristic returned no bytes"@,
            ClientError::Fatal(message) => message@,
        }
    }

    /// The message that goes with the error.
    pub fn message(&self) -> (message: String)
        ensures
            message@ == self.text(),
    {
        match self {
            ClientError::NotConnected => "not connected".to_owned(),
            ClientError::NoCharacteristic => {
                "Characteristic ".to_owned().concat(CHARACTERISTIC_UUID).concat(" not found")
            },
            ClientError::NoBytes => "state characteristic returned no bytes".to_owned(),
            ClientError::Fatal(message) => message.clone(),
        }
    }
}

/// What the client does about the status of the link while it connects.
#[derive(Debug, Clone)]
pub enum ConnectStep {
    /// The link is up: mark it seen and return.
    Established,
    /// Wait for the status to change and look again.
    AwaitChange,
    /// Return the error.
    Fail(ClientError),
}

impl ConnectStep {
    /// What connecting returns, with the error as its message; nothing while it waits.
    pub open spec fn verdict(self) -> Option<Result<(), Seq<char>>> {
        match self {
            ConnectStep::Established => Some(Ok(())),
            ConnectStep::AwaitChange => None,
            ConnectStep::Fail(error) => Some(Err(error.text())),
        }
    }
}

/// What connecting returns for a status of the link; nothing while it waits.
pub open spec fn connect_verdict(status: LinkView) -> Option<Result<(), Seq<char>>> {
    match status {
        LinkView::Connected => Some(Ok(())),
        LinkView::Waiting => None,
        LinkView::Fatal(message) => Some(Err(message)),
    }
}

/// Connecting ends once the link is up or has failed, and waits while it does neither.
pub fn connect_step(status: &LinkStatus) -> (step: ConnectStep)
    ensures
        match status@ {
            LinkView::Connected => step is Established,
            LinkView::Waiting => step is AwaitChange,
            LinkView::Fatal(message) => step matches ConnectStep::Fail(ClientError::Fatal(text))
                && text@ == message,
        },
        step.verdict() == connect_verdict(status@),
{
    match status {
        LinkStatus::Connected => ConnectStep::Established,
        LinkStatus::Waiting => ConnectStep::AwaitChange,
        LinkStatus::Fatal(message) => ConnectStep::Fail(ClientError::Fatal(message.clone())),
    }
}

/// What has to be started before the client can wait for a link.
#[derive(Debug, Clone, Copy, PartialEq, Eq, Structural)]
pub enum Arming {
    /// A supervisor is running already.
    Running,
    /// Hand the receiver of reconnect requests to a new supervisor.
    Start,
    /// As `Start`, with a fresh channel of reconnect requests.
    Rearm,
}

/// Whether a supervisor runs, and whether the client still holds the receiver of
/// reconnect requests that the next one needs.
#[derive(Debug, Clone, Copy, PartialEq, Eq, Structural)]
pub struct SupervisorSlot {
    pub running: bool,
    pub has_receiver: bool,
}

impl SupervisorSlot {
    /// No supervisor yet, and the receiver at hand.
    pub fn new() -> (slot: Self)
        ensures
            slot == (SupervisorSlot { running: false, has_receiver: true }),
    {
        Self { running: false, has_receiver: true }
    }

    /// What arming does in this state.
    pub open spec fn arming(self) -> Arming {
        if self.running {
            Arming::Running
        } else if self.has_receiver {
            Arming::Start
        } else {
            Arming::Rearm
        }
    }

    /// The slot once it has been armed.
    pub open spec fn armed(self) -> SupervisorSlot {
        if self.running {
            self
        } else {
            SupervisorSlot { running: true, has_receiver: false }
        }
    }

    /// The slot once it has been disarmed.
    pub open spec fn disarmed(self) -> SupervisorSlot {
        SupervisorSlot { running: false, ..self }
    }

    /// A running supervisor has taken the receiver.
    pub open spec fn inv(self) -> bool {
        self.running ==> !self.has_receiver
    }

    /// Has a supervisor running. A running one is kept; a new one takes the receiver,
    /// and gets a fresh channel where the previous one has consumed it.
    pub fn arm(&mut self) -> (arming: Arming)
        ensures
            arming == old(self).arming(),
            *final(self) == old(self).armed(),
    {
        if self.running {
            return Arming::Running;
        }
        let arming: Arming = if self.has_receiver {
            Arming::Start
        } else {
            Arming::Rearm
        };
        self.running = true;
        self.has_receiver = false;
        arming
    }

    /// Has no supervisor running, and tells whether one has to be stopped for that.
    pub fn disarm(&mut self) -> (stop: bool)
        ensures
            stop == old(self).running,
            *final(self) == old(self).disarmed(),
    {
        let stop: bool = self.running;
        self.running = false;
        stop
    }
}

/// A client that was taken down can be brought up again, as often as need be: its next
/// supervisor gets a fresh channel, where the first one got the channel at hand.
pub proof fn law_client_can_be_rearmed(slot: SupervisorSlot)
    requires
        slot.inv(),
    ensures
        (SupervisorSlot { running: false, has_receiver: true }).inv(),
        slot.armed().inv(),
        slot.disarmed().inv(),
        slot.armed().running,
        slot.armed().arming() == Arming::Running,
        slot.armed().disarmed().arming() == Arming::Rearm,
{
}

/// Where a write of the fact stands.
#[derive(Debug, Clone, Copy, PartialEq, Eq, Structural)]
pub enum WritePhase {
    /// Looking up the connection.
    LookingUp,
    /// Writing the byte, without asking for a response.
    Writing { byte: u8 },
    /// Closing the link that failed.
    Disconnecting,
    /// Clearing the slot that holds the connection.
    Clearing,
    /// Asking the supervisor for a fresh link.
    Requesting,
    /// Written.
    Written,
    /// There was no link.
    NotConnected,
    /// The write failed and the link has been given up.
    Failed,
}

/// A write of the fact to the lamp. A failed one gives the link up: it is closed
/// before the slot is cleared, since the supervisor closes what the slot holds, and
/// clearing it first would leave the link up with no further discovery events.
#[derive(Debug, Clone, Copy, PartialEq, Eq, Structural)]
pub struct StateWrite {
    pub fact: bool,
    pub phase: WritePhase,
}

impl StateWrite {
    /// A write of `fact`, about to look up the connection.
    pub fn new(fact: bool) -> (write: Self)
        ensures
            write == (StateWrite { fact, phase: WritePhase::LookingUp }),
    {
        Self { fact, phase: WritePhase::LookingUp }
    }

    /// The write once the operation of its phase has succeeded or failed. What is done
    /// after a failed write goes on whether or not it succeeds.
    pub open spec fn next(self, succeeded: bool) -> StateWrite {
        StateWrite {
            phase: match self.phase {
                WritePhase::LookingUp => if succeeded {
                    WritePhase::Writing {
                        byte: if self.fact {
                            FACT_BROKEN
                        } else {
                            FACT_INTACT
                        },
                    }
                } else {
                    WritePhase::NotConnected
                },
                WritePhase::Writing { .. } => if succeeded {
                    WritePhase::Written
                } else {
                    WritePhase::Disconnecting
                },
                WritePhase::Disconnecting => WritePhase::Clearing,
                WritePhase::Clearing => WritePhase::Requesting,
                WritePhase::Requesting => WritePhase::Failed,
                phase => phase,
            },
            ..self
        }
    }

    /// Takes in whether the operation of the phase succeeded.
    pub fn step(&mut self, succeeded: bool)
        ensures
            *final(self) == old(self).next(succeeded),
    {
        self.phase = match self.phase {
            WritePhase::LookingUp => {
                if succeeded {
                    WritePhase::Writing { byte: fact_byte(self.fact) }
                } else {
                    WritePhase::NotConnected
                }
            },
            WritePhase::Writing { .. } => {
                if succeeded {
                    WritePhase::Written
                } else {
                    WritePhase::Disconnecting
                }
            },
            WritePhase::Disconnecting => WritePhase::Clearing,
            WritePhase::Clearing => WritePhase::Requesting,
            WritePhase::Requesting => WritePhase::Failed,
            phase => phase,
        };
    }
}

/// A write that fails closes the link, clears the slot and asks for a fresh link, in
/// this order and whatever becomes of each, before it fails.
pub proof fn law_failed_write_gives_the_link_up(write: StateWrite, a: bool, b: bool, c: bool)
    requires
        write.phase is Writing,
    ensures
        ({
            let closing = write.next(false);
            let clearing = closing.next(a);
            let requesting = clearing.next(b);
            &&& closing.phase is Disconnecting
            &&& clearing.phase is Clearing
            &&& requesting.phase is Requesting
            &&& requesting.next(c).phase is Failed
        }),
{
}

/// A write that finds a link and succeeds has written the byte of its fact.
pub proof fn law_successful_write_writes_the_fact(fact: bool)
    ensures
        ({
            let writing = (StateWrite { fact, phase: WritePhase::LookingUp }).next(true);
            &&& writing.phase == WritePhase::Writing {
                byte: if fact {
                    FACT_BROKEN
                } else {
                    FACT_INTACT
                },
            }
            &&& writing.next(true).phase is Written
        }),
{
}

/// The first of the bytes, if there are any.
pub open spec fn first_of(value: Seq<u8>) -> Option<u8> {
    if value.len() > 0 {
        Some(value[0])
    } else {
        None
    }
}

/// The fact byte of the value that was read, which is its first.
pub fn first_byte(value: &[u8]) -> (byte: Result<u8, ClientError>)
    ensures
        value@.len() > 0 ==> byte == Ok::<u8, ClientError>(value@[0]),
        value@.len() == 0 ==> byte matches Err(ClientError::NoBytes),
        match byte {
            Ok(byte) => first_of(value@) == Some(byte),
            Err(error) => error is NoBytes && first_of(value@) is None,
        },
{
    if value.len() > 0 {
        Ok(value[0])
    } else {
        Err(ClientError::NoBytes)
    }
}

/// The place, if any, is the first that holds the number wanted.
pub open spec fn is_first_place(position: Option<usize>, uuids: Seq<u128>, wanted: u128) -> bool {
    match position {
        Some(at) => {
            &&& at < uuids.len()
            &&& uuids[at as int] == wanted
            &&& forall|i: int| 0 <= i < at ==> uuids[i] != wanted
        },
        None => forall|i: int| 0 <= i < uuids.len() ==> uuids[i] != wanted,
    }
}

/// The place of the first characteristic with the number `wanted`.
pub fn position_of(uuids: &[u128], wanted: u128) -> (position: Option<usize>)
    ensures
        match position {
            Some(at) => {
                &&& at < uuids@.len()
                &&& uuids@[at as int] == wanted
                &&& forall|i: int| 0 <= i < at ==> uuids@[i] != wanted
            },
            None => forall|i: int| 0 <= i < uuids@.len() ==> uuids@[i] != wanted,
        },
        is_first_place(position, uuids@, wanted),
{
    let mut at: usize = 0;
    while at < uuids.len()
        invariant
            at <= uuids@.len(),
            forall|i: int| 0 <= i < at ==> uuids@[i] != wanted,
        decreases uuids@.len() - at,
    {
        if uuids[at] == wanted {
            return Some(at);
        }
        at += 1;
    }
    None
}

/// The place of the fact characteristic among the characteristics that a device
/// offers.
pub fn find_characteristic(uuids: &[u128]) -> (position: Result<usize, ClientError>)
    ensures
        match position {
            Ok(at) => {
                &&& at < uuids@.len()
                &&& uuids@[at as int] == uuid_number(CHARACTERISTIC_UUID@, 36)
                &&& forall|i: int|
                    0 <= i < at ==> uuids@[i] != uuid_number(CHARACTERISTIC_UUID@, 36)
            },
            Err(error) => {
                &&& error is NoCharacteristic
                &&& forall|i: int|
                    0 <= i < uuids@.len() ==> uuids@[i] != uuid_number(CHARACTERISTIC_UUID@, 36)
            },
        },
        is_first_place(
            match position {
                Ok(at) => Some(at),
                Err(_) => None,
            },
            uuids@,
            0x6a4c0002_b5a3_4f1e_9c2d_7e8f9a0b1c2d,
        ),
{
    match position_of(uuids, characteristic_uuid()) {
        Some(at) => Ok(at),
        None => Err(ClientError::NoCharacteristic),
    }
}

/// A write keeps its fact to the end. Without a link it writes nothing, and once it is
/// over it stays over.
pub proof fn law_write_keeps_its_fact(write: StateWrite, succeeded: bool)
    ensures
        write.next(succeeded).fact == write.fact,
        write.phase is LookingUp ==> write.next(false).phase == WritePhase::NotConnected,
        write.phase is LookingUp ==> write.next(true).phase == (WritePhase::Writing {
            byte: if write.fact {
                0x01
            } else {
                0x00
            },
        }),
        write.phase is Writing ==> write.next(true).phase == WritePhase::Written,
        write.phase is Written || write.phase is NotConnected || write.phase is Failed
            ==> write.next(succeeded) == write,
{
}

/// A running supervisor is kept as it is, a receiver at hand goes to the next one, and
/// where there is none a fresh channel is made; taking the supervisor down leaves the
/// receiver where it is.
pub proof fn law_slot_steps(slot: SupervisorSlot)
    ensures
        slot.running ==> slot.arming() == Arming::Running && slot.armed() == slot,
        !slot.running && slot.has_receiver ==> slot.arming() == Arming::Start,
        !slot.running && !slot.has_receiver ==> slot.arming() == Arming::Rearm,
        !slot.running ==> slot.armed() == (SupervisorSlot { running: true, has_receiver: false }),
        slot.disarmed() == (SupervisorSlot { running: false, has_receiver: slot.has_receiver }),
{
}

/// What the supervisor reported is passed on word for word.
pub proof fn law_fatal_message_is_passed_on(message: String)
    ensures
        ClientError::Fatal(message).text() == message@,
{
}

/// Whatever kept the session from being set up is passed on word for word, and a client
/// that connects returns it so; a link that is up ends its wait, and one that is being
/// looked for does not.
pub proof fn law_failure_reaches_the_client(setup_error: Seq<char>)
    ensures
        connect_verdict(LinkStatus::published(Publication::SetupFailed, setup_error)) == Some(
            Err::<(), Seq<char>>(setup_error),
        ),
        connect_verdict(LinkStatus::published(Publication::StreamEnded, setup_error)) == Some(
            Err::<(), Seq<char>>("adapter event stream ended"@),
        ),
        connect_verdict(LinkStatus::published(Publication::Connected, setup_error)) == Some(
            Ok::<(), Seq<char>>(()),
        ),
        connect_verdict(LinkStatus::published(Publication::Waiting, setup_error)) is None,
{
}

/// The fact is the first byte read, however many follow it.
pub proof fn law_fact_is_the_first_byte(byte: u8, rest: Seq<u8>)
    ensures
        first_of(seq![byte] + rest) == Some(byte),
        first_of(Seq::<u8>::empty()) is None,
{
}

/// Only one answer is right: the first place that holds the number, whatever places come
/// after it, and none where no place holds it.
pub proof fn law_only_the_first_place_is_right(
    position: Option<usize>,
    uuids: Seq<u128>,
    wanted: u128,
    at: usize,
)
    requires
        is_first_place(position, uuids, wanted),
    ensures
        at < uuids.len() && uuids[at as int] == wanted && (forall|i: int|
            0 <= i < at ==> uuids[i] != wanted) ==> position == Some(at),
        (forall|i: int| 0 <= i < uuids.len() ==> uuids[i] != wanted) ==> position is None,
{
}

} // verus!
