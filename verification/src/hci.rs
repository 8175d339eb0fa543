//! The host controller interface: sockets, command and event packets, and the list of
//! connections.
use crate::interval::{
    conn_update_params, law_le_bytes_round_trip, le_bytes, le_word, update_params, word,
};
use crate::text::{
    decimal, digit_value, eq_ignore_ascii_case, hex_byte, hex_digit, hex_word, lower, lower_char, push_decimal,
    push_hex_byte, push_hex_word,
};
use crate::time::Duration;
use vstd::prelude::*;
use vstd::slice::slice_subrange;
use vstd::slice::slice_to_vec;

verus! {

/// The adapter.
pub const HCI_DEV: u16 = 0;

/// No adapter in particular.
pub const HCI_DEV_NONE: u16 = 0xffff;

/// Channel for commands and their events.
pub const HCI_CHANNEL_RAW: u16 = 0;

/// Channel for a copy of all traffic. HCI channel numbers are kernel-specific: the
/// Raspberry Pi kernel has RAW=0, USER=1, MONITOR=2, CONTROL=3, LOGGING=4, where
/// mainline has MONITOR=3. The monitor socket must be a separate socket from the raw
/// command channel.
pub const HCI_CHANNEL_MONITOR: u16 = 2;

/// Packet type of a command.
pub const HCI_COMMAND_PKT: u8 = 0x01;

/// Packet type of an event.
pub const HCI_EVENT_PKT: u8 = 0x04;

/// Packet types that a raw socket lets through, one bit each: events.
pub const HCI_FILTER_TYPES: u32 = 0x0000_0010;

/// Events that a raw socket lets through, one bit each, in either half of the mask: all.
pub const HCI_FILTER_EVENTS: u32 = 0xffff_ffff;

/// Command whose events alone a raw socket lets through: none in particular.
pub const HCI_FILTER_OPCODE: u16 = 0;

/// Opcode of the connection update: group 0x08 (LE controller), command 0x0013.
pub const HCI_LE_CONN_UPDATE: u16 = 0x2013;

/// Longest wait for one event: 2 s.
pub const HCI_READ_TIMEOUT: Duration = 2_000_000_000;

/// Most connections asked for.
pub const MAX_CONN: u16 = 16;

/// The filter of a raw socket lets through events, every one of them, and packets of no
/// other type.
pub proof fn law_filter_lets_events_through(kind: u32, event: u32)
    requires
        kind < 32,
        event < 32,
    ensures
        (HCI_FILTER_TYPES >> kind) & 1 == 1 <==> kind == HCI_EVENT_PKT,
        (HCI_FILTER_EVENTS >> event) & 1 == 1,
{
    assert((0x0000_0010u32 >> kind) & 1 == 1 <==> kind == 4) by (bit_vector)
        requires
            kind < 32,
    ;
    assert((0xffff_ffffu32 >> event) & 1 == 1) by (bit_vector)
        requires
            event < 32,
    ;
}

/// What went wrong on the host controller interface.
#[derive(Debug, Clone, Copy, PartialEq, Eq, Structural)]
pub enum HciError {
    OpenRaw,
    OpenMonitor,
    Bind { dev: u16, channel: u16 },
    Filter,
    Write { opcode: u16 },
    ShortWrite { opcode: u16, written: u64, length: u64 },
    Poll,
    TimedOut,
    Read,
    UnexpectedFrame { kind: u8 },
    ConnectionList,
    DeviceNotFound,
    CommandStatus { status: u8 },
    CommandComplete { status: u8 },
    Rejected { status: u8 },
    NoUpdateComplete,
    NoCommandStatus,
    GuardPoisoned,
}

impl HciError {
    /// The message that goes with the error. `detail` is the operating system's own
    /// message or, for a device that was not found, its address.
    pub open spec fn text(self, detail: Seq<char>) -> Seq<char> {
        match self {
            HciError::OpenRaw => "open HCI raw socket: "@ + detail,
            HciError::OpenMonitor => "open HCI monitor socket: "@ + detail,
            HciError::Bind { dev, channel } => "bind HCI socket (dev="@ + decimal(dev as nat)
                + ", channel="@ + decimal(channel as nat) + "): "@ + detail,
            HciError::Filter => "set HCI event filter: "@ + detail,
            HciError::Write { opcode } => "write HCI command 0x"@ + hex_word(opcode) + ": "@
                + detail,
            HciError::ShortWrite { opcode, written, length } => "short write HCI command 0x"@
                + hex_word(opcode) + ": "@ + decimal(written as nat) + "/"@ + decimal(length as nat)
                + " bytes"@,
            HciError::Poll => "poll HCI socket: "@ + detail,
            HciError::TimedOut => "timed out waiting for HCI event"@,
            HciError::Read => "read HCI event: "@ + detail,
            HciError::UnexpectedFrame { kind } => "unexpected HCI frame type: 0x"@ + hex_byte(kind),
            HciError::ConnectionList => "HCIGETCONNLIST ioctl: "@ + detail,
            HciError::DeviceNotFound => "device "@ + detail
                + " not found in HCI connection list"@,
            HciError::CommandStatus { status } => "LE Connection Update command status 0x"@
                + hex_byte(status),
            HciError::CommandComplete { status } =>
            "LE Connection Update command complete status 0x"@ + hex_byte(status),
            HciError::Rejected { status } => "LE Connection Update rejected, status 0x"@ + hex_byte(
                status,
            ),
            HciError::NoUpdateComplete => "timed out waiting for LE Connection Update Complete"@,
            HciError::NoCommandStatus => "timed out waiting for LE Connection Update status"@,
            HciError::GuardPoisoned => "interval guard mutex poisoned"@,
        }
    }

    /// The message that goes with the error. `detail` is the operating system's own
    /// message or, for a device that was not found, its address.
    pub fn message(&self, detail: &str) -> (message: String)
        ensures
            message@ == self.text(detail@),
    {
        match *self {
            HciError::OpenRaw => "open HCI raw socket: ".to_owned().concat(detail),
            HciError::OpenMonitor => "open HCI monitor socket: ".to_owned().concat(detail),
            HciError::Bind { dev, channel } => {
                let mut out = "bind HCI socket (dev=".to_owned();
                push_decimal(&mut out, dev as u64);
                out.append(", channel=");
                push_decimal(&mut out, channel as u64);
                out.append("): ");
                out.append(detail);
                out
            },
            HciError::Filter => "set HCI event filter: ".to_owned().concat(detail),
            HciError::Write { opcode } => {
                let mut out = "write HCI command 0x".to_owned();
                push_hex_word(&mut out, opcode);
                out.append(": ");
                out.append(detail);
                out
            },
            HciError::ShortWrite { opcode, written, length } => {
                let mut out = "short write HCI command 0x".to_owned();
                push_hex_word(&mut out, opcode);
                out.append(": ");
                push_decimal(&mut out, written);
                out.append("/");
                push_decimal(&mut out, length);
                out.append(" bytes");
                out
            },
            HciError::Poll => "poll HCI socket: ".to_owned().concat(detail),
            HciError::TimedOut => "timed out waiting for HCI event".to_owned(),
            HciError::Read => "read HCI event: ".to_owned().concat(detail),
            HciError::UnexpectedFrame { kind } => {
                let mut out = "unexpected HCI frame type: 0x".to_owned();
                push_hex_byte(&mut out, kind);
                out
            },
            HciError::ConnectionList => "HCIGETCONNLIST ioctl: ".to_owned().concat(detail),
            HciError::DeviceNotFound => "device ".to_owned().concat(detail).concat(
                " not found in HCI connection list",
            ),
            HciError::CommandStatus { status } => {
                let mut out = "LE Connection Update command status 0x".to_owned();
                push_hex_byte(&mut out, status);
                out
            },
            HciError::CommandComplete { status } => {
                let mut out = "LE Connection Update command complete status 0x".to_owned();
                push_hex_byte(&mut out, status);
                out
            },
            HciError::Rejected { status } => {
                let mut out = "LE Connection Update rejected, status 0x".to_owned();
                push_hex_byte(&mut out, status);
                out
            },
            HciError::NoUpdateComplete => {
                "timed out waiting for LE Connection Update Complete".to_owned()
            },
            HciError::NoCommandStatus => {
                "timed out waiting for LE Connection Update status".to_owned()
            },
            HciError::GuardPoisoned => "interval guard mutex poisoned".to_owned(),
        }
    }
}

/// The packet of a command: its type, the opcode, the length of the parameters as far
/// as a byte holds it, and the parameters.
pub open spec fn command_packet(opcode: u16, params: Seq<u8>) -> Seq<u8> {
    seq![HCI_COMMAND_PKT] + le_bytes(opcode) + seq![(params.len() % 256) as u8] + params
}

/// The packet that sends a command with its parameters.
pub fn command_frame(opcode: u16, params: &[u8]) -> (frame: Vec<u8>)
    ensures
        frame@ == command_packet(opcode, params@),
{
    let mut frame: Vec<u8> = Vec::new();
    frame.push(HCI_COMMAND_PKT);
    frame.push((opcode % 256) as u8);
    frame.push((opcode / 256) as u8);
    frame.push((params.len() % 256) as u8);
    frame.extend_from_slice(params);
    assert(frame@ =~= command_packet(opcode, params@));
    frame
}

/// The packet that asks for the target interval on the connection `handle`.
pub fn update_command(handle: u16) -> (frame: Vec<u8>)
    ensures
        frame@ == command_packet(HCI_LE_CONN_UPDATE, update_params(handle)),
{
    let params: [u8; 14] = conn_update_params(handle);
    command_frame(HCI_LE_CONN_UPDATE, params.as_slice())
}

/// What came of writing a packet of `length` bytes.
pub open spec fn write_outcome(opcode: u16, written: int, length: int) -> Result<(), HciError> {
    if written < 0 {
        Err(HciError::Write { opcode })
    } else if written != length {
        Err(HciError::ShortWrite { opcode, written: written as u64, length: length as u64 })
    } else {
        Ok(())
    }
}

/// Whether a packet of `length` bytes went out whole, by what writing it returned.
pub fn check_written(opcode: u16, written: i64, length: usize) -> (outcome: Result<(), HciError>)
    ensures
        outcome == (if written < 0 {
            Err(HciError::Write { opcode })
        } else if written != length {
            Err(HciError::ShortWrite { opcode, written: written as u64, length: length as u64 })
        } else {
            Ok(())
        }),
        outcome == write_outcome(opcode, written as int, length as int),
{
    if written < 0 {
        return Err(HciError::Write { opcode });
    }
    if written as u64 != length as u64 {
        return Err(
            HciError::ShortWrite { opcode, written: written as u64, length: length as u64 },
        );
    }
    Ok(())
}

/// What came of polling a socket.
pub open spec fn poll_outcome(ret: int) -> Result<(), HciError> {
    if ret < 0 {
        Err(HciError::Poll)
    } else if ret == 0 {
        Err(HciError::TimedOut)
    } else {
        Ok(())
    }
}

/// Whether there is an event to read, by what polling the socket returned.
pub fn check_polled(ret: i32) -> (outcome: Result<(), HciError>)
    ensures
        outcome == (if ret < 0 {
            Err(HciError::Poll)
        } else if ret == 0 {
            Err(HciError::TimedOut)
        } else {
            Ok(())
        }),
        outcome == poll_outcome(ret as int),
{
    if ret < 0 {
        Err(HciError::Poll)
    } else if ret == 0 {
        Err(HciError::TimedOut)
    } else {
        Ok(())
    }
}

/// The event in a packet, or why there is none.
pub open spec fn event_of(data: Seq<u8>) -> Result<Seq<u8>, HciError> {
    if data.len() >= 2 && data[0] == HCI_EVENT_PKT {
        Ok(data.skip(1))
    } else {
        Err(
            HciError::UnexpectedFrame {
                kind: if data.len() > 0 {
                    data[0]
                } else {
                    0
                },
            },
        )
    }
}

/// What came of reading a packet into a buffer.
pub open spec fn read_outcome(read: int, buf: Seq<u8>) -> Result<Seq<u8>, HciError> {
    if read <= 0 {
        Err(HciError::Read)
    } else {
        event_of(buf.take(read))
    }
}

/// The event that reading a packet into `buf` brought in, by what the read returned.
pub fn event_read(read: i64, buf: &[u8]) -> (event: Result<Vec<u8>, HciError>)
    requires
        read <= buf@.len(),
    ensures
        match event {
            Ok(event) => read > 0 && event_of(buf@.take(read as int)) == Ok::<Seq<u8>, HciError>(
                event@,
            ),
            Err(error) => if read <= 0 {
                error == HciError::Read
            } else {
                event_of(buf@.take(read as int)) == Err::<Seq<u8>, HciError>(error)
            },
        },
        read_outcome(read as int, buf@) == (match event {
            Ok(event) => Ok(event@),
            Err(error) => Err::<Seq<u8>, HciError>(error),
        }),
{
    if read <= 0 {
        return Err(HciError::Read);
    }
    let length: usize = read as usize;
    let ghost data = buf@.take(read as int);
    if length < 2 || buf[0] != HCI_EVENT_PKT {
        return Err(HciError::UnexpectedFrame { kind: buf[0] });
    }
    let event: Vec<u8> = slice_to_vec(slice_subrange(buf, 1, length));
    assert(event@ =~= data.skip(1));
    Ok(event)
}

/// An entry of the list of connections: the handle and the device's address, low byte
/// first.
#[derive(Debug, Clone, Copy, PartialEq, Eq)]
pub struct HciConnInfo {
    pub handle: u16,
    pub bdaddr: [u8; 6],
}

/// Length of the head of a list of connections: the adapter and the number of entries.
pub const CONN_LIST_HDR_SIZE: usize = 4;

/// Length of an entry of a list of connections: the handle, the address, and eight
/// bytes on the state of the connection.
pub const CONN_INFO_SIZE: usize = 16;

/// The buffer in which the adapter's connections are asked for: the adapter, the most
/// entries that fit, and room for them.
pub open spec fn empty_connection_list() -> Seq<u8> {
    le_bytes(HCI_DEV) + le_bytes(MAX_CONN) + Seq::new(
        (MAX_CONN * CONN_INFO_SIZE) as nat,
        |i: int| 0u8,
    )
}

/// The buffer in which the adapter's connections are asked for, laid out as on a
/// little-endian host.
pub fn connection_list_request() -> (buf: Vec<u8>)
    ensures
        buf@ == empty_connection_list(),
{
    let mut buf: Vec<u8> = Vec::new();
    buf.push((HCI_DEV % 256) as u8);
    buf.push((HCI_DEV / 256) as u8);
    buf.push((MAX_CONN % 256) as u8);
    buf.push((MAX_CONN / 256) as u8);
    let room: usize = MAX_CONN as usize * CONN_INFO_SIZE;
    let mut filled: usize = 0;
    while filled < room
        invariant
            filled <= room,
            room == MAX_CONN * CONN_INFO_SIZE,
            buf@ =~= le_bytes(HCI_DEV) + le_bytes(MAX_CONN) + Seq::new(
                filled as nat,
                |i: int| 0u8,
            ),
        decreases room - filled,
    {
        buf.push(0);
        filled += 1;
    }
    buf
}

/// How many entries a filled-in list holds: as many as it says, as far as they are
/// there.
pub open spec fn listed(buf: Seq<u8>) -> nat {
    if buf.len() < CONN_LIST_HDR_SIZE {
        0
    } else {
        let stated = le_word(buf[2], buf[3]) as nat;
        let room = ((buf.len() - CONN_LIST_HDR_SIZE) / CONN_INFO_SIZE as int) as nat;
        if stated < room {
            stated
        } else {
            room
        }
    }
}

/// The bytes of one entry of a filled-in list.
pub open spec fn entry(buf: Seq<u8>, index: int) -> Seq<u8> {
    let start = CONN_LIST_HDR_SIZE + CONN_INFO_SIZE * index;
    buf.subrange(start, start + CONN_INFO_SIZE)
}

/// A connection is the one that the bytes of an entry describe.
pub open spec fn describes(bytes: Seq<u8>, conn: HciConnInfo) -> bool {
    conn.handle == le_word(bytes[0], bytes[1]) && conn.bdaddr@ == bytes.subrange(2, 8)
}

/// The connections of a filled-in list, laid out as on a little-endian host.
pub fn connection_list(buf: &[u8]) -> (conns: Vec<HciConnInfo>)
    ensures
        conns@.len() == listed(buf@),
        forall|i: int| 0 <= i < conns@.len() ==> describes(entry(buf@, i), #[trigger] conns@[i]),
{
    let mut conns: Vec<HciConnInfo> = Vec::new();
    if buf.len() < CONN_LIST_HDR_SIZE {
        return conns;
    }
    let stated: usize = word(buf[2], buf[3]) as usize;
    let room: usize = (buf.len() - CONN_LIST_HDR_SIZE) / CONN_INFO_SIZE;
    let count: usize = if stated < room {
        stated
    } else {
        room
    };
    let mut start: usize = CONN_LIST_HDR_SIZE;
    while conns.len() < count
        invariant
            conns@.len() <= count,
            count <= room,
            count == listed(buf@),
            room == (buf@.len() - CONN_LIST_HDR_SIZE) / CONN_INFO_SIZE as int,
            start == CONN_LIST_HDR_SIZE + CONN_INFO_SIZE * conns@.len(),
            forall|i: int|
                0 <= i < conns@.len() ==> describes(entry(buf@, i), #[trigger] conns@[i]),
        decreases count - conns@.len(),
    {
        assert(start + CONN_INFO_SIZE <= buf@.len());
        let conn: HciConnInfo = HciConnInfo {
            handle: word(buf[start], buf[start + 1]),
            bdaddr: [
                buf[start + 2],
                buf[start + 3],
                buf[start + 4],
                buf[start + 5],
                buf[start + 6],
                buf[start + 7],
            ],
        };
        assert(conn.bdaddr@ =~= entry(buf@, conns@.len() as int).subrange(2, 8));
        conns.push(conn);
        start += CONN_INFO_SIZE;
    }
    conns
}

/// The bytes of entries one after the other.
pub open spec fn joined(entries: Seq<Seq<u8>>) -> Seq<u8>
    decreases entries.len(),
{
    if entries.len() == 0 {
        Seq::empty()
    } else {
        joined(entries.drop_last()) + entries.last()
    }
}

proof fn lemma_joined(entries: Seq<Seq<u8>>, index: int)
    requires
        forall|i: int| 0 <= i < entries.len() ==> (#[trigger] entries[i]).len() == CONN_INFO_SIZE,
    ensures
        joined(entries).len() == CONN_INFO_SIZE * entries.len(),
        0 <= index < entries.len() ==> joined(entries).subrange(
            CONN_INFO_SIZE * index,
            CONN_INFO_SIZE * index + CONN_INFO_SIZE,
        ) == entries[index],
    decreases entries.len(),
{
    if entries.len() > 0 {
        let before = entries.drop_last();
        assert forall|i: int| 0 <= i < before.len() implies (#[trigger] before[i]).len()
            == CONN_INFO_SIZE by {
            assert(before[i] == entries[i]);
        }
        lemma_joined(before, index);
        assert(entries[entries.len() - 1].len() == CONN_INFO_SIZE);
        if 0 <= index < entries.len() {
            let start = CONN_INFO_SIZE * index;
            let end = start + CONN_INFO_SIZE;
            if index < before.len() {
                assert(joined(entries).subrange(start, end) =~= joined(before).subrange(
                    start,
                    end,
                ));
            } else {
                assert(joined(entries).subrange(start, end) =~= entries.last());
            }
        }
    }
}

/// A list with its number of entries in front holds just these entries, and room left
/// over behind them plays no part.
pub proof fn law_connection_list_round_trip(
    dev: u16,
    entries: Seq<Seq<u8>>,
    rest: Seq<u8>,
    index: int,
)
    requires
        entries.len() <= u16::MAX,
        forall|i: int| 0 <= i < entries.len() ==> (#[trigger] entries[i]).len() == CONN_INFO_SIZE,
    ensures
        ({
            let buf = le_bytes(dev) + le_bytes(entries.len() as u16) + joined(entries) + rest;
            &&& listed(buf) == entries.len()
            &&& 0 <= index < entries.len() ==> entry(buf, index) == entries[index]
        }),
{
    let buf = le_bytes(dev) + le_bytes(entries.len() as u16) + joined(entries) + rest;
    lemma_joined(entries, index);
    law_le_bytes_round_trip(entries.len() as u16, 0, 0);
    assert(buf[2] == le_bytes(entries.len() as u16)[0]);
    assert(buf[3] == le_bytes(entries.len() as u16)[1]);
    if 0 <= index < entries.len() {
        let start = CONN_INFO_SIZE * index;
        assert(entry(buf, index) =~= joined(entries).subrange(start, start + CONN_INFO_SIZE));
    }
}

/// The address as twelve hexadecimal digits, high byte first.
pub open spec fn bdaddr_digits(bdaddr: Seq<u8>) -> Seq<char> {
    hex_byte(bdaddr[5]) + hex_byte(bdaddr[4]) + hex_byte(bdaddr[3]) + hex_byte(bdaddr[2])
        + hex_byte(bdaddr[1]) + hex_byte(bdaddr[0])
}

/// The text without its colons.
pub open spec fn without_colons(text: Seq<char>) -> Seq<char>
    decreases text.len(),
{
    if text.len() == 0 {
        text
    } else if text.last() == ':' {
        without_colons(text.drop_last())
    } else {
        without_colons(text.drop_last()).push(text.last())
    }
}

/// A connection is to the device with the address `address`, written in hexadecimal
/// digits of either case with or without colons.
pub open spec fn is_connection_to(conn: HciConnInfo, address: Seq<char>) -> bool {
    bdaddr_digits(conn.bdaddr@) == lower(without_colons(address))
}

/// The text without its colons.
fn remove_colons(text: &str) -> (out: String)
    ensures
        out@ == without_colons(text@),
{
    let n: usize = text.unicode_len();
    let mut out = String::new();
    let mut i: usize = 0;
    assert(text@.take(0) =~= Seq::<char>::empty());
    while i < n
        invariant
            i <= n,
            n == text@.len(),
            out@ == without_colons(text@.take(i as int)),
        decreases n - i,
    {
        assert(text@.take(i + 1).drop_last() =~= text@.take(i as int));
        if text.get_char(i) != ':' {
            let ghost before = out@;
            out.append(text.substring_char(i, i + 1));
            assert(out@ =~= before.push(text@[i as int]));
        }
        i += 1;
    }
    assert(text@.take(n as int) =~= text@);
    out
}

/// The answer is the handle of the first connection to a device, or that there is none.
pub open spec fn is_first_handle(
    answer: Result<u16, HciError>,
    conns: Seq<HciConnInfo>,
    address: Seq<char>,
) -> bool {
    match answer {
        Ok(handle) => exists|at: int|
            {
                &&& 0 <= at < conns.len()
                &&& #[trigger] is_connection_to(conns[at], address)
                &&& conns[at].handle == handle
                &&& forall|i: int| 0 <= i < at ==> !is_connection_to(#[trigger] conns[i], address)
            },
        Err(error) => {
            &&& error == HciError::DeviceNotFound
            &&& forall|i: int|
                0 <= i < conns.len() ==> !is_connection_to(#[trigger] conns[i], address)
        },
    }
}

/// The handle of the first connection to the device with the given address.
pub fn find_connection_handle(conns: &[HciConnInfo], address: &str) -> (handle: Result<
    u16,
    HciError,
>)
    ensures
        match handle {
            Ok(handle) => exists|at: int|
                {
                    &&& 0 <= at < conns@.len()
                    &&& #[trigger] is_connection_to(conns@[at], address@)
                    &&& conns@[at].handle == handle
                    &&& forall|i: int|
                        0 <= i < at ==> !is_connection_to(#[trigger] conns@[i], address@)
                },
            Err(error) => {
                &&& error == HciError::DeviceNotFound
                &&& forall|i: int|
                    0 <= i < conns@.len() ==> !is_connection_to(#[trigger] conns@[i], address@)
            },
        },
        is_first_handle(handle, conns@, address@),
{
    let target: String = remove_colons(address);
    let mut index: usize = 0;
    while index < conns.len()
        invariant
            index <= conns@.len(),
            target@ == without_colons(address@),
            forall|i: int| 0 <= i < index ==> !is_connection_to(#[trigger] conns@[i], address@),
        decreases conns@.len() - index,
    {
        let conn: HciConnInfo = conns[index];
        let mut found = String::new();
        push_hex_byte(&mut found, conn.bdaddr[5]);
        push_hex_byte(&mut found, conn.bdaddr[4]);
        push_hex_byte(&mut found, conn.bdaddr[3]);
        push_hex_byte(&mut found, conn.bdaddr[2]);
        push_hex_byte(&mut found, conn.bdaddr[1]);
        push_hex_byte(&mut found, conn.bdaddr[0]);
        proof {
            assert(found@ =~= bdaddr_digits(conn.bdaddr@));
            lemma_digits_are_lower(conn.bdaddr@);
        }
        if eq_ignore_ascii_case(found.as_str(), target.as_str()) {
            assert(is_connection_to(conns@[index as int], address@));
            return Ok(conn.handle);
        }
        index += 1;
    }
    Err(HciError::DeviceNotFound)
}

proof fn lemma_digits_are_lower(bdaddr: Seq<u8>)
    ensures
        lower(bdaddr_digits(bdaddr)) == bdaddr_digits(bdaddr),
{
    assert forall|value: int| 0 <= value < 16 implies lower_char(#[trigger] hex_digit(value))
        == hex_digit(value) by {}
    assert(lower(bdaddr_digits(bdaddr)) =~= bdaddr_digits(bdaddr));
}

/// The address as it is written out: six bytes of two hexadecimal digits, high byte
/// first, with colons between them.
pub open spec fn bdaddr_text(bdaddr: Seq<u8>) -> Seq<char> {
    hex_byte(bdaddr[5]) + seq![':'] + hex_byte(bdaddr[4]) + seq![':'] + hex_byte(bdaddr[3])
        + seq![':'] + hex_byte(bdaddr[2]) + seq![':'] + hex_byte(bdaddr[1]) + seq![':'] + hex_byte(
        bdaddr[0],
    )
}

proof fn lemma_lower_keeps_colons(text: Seq<char>)
    ensures
        without_colons(lower(text)) == lower(without_colons(text)),
    decreases text.len(),
{
    if text.len() > 0 {
        lemma_lower_keeps_colons(text.drop_last());
        assert(lower(text).drop_last() =~= lower(text.drop_last()));
        assert(lower(text).last() == lower_char(text.last()));
        assert(without_colons(lower(text)) =~= lower(without_colons(text)));
    } else {
        assert(lower(text) =~= text);
    }
}

proof fn lemma_without_colons_of_push(text: Seq<char>, c: char)
    ensures
        without_colons(text.push(c)) == (if c == ':' {
            without_colons(text)
        } else {
            without_colons(text).push(c)
        }),
{
    assert(text.push(c).drop_last() =~= text);
}

proof fn lemma_without_colons_of_pair(text: Seq<char>, pair: Seq<char>)
    requires
        pair.len() == 2,
        pair[0] != ':',
        pair[1] != ':',
    ensures
        without_colons(text + pair) == without_colons(text) + pair,
        without_colons(text + seq![':'] + pair) == without_colons(text) + pair,
{
    let colon = text.push(':');
    lemma_without_colons_of_push(text, ':');
    lemma_without_colons_of_push(text, pair[0]);
    lemma_without_colons_of_push(text.push(pair[0]), pair[1]);
    lemma_without_colons_of_push(colon, pair[0]);
    lemma_without_colons_of_push(colon.push(pair[0]), pair[1]);
    assert(text + pair =~= text.push(pair[0]).push(pair[1]));
    assert(text + seq![':'] + pair =~= colon.push(pair[0]).push(pair[1]));
    assert(without_colons(text) + pair =~= without_colons(text).push(pair[0]).push(pair[1]));
}

/// A connection is found by the device's address as it is written out, in either case.
pub proof fn law_connection_is_found_by_its_written_address(conn: HciConnInfo, address: Seq<char>)
    requires
        lower(address) == bdaddr_text(conn.bdaddr@),
    ensures
        is_connection_to(conn, address),
{
    let b = conn.bdaddr@;
    lemma_lower_keeps_colons(address);
    let t5 = hex_byte(b[5]);
    let t4 = t5 + seq![':'] + hex_byte(b[4]);
    let t3 = t4 + seq![':'] + hex_byte(b[3]);
    let t2 = t3 + seq![':'] + hex_byte(b[2]);
    let t1 = t2 + seq![':'] + hex_byte(b[1]);
    lemma_without_colons_of_pair(Seq::<char>::empty(), t5);
    assert(Seq::<char>::empty() + t5 =~= t5);
    assert(without_colons(Seq::<char>::empty()) == Seq::<char>::empty());
    lemma_without_colons_of_pair(t5, hex_byte(b[4]));
    lemma_without_colons_of_pair(t4, hex_byte(b[3]));
    lemma_without_colons_of_pair(t3, hex_byte(b[2]));
    lemma_without_colons_of_pair(t2, hex_byte(b[1]));
    lemma_without_colons_of_pair(t1, hex_byte(b[0]));
    assert(without_colons(bdaddr_text(b)) =~= bdaddr_digits(b));
}

/// Two characters are the small hexadecimal digits of a byte.
pub open spec fn spells(first: char, second: char, byte: u8) -> bool {
    &&& '0' <= first <= '9' || 'a' <= first <= 'f'
    &&& '0' <= second <= '9' || 'a' <= second <= 'f'
    &&& 16 * digit_value(first) + digit_value(second) == byte
}

/// A connection is to the device whose address, without colons and in small letters,
/// spells all six of its bytes in twelve digits, high byte first, and to no other.
pub proof fn law_connection_matches_by_all_its_bytes(conn: HciConnInfo, address: Seq<char>)
    ensures
        ({
            let digits = lower(without_colons(address));
            let bytes = conn.bdaddr@;
            is_connection_to(conn, address) <==> {
                &&& digits.len() == 12
                &&& spells(digits[0], digits[1], bytes[5])
                &&& spells(digits[2], digits[3], bytes[4])
                &&& spells(digits[4], digits[5], bytes[3])
                &&& spells(digits[6], digits[7], bytes[2])
                &&& spells(digits[8], digits[9], bytes[1])
                &&& spells(digits[10], digits[11], bytes[0])
            }
        }),
{
    let digits = lower(without_colons(address));
    let bytes = conn.bdaddr@;
    let expected = bdaddr_digits(bytes);
    assert(expected.len() == 12);
    assert(expected[0] == hex_byte(bytes[5])[0] && expected[1] == hex_byte(bytes[5])[1]);
    assert(expected[2] == hex_byte(bytes[4])[0] && expected[3] == hex_byte(bytes[4])[1]);
    assert(expected[4] == hex_byte(bytes[3])[0] && expected[5] == hex_byte(bytes[3])[1]);
    assert(expected[6] == hex_byte(bytes[2])[0] && expected[7] == hex_byte(bytes[2])[1]);
    assert(expected[8] == hex_byte(bytes[1])[0] && expected[9] == hex_byte(bytes[1])[1]);
    assert(expected[10] == hex_byte(bytes[0])[0] && expected[11] == hex_byte(bytes[0])[1]);
    if digits.len() == 12 {
        lemma_spelling(digits[0], digits[1], bytes[5]);
        lemma_spelling(digits[2], digits[3], bytes[4]);
        lemma_spelling(digits[4], digits[5], bytes[3]);
        lemma_spelling(digits[6], digits[7], bytes[2]);
        lemma_spelling(digits[8], digits[9], bytes[1]);
        lemma_spelling(digits[10], digits[11], bytes[0]);
        if spells(digits[0], digits[1], bytes[5]) && spells(digits[2], digits[3], bytes[4])
            && spells(digits[4], digits[5], bytes[3]) && spells(digits[6], digits[7], bytes[2])
            && spells(digits[8], digits[9], bytes[1]) && spells(digits[10], digits[11], bytes[0]) {
            assert(expected =~= digits);
        }
    }
}

proof fn lemma_spelling(first: char, second: char, byte: u8)
    ensures
        spells(first, second, byte) <==> first == hex_byte(byte)[0] && second == hex_byte(byte)[1],
{
}

/// Connections to different devices never both match one address.
pub proof fn law_one_address_is_one_device(
    conn: HciConnInfo,
    other: HciConnInfo,
    address: Seq<char>,
)
    requires
        is_connection_to(conn, address),
        is_connection_to(other, address),
    ensures
        conn.bdaddr@ == other.bdaddr@,
{
    law_connection_matches_by_all_its_bytes(conn, address);
    law_connection_matches_by_all_its_bytes(other, address);
    assert(conn.bdaddr@ =~= other.bdaddr@);
}

/// Removing the colons is done piece by piece: of two texts in a row each loses its own,
/// a colon leaves nothing, and any other character stays.
pub proof fn law_only_colons_are_removed(text: Seq<char>, more: Seq<char>, c: char)
    ensures
        without_colons(Seq::<char>::empty()) == Seq::<char>::empty(),
        without_colons(text + more) == without_colons(text) + without_colons(more),
        without_colons(seq![c]) == (if c == ':' {
            Seq::<char>::empty()
        } else {
            seq![c]
        }),
    decreases more.len(),
{
    assert(without_colons(Seq::<char>::empty()) =~= Seq::<char>::empty());
    lemma_without_colons_of_push(Seq::<char>::empty(), c);
    assert(Seq::<char>::empty().push(c) =~= seq![c]);
    if more.len() == 0 {
        assert(text + more =~= text);
        assert(without_colons(text) + without_colons(more) =~= without_colons(text));
    } else {
        law_only_colons_are_removed(text, more.drop_last(), c);
        assert((text + more).drop_last() =~= text + more.drop_last());
        assert((text + more).last() == more.last());
        assert(without_colons(text + more) =~= without_colons(text) + without_colons(more));
    }
}

/// A command's packet is its type, the opcode with the low byte first, one byte for the
/// length of the parameters, and then the parameters as they are.
pub proof fn law_command_packet_layout(opcode: u16, params: Seq<u8>)
    ensures
        ({
            let packet = command_packet(opcode, params);
            &&& packet.len() == 4 + params.len()
            &&& packet[0] == 0x01
            &&& packet[1] + 256 * packet[2] == opcode
            &&& params.len() < 256 ==> packet[3] == params.len()
            &&& packet[3] == params.len() % 256
            &&& packet.skip(4) == params
        }),
{
    let packet = command_packet(opcode, params);
    assert(packet[1] == le_bytes(opcode)[0] && packet[2] == le_bytes(opcode)[1]);
    assert(packet.skip(4) =~= params);
}

/// A packet has gone out exactly when as many bytes were written as it has; fewer or more
/// are told with both numbers, and a negative number is a failure.
pub proof fn law_only_whole_packets_count(opcode: u16, written: i64, length: u64)
    ensures
        write_outcome(opcode, written as int, length as int) is Ok <==> written == length,
        written < 0 ==> write_outcome(opcode, written as int, length as int) == Err::<
            (),
            HciError,
        >(HciError::Write { opcode }),
        written >= 0 && written != length ==> write_outcome(opcode, written as int, length as int)
            == Err::<(), HciError>(
            HciError::ShortWrite { opcode, written: written as u64, length },
        ),
{
}

/// Any positive return of polling means that there is something to read, zero that the
/// time is up, and any negative one that polling failed.
pub proof fn law_sign_tells_what_polling_brought(ret: int)
    ensures
        poll_outcome(ret) is Ok <==> ret > 0,
        poll_outcome(ret) == Err::<(), HciError>(HciError::TimedOut) <==> ret == 0,
        poll_outcome(ret) == Err::<(), HciError>(HciError::Poll) <==> ret < 0,
{
}

/// Whatever event a packet carries is handed on whole, and what the buffer holds behind
/// the packet plays no part; a packet of another type is named by its type; and nothing
/// read is a failed read.
pub proof fn law_packet_yields_its_event(evt: Seq<u8>, kind: u8, rest: Seq<u8>, read: int)
    ensures
        evt.len() > 0 ==> read_outcome(1 + evt.len() as int, seq![0x04u8] + evt + rest) == Ok::<
            Seq<u8>,
            HciError,
        >(evt),
        kind != 0x04 ==> read_outcome(1 + evt.len() as int, seq![kind] + evt + rest) == Err::<
            Seq<u8>,
            HciError,
        >(HciError::UnexpectedFrame { kind }),
        read_outcome(1, seq![kind] + rest) == Err::<Seq<u8>, HciError>(
            HciError::UnexpectedFrame { kind },
        ),
        read <= 0 ==> read_outcome(read, rest) == Err::<Seq<u8>, HciError>(HciError::Read),
{
    let n = 1 + evt.len() as int;
    let data = (seq![0x04u8] + evt + rest).take(n);
    assert(data =~= seq![0x04u8] + evt);
    assert(data.skip(1) =~= evt);
    assert((seq![kind] + evt + rest).take(n) =~= seq![kind] + evt);
    assert((seq![kind] + rest).take(1) =~= seq![kind]);
}

/// The buffer for a list of connections names the adapter and the sixteen entries that it
/// has room for, and is empty otherwise.
pub proof fn law_connection_list_is_asked_for_empty(at: int)
    ensures
        ({
            let buf = empty_connection_list();
            &&& buf.len() == 4 + 16 * 16
            &&& buf[0] + 256 * buf[1] == HCI_DEV
            &&& buf[2] + 256 * buf[3] == 16
            &&& 4 <= at < buf.len() ==> buf[at] == 0
        }),
{
}

/// As many entries are listed as the list says, unless the buffer ends before; then as
/// many as are there whole.
pub proof fn law_listed_entries_are_there(buf: Seq<u8>)
    requires
        buf.len() >= 4,
    ensures
        ({
            let stated = buf[2] + 256 * buf[3];
            &&& 4 + 16 * listed(buf) <= buf.len()
            &&& listed(buf) <= stated
            &&& listed(buf) < stated ==> buf.len() < 4 + 16 * (listed(buf) + 1)
        }),
{
}

/// An entry describes the connection with the handle in its first two bytes, low byte
/// first, and the address in the six after them.
pub proof fn law_entry_holds_handle_and_address(bytes: Seq<u8>, conn: HciConnInfo)
    requires
        bytes.len() == 16,
    ensures
        describes(bytes, conn) <==> conn.handle == bytes[0] + 256 * bytes[1] && forall|i: int|
            0 <= i < 6 ==> conn.bdaddr@[i] == #[trigger] bytes[2 + i],
{
    if describes(bytes, conn) {
        assert forall|i: int| 0 <= i < 6 implies conn.bdaddr@[i] == #[trigger] bytes[2 + i] by {
            assert(bytes.subrange(2, 8)[i] == bytes[2 + i]);
        }
    } else if conn.handle == bytes[0] + 256 * bytes[1] && forall|i: int|
        0 <= i < 6 ==> conn.bdaddr@[i] == #[trigger] bytes[2 + i] {
        assert forall|i: int| 0 <= i < 6 implies conn.bdaddr@[i] == bytes.subrange(2, 8)[i] by {
            assert(conn.bdaddr@[i] == bytes[2 + i]);
        }
        assert(conn.bdaddr@ =~= bytes.subrange(2, 8));
    }
}

/// What the operating system has to say is passed on word for word at the end of the
/// message, the address of a device that was not found within it, and the other errors
/// have nothing to pass on.
pub proof fn law_messages_pass_the_detail_on(error: HciError, detail: Seq<char>)
    ensures
        ({
            let bare = error.text(Seq::<char>::empty());
            match error {
                HciError::OpenRaw
                | HciError::OpenMonitor
                | HciError::Bind { .. }
                | HciError::Filter
                | HciError::Write { .. }
                | HciError::Poll
                | HciError::Read
                | HciError::ConnectionList => error.text(detail) == bare + detail,
                HciError::DeviceNotFound => error.text(detail) == "device "@ + detail
                    + " not found in HCI connection list"@,
                _ => error.text(detail) == bare,
            }
        }),
{
    let bare = error.text(Seq::<char>::empty());
    match error {
        HciError::OpenRaw
        | HciError::OpenMonitor
        | HciError::Bind { .. }
        | HciError::Filter
        | HciError::Write { .. }
        | HciError::Poll
        | HciError::Read
        | HciError::ConnectionList => {
            assert(error.text(detail) =~= bare + detail);
        },
        _ => {},
    }
}

/// The numbers of an error stand in its message: device and channel in decimal, opcodes
/// in four hexadecimal digits, statuses and packet types in two.
pub proof fn law_messages_carry_their_numbers(
    a: u16,
    b: u16,
    written: u64,
    length: u64,
    byte: u8,
    detail: Seq<char>,
)
    ensures
        (HciError::Bind { dev: a, channel: b }).text(detail) == "bind HCI socket (dev="@ + decimal(
            a as nat,
        ) + ", channel="@ + decimal(b as nat) + "): "@ + detail,
        (HciError::Write { opcode: a }).text(detail) == "write HCI command 0x"@ + hex_word(a)
            + ": "@ + detail,
        (HciError::ShortWrite { opcode: a, written, length }).text(detail)
            == "short write HCI command 0x"@ + hex_word(a) + ": "@ + decimal(written as nat) + "/"@
            + decimal(length as nat) + " bytes"@,
        (HciError::UnexpectedFrame { kind: byte }).text(detail) == "unexpected HCI frame type: 0x"@
            + hex_byte(byte),
        (HciError::CommandStatus { status: byte }).text(detail)
            == "LE Connection Update command status 0x"@ + hex_byte(byte),
        (HciError::CommandComplete { status: byte }).text(detail)
            == "LE Connection Update command complete status 0x"@ + hex_byte(byte),
        (HciError::Rejected { status: byte }).text(detail)
            == "LE Connection Update rejected, status 0x"@ + hex_byte(byte),
{
}

/// Only one answer is right: the handle of the first connection to the device, whatever
/// connections come after it, and that the device was not found where there is none.
pub proof fn law_only_the_first_handle_is_right(
    answer: Result<u16, HciError>,
    conns: Seq<HciConnInfo>,
    address: Seq<char>,
    at: int,
)
    requires
        is_first_handle(answer, conns, address),
    ensures
        0 <= at < conns.len() && is_connection_to(conns[at], address) && (forall|i: int|
            0 <= i < at ==> !is_connection_to(#[trigger] conns[i], address)) ==> answer == Ok::<
            u16,
            HciError,
        >(conns[at].handle),
        (forall|i: int| 0 <= i < conns.len() ==> !is_connection_to(#[trigger] conns[i], address))
            ==> answer == Err::<u16, HciError>(HciError::DeviceNotFound),
{
}

} // verus!
