//! The connection interval: when to ask for it again, how the request is encoded, and
//! how the controller's reports are decoded.
use crate::time::{elapsed, saturating_duration_since, Duration, Instant};
use vstd::prelude::*;
use vstd::slice::slice_subrange;

verus! {

/// Event code of an LE meta event.
pub const HCI_EVENT_LE_META: u8 = 0x3e;

/// Subevent code of a completed connection update.
pub const LE_SUBEVENT_CONNECTION_UPDATE_COMPLETE: u8 = 0x03;

/// Length of the header of a monitor frame.
pub const HCI_MON_HDR_SIZE: usize = 6;

/// Opcode of a monitor frame that carries an event.
pub const HCI_MON_EVENT_PKT: u16 = 3;

/// 7.5 ms in units of 1.25 ms.
pub const TARGET_INTERVAL: u16 = 0x0006;

pub const SLAVE_LATENCY: u16 = 0;

/// 1000 ms in units of 10 ms.
pub const SUPERVISION_TIMEOUT: u16 = 0x0064;

/// Shortest time between two requests for the interval: 3 s.
pub const REAPPLY_RATE_LIMIT: Duration = 3_000_000_000;

/// Shortest connection event. The kernel's parameter block has 14 bytes; without the
/// trailing event lengths it is rejected as invalid.
pub const MIN_CE_LEN: u16 = 0x0001;

/// Longest connection event.
pub const MAX_CE_LEN: u16 = 0x0001;

#[derive(Debug, Clone, Copy, PartialEq, Eq, Structural)]
pub enum IntervalDecision {
    Apply,
    Skip,
}

/// An interval off target is asked for again, unless that was done within the limit.
pub open spec fn reapply_due(reported: u16, last_attempt: Option<Instant>, now: Instant) -> bool {
    &&& reported != TARGET_INTERVAL
    &&& last_attempt is Some ==> elapsed(now, last_attempt->0) >= REAPPLY_RATE_LIMIT
}

/// Whether to ask for the interval again, now that `reported` is in force.
pub fn should_reapply(reported: u16, last_attempt: Option<Instant>, now: Instant) -> (decision:
    IntervalDecision)
    ensures
        decision == (if reapply_due(reported, last_attempt, now) {
            IntervalDecision::Apply
        } else {
            IntervalDecision::Skip
        }),
{
    if reported == TARGET_INTERVAL {
        return IntervalDecision::Skip;
    }
    match last_attempt {
        None => IntervalDecision::Apply,
        Some(attempted) if saturating_duration_since(now, attempted) >= REAPPLY_RATE_LIMIT => {
            IntervalDecision::Apply
        },
        Some(_) => IntervalDecision::Skip,
    }
}

/// The two bytes of a 16-bit number, low byte first.
pub open spec fn le_bytes(value: u16) -> Seq<u8> {
    seq![(value % 256) as u8, (value / 256) as u8]
}

/// The 16-bit number that two bytes stand for, low byte first.
pub open spec fn le_word(low: u8, high: u8) -> u16 {
    (low + 256 * high) as u16
}

/// The 16-bit number that two bytes stand for, low byte first.
pub fn word(low: u8, high: u8) -> (value: u16)
    ensures
        value == le_word(low, high),
{
    (low as u16) + 256 * (high as u16)
}

/// Bytes and numbers correspond one to one.
pub proof fn law_le_bytes_round_trip(value: u16, low: u8, high: u8)
    ensures
        le_word(le_bytes(value)[0], le_bytes(value)[1]) == value,
        le_bytes(le_word(low, high)) == seq![low, high],
{
    assert(le_bytes(le_word(low, high)) =~= seq![low, high]);
}

/// The parameters of a connection update: handle, shortest and longest interval,
/// latency, supervision timeout, shortest and longest connection event.
pub open spec fn update_params(handle: u16) -> Seq<u8> {
    le_bytes(handle) + le_bytes(TARGET_INTERVAL) + le_bytes(TARGET_INTERVAL) + le_bytes(
        SLAVE_LATENCY,
    ) + le_bytes(SUPERVISION_TIMEOUT) + le_bytes(MIN_CE_LEN) + le_bytes(MAX_CE_LEN)
}

/// The parameters of the connection update that asks for the target interval.
pub fn conn_update_params(handle: u16) -> (params: [u8; 14])
    ensures
        params@ == update_params(handle),
{
    let params: [u8; 14] = [
        (handle % 256) as u8,
        (handle / 256) as u8,
        (TARGET_INTERVAL % 256) as u8,
        (TARGET_INTERVAL / 256) as u8,
        (TARGET_INTERVAL % 256) as u8,
        (TARGET_INTERVAL / 256) as u8,
        (SLAVE_LATENCY % 256) as u8,
        (SLAVE_LATENCY / 256) as u8,
        (SUPERVISION_TIMEOUT % 256) as u8,
        (SUPERVISION_TIMEOUT / 256) as u8,
        (MIN_CE_LEN % 256) as u8,
        (MIN_CE_LEN / 256) as u8,
        (MAX_CE_LEN % 256) as u8,
        (MAX_CE_LEN / 256) as u8,
    ];
    assert(params@ =~= update_params(handle));
    params
}

/// Handle, status and interval of a completed connection update, out of an event
/// without its length byte.
pub open spec fn update_complete(evt: Seq<u8>) -> Option<(u16, u8, u16)> {
    if evt.len() >= 7 && evt[0] == HCI_EVENT_LE_META && evt[1]
        == LE_SUBEVENT_CONNECTION_UPDATE_COMPLETE {
        Some((le_word(evt[3], evt[4]), evt[2], le_word(evt[5], evt[6])))
    } else {
        None
    }
}

/// Handle, status and interval of a completed connection update, out of an event
/// `[event_code, subevent, status, ...]` whose length byte has been stripped.
pub fn decode_update_complete(evt: &[u8]) -> (decoded: Option<(u16, u8, u16)>)
    ensures
        decoded == update_complete(evt@),
{
    if evt.len() < 7 || evt[0] != HCI_EVENT_LE_META || evt[1]
        != LE_SUBEVENT_CONNECTION_UPDATE_COMPLETE {
        return None;
    }
    let status: u8 = evt[2];
    let handle: u16 = word(evt[3], evt[4]);
    let interval: u16 = word(evt[5], evt[6]);
    Some((handle, status, interval))
}

/// The event without its length byte, which is its second.
pub open spec fn without_length(evt: Seq<u8>) -> Seq<u8> {
    if evt.len() < 2 {
        evt
    } else {
        evt.remove(1)
    }
}

/// Handle, status and interval of a completed connection update, out of a raw event.
///
/// A raw HCI event is `[event_code, param_len, params...]`, but the decoder expects
/// the length byte stripped: `[event_code, subevent, status, ...]`.
pub fn le_update_complete_event(evt: &[u8]) -> (decoded: Option<(u16, u8, u16)>)
    ensures
        decoded == update_complete(without_length(evt@)),
{
    if evt.len() < 8 || evt[0] != HCI_EVENT_LE_META || evt[2]
        != LE_SUBEVENT_CONNECTION_UPDATE_COMPLETE {
        return None;
    }
    let compact: [u8; 7] = [evt[0], evt[2], evt[3], evt[4], evt[5], evt[6], evt[7]];
    decode_update_complete(&compact)
}

/// The event that a monitor frame carries: the frame is long enough for the header
/// and the length that it states, and is of the kind that carries events.
pub open spec fn monitored_event(frame: Seq<u8>) -> Option<Seq<u8>> {
    if frame.len() >= HCI_MON_HDR_SIZE && le_word(frame[0], frame[1]) == HCI_MON_EVENT_PKT
        && frame.len() >= HCI_MON_HDR_SIZE + le_word(frame[4], frame[5]) {
        Some(
            frame.subrange(
                HCI_MON_HDR_SIZE as int,
                HCI_MON_HDR_SIZE + le_word(frame[4], frame[5]),
            ),
        )
    } else {
        None
    }
}

/// Handle and interval of a completed connection update, out of a monitor frame.
pub open spec fn monitored_interval(frame: Seq<u8>) -> Option<(u16, u16)> {
    match monitored_event(frame) {
        None => None,
        Some(evt) => match update_complete(without_length(evt)) {
            None => None,
            Some((handle, status, interval)) => Some((handle, interval)),
        },
    }
}

/// Handle and interval of a completed connection update, out of a monitor frame.
pub fn decode_monitor_interval(frame: &[u8]) -> (decoded: Option<(u16, u16)>)
    ensures
        decoded == monitored_interval(frame@),
{
    if frame.len() < HCI_MON_HDR_SIZE {
        return None;
    }
    let opcode: u16 = word(frame[0], frame[1]);
    if opcode != HCI_MON_EVENT_PKT {
        return None;
    }
    let len: usize = word(frame[4], frame[5]) as usize;
    if frame.len() < HCI_MON_HDR_SIZE + len {
        return None;
    }
    let evt: &[u8] = slice_subrange(frame, HCI_MON_HDR_SIZE, HCI_MON_HDR_SIZE + len);
    match le_update_complete_event(evt) {
        Some((handle, _, interval)) => Some((handle, interval)),
        None => None,
    }
}

/// The interval that a monitor frame reports for one connection.
pub open spec fn interval_for(our_handle: u16, frame: Seq<u8>) -> Option<u16> {
    match monitored_interval(frame) {
        Some((handle, interval)) => if handle == our_handle {
            Some(interval)
        } else {
            None
        },
        None => None,
    }
}

/// The interval that a monitor frame reports for our connection.
pub fn targeted_interval(our_handle: u16, frame: &[u8]) -> (interval: Option<u16>)
    ensures
        interval == interval_for(our_handle, frame@),
{
    match decode_monitor_interval(frame) {
        Some((handle, interval)) if handle == our_handle => Some(interval),
        _ => None,
    }
}

/// The raw event by which a controller reports a completed connection update, with
/// whatever parameters follow the interval.
pub open spec fn encoded_update_complete(
    handle: u16,
    status: u8,
    interval: u16,
    length: u8,
    rest: Seq<u8>,
) -> Seq<u8> {
    seq![HCI_EVENT_LE_META, length, LE_SUBEVENT_CONNECTION_UPDATE_COMPLETE, status] + le_bytes(
        handle,
    ) + le_bytes(interval) + rest
}

/// The monitor frame that carries an event from a controller, and whatever follows it.
pub open spec fn encoded_frame(index: u16, evt: Seq<u8>, rest: Seq<u8>) -> Seq<u8> {
    le_bytes(HCI_MON_EVENT_PKT) + le_bytes(index) + le_bytes(evt.len() as u16) + evt + rest
}

/// What a controller reports is what is decoded: status, handle and interval come out
/// of the event as they went in, whatever its length byte says and whatever follows.
pub proof fn law_update_complete_round_trip(
    handle: u16,
    status: u8,
    interval: u16,
    length: u8,
    rest: Seq<u8>,
)
    ensures
        update_complete(
            without_length(encoded_update_complete(handle, status, interval, length, rest)),
        ) == Some((handle, status, interval)),
{
    law_le_bytes_round_trip(handle, 0, 0);
    law_le_bytes_round_trip(interval, 0, 0);
    let evt = encoded_update_complete(handle, status, interval, length, rest);
    let compact = without_length(evt);
    assert(evt.len() >= 8);
    assert(compact[1] == evt[2] && compact[2] == evt[3] && compact[3] == evt[4] && compact[4]
        == evt[5] && compact[5] == evt[6] && compact[6] == evt[7]);
}

/// A monitor frame yields the event that it carries, and bytes after it play no part.
pub proof fn law_monitor_frame_round_trip(index: u16, evt: Seq<u8>, rest: Seq<u8>)
    requires
        evt.len() <= u16::MAX,
    ensures
        monitored_event(encoded_frame(index, evt, rest)) == Some(evt),
{
    let frame = encoded_frame(index, evt, rest);
    law_le_bytes_round_trip(HCI_MON_EVENT_PKT, 0, 0);
    law_le_bytes_round_trip(evt.len() as u16, 0, 0);
    assert(frame[0] == le_bytes(HCI_MON_EVENT_PKT)[0] && frame[1] == le_bytes(
        HCI_MON_EVENT_PKT,
    )[1]);
    assert(frame[4] == le_bytes(evt.len() as u16)[0] && frame[5] == le_bytes(evt.len() as u16)[1]);
    assert(frame.subrange(6, 6 + evt.len() as int) =~= evt);
}

/// Only the connection that is looked for has its interval picked out of a frame,
/// whatever parameters follow the interval and whatever follows the event.
pub proof fn law_only_our_connection_is_targeted(
    our_handle: u16,
    index: u16,
    handle: u16,
    status: u8,
    interval: u16,
    length: u8,
    params: Seq<u8>,
    rest: Seq<u8>,
)
    requires
        params.len() + 8 <= u16::MAX,
    ensures
        interval_for(
            our_handle,
            encoded_frame(
                index,
                encoded_update_complete(handle, status, interval, length, params),
                rest,
            ),
        ) == (if handle == our_handle {
            Some(interval)
        } else {
            None
        }),
{
    let evt = encoded_update_complete(handle, status, interval, length, params);
    law_update_complete_round_trip(handle, status, interval, length, params);
    law_monitor_frame_round_trip(index, evt, rest);
}

/// At the target nothing is asked for, and off it nothing is asked for twice within
/// the limit.
pub proof fn law_reapply_is_rate_limited(reported: u16, attempted: Instant, now: Instant)
    ensures
        !reapply_due(TARGET_INTERVAL, None, now),
        !reapply_due(TARGET_INTERVAL, Some(attempted), now),
        elapsed(now, attempted) < REAPPLY_RATE_LIMIT ==> !reapply_due(
            reported,
            Some(attempted),
            now,
        ),
        reported != TARGET_INTERVAL ==> reapply_due(reported, None, now),
{
}

/// An interval off target is asked for again however long ago that was last done, as long
/// as the limit has passed since; never sooner; and at once if it was never done.
pub proof fn law_drift_is_always_answered(reported: u16, attempted: Instant, now: Instant)
    requires
        reported != TARGET_INTERVAL,
    ensures
        reapply_due(reported, None, now),
        reapply_due(reported, Some(attempted), now) <==> now >= attempted + REAPPLY_RATE_LIMIT,
{
}

/// The first byte of a number is its units and the second counts 256s.
pub proof fn law_low_byte_comes_first(value: u16, low: u8, high: u8)
    ensures
        le_word(low, high) == low + 256 * high,
        le_bytes(value).len() == 2,
        le_bytes(value)[0] + 256 * le_bytes(value)[1] == value,
{
}

/// The parameters of an update are seven numbers: the connection, the target as both
/// ends of the interval, the latency, the supervision timeout, and the event lengths.
pub proof fn law_update_params_carry_their_numbers(handle: u16)
    ensures
        ({
            let params = update_params(handle);
            &&& params.len() == 14
            &&& params[0] + 256 * params[1] == handle
            &&& params[2] + 256 * params[3] == TARGET_INTERVAL
            &&& params[4] + 256 * params[5] == TARGET_INTERVAL
            &&& params[6] + 256 * params[7] == SLAVE_LATENCY
            &&& params[8] + 256 * params[9] == SUPERVISION_TIMEOUT
            &&& params[10] + 256 * params[11] == MIN_CE_LEN
            &&& params[12] + 256 * params[13] == MAX_CE_LEN
        }),
{
}

/// Of an event without its length byte, a report of an update yields its numbers, however
/// many bytes follow the interval; anything shorter, and any other event, yields none.
pub proof fn law_reports_are_told_from_other_events(evt: Seq<u8>)
    ensures
        update_complete(evt) is Some <==> evt.len() >= 7 && evt[0] == 0x3e && evt[1] == 0x03,
        update_complete(evt) matches Some((handle, status, interval)) ==> status == evt[2]
            && handle == evt[3] + 256 * evt[4] && interval == evt[5] + 256 * evt[6],
{
}

/// Only what a controller reports is decoded: an event that yields numbers is the report
/// of just these.
pub proof fn law_only_reports_are_decoded(evt: Seq<u8>)
    ensures
        update_complete(without_length(evt)) matches Some((handle, status, interval)) ==> {
            &&& evt.len() >= 8
            &&& evt == encoded_update_complete(handle, status, interval, evt[1], evt.skip(8))
        },
{
    if let Some((handle, status, interval)) = update_complete(without_length(evt)) {
        let compact = without_length(evt);
        assert(evt.len() >= 8);
        assert(compact[1] == evt[2] && compact[2] == evt[3] && compact[3] == evt[4] && compact[4]
            == evt[5] && compact[5] == evt[6] && compact[6] == evt[7]);
        law_le_bytes_round_trip(0, evt[4], evt[5]);
        law_le_bytes_round_trip(0, evt[6], evt[7]);
        assert(evt =~= encoded_update_complete(handle, status, interval, evt[1], evt.skip(8)));
    }
}

/// Stripping the length byte takes out the second byte and nothing else.
pub proof fn law_length_byte_is_the_second(code: u8, length: u8, rest: Seq<u8>)
    ensures
        without_length(seq![code, length] + rest) == seq![code] + rest,
{
    assert(without_length(seq![code, length] + rest) =~= seq![code] + rest);
}

/// Only a frame that carries an event yields one, and then it is that event.
pub proof fn law_only_event_frames_are_opened(frame: Seq<u8>)
    ensures
        monitored_event(frame) matches Some(evt) ==> {
            &&& frame.len() >= 6 + evt.len()
            &&& evt.len() == frame[4] + 256 * frame[5]
            &&& frame == encoded_frame(
                le_word(frame[2], frame[3]),
                evt,
                frame.skip(6 + evt.len() as int),
            )
        },
{
    if let Some(evt) = monitored_event(frame) {
        law_le_bytes_round_trip(0, frame[0], frame[1]);
        law_le_bytes_round_trip(0, frame[2], frame[3]);
        law_le_bytes_round_trip(0, frame[4], frame[5]);
        assert(frame =~= encoded_frame(
            le_word(frame[2], frame[3]),
            evt,
            frame.skip(6 + evt.len() as int),
        ));
    }
}

/// The handle and the interval that a frame yields are those of the report in the event
/// that it carries, and a frame that yields none carries no report.
pub proof fn law_frame_yields_its_report(frame: Seq<u8>)
    ensures
        match monitored_event(frame) {
            None => monitored_interval(frame) is None,
            Some(evt) => match update_complete(without_length(evt)) {
                None => monitored_interval(frame) is None,
                Some(report) => monitored_interval(frame) == Some((report.0, report.2)),
            },
        },
{
}

/// The interval of a connection is taken only from a report of that connection.
pub proof fn law_interval_is_taken_from_our_report(our_handle: u16, frame: Seq<u8>)
    ensures
        interval_for(our_handle, frame) matches Some(interval) ==> monitored_interval(frame)
            == Some((our_handle, interval)),
        monitored_interval(frame) matches Some(report) ==> interval_for(report.0, frame) == Some(
            report.1,
        ),
{
}

} // verus!
