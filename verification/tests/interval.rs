use garage_beam::interval::{
    conn_update_params, decode_monitor_interval, decode_update_complete, le_update_complete_event,
    should_reapply, targeted_interval, word, IntervalDecision, REAPPLY_RATE_LIMIT, TARGET_INTERVAL,
};
use garage_beam::time::SECOND;

const NOW: u128 = 1_000_000_000_000;

#[test]
fn should_reapply_skips_at_target() {
    assert_eq!(
        should_reapply(TARGET_INTERVAL, None, NOW),
        IntervalDecision::Skip
    );
}

#[test]
fn should_reapply_applies_off_target_without_prior_attempt() {
    assert_eq!(should_reapply(0x0008, None, NOW), IntervalDecision::Apply);
}

#[test]
fn should_reapply_suppresses_second_off_target_inside_window() {
    let attempted = NOW;
    let now = attempted + SECOND;
    assert_eq!(
        should_reapply(0x0008, Some(attempted), now),
        IntervalDecision::Skip
    );
}

#[test]
fn should_reapply_applies_off_target_after_window() {
    let attempted = NOW;
    let now = attempted + REAPPLY_RATE_LIMIT;
    assert_eq!(
        should_reapply(0x0008, Some(attempted), now),
        IntervalDecision::Apply
    );
}

#[test]
fn should_reapply_skips_at_target_whatever_came_before() {
    assert_eq!(REAPPLY_RATE_LIMIT, 3 * SECOND);
    assert_eq!(
        should_reapply(TARGET_INTERVAL, Some(NOW), NOW + 100 * SECOND),
        IntervalDecision::Skip
    );
    assert_eq!(
        should_reapply(0x0008, Some(NOW), NOW - SECOND),
        IntervalDecision::Skip
    );
}

#[test]
fn conn_update_params_serialises_exact_block() {
    assert_eq!(
        conn_update_params(0x0040),
        [0x40, 0x00, 0x06, 0x00, 0x06, 0x00, 0x00, 0x00, 0x64, 0x00, 0x01, 0x00, 0x01, 0x00,]
    );
}

#[test]
fn conn_update_params_puts_the_low_byte_first() {
    assert_eq!(conn_update_params(0x1234)[0..2], [0x34, 0x12]);
}

#[test]
fn decode_update_complete_parses_le_meta() {
    let evt = [0x3e, 0x03, 0x00, 0x40, 0x00, 0x06, 0x00];
    assert_eq!(decode_update_complete(&evt), Some((0x0040, 0x00, 0x0006)));
}

#[test]
fn decode_update_complete_rejects_short_or_unrelated() {
    assert_eq!(decode_update_complete(&[]), None);
    assert_eq!(decode_update_complete(&[0x3e, 0x03, 0x00]), None);
    assert_eq!(
        decode_update_complete(&[0x3e, 0x02, 0x00, 0x40, 0x00, 0x06, 0x00]),
        None
    );
    assert_eq!(
        decode_update_complete(&[0x0e, 0x03, 0x00, 0x40, 0x00, 0x06, 0x00]),
        None
    );
}

#[test]
fn raw_events_have_a_length_byte() {
    let evt = [0x3e, 0x0a, 0x03, 0x3a, 0x41, 0x01, 0x08, 0x02, 0x00, 0x00];
    assert_eq!(le_update_complete_event(&evt), Some((0x0141, 0x3a, 0x0208)));
    assert_eq!(le_update_complete_event(&evt[..7]), None);
    assert_eq!(le_update_complete_event(&[0x3e]), None);
    assert_eq!(le_update_complete_event(&[]), None);
    let other = [0x3e, 0x0a, 0x01, 0x00, 0x41, 0x01, 0x08, 0x02];
    assert_eq!(le_update_complete_event(&other), None);
}

#[test]
fn decode_monitor_interval_reads_connection_update_complete() {
    let mut frame = vec![0x03, 0x00, 0x00, 0x00, 0x08, 0x00];
    frame.extend_from_slice(&[0x3e, 0x06, 0x03, 0x00, 0x40, 0x00, 0x06, 0x00]);
    assert_eq!(decode_monitor_interval(&frame), Some((0x0040, 0x0006)));
}

#[test]
fn targeted_interval_selects_only_our_handle() {
    let mut frame = vec![0x03, 0x00, 0x00, 0x00, 0x08, 0x00];
    frame.extend_from_slice(&[0x3e, 0x06, 0x03, 0x00, 0x40, 0x00, 0x06, 0x00]);
    assert_eq!(targeted_interval(0x0040, &frame), Some(0x0006));
    assert_eq!(targeted_interval(0x0041, &frame), None);
}

#[test]
fn decode_monitor_interval_ignores_non_event_frames() {
    let frame = [0x02, 0x00, 0x00, 0x00, 0x01, 0x00, 0xaa];
    assert_eq!(decode_monitor_interval(&frame), None);
}

#[test]
fn decode_monitor_interval_respects_the_stated_length() {
    let evt = [0x3e, 0x06, 0x03, 0x00, 0x40, 0x00, 0x06, 0x00];
    // Cut short of the stated length.
    let mut frame = vec![0x03, 0x00, 0x00, 0x00, 0x09, 0x00];
    frame.extend_from_slice(&evt);
    assert_eq!(decode_monitor_interval(&frame), None);
    // Bytes beyond it are left out.
    let mut frame = vec![0x03, 0x00, 0x00, 0x00, 0x07, 0x00];
    frame.extend_from_slice(&evt);
    assert_eq!(decode_monitor_interval(&frame), None);
    let mut frame = vec![0x03, 0x00, 0x00, 0x00, 0x08, 0x00];
    frame.extend_from_slice(&evt);
    frame.push(0xff);
    assert_eq!(decode_monitor_interval(&frame), Some((0x0040, 0x0006)));
    assert_eq!(decode_monitor_interval(&[0x03, 0x00]), None);
}

#[test]
fn words_have_the_low_byte_first() {
    assert_eq!(word(0x34, 0x12), 0x1234);
    assert_eq!(word(0xff, 0xff), 0xffff);
}
