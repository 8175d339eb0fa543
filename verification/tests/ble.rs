use garage_beam::ble::{
    backoff_delay, characteristic_uuid, connect_decision, fact_byte, service_uuid, should_reinit,
    ConnectDecision, ConnectionEpoch, CHARACTERISTIC_UUID, CONNECT_BOUND, FACT_BROKEN, FACT_INTACT,
    MAX_ATTEMPTS_BEFORE_REINIT, SERVICE_UUID,
};
use garage_beam::time::{Duration, SECOND};

#[test]
fn fact_byte_maps_both_states() {
    assert_eq!(fact_byte(false), FACT_INTACT);
    assert_eq!(fact_byte(true), FACT_BROKEN);
    assert_eq!(FACT_INTACT, 0x00);
    assert_eq!(FACT_BROKEN, 0x01);
}

#[test]
fn connects_on_matching_address_within_bound() {
    assert_eq!(
        connect_decision("AA:BB:CC:DD:EE:FF", "AA:BB:CC:DD:EE:FF", SECOND),
        ConnectDecision::Connect
    );
}

#[test]
fn connect_match_is_case_insensitive() {
    assert_eq!(
        connect_decision("aa:bb:cc:dd:ee:ff", "AA:BB:CC:DD:EE:FF", SECOND),
        ConnectDecision::Connect
    );
}

#[test]
fn waits_for_non_matching_address_within_bound() {
    assert_eq!(
        connect_decision("AA:BB:CC:DD:EE:FF", "11:22:33:44:55:66", SECOND),
        ConnectDecision::Wait
    );
}

#[test]
fn gives_up_at_and_beyond_bound() {
    assert_eq!(
        connect_decision("AA:BB:CC:DD:EE:FF", "AA:BB:CC:DD:EE:FF", CONNECT_BOUND),
        ConnectDecision::GiveUp
    );
    assert_eq!(
        connect_decision(
            "AA:BB:CC:DD:EE:FF",
            "11:22:33:44:55:66",
            CONNECT_BOUND + SECOND
        ),
        ConnectDecision::GiveUp
    );
}

#[test]
fn connects_up_to_the_last_nanosecond() {
    assert_eq!(CONNECT_BOUND, 30 * SECOND);
    assert_eq!(
        connect_decision("AA:BB:CC:DD:EE:FF", "AA:BB:CC:DD:EE:FF", CONNECT_BOUND - 1),
        ConnectDecision::Connect
    );
}

#[test]
fn backoff_delay_is_strictly_positive() {
    for attempt in 0..=10 {
        assert!(backoff_delay(attempt) > 0);
    }
}

#[test]
fn backoff_delay_is_monotonic_and_capped() {
    let mut previous = backoff_delay(0);
    for attempt in 1..=10 {
        let current = backoff_delay(attempt);
        assert!(current >= previous);
        previous = current;
    }
    assert_eq!(backoff_delay(3), 8 * SECOND);
    assert_eq!(backoff_delay(10), 8 * SECOND);
    assert_eq!(backoff_delay(u32::MAX), 8 * SECOND);
}

#[test]
fn reinit_not_triggered_below_bound() {
    for failed in 0..MAX_ATTEMPTS_BEFORE_REINIT {
        assert!(!should_reinit(failed), "unexpected reinit at {failed}");
    }
}

#[test]
fn reinit_triggered_at_and_above_bound() {
    assert!(should_reinit(MAX_ATTEMPTS_BEFORE_REINIT));
    assert!(should_reinit(MAX_ATTEMPTS_BEFORE_REINIT + 1));
    assert_eq!(MAX_ATTEMPTS_BEFORE_REINIT, 5);
}

#[test]
fn backoff_sequence_before_reinit_is_capped() {
    let sequence: Vec<Duration> = (0..MAX_ATTEMPTS_BEFORE_REINIT).map(backoff_delay).collect();
    assert_eq!(
        sequence,
        vec![SECOND, 2 * SECOND, 4 * SECOND, 8 * SECOND, 8 * SECOND]
    );
}

#[test]
fn epoch_first_connect_does_not_report_reconnect() {
    let mut epoch = ConnectionEpoch::new();
    epoch.advance();
    epoch.mark_seen();
    assert!(!epoch.poll());
}

#[test]
fn epoch_one_increment_resolves_exactly_once() {
    let mut epoch = ConnectionEpoch::new();
    epoch.advance();
    epoch.mark_seen();
    epoch.advance();
    assert!(epoch.poll());
    assert!(!epoch.poll());
}

#[test]
fn epoch_no_advance_does_not_resolve() {
    let mut epoch = ConnectionEpoch::new();
    epoch.advance();
    epoch.mark_seen();
    assert!(!epoch.poll());
    assert!(!epoch.poll());
}

#[test]
fn epoch_unmarked_increment_resolves_once() {
    let mut epoch = ConnectionEpoch::new();
    epoch.advance();
    assert!(epoch.poll());
    assert!(!epoch.poll());
}

#[test]
fn epoch_reports_every_link_once() {
    for links in 0..5 {
        let mut epoch = ConnectionEpoch::new();
        epoch.advance();
        epoch.mark_seen();
        for _ in 0..links {
            epoch.advance();
        }
        for _ in 0..links {
            assert!(epoch.poll());
        }
        assert!(!epoch.poll());
    }
}

#[test]
fn epoch_counts_links_that_come_up_between_reports() {
    let mut epoch = ConnectionEpoch::new();
    epoch.advance();
    epoch.advance();
    assert!(epoch.poll());
    epoch.advance();
    assert!(epoch.poll());
    assert!(epoch.poll());
    assert!(!epoch.poll());
    // A link that is marked seen takes those before it along.
    epoch.advance();
    epoch.advance();
    epoch.mark_seen();
    assert!(!epoch.poll());
}

#[test]
fn epoch_wraps_around() {
    let mut epoch = ConnectionEpoch {
        current: u64::MAX,
        last_seen: u64::MAX,
    };
    epoch.advance();
    epoch.advance();
    assert_eq!(epoch.current, 1);
    assert!(epoch.poll());
    assert_eq!(epoch.last_seen, 0);
    assert!(epoch.poll());
    assert!(!epoch.poll());
}

#[test]
fn uuids_have_their_numbers() {
    assert_eq!(service_uuid(), 0x6a4c0001_b5a3_4f1e_9c2d_7e8f9a0b1c2d);
    assert_eq!(
        characteristic_uuid(),
        0x6a4c0002_b5a3_4f1e_9c2d_7e8f9a0b1c2d
    );
    assert_eq!(
        uuid::Uuid::from_u128(service_uuid()).to_string(),
        SERVICE_UUID
    );
    assert_eq!(
        uuid::Uuid::from_u128(characteristic_uuid()).to_string(),
        CHARACTERISTIC_UUID
    );
}
