use garage_beam::guard::{GuardEvent, GuardPhase, IntervalGuard};
use garage_beam::time::SECOND;

fn frame(handle: u8, interval: u8) -> Vec<u8> {
    vec![
        0x03, 0x00, 0x00, 0x00, 0x08, 0x00, 0x3e, 0x06, 0x03, 0x00, handle, 0x00, interval, 0x00,
    ]
}

fn offer(guard: &mut IntervalGuard, frame: &[u8], now: u128) -> GuardPhase {
    guard.step(GuardEvent::Polled { ret: 1 });
    assert_eq!(guard.phase, GuardPhase::Reading);
    guard.step(GuardEvent::Frame { frame, now });
    guard.phase
}

#[test]
fn report_off_target_is_acted_upon_once_per_window() {
    let mut guard = IntervalGuard::new(0x40);
    let off_target = frame(0x40, 0x08);
    assert_eq!(
        offer(&mut guard, &off_target, SECOND),
        GuardPhase::Reapplying { now: SECOND }
    );
    guard.step(GuardEvent::Requested { now: SECOND });
    assert_eq!(guard.last_attempt, Some(SECOND));
    assert_eq!(
        offer(&mut guard, &off_target, 4 * SECOND - 1),
        GuardPhase::Polling
    );
    assert_eq!(
        offer(&mut guard, &off_target, 4 * SECOND),
        GuardPhase::Reapplying { now: 4 * SECOND }
    );
}

#[test]
fn other_reports_are_passed_over() {
    let mut guard = IntervalGuard::new(0x40);
    assert_eq!(offer(&mut guard, &frame(0x40, 0x06), 0), GuardPhase::Polling);
    assert_eq!(offer(&mut guard, &frame(0x41, 0x08), 0), GuardPhase::Polling);
    assert_eq!(offer(&mut guard, &[0x02, 0x00], 0), GuardPhase::Polling);
    assert_eq!(guard.last_attempt, None);
}

#[test]
fn requests_are_counted_from_when_they_were_made() {
    let mut guard = IntervalGuard::new(0x40);
    let off_target = frame(0x40, 0x08);
    offer(&mut guard, &off_target, SECOND);
    // Neither stopping nor traffic is looked at until the request has been made.
    guard.step(GuardEvent::StopRequested);
    guard.step(GuardEvent::ReadEnded);
    assert_eq!(guard.phase, GuardPhase::Reapplying { now: SECOND });
    guard.step(GuardEvent::Requested { now: 2 * SECOND });
    assert_eq!(guard.phase, GuardPhase::Polling);
    assert_eq!(
        offer(&mut guard, &off_target, 5 * SECOND - 1),
        GuardPhase::Polling
    );
    assert_eq!(
        offer(&mut guard, &off_target, 5 * SECOND),
        GuardPhase::Reapplying { now: 5 * SECOND }
    );
}

#[test]
fn silence_keeps_the_guard_polling() {
    let mut guard = IntervalGuard::new(0x40);
    guard.step(GuardEvent::Polled { ret: 0 });
    assert_eq!(guard, IntervalGuard::new(0x40));
}

#[test]
fn guard_ends_by_closing_its_socket() {
    let ends: [&[GuardEvent]; 3] = [
        &[GuardEvent::StopRequested],
        &[GuardEvent::Polled { ret: -1 }],
        &[GuardEvent::Polled { ret: 1 }, GuardEvent::ReadEnded],
    ];
    for events in ends {
        let mut guard = IntervalGuard::new(0x40);
        for event in events {
            guard.step(*event);
        }
        assert_eq!(guard.phase, GuardPhase::Closing);
        guard.step(GuardEvent::Closed);
        assert_eq!(guard.phase, GuardPhase::Closed);
        guard.step(GuardEvent::Polled { ret: 1 });
        assert_eq!(guard.phase, GuardPhase::Closed);
    }
}
