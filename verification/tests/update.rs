use garage_beam::hci::HciError;
use garage_beam::time::SECOND;
use garage_beam::update::{
    read_signal, ConnectionUpdate, Signal, UpdateAction, CONN_UPDATE_TIMEOUT,
};

const HANDLE: u16 = 0x0040;
const STATUS_OK: [u8; 6] = [0x0f, 0x04, 0x00, 0x01, 0x13, 0x20];
const COMPLETE_OK: [u8; 6] = [0x0e, 0x04, 0x01, 0x13, 0x20, 0x00];
const UPDATED: [u8; 8] = [0x3e, 0x0a, 0x03, 0x00, 0x40, 0x00, 0x06, 0x00];

fn finished(outcome: Result<(), HciError>) -> UpdateAction {
    UpdateAction::Finish(outcome)
}

#[test]
fn events_are_told_apart() {
    assert_eq!(read_signal(HANDLE, &STATUS_OK), Signal::CommandAccepted);
    assert_eq!(read_signal(HANDLE, &COMPLETE_OK), Signal::CommandAccepted);
    assert_eq!(read_signal(HANDLE, &UPDATED), Signal::Completed);
    // Of another command.
    assert_eq!(
        read_signal(HANDLE, &[0x0f, 0x04, 0x0c, 0x01, 0x03, 0x0c]),
        Signal::Unrelated
    );
    assert_eq!(
        read_signal(HANDLE, &[0x0e, 0x04, 0x01, 0x03, 0x0c, 0x0c]),
        Signal::Unrelated
    );
    // Of another connection, even one that failed.
    assert_eq!(
        read_signal(HANDLE, &[0x3e, 0x0a, 0x03, 0x3a, 0x41, 0x00, 0x06, 0x00]),
        Signal::Unrelated
    );
    // Cut short.
    assert_eq!(read_signal(HANDLE, &STATUS_OK[..5]), Signal::Unrelated);
    assert_eq!(read_signal(HANDLE, &UPDATED[..7]), Signal::Unrelated);
    assert_eq!(read_signal(HANDLE, &[0x0f, 0x04]), Signal::Unrelated);
    assert_eq!(read_signal(HANDLE, &[]), Signal::Unrelated);
}

#[test]
fn failures_are_told_apart() {
    assert_eq!(
        read_signal(HANDLE, &[0x0f, 0x04, 0x0c, 0x01, 0x13, 0x20]),
        Signal::Failed(HciError::CommandStatus { status: 0x0c })
    );
    assert_eq!(
        read_signal(HANDLE, &[0x0e, 0x04, 0x01, 0x13, 0x20, 0x12]),
        Signal::Failed(HciError::CommandComplete { status: 0x12 })
    );
    assert_eq!(
        read_signal(HANDLE, &[0x3e, 0x0a, 0x03, 0x3a, 0x40, 0x00, 0x06, 0x00]),
        Signal::Failed(HciError::Rejected { status: 0x3a })
    );
}

#[test]
fn update_needs_both_signals_in_either_order() {
    assert_eq!(CONN_UPDATE_TIMEOUT, 15 * SECOND);
    let orders: [[&[u8]; 2]; 4] = [
        [&STATUS_OK, &UPDATED],
        [&UPDATED, &STATUS_OK],
        [&COMPLETE_OK, &UPDATED],
        [&UPDATED, &COMPLETE_OK],
    ];
    for [first, second] in orders {
        let mut update = ConnectionUpdate::new(HANDLE, 0);
        assert_eq!(update.action(0), UpdateAction::ReadEvent);
        update.on_event(first);
        assert_eq!(update.action(SECOND), UpdateAction::ReadEvent);
        update.on_event(first);
        assert_eq!(update.action(SECOND), UpdateAction::ReadEvent);
        update.on_event(second);
        assert_eq!(update.action(SECOND), finished(Ok(())));
        // The outcome stands, whatever comes later.
        update.on_event(&[0x0f, 0x04, 0x0c, 0x01, 0x13, 0x20]);
        assert_eq!(update.action(100 * SECOND), finished(Ok(())));
    }
}

#[test]
fn failure_ends_the_update() {
    let mut update = ConnectionUpdate::new(HANDLE, 0);
    update.on_event(&STATUS_OK);
    update.on_event(&[0x3e, 0x0a, 0x03, 0x3a, 0x40, 0x00, 0x06, 0x00]);
    let failed = finished(Err(HciError::Rejected { status: 0x3a }));
    assert_eq!(update.action(0), failed);
    update.on_event(&UPDATED);
    assert_eq!(update.action(0), failed);
}

#[test]
fn timeout_names_what_is_missing() {
    let mut update = ConnectionUpdate::new(HANDLE, SECOND);
    assert_eq!(update.action(16 * SECOND - 1), UpdateAction::ReadEvent);
    assert_eq!(
        update.action(16 * SECOND),
        finished(Err(HciError::NoUpdateComplete))
    );
    update.on_event(&UPDATED);
    assert_eq!(
        update.action(16 * SECOND),
        finished(Err(HciError::NoCommandStatus))
    );
}
