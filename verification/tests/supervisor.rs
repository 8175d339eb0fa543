use garage_beam::ble::CONNECT_BOUND;
use garage_beam::supervisor::{Publication, Supervisor, SupervisorAction, SupervisorEvent};
use garage_beam::time::SECOND;

const LAMP: &str = "AA:BB:CC:DD:EE:FF";

fn supervisor() -> Supervisor {
    Supervisor::new(LAMP.to_string())
}

fn discovered(address: &str, elapsed: u128) -> SupervisorEvent<'_> {
    SupervisorEvent::Discovered { address, elapsed }
}

/// Steps through the expected actions, each of which succeeds.
fn expect(supervisor: &mut Supervisor, actions: &[SupervisorAction]) {
    for action in actions {
        assert_eq!(supervisor.action(), *action);
        supervisor.step(SupervisorEvent::Done);
    }
}

fn scanning() -> Supervisor {
    let mut supervisor = supervisor();
    expect(
        &mut supervisor,
        &[SupervisorAction::SetUp, SupervisorAction::StartScan],
    );
    supervisor
}

fn holding() -> Supervisor {
    let mut supervisor = scanning();
    supervisor.step(discovered("aa:bb:cc:dd:ee:ff", SECOND));
    expect(
        &mut supervisor,
        &[
            SupervisorAction::ConnectCandidate,
            SupervisorAction::StopScan,
            SupervisorAction::StoreConnection,
            SupervisorAction::AdvanceEpoch,
            SupervisorAction::Publish(Publication::Connected),
            SupervisorAction::DrainReconnects,
        ],
    );
    assert_eq!(supervisor.action(), SupervisorAction::AwaitLoss);
    supervisor
}

#[test]
fn acquired_link_is_announced_in_order() {
    holding();
}

#[test]
fn other_devices_are_passed_over() {
    let mut supervisor = scanning();
    supervisor.step(discovered("11:22:33:44:55:66", SECOND));
    assert_eq!(supervisor.action(), SupervisorAction::AwaitDiscovery);
    supervisor.step(SupervisorEvent::Unrelated);
    supervisor.step(SupervisorEvent::Disconnected { ours: true });
    supervisor.step(SupervisorEvent::ReconnectRequested);
    assert_eq!(supervisor.action(), SupervisorAction::AwaitDiscovery);
    supervisor.step(discovered(LAMP, CONNECT_BOUND - 1));
    assert_eq!(supervisor.action(), SupervisorAction::ConnectCandidate);
}

#[test]
fn device_found_too_late_is_given_up() {
    let mut supervisor = scanning();
    supervisor.step(discovered(LAMP, CONNECT_BOUND));
    expect(
        &mut supervisor,
        &[
            SupervisorAction::StopScan,
            SupervisorAction::Sleep(SECOND),
            SupervisorAction::StartScan,
        ],
    );
}

#[test]
fn failed_connection_is_dropped_and_counted() {
    let mut supervisor = scanning();
    supervisor.step(discovered(LAMP, SECOND));
    supervisor.step(SupervisorEvent::Failed);
    expect(
        &mut supervisor,
        &[
            SupervisorAction::DropCandidate,
            SupervisorAction::StopScan,
            SupervisorAction::Sleep(SECOND),
            SupervisorAction::StartScan,
        ],
    );
}

#[test]
fn scan_that_cannot_start_is_stopped_and_counted() {
    let mut supervisor = supervisor();
    supervisor.step(SupervisorEvent::Done);
    supervisor.step(SupervisorEvent::Failed);
    expect(
        &mut supervisor,
        &[SupervisorAction::StopScan, SupervisorAction::Sleep(SECOND)],
    );
}

#[test]
fn session_is_rebuilt_after_five_missed_scans() {
    let mut supervisor = supervisor();
    for _ in 0..2 {
        expect(&mut supervisor, &[SupervisorAction::SetUp]);
        for delay in [1, 2, 4, 8, 8] {
            expect(&mut supervisor, &[SupervisorAction::StartScan]);
            supervisor.step(SupervisorEvent::DeadlineReached);
            expect(
                &mut supervisor,
                &[
                    SupervisorAction::StopScan,
                    SupervisorAction::Sleep(delay * SECOND),
                ],
            );
        }
    }
    assert_eq!(supervisor.action(), SupervisorAction::SetUp);
}

#[test]
fn session_is_rebuilt_whatever_made_the_scans_miss() {
    let mut supervisor = supervisor();
    expect(&mut supervisor, &[SupervisorAction::SetUp]);
    for (scan, delay) in [1, 2, 4, 8, 8].into_iter().enumerate() {
        assert_eq!(supervisor.action(), SupervisorAction::StartScan);
        match scan {
            0 => supervisor.step(SupervisorEvent::Failed),
            1 => {
                supervisor.step(SupervisorEvent::Done);
                supervisor.step(SupervisorEvent::DeadlineReached);
            }
            2 => {
                supervisor.step(SupervisorEvent::Done);
                supervisor.step(discovered(LAMP, SECOND));
                supervisor.step(SupervisorEvent::Failed);
                expect(&mut supervisor, &[SupervisorAction::DropCandidate]);
            }
            3 => {
                supervisor.step(SupervisorEvent::Done);
                supervisor.step(discovered("11:22:33:44:55:66", CONNECT_BOUND));
            }
            _ => {
                supervisor.step(SupervisorEvent::Done);
                supervisor.step(SupervisorEvent::Unrelated);
                supervisor.step(SupervisorEvent::DeadlineReached);
            }
        }
        expect(
            &mut supervisor,
            &[
                SupervisorAction::StopScan,
                SupervisorAction::Sleep(delay * SECOND),
            ],
        );
    }
    assert_eq!(supervisor.action(), SupervisorAction::SetUp);
}

#[test]
fn link_clears_the_count_of_missed_scans() {
    let mut supervisor = scanning();
    supervisor.step(SupervisorEvent::DeadlineReached);
    expect(
        &mut supervisor,
        &[
            SupervisorAction::StopScan,
            SupervisorAction::Sleep(SECOND),
            SupervisorAction::StartScan,
        ],
    );
    supervisor.step(discovered(LAMP, SECOND));
    for _ in 0..6 {
        supervisor.step(SupervisorEvent::Done);
    }
    supervisor.step(SupervisorEvent::Disconnected { ours: true });
    expect(
        &mut supervisor,
        &[
            SupervisorAction::ReleaseConnection,
            SupervisorAction::Publish(Publication::Waiting),
            SupervisorAction::StartScan,
        ],
    );
    supervisor.step(SupervisorEvent::DeadlineReached);
    expect(
        &mut supervisor,
        &[SupervisorAction::StopScan, SupervisorAction::Sleep(SECOND)],
    );
}

#[test]
fn failed_setup_is_reported_and_retried() {
    let mut supervisor = supervisor();
    for delay in [1, 2, 4, 8, 8, 8] {
        assert_eq!(supervisor.action(), SupervisorAction::SetUp);
        supervisor.step(SupervisorEvent::Failed);
        expect(
            &mut supervisor,
            &[
                SupervisorAction::Publish(Publication::SetupFailed),
                SupervisorAction::Sleep(delay * SECOND),
            ],
        );
    }
    // A session clears the count.
    expect(
        &mut supervisor,
        &[SupervisorAction::SetUp, SupervisorAction::StartScan],
    );
    supervisor.step(SupervisorEvent::DeadlineReached);
    expect(
        &mut supervisor,
        &[SupervisorAction::StopScan, SupervisorAction::Sleep(SECOND)],
    );
}

#[test]
fn stream_that_ends_while_scanning_rebuilds_the_session() {
    let mut supervisor = scanning();
    supervisor.step(SupervisorEvent::StreamEnded);
    expect(
        &mut supervisor,
        &[
            SupervisorAction::StopScan,
            SupervisorAction::Publish(Publication::StreamEnded),
            SupervisorAction::SetUp,
        ],
    );
}

#[test]
fn held_link_is_released_when_lost() {
    for event in [
        SupervisorEvent::Disconnected { ours: true },
        SupervisorEvent::ReconnectRequested,
    ] {
        let mut supervisor = holding();
        supervisor.step(event);
        expect(
            &mut supervisor,
            &[
                SupervisorAction::ReleaseConnection,
                SupervisorAction::Publish(Publication::Waiting),
                SupervisorAction::StartScan,
            ],
        );
    }
}

#[test]
fn held_link_is_released_when_the_stream_ends() {
    let mut supervisor = holding();
    supervisor.step(SupervisorEvent::StreamEnded);
    expect(
        &mut supervisor,
        &[
            SupervisorAction::ReleaseConnection,
            SupervisorAction::Publish(Publication::StreamEnded),
            SupervisorAction::SetUp,
        ],
    );
}

#[test]
fn held_link_survives_everything_else() {
    let mut supervisor = holding();
    supervisor.step(SupervisorEvent::Disconnected { ours: false });
    supervisor.step(SupervisorEvent::Unrelated);
    supervisor.step(discovered(LAMP, 0));
    supervisor.step(SupervisorEvent::Done);
    supervisor.step(SupervisorEvent::Failed);
    supervisor.step(SupervisorEvent::DeadlineReached);
    assert_eq!(supervisor.action(), SupervisorAction::AwaitLoss);
}
