use garage_beam::hci::HciError;
use garage_beam::socket::{
    ApplyEvent, ApplyPhase, SocketKind, SocketPhase, SocketSetup, StartEvent, StartPhase,
};

fn setup(kind: SocketKind, returns: &[i32]) -> SocketPhase {
    let mut setup = SocketSetup::new(kind);
    for ret in returns {
        setup.step(*ret);
    }
    setup.phase
}

#[test]
fn sockets_have_their_addresses() {
    assert_eq!((SocketKind::Raw.dev(), SocketKind::Raw.channel()), (0, 0));
    assert_eq!(
        (SocketKind::Monitor.dev(), SocketKind::Monitor.channel()),
        (0xffff, 2)
    );
}

#[test]
fn raw_socket_is_bound_and_filtered() {
    assert_eq!(setup(SocketKind::Raw, &[]), SocketPhase::Creating);
    assert_eq!(setup(SocketKind::Raw, &[7]), SocketPhase::Binding { fd: 7 });
    assert_eq!(
        setup(SocketKind::Raw, &[7, 0]),
        SocketPhase::Filtering { fd: 7 }
    );
    assert_eq!(
        setup(SocketKind::Raw, &[7, 0, 0]),
        SocketPhase::Ready { fd: 7 }
    );
}

#[test]
fn monitor_socket_is_bound() {
    assert_eq!(
        setup(SocketKind::Monitor, &[7, 0]),
        SocketPhase::Ready { fd: 7 }
    );
}

#[test]
fn socket_that_fails_is_closed() {
    assert_eq!(
        setup(SocketKind::Raw, &[-1]),
        SocketPhase::Failed {
            error: HciError::OpenRaw
        }
    );
    assert_eq!(
        setup(SocketKind::Monitor, &[-1]),
        SocketPhase::Failed {
            error: HciError::OpenMonitor
        }
    );
    let error = HciError::Bind { dev: 0, channel: 0 };
    assert_eq!(
        setup(SocketKind::Raw, &[7, -1]),
        SocketPhase::Closing { fd: 7, error }
    );
    assert_eq!(
        setup(SocketKind::Raw, &[7, -1, -1]),
        SocketPhase::Failed { error }
    );
    let error = HciError::Bind {
        dev: 0xffff,
        channel: 2,
    };
    assert_eq!(
        setup(SocketKind::Monitor, &[7, -1, 0]),
        SocketPhase::Failed { error }
    );
    let error = HciError::Filter;
    assert_eq!(
        setup(SocketKind::Raw, &[7, 0, -1]),
        SocketPhase::Closing { fd: 7, error }
    );
    assert_eq!(
        setup(SocketKind::Raw, &[7, 0, -1, 0]),
        SocketPhase::Failed { error }
    );
}

fn apply(events: &[ApplyEvent]) -> ApplyPhase {
    let mut phase = ApplyPhase::Opening;
    for event in events {
        phase.step(*event);
    }
    phase
}

#[test]
fn request_closes_its_socket_whatever_happens() {
    let opened = ApplyEvent::Opened { fd: 7 };
    let resolved = ApplyEvent::Resolved { handle: 0x40 };
    assert_eq!(
        apply(&[ApplyEvent::Failed]),
        ApplyPhase::Finished { applied: false }
    );
    assert_eq!(
        apply(&[opened, ApplyEvent::Failed]),
        ApplyPhase::Closing {
            fd: 7,
            applied: false
        }
    );
    assert_eq!(
        apply(&[opened, resolved]),
        ApplyPhase::Updating {
            fd: 7,
            handle: 0x40
        }
    );
    assert_eq!(
        apply(&[opened, resolved, ApplyEvent::Failed]),
        ApplyPhase::Closing {
            fd: 7,
            applied: false
        }
    );
    assert_eq!(
        apply(&[opened, resolved, ApplyEvent::Done]),
        ApplyPhase::Closing {
            fd: 7,
            applied: true
        }
    );
    assert_eq!(
        apply(&[opened, resolved, ApplyEvent::Done, ApplyEvent::Done]),
        ApplyPhase::Finished { applied: true }
    );
}

fn start(events: &[StartEvent]) -> StartPhase {
    let mut phase = StartPhase::Locking;
    for event in events {
        phase.step(*event);
    }
    phase
}

#[test]
fn guard_starts_step_by_step() {
    let raw = StartEvent::Opened { fd: 7 };
    let resolved = StartEvent::Resolved { handle: 0x40 };
    let monitor = StartEvent::Opened { fd: 8 };
    let done = StartEvent::Done;
    let run = [done, raw, resolved, done, monitor, done, done, done];
    let phases = [
        StartPhase::Locking,
        StartPhase::OpeningRaw,
        StartPhase::Resolving { fd: 7 },
        StartPhase::ClosingRaw {
            fd: 7,
            resolved: Some(0x40),
        },
        StartPhase::OpeningMonitor { handle: 0x40 },
        StartPhase::Spawning {
            fd: 8,
            handle: 0x40,
        },
        StartPhase::StoppingPrevious,
        StartPhase::Storing,
        StartPhase::Active,
    ];
    for (count, phase) in phases.iter().enumerate() {
        assert_eq!(start(&run[..count]), *phase);
    }
}

#[test]
fn started_guard_cannot_fail() {
    let run = [
        StartEvent::Done,
        StartEvent::Opened { fd: 7 },
        StartEvent::Resolved { handle: 0x40 },
        StartEvent::Done,
        StartEvent::Opened { fd: 8 },
        StartEvent::Done,
        StartEvent::Done,
        StartEvent::Done,
    ];
    for count in 6..=8 {
        let mut phase = start(&run[..count]);
        let before = phase;
        phase.step(StartEvent::Failed);
        assert_eq!(phase, before);
    }
}

#[test]
fn guard_start_that_fails_leaves_nothing_open() {
    let raw = StartEvent::Opened { fd: 7 };
    let resolved = StartEvent::Resolved { handle: 0x40 };
    let monitor = StartEvent::Opened { fd: 8 };
    let done = StartEvent::Done;
    let failed = StartEvent::Failed;
    assert_eq!(start(&[failed]), StartPhase::Failed);
    assert_eq!(start(&[done, failed]), StartPhase::Failed);
    assert_eq!(
        start(&[done, raw, failed]),
        StartPhase::ClosingRaw {
            fd: 7,
            resolved: None
        }
    );
    assert_eq!(start(&[done, raw, failed, done]), StartPhase::Failed);
    assert_eq!(
        start(&[done, raw, resolved, done, failed]),
        StartPhase::Failed
    );
    assert_eq!(
        start(&[done, raw, resolved, done, monitor, failed]),
        StartPhase::ClosingMonitor { fd: 8 }
    );
    assert_eq!(
        start(&[done, raw, resolved, done, monitor, failed, done]),
        StartPhase::Failed
    );
}
