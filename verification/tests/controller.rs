use garage_beam::controller::{RunAction, RunEvent, RunLoop};
use garage_beam::gpio::{GpioEdge, Level, REFRACTORY};
use garage_beam::instrumentation::{Instrumentation, Sample};
use garage_beam::time::{Instant, MILLISECOND, SECOND};
use garage_beam::KEEPALIVE;
use std::collections::VecDeque;

const T0: Instant = 1_000_000_000_000;

/// What a wait for an edge comes to.
#[derive(Clone, Copy)]
enum Edge {
    /// The edge comes this long after the wait began.
    After(u128, Level),
    /// The reader fails at once.
    Stop,
    /// The reader fails at a fixed time, however often the wait is begun anew.
    StopAt(Instant),
}

/// Everything outside the loop, on a clock that moves only while the loop waits.
struct World {
    now: Instant,
    enforces: bool,
    guards: bool,
    levels: VecDeque<Level>,
    edges: VecDeque<Edge>,
    reconnects: usize,
    read_back: Option<u8>,
    clock_ns: u64,
    log: Vec<String>,
    writes: Vec<bool>,
    write_times: Vec<Instant>,
    samples: Vec<(Sample, Option<u8>)>,
}

impl World {
    fn new(level: Level, edges: &[Edge]) -> Self {
        World {
            now: T0,
            enforces: true,
            guards: true,
            levels: VecDeque::from(vec![level]),
            edges: edges.iter().copied().collect(),
            reconnects: 0,
            read_back: Some(0),
            clock_ns: 1_000,
            log: vec![],
            writes: vec![],
            write_times: vec![],
            samples: vec![],
        }
    }

    fn outcome(ok: bool) -> RunEvent {
        if ok {
            RunEvent::Done
        } else {
            RunEvent::Failed
        }
    }

    fn wait(&mut self, window: Option<u128>, deadline: Instant) -> RunEvent {
        if self.reconnects > 0 {
            self.reconnects -= 1;
            return RunEvent::Reconnected { now: self.now };
        }
        let script = *self.edges.front().expect("edge script ran out");
        let (at, event) = match script {
            Edge::After(delay, level) => (
                self.now + delay,
                RunEvent::Edge {
                    edge: GpioEdge {
                        level,
                        timestamp_ns: 42,
                    },
                    now: self.now + delay,
                },
            ),
            Edge::Stop => (self.now, RunEvent::Failed),
            Edge::StopAt(at) => (at, RunEvent::Failed),
        };
        if let Edge::StopAt(_) = script {
        } else {
            self.edges.pop_front();
        }
        let window_end = window.map(|window| self.now + window);
        if at <= deadline && window_end.map_or(true, |end| at <= end) {
            self.now = at;
            return event;
        }
        match window_end {
            Some(end) if end <= deadline => {
                self.now = end;
                RunEvent::WindowElapsed { now: end }
            }
            _ => {
                self.now = deadline;
                RunEvent::DeadlineReached { now: deadline }
            }
        }
    }

    /// Runs the loop until it stops.
    fn run(&mut self, instrumentation: Instrumentation) {
        let mut run = RunLoop::new(instrumentation);
        loop {
            let action = run.action(self.now);
            let event = match action {
                RunAction::Connect => {
                    self.log.push("connect".to_string());
                    RunEvent::Done
                }
                RunAction::EnforceInterval => {
                    self.log.push("enforce".to_string());
                    World::outcome(self.enforces)
                }
                RunAction::StartGuard => {
                    self.log.push("guard".to_string());
                    World::outcome(self.guards)
                }
                RunAction::SampleLevel => {
                    self.log.push("sample".to_string());
                    match self.levels.pop_front() {
                        Some(level) => RunEvent::Sampled {
                            level,
                            now: self.now,
                        },
                        None => RunEvent::Failed,
                    }
                }
                RunAction::Wait { window, deadline } => self.wait(window, deadline),
                RunAction::ReadClock => {
                    self.log.push("clock".to_string());
                    self.clock_ns += 10;
                    RunEvent::Clock(self.clock_ns)
                }
                RunAction::Write(value) => {
                    self.log.push(format!("write {}", value));
                    self.writes.push(value);
                    self.write_times.push(self.now);
                    RunEvent::Done
                }
                RunAction::ReadBack => {
                    self.log.push("read".to_string());
                    match self.read_back {
                        Some(byte) => RunEvent::ReadBack(byte),
                        None => RunEvent::Failed,
                    }
                }
                RunAction::ReportSkew { edge_ns, write_ns } => {
                    self.log.push(format!("skew {} {}", edge_ns, write_ns));
                    RunEvent::Done
                }
                RunAction::ReportSample { sample, read_back } => {
                    self.log.push("sampled".to_string());
                    self.samples.push((sample, read_back));
                    RunEvent::Done
                }
                RunAction::Stop => return,
            };
            run.step(event);
        }
    }
}

fn off() -> Instrumentation {
    Instrumentation::from_value(None)
}

fn on() -> Instrumentation {
    Instrumentation::from_value(Some("1"))
}

#[test]
fn startup_samples_and_writes_before_any_edge() {
    let mut world = World::new(Level::Low, &[Edge::Stop]);
    world.run(off());
    assert_eq!(world.writes, vec![true]);
    assert_eq!(
        world.log,
        vec!["connect", "enforce", "guard", "sample", "write true"]
    );
}

#[test]
fn accepted_edge_writes_once_when_level_differs() {
    let mut world = World::new(Level::Low, &[Edge::After(0, Level::High), Edge::Stop]);
    world.run(off());
    assert_eq!(world.writes, vec![true, false]);
}

#[test]
fn accepted_edge_at_the_same_level_writes_nothing() {
    let mut world = World::new(Level::Low, &[Edge::After(0, Level::Low), Edge::Stop]);
    world.run(off());
    assert_eq!(world.writes, vec![true]);
}

#[test]
fn instrumented_edge_reads_once_and_logs() {
    let mut world = World::new(Level::Low, &[Edge::After(0, Level::High), Edge::Stop]);
    world.run(on());
    assert_eq!(world.writes, vec![true, false]);
    assert_eq!(
        world.log[5..],
        ["clock", "write false", "clock", "read", "clock", "sampled"]
    );
    assert_eq!(
        world.samples,
        vec![(
            Sample {
                edge_to_write_ns: 1_010 - 42,
                write_to_read_ns: Some(10),
            },
            Some(0)
        )]
    );
}

#[test]
fn read_error_does_not_abort_run() {
    let mut world = World::new(Level::Low, &[Edge::After(0, Level::High), Edge::Stop]);
    world.read_back = None;
    world.run(on());
    assert_eq!(world.writes, vec![true, false]);
    assert_eq!(
        world.samples,
        vec![(
            Sample {
                edge_to_write_ns: 1_010 - 42,
                write_to_read_ns: None,
            },
            None
        )]
    );
}

#[test]
fn disabled_edge_never_reads() {
    let mut world = World::new(Level::Low, &[Edge::After(0, Level::High), Edge::Stop]);
    world.run(off());
    assert_eq!(world.writes, vec![true, false]);
    assert!(!world.log.contains(&"read".to_string()));
    assert!(!world.log.contains(&"clock".to_string()));
    assert!(world.samples.is_empty());
}

#[test]
fn a_clock_behind_the_edge_is_reported_as_skew() {
    let mut world = World::new(Level::Low, &[Edge::After(0, Level::High), Edge::Stop]);
    world.clock_ns = 20;
    world.run(on());
    assert_eq!(
        world.log[5..],
        ["clock", "write false", "skew 42 30", "clock", "read", "clock", "sampled"]
    );
    assert_eq!(world.samples[0].0.edge_to_write_ns, 0);
}

#[test]
fn suppressed_burst_writes_once() {
    let mut world = World::new(
        Level::Low,
        &[
            Edge::After(0, Level::High),
            Edge::After(0, Level::High),
            Edge::Stop,
        ],
    );
    world.run(off());
    assert_eq!(world.writes, vec![true, false]);
}

#[test]
fn suppressed_edge_is_not_believed() {
    let mut world = World::new(
        Level::Low,
        &[
            Edge::After(0, Level::High),
            Edge::After(MILLISECOND, Level::Low),
            Edge::Stop,
        ],
    );
    world.run(off());
    assert_eq!(world.writes, vec![true, false]);
}

#[test]
fn keepalive_writes_current_fact_every_10s_while_idle() {
    let mut world = World::new(Level::Low, &[Edge::StopAt(T0 + 35 * SECOND)]);
    world.run(off());
    assert_eq!(world.writes, vec![true; 4]);
    assert_eq!(
        world.write_times,
        vec![T0, T0 + 10 * SECOND, T0 + 20 * SECOND, T0 + 30 * SECOND]
    );
}

#[test]
fn no_write_before_keepalive_window() {
    let mut world = World::new(Level::Low, &[Edge::StopAt(T0 + 5 * SECOND)]);
    world.run(off());
    assert_eq!(world.writes, vec![true]);
}

#[test]
fn reconnect_resyncs_current_fact_once() {
    let mut world = World::new(Level::Low, &[Edge::StopAt(T0 + 50 * MILLISECOND)]);
    world.reconnects = 1;
    world.run(off());
    assert_eq!(world.writes, vec![true, true]);
}

#[test]
fn refractory_timeout_resamples_and_adopts_changed_level() {
    let mut world = World::new(
        Level::Low,
        &[
            Edge::After(0, Level::Low),
            Edge::After(100 * MILLISECOND, Level::High),
            Edge::Stop,
        ],
    );
    world.levels.push_back(Level::High);
    world.run(off());
    assert_eq!(world.writes, vec![true, false]);
    assert_eq!(
        world.log.iter().filter(|entry| *entry == "sample").count(),
        2
    );
}

#[test]
fn startup_connect_enforce_guard_before_first_write() {
    let mut world = World::new(Level::Low, &[Edge::Stop]);
    world.run(off());
    assert_eq!(
        world.log,
        vec!["connect", "enforce", "guard", "sample", "write true"]
    );
}

#[test]
fn enforce_error_does_not_abort_run_loop() {
    let mut world = World::new(Level::Low, &[Edge::Stop]);
    world.enforces = false;
    world.run(off());
    assert_eq!(world.writes, vec![true]);
}

#[test]
fn start_guard_error_does_not_abort_run_loop() {
    let mut world = World::new(Level::Low, &[Edge::Stop]);
    world.guards = false;
    world.run(off());
    assert_eq!(world.writes, vec![true]);
}

#[test]
fn measuring_leaves_the_writes_alone() {
    let edges = [
        Edge::After(0, Level::High),
        Edge::After(30 * MILLISECOND, Level::Low),
        Edge::After(5 * MILLISECOND, Level::High),
        Edge::After(25 * MILLISECOND, Level::High),
        Edge::After(11 * SECOND, Level::Low),
        Edge::Stop,
    ];
    let mut plain = World::new(Level::Low, &edges);
    plain.levels.extend([Level::Low, Level::High, Level::Low]);
    plain.run(off());
    let mut measured = World::new(Level::Low, &edges);
    measured.levels.extend([Level::Low, Level::High, Level::Low]);
    measured.run(on());
    assert_eq!(plain.writes, measured.writes);
    assert_eq!(plain.write_times, measured.write_times);
    assert!(plain.writes.len() > 3);
}

#[test]
fn no_write_is_idle() {
    let edges = [
        Edge::After(0, Level::High),
        Edge::After(30 * MILLISECOND, Level::High),
        Edge::After(4 * SECOND, Level::Low),
        Edge::After(12 * SECOND, Level::Low),
        Edge::After(3 * SECOND, Level::High),
        Edge::Stop,
    ];
    let mut world = World::new(Level::Low, &edges);
    world
        .levels
        .extend([Level::High, Level::Low, Level::Low, Level::Low]);
    world.run(off());
    assert_eq!(world.writes[..3], [true, false, true]);
    for at in 1..world.writes.len() {
        assert!(
            world.writes[at] != world.writes[at - 1]
                || world.write_times[at] - world.write_times[at - 1] >= KEEPALIVE
        );
    }
    assert!(world.writes.len() > 3);
}

#[test]
fn unchanged_sample_is_written_when_the_keepalive_is_due() {
    let mut run = RunLoop::new(off());
    for _ in 0..3 {
        run.step(RunEvent::Done);
    }
    run.step(RunEvent::Sampled {
        level: Level::Low,
        now: T0,
    });
    run.step(RunEvent::Done);
    // An edge that changes nothing opens the window just before the keepalive is due.
    let now = T0 + KEEPALIVE - MILLISECOND;
    let edge = GpioEdge {
        level: Level::Low,
        timestamp_ns: 42,
    };
    run.step(RunEvent::Edge { edge, now });
    let now = now + REFRACTORY;
    run.step(RunEvent::WindowElapsed { now });
    assert_eq!(run.action(now), RunAction::SampleLevel);
    run.step(RunEvent::Sampled {
        level: Level::Low,
        now,
    });
    assert_eq!(run.action(now), RunAction::Write(true));
}

#[test]
fn failures_that_matter_stop_the_loop() {
    // The first link.
    let mut run = RunLoop::new(off());
    run.step(RunEvent::Failed);
    assert_eq!(run.action(T0), RunAction::Stop);

    // The first sample.
    let mut world = World::new(Level::Low, &[Edge::Stop]);
    world.levels.clear();
    world.run(off());
    assert!(world.writes.is_empty());

    // A write.
    let mut run = RunLoop::new(off());
    for _ in 0..3 {
        run.step(RunEvent::Done);
    }
    run.step(RunEvent::Sampled {
        level: Level::High,
        now: T0,
    });
    assert_eq!(run.action(T0), RunAction::Write(false));
    run.step(RunEvent::Failed);
    assert_eq!(run.action(T0), RunAction::Stop);
    run.step(RunEvent::Done);
    assert_eq!(run.action(T0), RunAction::Stop);
}

#[test]
fn waiting_names_the_window_and_the_deadline() {
    let mut run = RunLoop::new(off());
    for _ in 0..3 {
        run.step(RunEvent::Done);
    }
    run.step(RunEvent::Sampled {
        level: Level::High,
        now: T0,
    });
    run.step(RunEvent::Done);
    assert_eq!(
        run.action(T0 + 7),
        RunAction::Wait {
            window: None,
            deadline: T0 + KEEPALIVE
        }
    );
    let edge = GpioEdge {
        level: Level::Low,
        timestamp_ns: 42,
    };
    assert!(run.accepts_edge(T0 + 7));
    run.step(RunEvent::Edge { edge, now: T0 + 7 });
    assert_eq!(run.action(T0 + 7), RunAction::Write(true));
    assert!(!run.accepts_edge(T0 + 7));
    run.step(RunEvent::Done);
    assert!(!run.accepts_edge(T0 + 7 + REFRACTORY - 1));
    assert!(run.accepts_edge(T0 + 7 + REFRACTORY));
    assert_eq!(
        run.action(T0 + 10),
        RunAction::Wait {
            window: Some(REFRACTORY - 3),
            deadline: T0 + 7 + KEEPALIVE
        }
    );
    // An event that nobody waits for changes nothing.
    run.step(RunEvent::ReadBack(7));
    assert_eq!(
        run.action(T0 + 10),
        RunAction::Wait {
            window: Some(REFRACTORY - 3),
            deadline: T0 + 7 + KEEPALIVE
        }
    );
}
