//! Mirrors a beam sensor on a GPIO line to a lamp over Bluetooth Low Energy.
//!
//! This crate is the policy: what to write and when, which edges to believe, how to
//! acquire and keep the link, and how to hold its connection interval. It performs
//! no I/O. Clocks, sockets, radios and lines are driven by the caller, which hands
//! in what it observed and carries out what it is told.
use crate::time::{elapsed, saturating_duration_since, Duration, Instant};
use vstd::prelude::*;

pub mod ble;
pub mod client;
pub mod config;
pub mod controller;
pub mod gpio;
pub mod guard;
pub mod hci;
pub mod instrumentation;
pub mod interval;
pub mod socket;
pub mod supervisor;
pub mod text;
pub mod time;
pub mod update;

verus! {

/// Longest silence between two writes while the link is up: 10 s.
pub const KEEPALIVE: Duration = 10_000_000_000;

#[derive(Debug, Clone, Copy, PartialEq, Eq, Structural)]
pub enum WriteDecision {
    Idle,
    Write(bool),
}

#[derive(Debug, Clone, Copy, PartialEq, Eq, Structural)]
pub enum ConnectionEvent {
    Connected,
    Steady,
}

/// The fact has to be written: the link is fresh, the fact is not the one written
/// last, or the keepalive is due.
pub open spec fn write_due(
    event: ConnectionEvent,
    last_fact: Option<bool>,
    last_write: Option<Instant>,
    fact: bool,
    now: Instant,
) -> bool {
    ||| event is Connected
    ||| last_fact != Some(fact)
    ||| last_write is None
    ||| elapsed(now, last_write->0) >= KEEPALIVE
}

/// Pure write schedule. `ConnectionEvent::Connected` always writes the current
/// fact (the resync after every (re)connect); `Steady` writes on a fact change
/// or when the silent keepalive is due since `last_write`.
pub fn schedule_write(
    event: ConnectionEvent,
    last_fact: Option<bool>,
    last_write: Option<Instant>,
    fact: bool,
    now: Instant,
) -> (decision: WriteDecision)
    ensures
        decision == (if write_due(event, last_fact, last_write, fact, now) {
            WriteDecision::Write(fact)
        } else {
            WriteDecision::Idle
        }),
{
    match event {
        ConnectionEvent::Connected => WriteDecision::Write(fact),
        ConnectionEvent::Steady => {
            let changed: bool = match last_fact {
                Some(known) => known != fact,
                None => true,
            };
            let keepalive_due: bool = match last_write {
                Some(at) => saturating_duration_since(now, at) >= KEEPALIVE,
                None => true,
            };
            if changed || keepalive_due {
                WriteDecision::Write(fact)
            } else {
                WriteDecision::Idle
            }
        },
    }
}

/// A fresh link, a fact that the lamp has not been told last, and a lamp that has been
/// told nothing yet each call for a write at any time. Otherwise a write is called for
/// from the keepalive after the last one on, and at no time before.
pub proof fn law_when_a_write_is_due(
    event: ConnectionEvent,
    last_fact: Option<bool>,
    at: Instant,
    fact: bool,
    now: Instant,
)
    ensures
        write_due(ConnectionEvent::Connected, last_fact, Some(at), fact, now),
        write_due(event, last_fact, None, fact, now),
        write_due(event, None, Some(at), fact, now),
        write_due(event, Some(!fact), Some(at), fact, now),
        write_due(ConnectionEvent::Steady, Some(fact), Some(at), fact, now) <==> now >= at
            + KEEPALIVE,
{
}

} // verus!
