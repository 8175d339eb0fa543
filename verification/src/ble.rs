//! The Bluetooth link to the lamp: what is written to it, which device it is, how
//! often to try for it, and how a fresh link is told from one already seen.
use crate::text::{eq_ignore_ascii_case, lower};
use crate::time::{Duration, SECOND};
use uuid::Uuid;
use vstd::prelude::*;

verus! {

/// The lamp's service.
pub const SERVICE_UUID: &'static str = "6a4c0001-b5a3-4f1e-9c2d-7e8f9a0b1c2d";

/// The characteristic that holds the fact.
pub const CHARACTERISTIC_UUID: &'static str = "6a4c0002-b5a3-4f1e-9c2d-7e8f9a0b1c2d";

/// The byte that says the beam is intact.
pub const FACT_INTACT: u8 = 0x00;

/// The byte that says the beam is broken.
pub const FACT_BROKEN: u8 = 0x01;

/// Longest time spent on one acquisition: 30 s.
pub const CONNECT_BOUND: Duration = 30_000_000_000;

/// The first back-off delay: 1 s.
pub const BACKOFF_BASE: Duration = 1_000_000_000;

/// The back-off doubles this many times at most.
pub const BACKOFF_MAX_SHIFT: u32 = 3;

/// Consecutive failed acquisitions (a scan window that produced no connection)
/// before the supervisor tears down and rebuilds the BlueZ session. A stalled
/// adapter can stop delivering discovery events indefinitely, so rebuilding the
/// manager, adapter, and event stream is the only in-process recovery.
pub const MAX_ATTEMPTS_BEFORE_REINIT: u32 = 5;

#[derive(Debug, Clone, Copy, PartialEq, Eq, Structural)]
pub enum ConnectDecision {
    Connect,
    Wait,
    GiveUp,
}

/// What to do about a discovered device, `elapsed` into the acquisition.
pub open spec fn connect_choice(
    configured: Seq<char>,
    candidate: Seq<char>,
    elapsed: Duration,
) -> ConnectDecision {
    if elapsed >= CONNECT_BOUND {
        ConnectDecision::GiveUp
    } else if lower(candidate) == lower(configured) {
        ConnectDecision::Connect
    } else {
        ConnectDecision::Wait
    }
}

/// Connect to the configured device, whatever the case its address is written in;
/// wait on for any other; give up once the time is up.
pub fn connect_decision(configured: &str, candidate: &str, elapsed: Duration) -> (decision:
    ConnectDecision)
    ensures
        decision == connect_choice(configured@, candidate@, elapsed),
{
    if elapsed >= CONNECT_BOUND {
        ConnectDecision::GiveUp
    } else if eq_ignore_ascii_case(candidate, configured) {
        ConnectDecision::Connect
    } else {
        ConnectDecision::Wait
    }
}

/// The delay after `attempt` earlier failures: one second, doubling up to eight.
pub open spec fn backoff(attempt: u32) -> Duration {
    if attempt == 0 {
        1_000_000_000
    } else if attempt == 1 {
        2_000_000_000
    } else if attempt == 2 {
        4_000_000_000
    } else {
        8_000_000_000
    }
}

/// How long to hold off after a failure that `attempt` others came before.
pub fn backoff_delay(attempt: u32) -> (delay: Duration)
    ensures
        delay == backoff(attempt),
{
    let shift: u32 = if attempt < BACKOFF_MAX_SHIFT {
        attempt
    } else {
        BACKOFF_MAX_SHIFT
    };
    assert(1u32 << 0u32 == 1u32 && 1u32 << 1u32 == 2u32 && 1u32 << 2u32 == 4u32 && 1u32 << 3u32
        == 8u32) by (bit_vector);
    BACKOFF_BASE * ((1u32 << shift) as u128)
}

/// Whether `failed_attempts` consecutive failed acquisitions should trigger a
/// full BlueZ session rebuild (manager, adapter, and event stream) instead of
/// another backoff-and-rescan on the same adapter.
pub fn should_reinit(failed_attempts: u32) -> (reinit: bool)
    ensures
        reinit == (failed_attempts >= MAX_ATTEMPTS_BEFORE_REINIT),
{
    failed_attempts >= MAX_ATTEMPTS_BEFORE_REINIT
}

/// The byte that stands for a fact.
pub fn fact_byte(state: bool) -> (byte: u8)
    ensures
        byte == (if state {
            FACT_BROKEN
        } else {
            FACT_INTACT
        }),
{
    if state {
        FACT_BROKEN
    } else {
        FACT_INTACT
    }
}

/// The back-off is never zero, never falls with further failures, and never
/// exceeds eight seconds, where it stays from the fourth failure on.
pub proof fn law_backoff_is_positive_monotonic_and_capped(attempt: u32, later: u32)
    requires
        attempt <= later,
    ensures
        0 < backoff(attempt) <= backoff(later) <= 8 * SECOND,
        attempt >= BACKOFF_MAX_SHIFT ==> backoff(attempt) == 8 * SECOND,
        attempt < BACKOFF_MAX_SHIFT ==> backoff((attempt + 1) as u32) == 2 * backoff(attempt),
{
}

/// Past the bound nothing is connected to, within it only the configured device
/// is, and the case of either address plays no part.
pub proof fn law_connects_only_to_the_configured_device(
    configured: Seq<char>,
    candidate: Seq<char>,
    other_case: Seq<char>,
    elapsed: Duration,
)
    ensures
        connect_choice(configured, candidate, elapsed) is Connect <==> elapsed < CONNECT_BOUND
            && lower(configured) == lower(candidate),
        connect_choice(configured, candidate, elapsed) is GiveUp <==> elapsed >= CONNECT_BOUND,
        lower(other_case) == lower(configured) ==> connect_choice(other_case, candidate, elapsed)
            == connect_choice(configured, candidate, elapsed),
{
}

/// Connection-generation state machine shared by the supervisor and the client.
///
/// The supervisor calls [`advance`](Self::advance) immediately before it
/// announces that the link is up; the client calls
/// [`mark_seen`](Self::mark_seen) once it observes that link, so the epoch of
/// the already-observed link is never reported as a reconnect. Each `advance`
/// after that is reported exactly once by [`poll`](Self::poll).
#[derive(Debug, Clone, Copy, PartialEq, Eq, Structural)]
pub struct ConnectionEpoch {
    pub current: u64,
    pub last_seen: u64,
}

impl ConnectionEpoch {
    /// No link yet, and none seen.
    pub fn new() -> (epoch: Self)
        ensures
            epoch == (ConnectionEpoch { current: 0, last_seen: 0 }),
    {
        Self { current: 0, last_seen: 0 }
    }

    /// The epoch one link later.
    pub open spec fn advanced(self) -> Self {
        ConnectionEpoch {
            current: if self.current == u64::MAX {
                0
            } else {
                (self.current + 1) as u64
            },
            last_seen: self.last_seen,
        }
    }

    /// The epoch once the current link has been observed.
    pub open spec fn seen(self) -> Self {
        ConnectionEpoch { current: self.current, last_seen: self.current }
    }

    /// The epoch once one more link has been reported.
    pub open spec fn reported(self) -> Self {
        ConnectionEpoch {
            current: self.current,
            last_seen: if self.last_seen == u64::MAX {
                0
            } else {
                (self.last_seen + 1) as u64
            },
        }
    }

    /// A link has come up that has been neither observed nor reported.
    pub open spec fn pending(self) -> bool {
        self.current != self.last_seen
    }

    /// Announce a fresh connection. Call BEFORE publishing that the link is up.
    pub fn advance(&mut self)
        ensures
            *final(self) == old(self).advanced(),
    {
        self.current = if self.current == u64::MAX {
            0
        } else {
            self.current + 1
        };
    }

    /// Mark the link just observed, so it is not reported as a reconnect.
    pub fn mark_seen(&mut self)
        ensures
            *final(self) == old(self).seen(),
    {
        self.last_seen = self.current;
    }

    /// Whether the epoch has advanced past the last observed value. If it has, one
    /// advance counts as reported from now on, and any others stay to be reported; if
    /// not, the caller waits for the epoch to change and asks again.
    pub fn poll(&mut self) -> (reconnected: bool)
        ensures
            reconnected == old(self).pending(),
            *final(self) == (if old(self).pending() {
                old(self).reported()
            } else {
                *old(self)
            }),
    {
        if self.current != self.last_seen {
            self.last_seen = if self.last_seen == u64::MAX {
                0
            } else {
                self.last_seen + 1
            };
            true
        } else {
            false
        }
    }
}

/// A link that has been observed is not reported, and one that comes up after it is
/// reported exactly once.
pub proof fn law_each_link_is_reported_exactly_once(epoch: ConnectionEpoch)
    ensures
        !epoch.seen().pending(),
        epoch.seen().advanced().pending(),
        !epoch.seen().advanced().reported().pending(),
{
}

/// The epoch after `links` further links.
pub open spec fn advanced_by(epoch: ConnectionEpoch, links: nat) -> ConnectionEpoch
    decreases links,
{
    if links == 0 {
        epoch
    } else {
        advanced_by(epoch, (links - 1) as nat).advanced()
    }
}

/// The epoch after `polls` further reports.
pub open spec fn reported_by(epoch: ConnectionEpoch, polls: nat) -> ConnectionEpoch
    decreases polls,
{
    if polls == 0 {
        epoch
    } else {
        reported_by(epoch, (polls - 1) as nat).reported()
    }
}

/// However many links come up after the one observed, short of a full turn of the
/// counter, as many are reported, no more and no fewer.
pub proof fn law_every_link_is_reported(epoch: ConnectionEpoch, links: nat, polls: nat)
    requires
        polls <= links <= u64::MAX,
    ensures
        reported_by(advanced_by(epoch.seen(), links), polls).pending() <==> polls < links,
{
    lemma_advanced_by(epoch.seen(), links);
    lemma_reported_by(advanced_by(epoch.seen(), links), polls);
}

proof fn lemma_advanced_by(epoch: ConnectionEpoch, links: nat)
    requires
        links <= u64::MAX,
    ensures
        advanced_by(epoch, links).last_seen == epoch.last_seen,
        advanced_by(epoch, links).current == (if epoch.current + links <= u64::MAX {
            epoch.current + links
        } else {
            epoch.current + links - u64::MAX - 1
        }),
    decreases links,
{
    if links > 0 {
        lemma_advanced_by(epoch, (links - 1) as nat);
    }
}

proof fn lemma_reported_by(epoch: ConnectionEpoch, polls: nat)
    requires
        polls <= u64::MAX,
    ensures
        reported_by(epoch, polls).current == epoch.current,
        reported_by(epoch, polls).last_seen == (if epoch.last_seen + polls <= u64::MAX {
            epoch.last_seen + polls
        } else {
            epoch.last_seen + polls - u64::MAX - 1
        }),
    decreases polls,
{
    if polls > 0 {
        lemma_reported_by(epoch, (polls - 1) as nat);
    }
}

/// The value of a hexadecimal digit, in either case.
pub open spec fn hex_value(c: char) -> nat {
    if '0' <= c <= '9' {
        (c as int - '0' as int) as nat
    } else if 'a' <= c <= 'f' {
        (c as int - 'a' as int + 10) as nat
    } else {
        (c as int - 'A' as int + 10) as nat
    }
}

/// The character is a hexadecimal digit.
pub open spec fn is_hex(c: char) -> bool {
    '0' <= c <= '9' || 'a' <= c <= 'f' || 'A' <= c <= 'F'
}

/// The text is a UUID in its hyphenated form: groups of 8, 4, 4, 4 and 12
/// hexadecimal digits.
pub open spec fn hyphenated(text: Seq<char>) -> bool {
    &&& text.len() == 36
    &&& forall|i: int|
        0 <= i < 36 ==> if i == 8 || i == 13 || i == 18 || i == 23 {
            #[trigger] text[i] == '-'
        } else {
            is_hex(text[i])
        }
}

/// The number that the first `n` characters write in base sixteen, hyphens left out.
pub open spec fn uuid_number(text: Seq<char>, n: nat) -> nat
    decreases n,
{
    if n == 0 {
        0
    } else if text[n - 1] == '-' {
        uuid_number(text, (n - 1) as nat)
    } else {
        16 * uuid_number(text, (n - 1) as nat) + hex_value(text[n - 1])
    }
}

/// Calls [`uuid::Uuid::parse_str`] and takes the UUID as a number
/// ([`uuid::Uuid::as_u128`]). Of a UUID in hyphenated form the parser makes the
/// 128-bit number that its digits write in base sixteen, the first digit being the
/// most significant. Any other text is left out, since the call may fail on it.
#[verifier::external_body]
fn parse_uuid(text: &str) -> (value: u128)
    requires
        hyphenated(text@),
    ensures
        value == uuid_number(text@, 36),
{
    Uuid::parse_str(text).expect("hyphenated UUID").as_u128()
}

/// The number of the lamp's service.
pub fn service_uuid() -> (value: u128)
    ensures
        value == uuid_number(SERVICE_UUID@, 36),
        value == 0x6a4c0001_b5a3_4f1e_9c2d_7e8f9a0b1c2d,
{
    proof {
        reveal_strlit("6a4c0001-b5a3-4f1e-9c2d-7e8f9a0b1c2d");
        reveal_with_fuel(uuid_number, 37);
    }
    parse_uuid(SERVICE_UUID)
}

/// The number of the characteristic that holds the fact.
pub fn characteristic_uuid() -> (value: u128)
    ensures
        value == uuid_number(CHARACTERISTIC_UUID@, 36),
        value == 0x6a4c0002_b5a3_4f1e_9c2d_7e8f9a0b1c2d,
{
    proof {
        reveal_strlit("6a4c0002-b5a3-4f1e-9c2d-7e8f9a0b1c2d");
        reveal_with_fuel(uuid_number, 37);
    }
    parse_uuid(CHARACTERISTIC_UUID)
}

/// The back-off after `attempt` earlier failures is a second doubled that many times, and
/// the eight seconds that three doublings make from then on.
pub proof fn law_backoff_doubles_from_a_second(attempt: u32)
    ensures
        backoff(0) == SECOND,
        attempt < 3 ==> backoff((attempt + 1) as u32) == 2 * backoff(attempt),
        attempt >= 3 ==> backoff(attempt) == 8 * SECOND,
{
}

/// Hexadecimal digits are the figures and the first six letters in either case, and both
/// cases of a letter have the same value, from ten on.
pub proof fn law_hex_values(c: char)
    ensures
        is_hex(c) <==> 48 <= c as int <= 57 || 65 <= c as int <= 70 || 97 <= c as int <= 102,
        48 <= c as int <= 57 ==> hex_value(c) == c as int - 48,
        65 <= c as int <= 70 ==> hex_value(c) == c as int - 55,
        97 <= c as int <= 102 ==> hex_value(c) == c as int - 87,
{
}

/// A hyphen more leaves the number as it was, and a digit more shifts it by one place.
pub proof fn law_uuid_number_grows_by_digits(text: Seq<char>, n: nat)
    ensures
        uuid_number(text, 0) == 0,
        text[n as int] == '-' ==> uuid_number(text, n + 1) == uuid_number(text, n),
        is_hex(text[n as int]) ==> uuid_number(text, n + 1) == 16 * uuid_number(text, n)
            + hex_value(text[n as int]),
{
}

/// A fresh link counts as one more, and observing it leaves the count of links alone.
pub proof fn law_epoch_counts_links(epoch: ConnectionEpoch)
    ensures
        epoch.current < u64::MAX ==> epoch.advanced().current == epoch.current + 1,
        epoch.current == u64::MAX ==> epoch.advanced().current == 0,
        epoch.advanced().last_seen == epoch.last_seen,
        epoch.seen() == (ConnectionEpoch { current: epoch.current, last_seen: epoch.current }),
        epoch.reported().current == epoch.current,
        epoch.last_seen < u64::MAX ==> epoch.reported().last_seen == epoch.last_seen + 1,
        epoch.last_seen == u64::MAX ==> epoch.reported().last_seen == 0,
        epoch.pending() <==> epoch.current != epoch.last_seen,
{
}

} // verus!
