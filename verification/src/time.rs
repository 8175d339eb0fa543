//! Time as the policies see it: plain counts of nanoseconds, handed in by the caller.
use vstd::prelude::*;

verus! {

/// A span of time, in nanoseconds.
pub type Duration = u128;

/// A point on a monotonic clock: nanoseconds since an origin that the caller
/// picks once and keeps.
pub type Instant = u128;

/// Nanoseconds in one millisecond.
pub const MILLISECOND: Duration = 1_000_000;

/// Nanoseconds in one second.
pub const SECOND: Duration = 1_000_000_000;

/// How far `now` lies behind `earlier`, and zero when it does not.
pub open spec fn elapsed(now: Instant, earlier: Instant) -> int {
    if now >= earlier {
        now - earlier
    } else {
        0
    }
}

/// The span from `earlier` to `now`, or zero when `earlier` is the later one.
pub fn saturating_duration_since(now: Instant, earlier: Instant) -> (span: Duration)
    ensures
        span == elapsed(now, earlier),
{
    now.saturating_sub(earlier)
}

/// A span and the instant that it starts from add up to the instant that it ends at; on a
/// clock that seems to run backwards no time has passed. A second is a thousand
/// milliseconds.
pub proof fn law_spans_add_up(now: Instant, earlier: Instant)
    ensures
        now >= earlier ==> earlier + elapsed(now, earlier) == now,
        now <= earlier ==> elapsed(now, earlier) == 0,
        SECOND == 1000 * MILLISECOND,
        MILLISECOND == 1_000_000,
{
}

} // verus!
