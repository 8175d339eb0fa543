//! Latency instrumentation of the control path.
//!
//! The feature is opt-in via the `GARAGE_BEAM_LATENCY` environment variable and
//! is pure policy elsewhere: when disabled, no clock is read and no samples are
//! recorded, so the production control path is unchanged.
use crate::text::{blank, eq_ignore_ascii_case, lower, trim, trimmed};
use crate::text::{law_case_makes_no_difference_to_trimming, law_trimming_ignores_padding};
use vstd::prelude::*;

verus! {

/// Environment variable that enables latency instrumentation.
pub const ENV: &'static str = "GARAGE_BEAM_LATENCY";

/// Whether latency instrumentation is active.
#[derive(Debug, Clone, Copy, PartialEq, Eq, Structural)]
pub struct Instrumentation {
    enabled: bool,
}

/// The values that enable instrumentation: `1`, `true`, `yes` and `on`, in any
/// ASCII case and with any white space around them.
pub open spec fn truthy(value: Seq<char>) -> bool {
    let word = lower(trimmed(value));
    word == "1"@ || word == "true"@ || word == "yes"@ || word == "on"@
}

impl View for Instrumentation {
    type V = bool;

    closed spec fn view(&self) -> bool {
        self.enabled
    }
}

impl Instrumentation {
    /// Pure parse of an optional raw value. Whitespace is trimmed and the
    /// comparison is ASCII case-insensitive. The truthy set is
    /// `{"1","true","yes","on"}`; everything else (including `None`, empty and
    /// unknown values) disables instrumentation.
    pub fn from_value(value: Option<&str>) -> (instrumentation: Self)
        ensures
            instrumentation@ == (value is Some && truthy(value->0@)),
    {
        let enabled: bool = match value {
            None => false,
            Some(raw) => {
                let word = trim(raw);
                proof {
                    reveal_strlit("1");
                    reveal_strlit("true");
                    reveal_strlit("yes");
                    reveal_strlit("on");
                    assert(lower("1"@) =~= "1"@);
                    assert(lower("true"@) =~= "true"@);
                    assert(lower("yes"@) =~= "yes"@);
                    assert(lower("on"@) =~= "on"@);
                }
                eq_ignore_ascii_case(word, "1") || eq_ignore_ascii_case(word, "true")
                    || eq_ignore_ascii_case(word, "yes") || eq_ignore_ascii_case(word, "on")
            },
        };
        Self { enabled }
    }

    /// Returns whether instrumentation is enabled.
    pub fn enabled(&self) -> (enabled: bool)
        ensures
            enabled == self@,
    {
        self.enabled
    }
}

/// Neither the case of a value nor the white space around it decides whether it
/// enables instrumentation.
pub proof fn law_truthy_ignores_case_and_padding(
    value: Seq<char>,
    other_case: Seq<char>,
    before: Seq<char>,
    after: Seq<char>,
)
    requires
        lower(value) == lower(other_case),
        blank(before),
        blank(after),
    ensures
        truthy(before + value + after) == truthy(value),
        truthy(other_case) == truthy(value),
{
    law_trimming_ignores_padding(before, value, after);
    law_case_makes_no_difference_to_trimming(value);
    law_case_makes_no_difference_to_trimming(other_case);
}

/// A single latency observation.
#[derive(Debug, Clone, Copy, PartialEq, Eq, Structural)]
pub struct Sample {
    /// Nanoseconds from beam edge to BLE write.
    pub edge_to_write_ns: u64,
    /// Nanoseconds from BLE write to read-back, when observed.
    pub write_to_read_ns: Option<u64>,
}

/// The nanoseconds from `start` to `end`, and zero when `end` comes first.
pub open spec fn span_ns(start: u64, end: u64) -> u64 {
    if end >= start {
        (end - start) as u64
    } else {
        0
    }
}

impl Sample {
    /// The sample of a write issued at `write_ns` for an edge stamped `edge_ns`,
    /// before anything has been read back.
    pub fn of_write(edge_ns: u64, write_ns: u64) -> (sample: Self)
        ensures
            sample == (Sample {
                edge_to_write_ns: span_ns(edge_ns, write_ns),
                write_to_read_ns: None,
            }),
    {
        Self { edge_to_write_ns: write_ns.saturating_sub(edge_ns), write_to_read_ns: None }
    }

    /// The same sample with a read-back that ran from `start_ns` to `end_ns`.
    pub fn with_read_back(self, start_ns: u64, end_ns: u64) -> (sample: Self)
        ensures
            sample == (Sample {
                edge_to_write_ns: self.edge_to_write_ns,
                write_to_read_ns: Some(span_ns(start_ns, end_ns)),
            }),
    {
        Self {
            edge_to_write_ns: self.edge_to_write_ns,
            write_to_read_ns: Some(end_ns.saturating_sub(start_ns)),
        }
    }
}

/// A reading of the monotonic clock: whole seconds and the nanoseconds beyond them.
#[derive(Debug, Clone, Copy, PartialEq, Eq, Structural)]
pub struct ClockReading {
    pub secs: i64,
    pub nanos: i64,
}

impl ClockReading {
    /// A reading whose parts are not negative and whose nanoseconds count in 64 bits.
    pub open spec fn valid(self) -> bool {
        &&& 0 <= self.secs
        &&& 0 <= self.nanos
        &&& self.total_ns() <= u64::MAX
    }

    /// The nanoseconds stay short of another second.
    pub open spec fn normalised(self) -> bool {
        0 <= self.nanos < 1_000_000_000
    }

    /// The nanoseconds from the clock's origin to the reading.
    pub open spec fn total_ns(self) -> int {
        self.secs * 1_000_000_000 + self.nanos
    }
}

/// The nanoseconds that a reading stands for, and none where there is no reading.
pub open spec fn clock_ns(reading: Option<ClockReading>) -> int {
    match reading {
        Some(at) => at.total_ns(),
        None => 0,
    }
}

/// Nanoseconds that a reading of the monotonic clock stands for.
///
/// Returns `0` if the clock could not be read. That cannot happen for the
/// monotonic clock, so the fallback exists only to keep this function total.
pub fn monotonic_ns(reading: Option<ClockReading>) -> (ns: u64)
    requires
        reading is Some ==> reading->0.valid(),
    ensures
        ns == (match reading {
            Some(at) => at.total_ns(),
            None => 0,
        }),
        ns == clock_ns(reading),
{
    match reading {
        Some(at) => (at.secs as u64) * 1_000_000_000 + (at.nanos as u64),
        None => 0,
    }
}

/// The rank of the `p`-th percentile among `n` values: `ceil(p / 100 * n)`,
/// clamped into `1..=n`.
pub open spec fn nearest_rank(p: nat, n: nat) -> nat {
    let rank = (p * n + 99) / 100;
    if rank < 1 {
        1
    } else if rank > n {
        n
    } else {
        rank
    }
}

/// The value at the rank of the `p`-th percentile, and zero among no values.
pub open spec fn percentile_of(values: Seq<u64>, p: nat) -> u64 {
    if values.len() == 0 {
        0
    } else {
        values[nearest_rank(p, values.len()) - 1]
    }
}

/// Nearest-rank percentile over an ascending-sorted slice.
///
/// `rank = ceil(p / 100 * N)` clamped into `1..=N`, using integer maths only
/// (the deployment host is a 32-bit armv6 Pi, so no floats). An empty slice
/// returns `0`. By construction `p = 0` yields the first element and
/// `p = 100` the last.
pub fn percentile(sorted_asc: &[u64], p: u8) -> (value: u64)
    ensures
        value == (if sorted_asc@.len() == 0 {
            0
        } else {
            sorted_asc@[nearest_rank(p as nat, sorted_asc@.len()) - 1]
        }),
        value == percentile_of(sorted_asc@, p as nat),
{
    let n: usize = sorted_asc.len();
    if n == 0 {
        return 0;
    }
    let product: u128 = {
        assert(p * n <= 255 * usize::MAX) by (nonlinear_arith)
            requires
                p <= 255,
                n <= usize::MAX,
        ;
        (p as u128) * (n as u128)
    };
    let rank: u128 = (product + 99) / 100;
    if rank < 1 {
        sorted_asc[0]
    } else if rank > n as u128 {
        sorted_asc[n - 1]
    } else {
        sorted_asc[rank as usize - 1]
    }
}

/// The values of a sorted slice do not fall along it.
pub open spec fn ascending(values: Seq<u64>) -> bool {
    forall|i: int, j: int| 0 <= i <= j < values.len() ==> values[i] <= values[j]
}

/// The rank of a percentile picks one of the values.
pub proof fn law_rank_is_in_range(p: nat, n: nat)
    requires
        n > 0,
    ensures
        1 <= nearest_rank(p, n) <= n,
{
}

/// The 0th percentile is the first value, and the 100th and everything beyond is
/// the last.
pub proof fn law_rank_at_the_ends(p: nat, n: nat)
    requires
        n > 0,
        p >= 100,
    ensures
        nearest_rank(0, n) == 1,
        nearest_rank(p, n) == n,
{
    assert(p * n >= 100 * n) by (nonlinear_arith)
        requires
            p >= 100,
    ;
    assert(0 * n == 0);
}

/// A higher percentile has no lower rank, so on sorted values it has no lower value.
pub proof fn law_percentile_is_monotonic(values: Seq<u64>, p: nat, q: nat)
    requires
        values.len() > 0,
        ascending(values),
        p <= q,
    ensures
        nearest_rank(p, values.len()) <= nearest_rank(q, values.len()),
        values[nearest_rank(p, values.len()) - 1] <= values[nearest_rank(q, values.len()) - 1],
{
    let n = values.len();
    assert(p * n <= q * n) by (nonlinear_arith)
        requires
            p <= q,
    ;
}

/// The rank is the smallest that covers `p` percent of the values.
pub proof fn law_rank_is_the_smallest_that_covers(p: nat, n: nat, other: nat)
    requires
        n > 0,
        0 < p <= 100,
    ensures
        100 * nearest_rank(p, n) >= p * n,
        other >= 1 && 100 * other >= p * n ==> other >= nearest_rank(p, n),
{
    assert(p * n <= 100 * n) by (nonlinear_arith)
        requires
            p <= 100,
    ;
    assert(p * n >= 1) by (nonlinear_arith)
        requires
            p >= 1,
            n >= 1,
    ;
}

/// Of two normalised readings of the clock, the later one stands for no fewer
/// nanoseconds.
pub proof fn law_monotonic_ns_is_non_decreasing(first: ClockReading, second: ClockReading)
    requires
        first.normalised(),
        second.normalised(),
        first.secs < second.secs || (first.secs == second.secs && first.nanos <= second.nanos),
    ensures
        first.total_ns() <= second.total_ns(),
{
}

/// Of any number of values, the percentile is the value at the smallest place by which
/// `p` percent of them have come; the first for zero, and the last from a hundred on.
pub proof fn law_percentile_is_at_the_smallest_covering_place(values: Seq<u64>, p: nat, place: nat)
    requires
        1 <= place <= values.len(),
    ensures
        percentile_of(Seq::<u64>::empty(), p) == 0,
        percentile_of(values, 0) == values[0],
        p >= 100 ==> percentile_of(values, p) == values.last(),
        0 < p <= 100 && 100 * place >= p * values.len() && 100 * (place - 1) < p * values.len()
            ==> percentile_of(values, p) == values[place - 1],
{
    let n = values.len();
    if p >= 100 {
        law_rank_at_the_ends(p, n);
    } else {
        law_rank_at_the_ends(100, n);
    }
    if 0 < p <= 100 {
        law_rank_is_the_smallest_that_covers(p, n, place);
        law_rank_is_in_range(p, n);
    }
}

/// The values that enable instrumentation, without the white space around them and in
/// small letters, are four words and no others.
pub proof fn law_only_four_words_enable(value: Seq<char>)
    ensures
        ({
            let word = lower(trimmed(value));
            truthy(value) <==> {
                ||| word == seq!['1']
                ||| word == seq!['t', 'r', 'u', 'e']
                ||| word == seq!['y', 'e', 's']
                ||| word == seq!['o', 'n']
            }
        }),
{
    reveal_strlit("1");
    reveal_strlit("true");
    reveal_strlit("yes");
    reveal_strlit("on");
    assert("1"@ =~= seq!['1']);
    assert("true"@ =~= seq!['t', 'r', 'u', 'e']);
    assert("yes"@ =~= seq!['y', 'e', 's']);
    assert("on"@ =~= seq!['o', 'n']);
}

/// A span and its start add up to its end, and a span that ends before it starts is none.
pub proof fn law_span_adds_up(start: u64, end: u64)
    ensures
        end >= start ==> start + span_ns(start, end) == end,
        end <= start ==> span_ns(start, end) == 0,
{
}

/// A reading counts a thousand million for each second, and its nanoseconds one by one.
pub proof fn law_reading_counts_seconds_and_nanoseconds(secs: i64, nanos: i64)
    ensures
        clock_ns(None) == 0,
        clock_ns(Some(ClockReading { secs: 0, nanos })) == nanos,
        clock_ns(Some(ClockReading { secs, nanos })) - clock_ns(
            Some(ClockReading { secs: 0, nanos }),
        ) == 1_000_000_000 * secs,
{
}

} // verus!
