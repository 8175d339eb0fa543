//! The beam line: its levels, its edges, and the refractory window that debounces it.
use crate::text::same_text;
use crate::time::{elapsed, saturating_duration_since, Duration, Instant};
use vstd::prelude::*;

verus! {

/// Logical level sampled from the beam line.
#[derive(Debug, Clone, Copy, PartialEq, Eq, Structural)]
pub enum Level {
    Low,
    High,
}

/// An edge reported by the kernel: the level sampled at the edge and the raw
/// kernel event timestamp (the latency anchor).
#[derive(Debug, Clone, Copy, PartialEq, Eq, Structural)]
pub struct GpioEdge {
    pub level: Level,
    pub timestamp_ns: u64,
}

/// Refractory window applied after an accepted edge: 20 ms.
pub const REFRACTORY: Duration = 20_000_000;

/// Wiring polarity: the line is low while the beam is broken. This is an assumption,
/// to be confirmed when the sensor is wired up.
pub const BEAM_ACTIVE_LOW: bool = true;

/// Result of offering an edge to the debouncer.
#[derive(Debug, Clone, Copy, PartialEq, Eq, Structural)]
pub enum EdgeDecision {
    Accept,
    Suppress,
}

/// First-edge-wins refractory window. Pure: the caller injects `now`.
#[derive(Debug, Clone, Copy)]
pub struct BeamDebouncer {
    window: Duration,
    last_accepted: Option<Instant>,
}

/// What a debouncer remembers: its window, and the last accepted edge that
/// anchors it.
pub struct Refractory {
    pub window: Duration,
    pub anchor: Option<Instant>,
}

impl Refractory {
    /// Whether `now` falls inside the window of an accepted edge.
    pub open spec fn open_at(self, now: Instant) -> bool {
        self.anchor is Some && elapsed(now, self.anchor->0) < self.window
    }

    /// What is remembered once an edge at `now` has been offered: an accepted
    /// edge becomes the anchor, a suppressed one changes nothing.
    pub open spec fn offer(self, now: Instant) -> Refractory {
        if self.open_at(now) {
            self
        } else {
            Refractory { window: self.window, anchor: Some(now) }
        }
    }
}

impl View for BeamDebouncer {
    type V = Refractory;

    closed spec fn view(&self) -> Refractory {
        Refractory { window: self.window, anchor: self.last_accepted }
    }
}

impl BeamDebouncer {
    /// A debouncer that has accepted no edge yet.
    pub fn new(window: Duration) -> (debouncer: Self)
        ensures
            debouncer@ == (Refractory { window, anchor: None }),
    {
        Self { window, last_accepted: None }
    }

    /// Accept the first edge, or an edge once the previous window has elapsed;
    /// suppress edges still inside the window. An accepted edge becomes the
    /// window anchor.
    pub fn on_edge(&mut self, now: Instant) -> (decision: EdgeDecision)
        ensures
            decision == (if old(self)@.open_at(now) {
                EdgeDecision::Suppress
            } else {
                EdgeDecision::Accept
            }),
            final(self)@ == old(self)@.offer(now),
    {
        match self.last_accepted {
            Some(anchor) if saturating_duration_since(now, anchor) < self.window => {
                EdgeDecision::Suppress
            },
            _ => {
                self.last_accepted = Some(now);
                EdgeDecision::Accept
            },
        }
    }

    /// `Some(remaining)` while an accepted edge's window is still open.
    pub fn remaining(&self, now: Instant) -> (left: Option<Duration>)
        ensures
            left is Some <==> self@.open_at(now),
            left is Some ==> left->0 == self@.window - elapsed(now, self@.anchor->0),
            left is Some && now >= self@.anchor->0 ==> now + left->0 == self@.anchor->0
                + self@.window,
    {
        match self.last_accepted {
            None => None,
            Some(anchor) => {
                let passed: Duration = saturating_duration_since(now, anchor);
                if passed < self.window {
                    Some(self.window - passed)
                } else {
                    None
                }
            },
        }
    }

    /// `true` when an accepted edge's window has elapsed (drives the re-sample).
    pub fn window_expired(&self, now: Instant) -> (expired: bool)
        ensures
            expired == (self@.anchor is Some && !self@.open_at(now)),
    {
        match self.last_accepted {
            Some(anchor) => saturating_duration_since(now, anchor) >= self.window,
            None => false,
        }
    }
}

/// The edges that a debouncer accepts out of those offered at `times`, in order.
pub open spec fn accepted_edges(state: Refractory, times: Seq<Instant>) -> Seq<Instant>
    decreases times.len(),
{
    if times.len() == 0 {
        Seq::empty()
    } else {
        let rest = accepted_edges(state.offer(times[0]), times.drop_first());
        if state.open_at(times[0]) {
            rest
        } else {
            seq![times[0]] + rest
        }
    }
}

/// Whatever edges are offered, an accepted edge comes no sooner than one window
/// after the accepted edge before it.
pub proof fn law_accepted_edges_are_a_window_apart(state: Refractory, times: Seq<Instant>)
    ensures
        ({
            let accepted = accepted_edges(state, times);
            &&& accepted.len() > 0 && state.anchor is Some ==> elapsed(accepted[0], state.anchor->0)
                >= state.window
            &&& forall|i: int|
                0 < i < accepted.len() ==> elapsed(#[trigger] accepted[i], accepted[i - 1])
                    >= state.window
        }),
    decreases times.len(),
{
    if times.len() > 0 {
        law_accepted_edges_are_a_window_apart(state.offer(times[0]), times.drop_first());
        let rest = accepted_edges(state.offer(times[0]), times.drop_first());
        let accepted = accepted_edges(state, times);
        if !state.open_at(times[0]) {
            assert forall|i: int| 0 < i < accepted.len() implies elapsed(
                #[trigger] accepted[i],
                accepted[i - 1],
            ) >= state.window by {
                assert(accepted[i] == rest[i - 1]);
                if i > 1 {
                    assert(accepted[i - 1] == rest[i - 2]);
                }
            }
        }
    }
}

/// Chatter inside the window of an accepted edge yields no further accept.
pub proof fn law_chatter_is_suppressed(state: Refractory, times: Seq<Instant>)
    requires
        forall|i: int| 0 <= i < times.len() ==> state.open_at(#[trigger] times[i]),
    ensures
        accepted_edges(state, times) == Seq::<Instant>::empty(),
    decreases times.len(),
{
    if times.len() > 0 {
        assert(state.open_at(times[0]));
        assert forall|i: int| 0 <= i < times.drop_first().len() implies state.open_at(
            #[trigger] times.drop_first()[i],
        ) by {
            assert(times.drop_first()[i] == times[i + 1]);
        }
        law_chatter_is_suppressed(state, times.drop_first());
    }
}

/// The first edge ever offered is accepted.
pub proof fn law_first_edge_is_accepted(window: Duration, times: Seq<Instant>)
    requires
        times.len() > 0,
    ensures
        accepted_edges(Refractory { window, anchor: None }, times).len() > 0,
        accepted_edges(Refractory { window, anchor: None }, times)[0] == times[0],
{
}

/// What a level says of the beam: `true` when it is broken.
pub open spec fn fact_of(level: Level, active_low: bool) -> bool {
    (level is Low) == active_low
}

/// `true` = beam broken (the fact handed to the write path).
pub fn level_to_fact(level: Level, active_low: bool) -> (fact: bool)
    ensures
        fact == fact_of(level, active_low),
{
    match level {
        Level::Low => active_low,
        Level::High => !active_low,
    }
}

/// The level of a line that reads as active or inactive.
pub fn value_to_level(active: bool) -> (level: Level)
    ensures
        level == (if active {
            Level::High
        } else {
            Level::Low
        }),
{
    if active {
        Level::High
    } else {
        Level::Low
    }
}

/// Flipping the level flips the fact, and so does flipping the polarity.
pub proof fn law_fact_follows_level_and_polarity(level: Level, active_low: bool)
    ensures
        fact_of(Level::Low, active_low) != fact_of(Level::High, active_low),
        fact_of(level, active_low) != fact_of(level, !active_low),
{
}

/// The label found on a chip, if one could be read, is the one wanted.
pub open spec fn label_matches(found: Option<String>, wanted: Seq<char>) -> bool {
    found is Some && found->0@ == wanted
}

/// The chip, if any, is the first whose label is the one wanted.
pub open spec fn is_first_chip(
    chip: Option<usize>,
    labels: Seq<Option<String>>,
    wanted: Seq<char>,
) -> bool {
    match chip {
        Some(at) => {
            &&& at < labels.len()
            &&& label_matches(labels[at as int], wanted)
            &&& forall|i: int| 0 <= i < at ==> !label_matches(#[trigger] labels[i], wanted)
        },
        None => forall|i: int|
            0 <= i < labels.len() ==> !label_matches(#[trigger] labels[i], wanted),
    }
}

/// The first chip whose label could be read and is the one wanted.
pub fn chip_with_label(labels: &[Option<String>], wanted: &str) -> (chip: Option<usize>)
    ensures
        match chip {
            Some(at) => {
                &&& at < labels@.len()
                &&& label_matches(labels@[at as int], wanted@)
                &&& forall|i: int| 0 <= i < at ==> !label_matches(#[trigger] labels@[i], wanted@)
            },
            None => forall|i: int|
                0 <= i < labels@.len() ==> !label_matches(#[trigger] labels@[i], wanted@),
        },
        is_first_chip(chip, labels@, wanted@),
{
    let mut at: usize = 0;
    while at < labels.len()
        invariant
            at <= labels@.len(),
            forall|i: int| 0 <= i < at ==> !label_matches(#[trigger] labels@[i], wanted@),
        decreases labels@.len() - at,
    {
        if let Some(label) = &labels[at] {
            if same_text(label.as_str(), wanted) {
                return Some(at);
            }
        }
        at += 1;
    }
    None
}

/// The window of an accepted edge is open until the edge's time and the length of the
/// window have passed, and closed from then on; without an accepted edge none is open.
pub proof fn law_window_closes_on_time(window: Duration, anchor: Instant, now: Instant)
    requires
        window > 0,
    ensures
        (Refractory { window, anchor: Some(anchor) }).open_at(now) <==> now < anchor + window,
        !(Refractory { window, anchor: None }).open_at(now),
{
}

/// An edge leaves the window's length alone. One at or after the end of the window
/// becomes the new anchor, and one inside it leaves the anchor where it was.
pub proof fn law_offered_edge_moves_the_anchor_or_nothing(
    window: Duration,
    anchor: Instant,
    now: Instant,
)
    requires
        window > 0,
    ensures
        (Refractory { window, anchor: Some(anchor) }).offer(now) == (Refractory {
            window,
            anchor: if now < anchor + window {
                Some(anchor)
            } else {
                Some(now)
            },
        }),
        (Refractory { window, anchor: None }).offer(now) == (Refractory {
            window,
            anchor: Some(now),
        }),
{
}

/// The beam is broken exactly when the line is at the level that stands for it.
pub proof fn law_active_level_says_broken(level: Level, active_low: bool)
    ensures
        fact_of(Level::Low, active_low) == active_low,
        fact_of(Level::High, active_low) == !active_low,
        fact_of(level, true) <==> level == Level::Low,
{
}

/// A label is the one wanted when it holds the same characters, all of them and no
/// others; a chip whose label could not be read is never the one.
pub proof fn law_label_matches_whole(found: String, wanted: Seq<char>)
    ensures
        !label_matches(None, wanted),
        label_matches(Some(found), found@),
        label_matches(Some(found), wanted) <==> found@.len() == wanted.len() && forall|i: int|
            0 <= i < wanted.len() ==> found@[i] == wanted[i],
{
    if label_matches(Some(found), wanted) {
        assert(found@ =~= wanted);
    }
    if found@.len() == wanted.len() && forall|i: int|
        0 <= i < wanted.len() ==> found@[i] == wanted[i] {
        assert(found@ =~= wanted);
    }
}

/// Only one answer is right: the first chip that carries the label, whatever others come
/// after it, and none where no chip carries it.
pub proof fn law_only_the_first_chip_is_right(
    chip: Option<usize>,
    labels: Seq<Option<String>>,
    wanted: Seq<char>,
    at: usize,
)
    requires
        is_first_chip(chip, labels, wanted),
    ensures
        at < labels.len() && label_matches(labels[at as int], wanted) && (forall|i: int|
            0 <= i < at ==> !label_matches(#[trigger] labels[i], wanted)) ==> chip == Some(at),
        (forall|i: int| 0 <= i < labels.len() ==> !label_matches(#[trigger] labels[i], wanted))
            ==> chip is None,
{
    if let Some(found) = chip {
        assert(label_matches(labels[found as int], wanted));
    }
}

} // verus!
