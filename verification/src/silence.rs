//! Edge-triggered turn-boundary detection over periodic transport ticks.
//!
//! The detector watches the speaking set of each tick. On the falling edge —
//! the first tick whose speaking set is empty after activity — it emits a
//! flush-all signal. Repeated silent ticks do not re-trigger, and a tick with
//! speakers re-arms the detector. A single boolean is the entire state.

use vstd::prelude::*;

verus! {

/// Turn-boundary state machine, scoped per voice session.
///
/// The only state is whether the previous tick's speaking set was empty;
/// it starts out false, so a session that opens on silence still flushes once.
pub struct SilenceDetector {
    last_tick_was_empty: bool,
}

/// The flush-all signal fires exactly on the activity-to-silence edge:
/// the current tick is silent and the last state was not already silence.
pub open spec fn fires_from(last_empty: bool, tick_silent: bool) -> bool {
    tick_silent && !last_empty
}

impl SilenceDetector {
    /// Whether the previously observed tick had an empty speaking set.
    pub closed spec fn last_empty(self) -> bool {
        self.last_tick_was_empty
    }

    /// The flush-all signal of one tick, given this detector state.
    pub open spec fn fires(self, tick_silent: bool) -> bool {
        fires_from(self.last_empty(), tick_silent)
    }

    pub fn new() -> (d: SilenceDetector)
        ensures
            !d.last_empty(),
    {
        SilenceDetector { last_tick_was_empty: false }
    }

    /// Feed one tick, reported as whether its speaking set is empty.
    /// Returns the flush-all signal.
    pub fn observe_tick(&mut self, tick_silent: bool) -> (flush: bool)
        ensures
            flush == old(self).fires(tick_silent),
            final(self).last_empty() == tick_silent,
    {
        if tick_silent && !self.last_tick_was_empty {
            self.last_tick_was_empty = true;
            true
        } else {
            if !tick_silent {
                self.last_tick_was_empty = false;
            }
            false
        }
    }
}

/// How many flush-all signals a detector starting in state `last_empty`
/// emits over a whole sequence of ticks (`true` = empty speaking set): the
/// fold of `observe_tick`'s contract, which fires `fires_from` on each tick
/// and then remembers whether that tick was silent.
pub open spec fn flush_count(ticks: Seq<bool>, last_empty: bool) -> nat
    decreases ticks.len(),
{
    if ticks.len() == 0 {
        0
    } else {
        let fired: nat = if fires_from(last_empty, ticks[0]) { 1 } else { 0 };
        fired + flush_count(ticks.drop_first(), ticks[0])
    }
}

/// An activity-to-silence transition sits at position `i` of the tick
/// sequence: the tick is silent and what came before it — the previous tick,
/// or the initial state — was not.
pub open spec fn is_edge(ticks: Seq<bool>, last_empty: bool, i: int) -> bool {
    ticks[i] && (if i == 0 { !last_empty } else { !ticks[i - 1] })
}

/// How many activity-to-silence transitions lie at positions below `n`.
pub open spec fn edge_count_upto(ticks: Seq<bool>, last_empty: bool, n: int) -> nat
    decreases n,
{
    if n <= 0 {
        0
    } else {
        edge_count_upto(ticks, last_empty, n - 1) + (if is_edge(ticks, last_empty, n - 1) {
            1nat
        } else {
            0nat
        })
    }
}

/// Edge-triggering: for any sequence of ticks, the number of flush-all
/// signals the detector emits equals the number of activity-to-silence
/// transitions in the sequence, regardless of how many consecutive silent
/// ticks follow each transition.
pub proof fn lemma_flushes_are_edges(ticks: Seq<bool>, last_empty: bool)
    ensures
        flush_count(ticks, last_empty) == edge_count_upto(ticks, last_empty, ticks.len() as int),
{
    lemma_flushes_are_edges_upto(ticks, last_empty, ticks.len() as int);
}

/// Helper for `lemma_flushes_are_edges`: over the suffix that starts at
/// position `ticks.len() - n`, running the detector from the state it holds
/// there counts exactly the edges of the remaining positions.
proof fn lemma_flushes_are_edges_upto(ticks: Seq<bool>, last_empty: bool, n: int)
    requires
        n == ticks.len(),
    ensures
        flush_count(ticks, last_empty) == edge_count_upto(ticks, last_empty, n),
    decreases n,
{
    if n > 0 {
        let rest = ticks.drop_first();
        lemma_flushes_are_edges_upto(rest, ticks[0], n - 1);
        lemma_edge_shift(ticks, last_empty, n - 1);
    }
}

/// Edges of the tail sequence line up, shifted by one, with edges of the
/// whole sequence.
proof fn lemma_edge_shift(ticks: Seq<bool>, last_empty: bool, n: int)
    requires
        0 <= n,
        n + 1 <= ticks.len(),
    ensures
        edge_count_upto(ticks, last_empty, n + 1) == (if is_edge(ticks, last_empty, 0) {
            1nat
        } else {
            0nat
        }) + edge_count_upto(ticks.drop_first(), ticks[0], n),
    decreases n,
{
    let rest = ticks.drop_first();
    if n == 0 {
        assert(edge_count_upto(ticks, last_empty, 0) == 0);
        assert(edge_count_upto(rest, ticks[0], 0) == 0);
        assert(edge_count_upto(ticks, last_empty, 1) == (if is_edge(ticks, last_empty, 0) {
            1nat
        } else {
            0nat
        }));
    } else {
        lemma_edge_shift(ticks, last_empty, n - 1);
        assert(is_edge(ticks, last_empty, n) == is_edge(rest, ticks[0], n - 1));
        assert(edge_count_upto(ticks, last_empty, n + 1) == edge_count_upto(ticks, last_empty, n)
            + (if is_edge(ticks, last_empty, n) {
            1nat
        } else {
            0nat
        }));
        assert(edge_count_upto(rest, ticks[0], n) == edge_count_upto(rest, ticks[0], n - 1) + (
        if is_edge(rest, ticks[0], n - 1) {
            1nat
        } else {
            0nat
        }));
    }
}

/// No double flush: a run of consecutive silent ticks, entered from
/// activity, produces exactly one flush-all signal, not one per tick.
pub proof fn lemma_silence_run_flushes_once(ticks: Seq<bool>, last_empty: bool)
    requires
        !last_empty,
        ticks.len() > 0,
        forall|i: int| 0 <= i < ticks.len() ==> ticks[i],
    ensures
        flush_count(ticks, last_empty) == 1,
{
    assert(ticks[0]);
    let rest = ticks.drop_first();
    assert(forall|i: int| 0 <= i < rest.len() ==> rest[i]);
    lemma_all_silent_no_more_flushes(rest);
    assert(flush_count(ticks, last_empty) == 1 + flush_count(rest, true));
}

/// Once the detector sits in silence, further silent ticks emit nothing.
proof fn lemma_all_silent_no_more_flushes(ticks: Seq<bool>)
    requires
        forall|i: int| 0 <= i < ticks.len() ==> ticks[i],
    ensures
        flush_count(ticks, true) == 0,
    decreases ticks.len(),
{
    if ticks.len() > 0 {
        lemma_all_silent_no_more_flushes(ticks.drop_first());
    }
}

} // verus!
