//! Histories of wake-ups, and what debouncing makes of them.
//!
//! A history is the sequence of the moments at which the caller woke up. The
//! laws here relate the triggers that a debouncer gives over a history to
//! the bursts among the relevant notifications in it.

use vstd::prelude::*;
use crate::debounce::DebounceState;
use crate::wait::Moment;

verus! {

/// The moments come in the order of the clock.
pub open spec fn in_order(history: Seq<Moment>) -> bool {
    forall|i: int, j: int| 0 <= i <= j < history.len() ==> history[i].at <= history[j].at
}

/// No moment of the history brings a relevant notification.
pub open spec fn uneventful(history: Seq<Moment>) -> bool {
    forall|i: int| 0 <= i < history.len() ==> !(#[trigger] history[i]).relevant()
}

/// Arrival times of the relevant notifications of a history, in its order.
pub open spec fn relevant_times(history: Seq<Moment>) -> Seq<u64>
    decreases history.len(),
{
    if history.len() == 0 {
        Seq::empty()
    } else if history.last().relevant() {
        relevant_times(history.drop_last()).push(history.last().at)
    } else {
        relevant_times(history.drop_last())
    }
}

/// Each arrival comes less than the quiet window after the one before.
pub open spec fn one_burst(quiet_window: u64, times: Seq<u64>) -> bool {
    forall|i: int| 0 < i < times.len() ==> (#[trigger] times[i]) - times[i - 1] < quiet_window
}

/// Number of bursts among arrivals at `times`: a new burst begins with the
/// first arrival, and with each one that comes at least the quiet window
/// after the one before.
pub open spec fn bursts(quiet_window: u64, times: Seq<u64>) -> nat
    decreases times.len(),
{
    if times.len() == 0 {
        0
    } else if times.len() == 1 {
        1
    } else if times.last() - times[times.len() - 2] >= quiet_window {
        bursts(quiet_window, times.drop_last()) + 1
    } else {
        bursts(quiet_window, times.drop_last())
    }
}

impl DebounceState {
    /// The state after the whole history.
    pub open spec fn run(self, history: Seq<Moment>) -> DebounceState
        decreases history.len(),
    {
        if history.len() == 0 {
            self
        } else {
            self.run(history.drop_last()).advance(history.last())
        }
    }

    /// Number of triggers given over the whole history.
    pub open spec fn triggers(self, history: Seq<Moment>) -> nat
        decreases history.len(),
    {
        if history.len() == 0 {
            0
        } else if self.run(history.drop_last()).fires(history.last()) {
            self.triggers(history.drop_last()) + 1
        } else {
            self.triggers(history.drop_last())
        }
    }

    /// One if a burst is waiting for its trigger, zero if none is.
    pub open spec fn owed(self) -> nat {
        if self.idle() {
            0
        } else {
            1
        }
    }
}

/// What links the state after a history to the relevant arrivals in it.
spec fn tracks(start: DebounceState, history: Seq<Moment>) -> bool {
    let state = start.run(history);
    let times = relevant_times(history);
    &&& state.quiet_window == start.quiet_window
    &&& times.len() > 0 ==> history.len() > 0 && times.last() <= history.last().at
    &&& state.last_observed_time matches Some(t) ==> times.len() > 0 && times.last() == t
    &&& state.idle() && times.len() > 0 ==> history.last().at - times.last()
        >= state.quiet_window
}

proof fn lemma_prefix_in_order(history: Seq<Moment>)
    requires
        in_order(history),
        history.len() > 0,
    ensures
        in_order(history.drop_last()),
        history.len() > 1 ==> history.drop_last().last().at <= history.last().at,
{
    let before = history.drop_last();
    assert forall|i: int, j: int| 0 <= i <= j < before.len() implies before[i].at
        <= before[j].at by {
        assert(before[i] == history[i]);
        assert(before[j] == history[j]);
    }
    if history.len() > 1 {
        assert(before.last() == history[history.len() - 2]);
    }
}

proof fn lemma_history(start: DebounceState, history: Seq<Moment>)
    requires
        start.idle(),
        in_order(history),
    ensures
        tracks(start, history),
        start.triggers(history) + start.run(history).owed() == bursts(
            start.quiet_window,
            relevant_times(history),
        ),
    decreases history.len(),
{
    if history.len() > 0 {
        let before = history.drop_last();
        let m = history.last();
        lemma_prefix_in_order(history);
        lemma_history(start, before);
        let times = relevant_times(before);
        if m.relevant() {
            assert(times.push(m.at).drop_last() =~= times);
        }
    }
}

/// Debouncing gives one trigger for each burst, never more: over a history
/// in the order of the clock, begun with no burst waiting, the triggers
/// given so far and the one still owed to a waiting burst are together as
/// many as the bursts among the relevant arrivals.
pub proof fn lemma_one_trigger_for_each_burst(start: DebounceState, history: Seq<Moment>)
    requires
        start.idle(),
        in_order(history),
    ensures
        start.triggers(history) + start.run(history).owed() == bursts(
            start.quiet_window,
            relevant_times(history),
        ),
        start.triggers(history) <= bursts(start.quiet_window, relevant_times(history)),
{
    lemma_history(start, history);
}

/// Relevant arrivals that each come less than the quiet window after the
/// one before are coalesced: over a history in the order of the clock, begun
/// with no burst waiting, no trigger is given until the clock is read at
/// least the quiet window after the last of them, and exactly one has been
/// given from then on.
pub proof fn lemma_burst_gives_one_trigger(start: DebounceState, history: Seq<Moment>)
    requires
        start.idle(),
        in_order(history),
        relevant_times(history).len() > 0,
        one_burst(start.quiet_window, relevant_times(history)),
    ensures
        history.len() > 0,
        history.last().at >= relevant_times(history).last(),
        start.triggers(history) == (if history.last().at - relevant_times(history).last()
            >= start.quiet_window {
            1nat
        } else {
            0nat
        }),
        start.run(history).idle() <==> history.last().at - relevant_times(history).last()
            >= start.quiet_window,
    decreases history.len(),
{
    let before = history.drop_last();
    let m = history.last();
    let times = relevant_times(before);
    lemma_prefix_in_order(history);
    lemma_history(start, before);
    lemma_history(start, history);
    if m.relevant() {
        assert(times.push(m.at).drop_last() =~= times);
        if times.len() > 0 {
            let all = relevant_times(history);
            assert(all[all.len() - 1] - all[all.len() - 2] < start.quiet_window);
            assert forall|i: int| 0 < i < times.len() implies (#[trigger] times[i]) - times[i - 1]
                < start.quiet_window by {
                assert(all[i] == times[i]);
                assert(all[i - 1] == times[i - 1]);
            }
            lemma_burst_gives_one_trigger(start, before);
        } else {
            lemma_no_arrival_no_trigger(start, before);
        }
    } else {
        lemma_burst_gives_one_trigger(start, before);
    }
}

/// A history in which no relevant notification arrived gives no trigger.
proof fn lemma_no_arrival_no_trigger(start: DebounceState, history: Seq<Moment>)
    requires
        start.idle(),
        relevant_times(history).len() == 0,
    ensures
        start.triggers(history) == 0,
        start.run(history) == start,
    decreases history.len(),
{
    if history.len() > 0 {
        lemma_no_arrival_no_trigger(start, history.drop_last());
    }
}

/// A notification that is not relevant is ignored entirely: the wake-up
/// that brings it has the effect of one that brings nothing.
pub proof fn lemma_irrelevant_arrival_is_no_arrival(state: DebounceState, m: Moment)
    requires
        !m.relevant(),
    ensures
        state.arrived(m) == state,
        !state.released_by_arrival(m),
        state.advance(m) == state.advance(Moment { at: m.at, arrival: None }),
        state.fires(m) == state.fires(Moment { at: m.at, arrival: None }),
{
}

/// Notifications that are not relevant never give a trigger: over a history
/// without a relevant arrival, begun with no burst waiting, no trigger is
/// given and the debouncer stays as it was.
pub proof fn lemma_irrelevant_events_never_trigger(start: DebounceState, history: Seq<Moment>)
    requires
        start.idle(),
        uneventful(history),
    ensures
        start.triggers(history) == 0,
        start.run(history) == start,
    decreases history.len(),
{
    if history.len() > 0 {
        let before = history.drop_last();
        assert forall|i: int| 0 <= i < before.len() implies !(#[trigger] before[i]).relevant() by {
            assert(before[i] == history[i]);
        }
        lemma_irrelevant_events_never_trigger(start, before);
        assert(!history[history.len() - 1].relevant());
    }
}

/// Notifications that are not relevant never reset the clock: with a burst
/// waiting, a history without a relevant arrival that ends before the burst
/// has settled leaves the debouncer as it was.
pub proof fn lemma_irrelevant_events_keep_the_clock(start: DebounceState, history: Seq<Moment>)
    requires
        uneventful(history),
        in_order(history),
        history.len() > 0 ==> !start.settled(history.last().at),
    ensures
        start.triggers(history) == 0,
        start.run(history) == start,
    decreases history.len(),
{
    if history.len() > 0 {
        let before = history.drop_last();
        lemma_prefix_in_order(history);
        assert(!history[history.len() - 1].relevant());
        assert forall|i: int| 0 <= i < before.len() implies !(#[trigger] before[i]).relevant() by {
            assert(before[i] == history[i]);
        }
        lemma_irrelevant_events_keep_the_clock(start, before);
    }
}

} // verus!
