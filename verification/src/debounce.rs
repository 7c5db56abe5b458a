//! Debouncing of change notifications.
//!
//! The policy is time-windowed. The debouncer records when the latest
//! relevant notification arrived and holds a burst to be settled once the
//! quiet window has passed since that arrival. Whether it has passed is
//! asked lazily, at each later arrival and at each timer expiry: the
//! debouncer never waits by itself, it tells the caller for how long to
//! suspend. Notifications are never compared with one another.
//!
//! Time is a count of milliseconds on a clock that the caller reads.

use vstd::prelude::*;
use crate::event::ChangeKind;

verus! {

/// Quiet window of a watch session, in milliseconds.
pub const DEBOUNCE_TIME_MS: u64 = 200;

/// What a debouncer is, mathematically.
pub struct DebounceState {
    /// Inactivity that must follow the latest relevant notification before
    /// its burst counts as one settled change.
    pub quiet_window: u64,
    /// Arrival time of the latest relevant notification of the burst that
    /// has not been released yet; `None` when there is no such burst.
    pub last_observed_time: Option<u64>,
}

impl DebounceState {
    pub open spec fn fresh(quiet_window: u64) -> DebounceState {
        DebounceState { quiet_window, last_observed_time: None }
    }

    pub open spec fn idle(self) -> bool {
        self.last_observed_time is None
    }

    /// Time that has passed at `now` since the latest relevant arrival.
    /// A clock that ran backwards counts as no time passed.
    pub open spec fn elapsed(self, now: u64) -> int {
        match self.last_observed_time {
            Some(t) => if now >= t { now - t } else { 0 },
            None => 0,
        }
    }

    /// The unreleased burst has been quiet for the whole window.
    pub open spec fn settled(self, now: u64) -> bool {
        !self.idle() && self.elapsed(now) >= self.quiet_window
    }

    /// Whether an arrival of `kind` at `now` releases the burst before it:
    /// only a relevant arrival asks, and only a settled burst is released.
    pub open spec fn record_fires(self, now: u64, kind: ChangeKind) -> bool {
        kind.relevant() && self.settled(now)
    }

    /// The state after an arrival of `kind` at `now`. A relevant arrival
    /// restarts the clock; any other leaves the state as it is.
    pub open spec fn record(self, now: u64, kind: ChangeKind) -> DebounceState {
        if kind.relevant() {
            DebounceState { last_observed_time: Some(now), ..self }
        } else {
            self
        }
    }

    /// The state after the clock was read at `now`: a settled burst is
    /// released, anything else stays.
    pub open spec fn poll(self, now: u64) -> DebounceState {
        if self.settled(now) {
            DebounceState { last_observed_time: None, ..self }
        } else {
            self
        }
    }
}

/// Answer of the debouncer to a reading of the clock.
#[derive(Clone, Copy, Debug, PartialEq, Eq, Structural)]
pub enum DebouncePoll {
    /// No burst is waiting: suspend until the next notification.
    Idle,
    /// A burst is waiting and will settle after this many milliseconds
    /// unless another relevant notification arrives first.
    Pending(u64),
    /// The burst has settled: this is the one trigger it gives.
    Ready,
}

/// The debouncer of one watch session.
#[derive(Debug)]
pub struct Debounce {
    debounce_time: u64,
    last_event: Option<u64>,
}

impl View for Debounce {
    type V = DebounceState;

    closed spec fn view(&self) -> DebounceState {
        DebounceState { quiet_window: self.debounce_time, last_observed_time: self.last_event }
    }
}

impl Debounce {
    /// A debouncer with no burst waiting.
    pub fn new(debounce_time: u64) -> (d: Debounce)
        ensures
            d@ == DebounceState::fresh(debounce_time),
    {
        Debounce { debounce_time, last_event: None }
    }

    pub fn debounce_time(&self) -> (w: u64)
        ensures
            w == self@.quiet_window,
    {
        self.debounce_time
    }

    pub fn last_event(&self) -> (t: Option<u64>)
        ensures
            t == self@.last_observed_time,
    {
        self.last_event
    }

    /// Takes in a notification of `kind` that arrived at `now`, and says
    /// whether it releases the burst before it.
    pub fn record(&mut self, now: u64, kind: ChangeKind) -> (fired: bool)
        ensures
            final(self)@ == old(self)@.record(now, kind),
            fired == old(self)@.record_fires(now, kind),
    {
        if !kind.is_relevant() {
            return false;
        }
        let fired = match self.last_event {
            Some(t) => Self::passed(t, now) >= self.debounce_time,
            None => false,
        };
        self.last_event = Some(now);
        fired
    }

    /// Reads the clock at `now`: releases the burst if it has settled, and
    /// otherwise says how long it still has to stay quiet.
    pub fn poll_next(&mut self, now: u64) -> (p: DebouncePoll)
        ensures
            final(self)@ == old(self)@.poll(now),
            old(self)@.idle() ==> p == DebouncePoll::Idle,
            old(self)@.settled(now) ==> p == DebouncePoll::Ready,
            !old(self)@.idle() && !old(self)@.settled(now) ==> p == DebouncePoll::Pending(
                (old(self)@.quiet_window - old(self)@.elapsed(now)) as u64,
            ),
    {
        match self.last_event {
            None => DebouncePoll::Idle,
            Some(t) => {
                let elapsed: u64 = Self::passed(t, now);
                if elapsed >= self.debounce_time {
                    self.last_event = None;
                    DebouncePoll::Ready
                } else {
                    DebouncePoll::Pending(self.debounce_time - elapsed)
                }
            },
        }
    }

    fn passed(since: u64, now: u64) -> (e: u64)
        ensures
            e == if now >= since { now - since } else { 0 },
    {
        if now >= since {
            now - since
        } else {
            0
        }
    }
}

} // verus!
