//! Waiting for a settled change, one wake-up at a time.
//!
//! The caller suspends on the notification channel, with a timeout while a
//! burst is waiting. Each time it wakes it reads the clock and hands the
//! reason to `wait_for_file_change`, which answers with the change, with the
//! next thing to wait for, or with the failure that ends the session.

use vstd::prelude::*;
use vstd::string::*;
use crate::debounce::{Debounce, DebouncePoll, DebounceState};
use crate::error::{WatchError, WatchErrorView};
use crate::event::{ChangeEvent, ChangeKind};

verus! {

/// Slots of the channel between the event source and the debouncer. When
/// all are taken the event source drops what it cannot enqueue.
pub const CHANNEL_CAPACITY: usize = 16;

/// Why the caller woke up.
#[derive(Debug, PartialEq, Eq)]
pub enum Wake {
    /// The channel delivered a message of the event source.
    Notified(Result<ChangeEvent, WatchError>),
    /// The timeout ran out, or nothing has been waited for yet.
    TimedOut,
    /// The channel has no sender left, so nothing can arrive any more.
    Closed,
}

/// What the caller does next.
#[derive(Clone, Copy, Debug, PartialEq, Eq, Structural)]
pub enum Wait {
    /// A burst has settled: the change is detected.
    Detected,
    /// Suspend until the next message, for this many milliseconds at most.
    Sleep(u64),
    /// Suspend until the next message.
    Block,
}

/// One wake-up as the debouncer sees it: the time on the clock, and the
/// kind of the notification that came with it, if one did.
pub struct Moment {
    pub at: u64,
    pub arrival: Option<ChangeKind>,
}

impl Moment {
    /// A notification that takes part in debouncing came with it.
    pub open spec fn relevant(self) -> bool {
        self.arrival matches Some(kind) && kind.relevant()
    }
}

impl DebounceState {
    /// The state just after the arrival, before the clock is asked.
    pub open spec fn arrived(self, m: Moment) -> DebounceState {
        match m.arrival {
            Some(kind) => self.record(m.at, kind),
            None => self,
        }
    }

    /// The arrival itself releases the burst before it.
    pub open spec fn released_by_arrival(self, m: Moment) -> bool {
        m.arrival matches Some(kind) && self.record_fires(m.at, kind)
    }

    /// The wake-up gives a trigger: the arrival releases the burst before
    /// it, or the clock shows that the waiting burst has settled.
    pub open spec fn fires(self, m: Moment) -> bool {
        self.released_by_arrival(m) || self.arrived(m).settled(m.at)
    }

    /// The state after the wake-up.
    pub open spec fn advance(self, m: Moment) -> DebounceState {
        if self.released_by_arrival(m) {
            self.arrived(m)
        } else {
            self.arrived(m).poll(m.at)
        }
    }

    /// What is left to wait for in this state at `now`.
    pub open spec fn pending_wait(self, now: u64) -> Wait {
        if self.idle() {
            Wait::Block
        } else if self.settled(now) {
            Wait::Detected
        } else {
            Wait::Sleep((self.quiet_window - self.elapsed(now)) as u64)
        }
    }

    /// The answer to the wake-up.
    pub open spec fn next_wait(self, m: Moment) -> Wait {
        if self.fires(m) {
            Wait::Detected
        } else {
            self.advance(m).pending_wait(m.at)
        }
    }
}

/// The answer to a wake-up is the change exactly when the wake-up gives a
/// trigger. Otherwise it is to suspend without a timeout when no burst is
/// left waiting, and else for what is left of the quiet window, which is
/// more than nothing.
pub proof fn lemma_answer_follows_the_trigger(state: DebounceState, m: Moment)
    ensures
        state.next_wait(m) == Wait::Detected <==> state.fires(m),
        state.next_wait(m) == Wait::Block <==> !state.fires(m) && state.advance(m).idle(),
        state.next_wait(m) matches Wait::Sleep(millis) ==> {
            &&& !state.advance(m).idle()
            &&& 0 < millis <= state.quiet_window
            &&& millis == state.quiet_window - state.advance(m).elapsed(m.at)
        },
{
}

/// Text of the failure that a closed channel gives.
pub open spec fn closed_reason() -> Seq<char> {
    "notification channel closed"@
}

/// Handles one wake-up at time `now`.
///
/// A notification is recorded first, then the clock is asked. A failure
/// that the channel delivered comes back as it is, and a closed channel as
/// a channel failure; in both cases the debouncer is left untouched.
pub fn wait_for_file_change(debounce: &mut Debounce, now: u64, wake: Wake) -> (r: Result<
    Wait,
    WatchError,
>)
    ensures
        match wake {
            Wake::Notified(Ok(event)) => {
                let m = Moment { at: now, arrival: Some(event.kind) };
                &&& r == Ok::<Wait, WatchError>(old(debounce)@.next_wait(m))
                &&& final(debounce)@ == old(debounce)@.advance(m)
            },
            Wake::TimedOut => {
                let m = Moment { at: now, arrival: None };
                &&& r == Ok::<Wait, WatchError>(old(debounce)@.next_wait(m))
                &&& final(debounce)@ == old(debounce)@.advance(m)
            },
            Wake::Notified(Err(error)) => {
                &&& r == Err::<Wait, WatchError>(error)
                &&& final(debounce)@ == old(debounce)@
            },
            Wake::Closed => {
                &&& r is Err
                &&& r->Err_0@ == WatchErrorView::Channel(closed_reason())
                &&& final(debounce)@ == old(debounce)@
            },
        },
{
    match wake {
        Wake::Notified(Ok(event)) => {
            if debounce.record(now, event.kind) {
                return Ok(Wait::Detected);
            }
        },
        Wake::TimedOut => {},
        Wake::Notified(Err(error)) => {
            return Err(error);
        },
        Wake::Closed => {
            return Err(WatchError::Channel(String::from_str("notification channel closed")));
        },
    }
    match debounce.poll_next(now) {
        DebouncePoll::Ready => Ok(Wait::Detected),
        DebouncePoll::Pending(remaining) => Ok(Wait::Sleep(remaining)),
        DebouncePoll::Idle => Ok(Wait::Block),
    }
}

} // verus!
