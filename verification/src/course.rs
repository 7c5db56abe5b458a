//! Courses of supervision: what the supervisor makes of a whole history of
//! signals.

use vstd::prelude::*;
use crate::error::TaskError;
use crate::supervisor::{error_line, NoticeView, Phase, Signal};

verus! {

impl Phase {
    /// The phase after the whole history, or `None` once a failure of the
    /// watch subsystem has ended supervision.
    pub open spec fn run(self, signals: Seq<Signal>) -> Option<Phase>
        decreases signals.len(),
    {
        if signals.len() == 0 {
            Some(self)
        } else {
            match self.run(signals.drop_last()) {
                Some(phase) => if signals.last().fatal() {
                    None
                } else {
                    Some(phase.step(signals.last()))
                },
                None => None,
            }
        }
    }

    /// The signal makes the supervisor restart the task.
    pub open spec fn restarts_on(self, signal: Signal) -> bool {
        self != Phase::Restarting && self.step(signal) == Phase::Restarting
    }

    /// Number of restarts over the whole history.
    pub open spec fn restarts(self, signals: Seq<Signal>) -> nat
        decreases signals.len(),
    {
        if signals.len() == 0 {
            0
        } else {
            match self.run(signals.drop_last()) {
                Some(phase) => if !signals.last().fatal() && phase.restarts_on(signals.last()) {
                    self.restarts(signals.drop_last()) + 1
                } else {
                    self.restarts(signals.drop_last())
                },
                None => self.restarts(signals.drop_last()),
            }
        }
    }
}

/// Number of detected changes in the history.
pub open spec fn changes(signals: Seq<Signal>) -> nat
    decreases signals.len(),
{
    if signals.len() == 0 {
        0
    } else if signals.last() is ChangeDetected {
        changes(signals.drop_last()) + 1
    } else {
        changes(signals.drop_last())
    }
}

/// No signal of the history is a failure of the watch subsystem.
pub open spec fn without_watch_failure(signals: Seq<Signal>) -> bool {
    forall|i: int| 0 <= i < signals.len() ==> !(#[trigger] signals[i]).fatal()
}

/// The history of a task that fails at once, `rounds` times over: each
/// round is the failure, the change that follows it, and the fresh start.
pub open spec fn failing_rounds(error: TaskError, rounds: nat) -> Seq<Signal>
    decreases rounds,
{
    if rounds == 0 {
        Seq::empty()
    } else {
        failing_rounds(error, (rounds - 1) as nat).push(Signal::TaskFinished(Err(error))).push(
            Signal::ChangeDetected,
        ).push(Signal::TaskStarted)
    }
}

proof fn lemma_prefix_of_prefix(signals: Seq<Signal>, k: int)
    requires
        0 <= k <= signals.len(),
        signals.len() > 0,
    ensures
        k < signals.len() ==> signals.take(k) == signals.drop_last().take(k),
        k == signals.len() ==> signals.take(k) == signals,
{
    if k < signals.len() {
        assert(signals.take(k) =~= signals.drop_last().take(k));
    } else {
        assert(signals.take(k) =~= signals);
    }
}

/// Only a failure of the watch subsystem ends supervision.
pub proof fn lemma_only_watch_failure_ends_supervision(start: Phase, signals: Seq<Signal>)
    ensures
        start.run(signals) is None <==> !without_watch_failure(signals),
    decreases signals.len(),
{
    if signals.len() > 0 {
        let before = signals.drop_last();
        lemma_only_watch_failure_ends_supervision(start, before);
        if without_watch_failure(signals) {
            assert forall|i: int| 0 <= i < before.len() implies !(#[trigger] before[i]).fatal() by {
                assert(before[i] == signals[i]);
            }
            assert(!signals[signals.len() - 1].fatal());
        } else {
            let i = choose|i: int| 0 <= i < signals.len() && (#[trigger] signals[i]).fatal();
            if i < before.len() {
                assert(before[i] == signals[i]);
            }
        }
    }
}

/// A task that fails does not stop supervision: while `Running`, the end of
/// the task is no failure of the watch subsystem, it is reported as an
/// error, and the supervisor goes on to wait for a change.
pub proof fn lemma_failed_task_is_reported_and_awaited(error: TaskError)
    ensures
        !Signal::TaskFinished(Err(error)).fatal(),
        Phase::Running.step(Signal::TaskFinished(Err(error))) == Phase::WaitingForChange,
        Phase::Running.notices(Signal::TaskFinished(Err(error))) == seq![
            NoticeView::Error(error_line(error@)),
            NoticeView::Terminated,
        ],
{
}

/// A task that always fails at once never ends supervision: after any
/// number of rounds of failure, change and fresh start the supervisor is
/// `Running` again, and it has restarted the task once in each round.
pub proof fn lemma_failing_task_is_restarted_for_ever(error: TaskError, rounds: nat)
    ensures
        Phase::Running.run(failing_rounds(error, rounds)) == Some(Phase::Running),
        Phase::Running.restarts(failing_rounds(error, rounds)) == rounds,
        changes(failing_rounds(error, rounds)) == rounds,
    decreases rounds,
{
    if rounds > 0 {
        let earlier = failing_rounds(error, (rounds - 1) as nat);
        lemma_failing_task_is_restarted_for_ever(error, (rounds - 1) as nat);
        let failed = earlier.push(Signal::TaskFinished(Err(error)));
        let changed = failed.push(Signal::ChangeDetected);
        let started = changed.push(Signal::TaskStarted);
        assert(failed.drop_last() =~= earlier);
        assert(changed.drop_last() =~= failed);
        assert(started.drop_last() =~= changed);
        assert(Phase::Running.run(failed) == Some(Phase::WaitingForChange));
        assert(Phase::Running.run(changed) == Some(Phase::Restarting));
        assert(Phase::Running.restarts(failed) == rounds - 1);
        assert(Phase::Running.restarts(changed) == rounds);
        assert(changes(failed) == rounds - 1);
        assert(changes(changed) == rounds);
    }
}

/// The race, won by the change: as long as no task ends, a supervisor that
/// is `Running` restarts the task on each change without ever waiting for a
/// change alone.
pub proof fn lemma_change_first_never_waits(signals: Seq<Signal>)
    requires
        forall|i: int| 0 <= i < signals.len() ==> !((#[trigger] signals[i]) is TaskFinished),
    ensures
        forall|k: int|
            0 <= k <= signals.len() ==> Phase::Running.run(#[trigger] signals.take(k)) != Some(
                Phase::WaitingForChange,
            ),
        Phase::Running.step(Signal::ChangeDetected) == Phase::Restarting,
        Phase::Restarting.step(Signal::TaskStarted) == Phase::Running,
    decreases signals.len(),
{
    if signals.len() > 0 {
        let before = signals.drop_last();
        assert forall|i: int| 0 <= i < before.len() implies !((#[trigger] before[i]) is TaskFinished) by {
            assert(before[i] == signals[i]);
        }
        lemma_change_first_never_waits(before);
        assert(!(signals[signals.len() - 1] is TaskFinished));
        assert forall|k: int| 0 <= k <= signals.len() implies Phase::Running.run(
            #[trigger] signals.take(k),
        ) != Some(Phase::WaitingForChange) by {
            lemma_prefix_of_prefix(signals, k);
            if k == signals.len() {
                assert(before.take(before.len() as int) =~= before);
            }
        }
    } else {
        assert forall|k: int| 0 <= k <= signals.len() implies Phase::Running.run(
            #[trigger] signals.take(k),
        ) != Some(Phase::WaitingForChange) by {
            assert(signals.take(k) =~= signals);
        }
    }
}

/// The race, won by the task: when the task ends while the supervisor is
/// `Running`, the supervisor waits for a change, and it stays waiting,
/// without a restart, until a change is detected. The change then makes it
/// restart.
pub proof fn lemma_task_first_waits_for_change(
    outcome: Result<(), TaskError>,
    signals: Seq<Signal>,
)
    requires
        forall|i: int| 0 <= i < signals.len() ==> !((#[trigger] signals[i]) is ChangeDetected),
    ensures
        Phase::Running.step(Signal::TaskFinished(outcome)) == Phase::WaitingForChange,
        forall|k: int|
            0 <= k <= signals.len() ==> {
                let reached = Phase::WaitingForChange.run(#[trigger] signals.take(k));
                reached is None || reached == Some(Phase::WaitingForChange)
            },
        Phase::WaitingForChange.restarts(signals) == 0,
        Phase::WaitingForChange.restarts_on(Signal::ChangeDetected),
    decreases signals.len(),
{
    if signals.len() > 0 {
        let before = signals.drop_last();
        assert forall|i: int| 0 <= i < before.len() implies !((#[trigger] before[i]) is ChangeDetected) by {
            assert(before[i] == signals[i]);
        }
        lemma_task_first_waits_for_change(outcome, before);
        assert(!(signals[signals.len() - 1] is ChangeDetected));
        assert(before.take(before.len() as int) =~= before);
        assert forall|k: int| 0 <= k <= signals.len() implies {
            let reached = Phase::WaitingForChange.run(#[trigger] signals.take(k));
            reached is None || reached == Some(Phase::WaitingForChange)
        } by {
            lemma_prefix_of_prefix(signals, k);
        }
    } else {
        assert forall|k: int| 0 <= k <= signals.len() implies {
            let reached = Phase::WaitingForChange.run(#[trigger] signals.take(k));
            reached is None || reached == Some(Phase::WaitingForChange)
        } by {
            assert(signals.take(k) =~= signals);
        }
    }
}

/// The supervisor never restarts more often than changes were detected.
pub proof fn lemma_restarts_never_exceed_changes(start: Phase, signals: Seq<Signal>)
    ensures
        start.restarts(signals) <= changes(signals),
    decreases signals.len(),
{
    if signals.len() > 0 {
        lemma_restarts_never_exceed_changes(start, signals.drop_last());
    }
}

/// Each detected change restarts the task exactly once: where no change is
/// reported while a restart is still under way and supervision has not
/// ended, the restarts are as many as the changes.
pub proof fn lemma_each_change_restarts_once(start: Phase, signals: Seq<Signal>)
    requires
        without_watch_failure(signals),
        forall|k: int|
            0 <= k < signals.len() && (#[trigger] signals[k]) is ChangeDetected ==> start.run(
                signals.take(k),
            ) != Some(Phase::Restarting),
    ensures
        start.restarts(signals) == changes(signals),
    decreases signals.len(),
{
    if signals.len() > 0 {
        let before = signals.drop_last();
        assert forall|i: int| 0 <= i < before.len() implies !(#[trigger] before[i]).fatal() by {
            assert(before[i] == signals[i]);
        }
        assert forall|k: int| 0 <= k < before.len() && (#[trigger] before[k]) is ChangeDetected
            implies start.run(before.take(k)) != Some(Phase::Restarting) by {
            assert(before[k] == signals[k]);
            assert(before.take(k) =~= signals.take(k));
        }
        lemma_each_change_restarts_once(start, before);
        lemma_only_watch_failure_ends_supervision(start, before);
        let last = signals[signals.len() - 1];
        assert(!last.fatal());
        assert(signals.take(signals.len() - 1) =~= before);
    }
}

} // verus!
