//! The supervisor of the task: a machine of three phases.
//!
//! The caller drives it. While the supervisor is `Running` the caller races
//! the task against the wait for a settled change; while it is
//! `WaitingForChange` the caller waits for the change alone; while it is
//! `Restarting` the caller builds a fresh task. Whatever comes of that is
//! handed to `step` as a signal, and `step` answers with the lines to log.
//! A task that a change overtook is not cancelled here: the caller simply
//! stops waiting for it.

use vstd::prelude::*;
use vstd::string::*;
use crate::error::{TaskError, WatchError, WatchErrorView};

verus! {

#[derive(Clone, Copy, Debug, PartialEq, Eq, Structural)]
pub enum Phase {
    /// The task runs, and a change is waited for beside it.
    Running,
    /// The task has ended, and only a change is waited for.
    WaitingForChange,
    /// A change was detected, and a fresh task is about to start.
    Restarting,
}

/// What the caller reports to the supervisor.
#[derive(Debug, PartialEq, Eq)]
pub enum Signal {
    /// The task ended, well or with a failure.
    TaskFinished(Result<(), TaskError>),
    /// A burst of notifications has settled.
    ChangeDetected,
    /// The fresh task has been built and runs.
    TaskStarted,
    /// The watch subsystem failed.
    WatchFailed(WatchError),
}

/// A line for the caller to log.
#[derive(Clone, Debug, PartialEq, Eq)]
pub enum Notice {
    /// The task failed; the line is for the error level.
    Error(String),
    /// The task has ended and a change is waited for.
    Terminated,
    /// A change was detected and the task is restarted.
    ChangeDetected,
}

/// A `Notice` with its text as a sequence of characters.
pub enum NoticeView {
    Error(Seq<char>),
    Terminated,
    ChangeDetected,
}

impl View for Notice {
    type V = NoticeView;

    open spec fn view(&self) -> NoticeView {
        match self {
            Notice::Error(line) => NoticeView::Error(line@),
            Notice::Terminated => NoticeView::Terminated,
            Notice::ChangeDetected => NoticeView::ChangeDetected,
        }
    }
}

/// The notices of a list, each by its view.
pub open spec fn notice_views(notices: Seq<Notice>) -> Seq<NoticeView> {
    notices.map_values(|n: Notice| n@)
}

/// The line that reports a failed task.
pub open spec fn error_line(description: Seq<char>) -> Seq<char> {
    "error: "@ + description
}

pub open spec fn terminated_line() -> Seq<char> {
    "Watcher Process terminated! Restarting on file change..."@
}

pub open spec fn change_detected_line() -> Seq<char> {
    "Watcher File change detected! Restarting!"@
}

impl NoticeView {
    pub open spec fn message(self) -> Seq<char> {
        match self {
            NoticeView::Error(line) => line,
            NoticeView::Terminated => terminated_line(),
            NoticeView::ChangeDetected => change_detected_line(),
        }
    }
}

impl Notice {
    /// The text of the line.
    pub fn message(&self) -> (text: String)
        ensures
            text@ == self@.message(),
    {
        match self {
            Notice::Error(line) => line.clone(),
            Notice::Terminated => String::from_str(
                "Watcher Process terminated! Restarting on file change...",
            ),
            Notice::ChangeDetected => String::from_str("Watcher File change detected! Restarting!"),
        }
    }

    /// Whether the line goes out at the error level rather than as
    /// information.
    pub fn is_error(&self) -> (b: bool)
        ensures
            b == (self@ is Error),
    {
        match self {
            Notice::Error(_) => true,
            _ => false,
        }
    }
}

/// Looks at how a task ended: a failure gives the line that reports it, a
/// good end gives nothing. The failure goes no further than that line.
pub fn error_handler(outcome: Result<(), TaskError>) -> (report: Option<String>)
    ensures
        match outcome {
            Ok(_) => report is None,
            Err(error) => report is Some && report->Some_0@ == error_line(error@),
        },
{
    match outcome {
        Ok(_) => None,
        Err(error) => Some(String::from_str("error: ").concat(error.description.as_str())),
    }
}

impl Signal {
    /// The signal ends supervision.
    pub open spec fn fatal(self) -> bool {
        self is WatchFailed
    }
}

impl Phase {
    /// The phase after a signal that does not end supervision.
    ///
    /// A signal that the phase does not wait for leaves it as it is: the end
    /// of a task that is no longer raced, or anything but the start of the
    /// fresh task while restarting.
    pub open spec fn step(self, signal: Signal) -> Phase {
        match (self, signal) {
            (Phase::Running, Signal::TaskFinished(_)) => Phase::WaitingForChange,
            (Phase::Running, Signal::ChangeDetected) => Phase::Restarting,
            (Phase::WaitingForChange, Signal::ChangeDetected) => Phase::Restarting,
            (Phase::Restarting, Signal::TaskStarted) => Phase::Running,
            _ => self,
        }
    }

    /// The lines that the signal gives rise to in this phase.
    pub open spec fn notices(self, signal: Signal) -> Seq<NoticeView> {
        match (self, signal) {
            (Phase::Running, Signal::TaskFinished(Ok(_))) => seq![NoticeView::Terminated],
            (Phase::Running, Signal::TaskFinished(Err(error))) => seq![
                NoticeView::Error(error_line(error@)),
                NoticeView::Terminated,
            ],
            (Phase::Running, Signal::ChangeDetected) => seq![NoticeView::ChangeDetected],
            (Phase::WaitingForChange, Signal::ChangeDetected) => seq![NoticeView::ChangeDetected],
            _ => Seq::empty(),
        }
    }
}

/// The supervisor of one watch session. There is one only where the
/// session was set up, and it lasts until the watch subsystem fails.
#[derive(Debug)]
pub struct Supervisor {
    phase: Phase,
}

impl View for Supervisor {
    type V = Phase;

    closed spec fn view(&self) -> Phase {
        self.phase
    }
}

/// The registration at `i` failed, and none before it did.
pub open spec fn first_failure_at(registrations: Seq<Result<(), String>>, i: int) -> bool {
    &&& 0 <= i < registrations.len()
    &&& registrations[i] is Err
    &&& forall|j: int| 0 <= j < i ==> registrations[j] is Ok
}

impl Supervisor {
    /// Begins supervision once the session is set up.
    ///
    /// `registrations` holds what the event source answered when it was
    /// asked to watch each path, in the order of asking. If any of them
    /// failed there is no supervisor, hence no task: the first failure comes
    /// back as a setup error. Otherwise the supervisor is `Running`, and the
    /// caller starts the first task.
    pub fn start(registrations: &Vec<Result<(), String>>) -> (r: Result<Supervisor, WatchError>)
        ensures
            r is Ok <==> forall|i: int| 0 <= i < registrations@.len() ==> registrations@[i] is Ok,
            r matches Ok(supervisor) ==> supervisor@ == Phase::Running,
            r matches Err(error) ==> exists|i: int|
                {
                    &&& first_failure_at(registrations@, i)
                    &&& error@ == WatchErrorView::WatchSetup(registrations@[i]->Err_0@)
                },
    {
        let mut i: usize = 0;
        while i < registrations.len()
            invariant
                i <= registrations.len(),
                forall|j: int| 0 <= j < i ==> registrations@[j] is Ok,
            decreases registrations.len() - i,
        {
            match &registrations[i] {
                Err(reason) => {
                    assert(first_failure_at(registrations@, i as int));
                    return Err(WatchError::WatchSetup(reason.clone()));
                },
                Ok(_) => {},
            }
            i += 1;
        }
        Ok(Supervisor { phase: Phase::Running })
    }

    pub fn phase(&self) -> (phase: Phase)
        ensures
            phase == self@,
    {
        self.phase
    }

    /// Takes a signal in.
    ///
    /// A failure of the watch subsystem ends supervision: it comes back as
    /// it is and the supervisor stays as it was. Nothing else ends it: every
    /// other signal moves the supervisor on and gives the lines to log, a
    /// failed task included.
    pub fn step(&mut self, signal: Signal) -> (r: Result<Vec<Notice>, WatchError>)
        ensures
            match signal {
                Signal::WatchFailed(error) => {
                    &&& r == Err::<Vec<Notice>, WatchError>(error)
                    &&& final(self)@ == old(self)@
                },
                _ => {
                    &&& r is Ok
                    &&& r->Ok_0@.len() == old(self)@.notices(signal).len()
                    &&& notice_views(r->Ok_0@) == old(self)@.notices(signal)
                    &&& final(self)@ == old(self)@.step(signal)
                },
            },
    {
        let mut notices: Vec<Notice> = Vec::new();
        match signal {
            Signal::WatchFailed(error) => {
                return Err(error);
            },
            Signal::TaskFinished(outcome) => {
                if let Phase::Running = self.phase {
                    if let Some(line) = error_handler(outcome) {
                        notices.push(Notice::Error(line));
                    }
                    notices.push(Notice::Terminated);
                    self.phase = Phase::WaitingForChange;
                }
            },
            Signal::ChangeDetected => {
                match self.phase {
                    Phase::Running | Phase::WaitingForChange => {
                        notices.push(Notice::ChangeDetected);
                        self.phase = Phase::Restarting;
                    },
                    Phase::Restarting => {},
                }
            },
            Signal::TaskStarted => {
                if let Phase::Restarting = self.phase {
                    self.phase = Phase::Running;
                }
            },
        }
        assert(notice_views(notices@) =~= old(self)@.notices(signal));
        Ok(notices)
    }
}

} // verus!
