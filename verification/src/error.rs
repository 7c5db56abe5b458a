//! What can go wrong: failures of the watch subsystem, each of which ends
//! supervision, and failures of the task, none of which does.

use vstd::prelude::*;

verus! {

/// A failure of the event source.
#[derive(Clone, Debug, PartialEq, Eq)]
pub enum WatchError {
    /// A watch could not be registered when the session was set up.
    WatchSetup(String),
    /// The delivery of notifications failed during the session.
    Channel(String),
}

/// A `WatchError` with its text as a sequence of characters.
pub enum WatchErrorView {
    WatchSetup(Seq<char>),
    Channel(Seq<char>),
}

impl View for WatchError {
    type V = WatchErrorView;

    open spec fn view(&self) -> WatchErrorView {
        match self {
            WatchError::WatchSetup(reason) => WatchErrorView::WatchSetup(reason@),
            WatchError::Channel(reason) => WatchErrorView::Channel(reason@),
        }
    }
}

impl WatchErrorView {
    pub open spec fn reason(self) -> Seq<char> {
        match self {
            WatchErrorView::WatchSetup(reason) => reason,
            WatchErrorView::Channel(reason) => reason,
        }
    }
}

/// A failure of the supervised task. It is reported and supervision goes
/// on: the task is started again at the next change.
#[derive(Clone, Debug, PartialEq, Eq)]
pub struct TaskError {
    /// What the task said went wrong.
    pub description: String,
}

impl View for TaskError {
    type V = Seq<char>;

    open spec fn view(&self) -> Seq<char> {
        self.description@
    }
}

impl TaskError {
    pub fn new(description: String) -> (error: TaskError)
        ensures
            error.description == description,
    {
        TaskError { description }
    }
}

impl WatchError {
    /// What the event source said went wrong.
    pub fn reason(&self) -> (text: String)
        ensures
            text@ == self@.reason(),
    {
        match self {
            WatchError::WatchSetup(reason) => reason.clone(),
            WatchError::Channel(reason) => reason.clone(),
        }
    }

    pub fn is_setup(&self) -> (b: bool)
        ensures
            b == (self is WatchSetup),
    {
        match self {
            WatchError::WatchSetup(_) => true,
            WatchError::Channel(_) => false,
        }
    }
}

} // verus!
