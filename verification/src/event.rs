//! Change notifications as the event source delivers them.

use vstd::prelude::*;

verus! {

/// Classification of one filesystem notification.
#[derive(Clone, Copy, Debug, PartialEq, Eq, Structural)]
pub enum ChangeKind {
    Create,
    Modify,
    Remove,
    Other,
}

impl ChangeKind {
    /// Only creations, modifications and removals take part in debouncing.
    pub open spec fn relevant(self) -> bool {
        self != ChangeKind::Other
    }

    pub fn is_relevant(&self) -> (r: bool)
        ensures
            r == self.relevant(),
    {
        match self {
            ChangeKind::Create => true,
            ChangeKind::Modify => true,
            ChangeKind::Remove => true,
            ChangeKind::Other => false,
        }
    }
}

/// One notification of the event source.
#[derive(Clone, Debug, PartialEq, Eq)]
pub struct ChangeEvent {
    pub kind: ChangeKind,
    /// The paths that the notification is about. Their order and
    /// repetitions carry no meaning.
    pub affected_paths: Vec<String>,
}

/// A `ChangeEvent` with its paths as a set of texts.
pub struct ChangeEventView {
    pub kind: ChangeKind,
    pub affected_paths: Set<Seq<char>>,
}

impl View for ChangeEvent {
    type V = ChangeEventView;

    open spec fn view(&self) -> ChangeEventView {
        ChangeEventView {
            kind: self.kind,
            affected_paths: self.affected_paths.deep_view().to_set(),
        }
    }
}

impl ChangeEvent {
    pub fn new(kind: ChangeKind, affected_paths: Vec<String>) -> (event: ChangeEvent)
        ensures
            event.kind == kind,
            event.affected_paths == affected_paths,
    {
        ChangeEvent { kind, affected_paths }
    }

    /// Whether the debouncer takes notice of this event.
    pub fn is_relevant(&self) -> (r: bool)
        ensures
            r == self@.kind.relevant(),
    {
        self.kind.is_relevant()
    }
}

} // verus!
