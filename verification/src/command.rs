//! What travels on the control channel: retarget requests and classified changes.

use vstd::prelude::*;
use crate::change::ChangeKind;
use crate::path::{normalize_path, normalized};

verus! {

/// One classified change: its kind, the path it happened to and, for a rename, the
/// destination.
#[derive(Clone, Debug, PartialEq, Eq)]
pub struct ChangeEvent {
    pub kind: ChangeKind,
    pub primary_path: String,
    pub secondary_path: String,
}

/// The mathematical value of a [`ChangeEvent`].
pub struct ChangeEventView {
    pub kind: ChangeKind,
    pub primary_path: Seq<char>,
    pub secondary_path: Seq<char>,
}

impl View for ChangeEvent {
    type V = ChangeEventView;

    open spec fn view(&self) -> ChangeEventView {
        ChangeEventView {
            kind: self.kind,
            primary_path: self.primary_path@,
            secondary_path: self.secondary_path@,
        }
    }
}

impl DeepView for ChangeEvent {
    type V = ChangeEventView;

    open spec fn deep_view(&self) -> ChangeEventView {
        self@
    }
}

impl ChangeEventView {
    /// Only a rename has a second path.
    pub open spec fn well_formed(self) -> bool {
        self.kind.is_rename_kind() || self.secondary_path.len() == 0
    }

    /// The event as the consumer sees it: both paths without the extended-length prefix.
    pub open spec fn normalized(self) -> ChangeEventView {
        ChangeEventView {
            kind: self.kind,
            primary_path: normalized(self.primary_path),
            secondary_path: normalized(self.secondary_path),
        }
    }
}

/// Normalizing keeps the kind, and keeps an event well formed.
pub proof fn lemma_normalized_event(event: ChangeEventView)
    ensures
        event.normalized().kind == event.kind,
        event.well_formed() ==> event.normalized().well_formed(),
{
}

impl ChangeEvent {
    /// A change of one path.
    pub fn new(kind: ChangeKind, path: String) -> (event: ChangeEvent)
        ensures
            event@ == (ChangeEventView {
                kind,
                primary_path: path@,
                secondary_path: Seq::<char>::empty(),
            }),
            event@.well_formed(),
    {
        ChangeEvent { kind, primary_path: path, secondary_path: String::new() }
    }

    /// The event as the consumer sees it: both paths without the extended-length prefix.
    pub fn normalize(self) -> (plain: ChangeEvent)
        ensures
            plain@ == self@.normalized(),
    {
        ChangeEvent {
            kind: self.kind,
            primary_path: normalize_path(self.primary_path.as_str()),
            secondary_path: normalize_path(self.secondary_path.as_str()),
        }
    }
}

/// An item of the control channel.
#[derive(Clone, Debug, PartialEq, Eq)]
pub enum WatchCommand {
    /// Watch this root from now on, or nothing at all.
    Retarget(Option<String>),
    /// A change that the current watch has seen.
    ChangeEvent(ChangeEvent),
}

/// The mathematical value of a [`WatchCommand`].
pub enum WatchCommandView {
    Retarget(Option<Seq<char>>),
    ChangeEvent(ChangeEventView),
}

impl View for WatchCommand {
    type V = WatchCommandView;

    open spec fn view(&self) -> WatchCommandView {
        match self {
            WatchCommand::Retarget(root) => WatchCommandView::Retarget(root.deep_view()),
            WatchCommand::ChangeEvent(event) => WatchCommandView::ChangeEvent(event@),
        }
    }
}

impl DeepView for WatchCommand {
    type V = WatchCommandView;

    open spec fn deep_view(&self) -> WatchCommandView {
        self@
    }
}

} // verus!
