//! From the raw notifications of a watch to items of the control channel.

use vstd::prelude::*;
use crate::change::{
    classification, classify, has_tracked_extension, Transition, TransitionView,
};
use crate::command::{ChangeEvent, ChangeEventView, WatchCommand, WatchCommandView};

verus! {

/// A notification of the watch, before any classification.
///
/// Each path is the text of the path that the watch named, or `None` where that path
/// has no text (it is not valid Unicode).
#[derive(Clone, Debug, PartialEq, Eq)]
pub enum RawTransition {
    Created(Option<String>),
    Modified(Option<String>),
    Removed(Option<String>),
    /// Source, then destination.
    Renamed(Option<String>, Option<String>),
}

/// The mathematical value of a [`RawTransition`].
pub enum RawTransitionView {
    Created(Option<Seq<char>>),
    Modified(Option<Seq<char>>),
    Removed(Option<Seq<char>>),
    Renamed(Option<Seq<char>>, Option<Seq<char>>),
}

impl View for RawTransition {
    type V = RawTransitionView;

    open spec fn view(&self) -> RawTransitionView {
        match self {
            RawTransition::Created(path) => RawTransitionView::Created(path.deep_view()),
            RawTransition::Modified(path) => RawTransitionView::Modified(path.deep_view()),
            RawTransition::Removed(path) => RawTransitionView::Removed(path.deep_view()),
            RawTransition::Renamed(from, to) => RawTransitionView::Renamed(
                from.deep_view(),
                to.deep_view(),
            ),
        }
    }
}

impl RawTransitionView {
    /// The path that the notification is about, if it has a text.
    pub open spec fn primary_path(self) -> Option<Seq<char>> {
        match self {
            RawTransitionView::Created(path) => path,
            RawTransitionView::Modified(path) => path,
            RawTransitionView::Removed(path) => path,
            RawTransitionView::Renamed(from, _) => from,
        }
    }

    /// The destination of a rename if it has a text, and the empty path for the other
    /// notifications.
    pub open spec fn secondary_path(self) -> Option<Seq<char>> {
        match self {
            RawTransitionView::Renamed(_, to) => to,
            _ => Some(Seq::<char>::empty()),
        }
    }

    /// What happened, given the text of the destination.
    pub open spec fn transition(self, to: Seq<char>) -> TransitionView {
        match self {
            RawTransitionView::Created(_) => TransitionView::Created,
            RawTransitionView::Modified(_) => TransitionView::Modified,
            RawTransitionView::Removed(_) => TransitionView::Removed,
            RawTransitionView::Renamed(_, _) => TransitionView::Renamed(to),
        }
    }
}

/// The change event that a raw notification turns into, if any.
///
/// A notification that names a path without text is dropped, and so is one that the
/// classifier does not report.  The event carries the path, and for a rename the
/// destination as its second path.
pub open spec fn translation(raw: RawTransitionView, is_directory: bool) -> Option<ChangeEventView> {
    match (raw.primary_path(), raw.secondary_path()) {
        (Some(path), Some(second)) => match classification(
            path,
            is_directory,
            raw.transition(second),
        ) {
            Some(kind) => Some(
                ChangeEventView { kind, primary_path: path, secondary_path: second },
            ),
            None => None,
        },
        _ => None,
    }
}

/// What holds of every translated event.
///
/// The event is well formed: it has a second path only if it is a rename.  It names
/// the paths of the notification, and its kind is the one that the classifier gives
/// to them.  A file kind is only produced for a path with a tracked extension.  And
/// no notification about a directory is dropped, whatever the directory is called,
/// as long as its paths have a text.
pub proof fn lemma_translation_invariant(raw: RawTransitionView, is_directory: bool)
    ensures
        translation(raw, is_directory) matches Some(event) ==> {
            &&& event.well_formed()
            &&& event.kind.is_directory_kind() == is_directory
            &&& event.kind.is_rename_kind() == (raw is Renamed)
            &&& raw.primary_path() == Some(event.primary_path)
            &&& raw.secondary_path() == Some(event.secondary_path)
            &&& classification(
                event.primary_path,
                is_directory,
                raw.transition(event.secondary_path),
            ) == Some(event.kind)
            &&& !event.kind.is_directory_kind() ==> has_tracked_extension(event.primary_path)
        },
        is_directory && raw.primary_path() is Some && raw.secondary_path() is Some ==> translation(
            raw,
            is_directory,
        ) is Some,
        raw.primary_path() is None || raw.secondary_path() is None ==> translation(
            raw,
            is_directory,
        ) is None,
{
}

/// Classifies the entry at `path` and builds the event for it.
fn event_for(path: String, second: String, is_directory: bool, transition: &Transition) -> (event:
    Option<ChangeEvent>)
    ensures
        match event {
            Some(e) => classification(path@, is_directory, transition@) == Some(e@.kind)
                && e@.primary_path == path@ && e@.secondary_path == second@,
            None => classification(path@, is_directory, transition@) is None,
        },
{
    match classify(path.as_str(), is_directory, transition) {
        Some(kind) => Some(ChangeEvent { kind, primary_path: path, secondary_path: second }),
        None => None,
    }
}

/// Turns one raw notification into an item for the control channel.
///
/// `is_directory` says whether the entry that the notification is about is a
/// directory now; for a rename it speaks of the destination.  `None` means that the
/// notification is dropped.
pub fn translate(raw: RawTransition, is_directory: bool) -> (command: Option<WatchCommand>)
    ensures
        match command {
            Some(c) => translation(raw@, is_directory) matches Some(event) && c@
                == WatchCommandView::ChangeEvent(event),
            None => translation(raw@, is_directory) is None,
        },
{
    let event = match raw {
        RawTransition::Created(Some(path)) => event_for(
            path,
            String::new(),
            is_directory,
            &Transition::Created,
        ),
        RawTransition::Modified(Some(path)) => event_for(
            path,
            String::new(),
            is_directory,
            &Transition::Modified,
        ),
        RawTransition::Removed(Some(path)) => event_for(
            path,
            String::new(),
            is_directory,
            &Transition::Removed,
        ),
        RawTransition::Renamed(Some(from), Some(to)) => {
            let transition = Transition::Renamed(to.clone());
            event_for(from, to, is_directory, &transition)
        },
        _ => None,
    };
    match event {
        Some(e) => Some(WatchCommand::ChangeEvent(e)),
        None => None,
    }
}

} // verus!
