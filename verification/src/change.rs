//! The vocabulary of changes, and the classifier that maps a raw transition to it.

use vstd::prelude::*;
use crate::path::{extension, extension_of};
use crate::text::{chars_of, same_text};

verus! {

/// A change that the consumer is told about.
#[derive(Clone, Copy, Debug, PartialEq, Eq, Structural)]
pub enum ChangeKind {
    DirCreated,
    FileCreated,
    DirModified,
    FileModified,
    DirRemoved,
    FileRemoved,
    DirRenamed,
    FileRenamed,
}

/// What happened to an entry, as the watch reports it.  A rename carries the
/// destination; the path handed to the classifier beside it is the source.
#[derive(Clone, Debug, PartialEq, Eq)]
pub enum Transition {
    Created,
    Modified,
    Removed,
    Renamed(String),
}

/// The mathematical value of a [`Transition`].
pub enum TransitionView {
    Created,
    Modified,
    Removed,
    Renamed(Seq<char>),
}

impl View for Transition {
    type V = TransitionView;

    open spec fn view(&self) -> TransitionView {
        match self {
            Transition::Created => TransitionView::Created,
            Transition::Modified => TransitionView::Modified,
            Transition::Removed => TransitionView::Removed,
            Transition::Renamed(to) => TransitionView::Renamed(to@),
        }
    }
}

/// The extension `md`.
pub open spec fn markdown_extension() -> Seq<char> {
    seq!['m', 'd']
}

/// The extension `json`.
pub open spec fn json_extension() -> Seq<char> {
    seq!['j', 's', 'o', 'n']
}

/// Whether files with extension `ext` are tracked by the watch.
pub open spec fn is_tracked(ext: Seq<char>) -> bool {
    ext == markdown_extension() || ext == json_extension()
}

/// Whether the final component of `path` has a tracked extension.
pub open spec fn has_tracked_extension(path: Seq<char>) -> bool {
    extension_of(path) matches Some(ext) && is_tracked(ext)
}

/// Whether a transition of the entry at `path` is reported at all.
///
/// Every transition of a directory is.  A transition of a file is reported when the
/// file has a tracked extension; a rename, when in addition the destination has the
/// same extension.
pub open spec fn is_reported(path: Seq<char>, is_directory: bool, transition: TransitionView) -> bool {
    is_directory || (has_tracked_extension(path) && (transition matches TransitionView::Renamed(to)
        ==> extension_of(to) == extension_of(path)))
}

/// The kind under which a reported transition is reported.
pub open spec fn kind_for(transition: TransitionView, is_directory: bool) -> ChangeKind {
    match transition {
        TransitionView::Created => if is_directory {
            ChangeKind::DirCreated
        } else {
            ChangeKind::FileCreated
        },
        TransitionView::Modified => if is_directory {
            ChangeKind::DirModified
        } else {
            ChangeKind::FileModified
        },
        TransitionView::Removed => if is_directory {
            ChangeKind::DirRemoved
        } else {
            ChangeKind::FileRemoved
        },
        TransitionView::Renamed(_) => if is_directory {
            ChangeKind::DirRenamed
        } else {
            ChangeKind::FileRenamed
        },
    }
}

/// The change that a transition of the entry at `path` stands for, if any.
pub open spec fn classification(
    path: Seq<char>,
    is_directory: bool,
    transition: TransitionView,
) -> Option<ChangeKind> {
    if is_reported(path, is_directory, transition) {
        Some(kind_for(transition, is_directory))
    } else {
        None
    }
}

impl ChangeKind {
    /// Whether the kind speaks of a directory.
    pub open spec fn is_directory_kind(self) -> bool {
        self == ChangeKind::DirCreated || self == ChangeKind::DirModified || self
            == ChangeKind::DirRemoved || self == ChangeKind::DirRenamed
    }

    /// Whether the kind is one of the two renames.
    pub open spec fn is_rename_kind(self) -> bool {
        self == ChangeKind::DirRenamed || self == ChangeKind::FileRenamed
    }

    /// The number under which the kind travels to the consumer.
    pub open spec fn code_of(self) -> int {
        match self {
            ChangeKind::DirCreated => 1,
            ChangeKind::FileCreated => 2,
            ChangeKind::DirModified => 3,
            ChangeKind::FileModified => 4,
            ChangeKind::DirRemoved => -1,
            ChangeKind::FileRemoved => -2,
            ChangeKind::DirRenamed => 5,
            ChangeKind::FileRenamed => 6,
        }
    }

    /// The kind that travels under `code`, if there is one.
    pub open spec fn of_code(code: int) -> Option<ChangeKind> {
        if code == 1 {
            Some(ChangeKind::DirCreated)
        } else if code == 2 {
            Some(ChangeKind::FileCreated)
        } else if code == 3 {
            Some(ChangeKind::DirModified)
        } else if code == 4 {
            Some(ChangeKind::FileModified)
        } else if code == -1 {
            Some(ChangeKind::DirRemoved)
        } else if code == -2 {
            Some(ChangeKind::FileRemoved)
        } else if code == 5 {
            Some(ChangeKind::DirRenamed)
        } else if code == 6 {
            Some(ChangeKind::FileRenamed)
        } else {
            None
        }
    }

    /// Whether the kind speaks of a directory.
    pub fn is_directory(self) -> (dir: bool)
        ensures
            dir == self.is_directory_kind(),
    {
        match self {
            ChangeKind::DirCreated
            | ChangeKind::DirModified
            | ChangeKind::DirRemoved
            | ChangeKind::DirRenamed => true,
            _ => false,
        }
    }

    /// Whether the kind is one of the two renames.
    pub fn is_rename(self) -> (rename: bool)
        ensures
            rename == self.is_rename_kind(),
    {
        match self {
            ChangeKind::DirRenamed | ChangeKind::FileRenamed => true,
            _ => false,
        }
    }

    /// The number under which the kind travels to the consumer.
    pub fn code(self) -> (code: i32)
        ensures
            code == self.code_of(),
    {
        match self {
            ChangeKind::DirCreated => 1,
            ChangeKind::FileCreated => 2,
            ChangeKind::DirModified => 3,
            ChangeKind::FileModified => 4,
            ChangeKind::DirRemoved => -1,
            ChangeKind::FileRemoved => -2,
            ChangeKind::DirRenamed => 5,
            ChangeKind::FileRenamed => 6,
        }
    }

    /// The kind that travels under `code`; `None` for a number that names no kind.
    pub fn from_code(code: i32) -> (kind: Option<ChangeKind>)
        ensures
            kind == ChangeKind::of_code(code as int),
    {
        if code == 1 {
            Some(ChangeKind::DirCreated)
        } else if code == 2 {
            Some(ChangeKind::FileCreated)
        } else if code == 3 {
            Some(ChangeKind::DirModified)
        } else if code == 4 {
            Some(ChangeKind::FileModified)
        } else if code == -1 {
            Some(ChangeKind::DirRemoved)
        } else if code == -2 {
            Some(ChangeKind::FileRemoved)
        } else if code == 5 {
            Some(ChangeKind::DirRenamed)
        } else if code == 6 {
            Some(ChangeKind::FileRenamed)
        } else {
            None
        }
    }
}

/// Every kind is found again from its number, and a number names at most one kind.
pub proof fn lemma_code_round_trip(kind: ChangeKind, code: int)
    ensures
        ChangeKind::of_code(kind.code_of()) == Some(kind),
        ChangeKind::of_code(code) == Some(kind) <==> code == kind.code_of(),
{
}

/// Classification is total, and says exactly which transitions pass: every
/// transition of a directory is reported, under a directory kind; a transition of a
/// file is reported if and only if the file's extension is tracked (for a rename:
/// and the destination has that extension too), under a file kind.
pub proof fn lemma_classification_total(
    path: Seq<char>,
    is_directory: bool,
    transition: TransitionView,
)
    ensures
        is_directory ==> classification(path, is_directory, transition) is Some,
        !is_directory && !(transition is Renamed) ==> (classification(
            path,
            is_directory,
            transition,
        ) is Some <==> has_tracked_extension(path)),
        !is_directory ==> (transition matches TransitionView::Renamed(to) ==> (classification(
            path,
            is_directory,
            transition,
        ) is Some <==> has_tracked_extension(path) && has_tracked_extension(to) && extension_of(to)
            == extension_of(path))),
        classification(path, is_directory, transition) matches Some(kind) ==> {
            &&& kind.is_directory_kind() == is_directory
            &&& kind.is_rename_kind() == (transition is Renamed)
            &&& kind == kind_for(transition, is_directory)
        },
{
}

/// Whether files with extension `ext` are tracked by the watch.
pub fn is_tracked_extension(ext: &str) -> (known: bool)
    ensures
        known == is_tracked(ext@),
{
    let chars = chars_of(ext);
    if chars.len() == 2 {
        let hit = chars[0] == 'm' && chars[1] == 'd';
        assert(hit ==> ext@ =~= markdown_extension());
        hit
    } else if chars.len() == 4 {
        let hit = chars[0] == 'j' && chars[1] == 's' && chars[2] == 'o' && chars[3] == 'n';
        assert(hit ==> ext@ =~= json_extension());
        hit
    } else {
        false
    }
}

/// Whether the final component of `path` has a tracked extension.
pub fn path_is_tracked(path: &str) -> (known: bool)
    ensures
        known == has_tracked_extension(path@),
{
    match extension(path) {
        Some(ext) => is_tracked_extension(ext.as_str()),
        None => false,
    }
}

/// Whether two paths have the same extension, or both none.
pub fn same_extension(first: &str, second: &str) -> (same: bool)
    ensures
        same == (extension_of(first@) == extension_of(second@)),
{
    match (extension(first), extension(second)) {
        (Some(a), Some(b)) => same_text(a.as_str(), b.as_str()),
        (None, None) => true,
        _ => false,
    }
}

/// Classifies one transition of the entry at `path`.
///
/// `is_directory` says whether the entry is a directory; for a rename it speaks of
/// the destination.  The result is `None` where the transition is not reported.
pub fn classify(path: &str, is_directory: bool, transition: &Transition) -> (kind: Option<ChangeKind>)
    ensures
        kind == classification(path@, is_directory, transition@),
{
    let reported = is_directory || (path_is_tracked(path) && match transition {
        Transition::Renamed(to) => same_extension(to.as_str(), path),
        _ => true,
    });
    if !reported {
        return None;
    }
    let kind = match transition {
        Transition::Created => if is_directory {
            ChangeKind::DirCreated
        } else {
            ChangeKind::FileCreated
        },
        Transition::Modified => if is_directory {
            ChangeKind::DirModified
        } else {
            ChangeKind::FileModified
        },
        Transition::Removed => if is_directory {
            ChangeKind::DirRemoved
        } else {
            ChangeKind::FileRemoved
        },
        Transition::Renamed(_) => if is_directory {
            ChangeKind::DirRenamed
        } else {
            ChangeKind::FileRenamed
        },
    };
    Some(kind)
}

} // verus!
