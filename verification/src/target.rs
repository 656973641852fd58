//! The root that is being watched, if any.

use vstd::prelude::*;

verus! {

/// Nothing, or the one root under watch.
#[derive(Clone, Debug, PartialEq, Eq)]
pub struct WatchTarget {
    root: Option<String>,
}

impl View for WatchTarget {
    type V = Option<Seq<char>>;

    closed spec fn view(&self) -> Option<Seq<char>> {
        self.root.deep_view()
    }
}

impl WatchTarget {
    /// The target that watches nothing.
    pub fn idle() -> (target: WatchTarget)
        ensures
            target@ is None,
    {
        WatchTarget { root: None }
    }

    /// The target that watches `root`.
    pub fn watching(root: String) -> (target: WatchTarget)
        ensures
            target@ == Some(root@),
    {
        WatchTarget { root: Some(root) }
    }

    /// Whether nothing is watched.
    pub fn is_idle(&self) -> (idle: bool)
        ensures
            idle == (self@ is None),
    {
        self.root.is_none()
    }

    /// The root under watch.
    pub fn root(&self) -> (root: Option<&String>)
        ensures
            root.deep_view() == self@,
    {
        self.root.as_ref()
    }

    /// Whether both targets watch the same root, or both nothing.
    pub fn same_as(&self, other: &WatchTarget) -> (same: bool)
        ensures
            same == (self@ == other@),
    {
        match (&self.root, &other.root) {
            (Some(mine), Some(theirs)) => *mine == *theirs,
            (None, None) => true,
            _ => false,
        }
    }

    /// Switches to `new_root` and hands back the root that was watched before.
    pub fn retarget(&mut self, new_root: Option<String>) -> (previous: Option<String>)
        ensures
            final(self)@ == new_root.deep_view(),
            previous.deep_view() == old(self)@,
    {
        let previous = self.root.take();
        self.root = new_root;
        previous
    }
}

} // verus!
