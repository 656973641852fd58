//! The tree below the opened folder: which entries it shows, and in which order.

use vstd::prelude::*;
use crate::change::markdown_extension;
use crate::entity::{FileTree, TREE_DIRECTORY, TREE_NOTE, TREE_PAGE};
use crate::path::{extension, extension_of};
use crate::text::same_text;

verus! {

/// The extension `ahtml` of rendered pages.
pub open spec fn page_extension() -> Seq<char> {
    seq!['a', 'h', 't', 'm', 'l']
}

/// The name `.ahriknow` of the directory that holds a folder's settings.
pub open spec fn settings_directory() -> Seq<char> {
    seq!['.', 'a', 'h', 'r', 'i', 'k', 'n', 'o', 'w']
}

/// The type under which the entry at `path` is shown in the tree, if it is shown:
/// every directory, and the files with extension `md` or `ahtml`.
pub open spec fn tree_type_of(path: Seq<char>, is_directory: bool) -> Option<i32> {
    if is_directory {
        Some(TREE_DIRECTORY)
    } else {
        match extension_of(path) {
            Some(ext) => if ext == markdown_extension() {
                Some(TREE_NOTE)
            } else if ext == page_extension() {
                Some(TREE_PAGE)
            } else {
                None
            },
            None => None,
        }
    }
}

/// Whether an entry with this name is shown at this depth: all but the settings
/// directory at the top of the opened folder.
pub open spec fn is_listed_at(name: Seq<char>, depth: int) -> bool {
    !(depth == 0 && name == settings_directory())
}

/// The entries of type `type_`, in their order.
pub open spec fn of_type(entries: Seq<FileTree>, type_: int) -> Seq<FileTree>
    decreases entries.len(),
{
    if entries.len() == 0 {
        Seq::empty()
    } else if entries.last().type_ == type_ {
        of_type(entries.drop_last(), type_).push(entries.last())
    } else {
        of_type(entries.drop_last(), type_)
    }
}

/// Whether the types of the entries never go down.
pub open spec fn ordered_by_type(entries: Seq<FileTree>) -> bool {
    forall|i: int, j: int|
        0 <= i <= j < entries.len() ==> (#[trigger] entries[i]).type_ <= (
        #[trigger] entries[j]).type_
}

/// Whether `after` is `before` ordered by type, with the entries of each type in the
/// order that they had.
pub open spec fn is_stable_order(before: Seq<FileTree>, after: Seq<FileTree>) -> bool {
    &&& after.len() == before.len()
    &&& ordered_by_type(after)
    &&& forall|type_: int| #[trigger] of_type(after, type_) == of_type(before, type_)
}

proof fn lemma_of_type_append(first: Seq<FileTree>, second: Seq<FileTree>, type_: int)
    ensures
        of_type(first + second, type_) == of_type(first, type_) + of_type(second, type_),
    decreases second.len(),
{
    if second.len() > 0 {
        let whole = first + second;
        assert(whole.drop_last() =~= first + second.drop_last());
        lemma_of_type_append(first, second.drop_last(), type_);
    }
}

proof fn lemma_of_type_absent(entries: Seq<FileTree>, type_: int)
    requires
        forall|i: int| 0 <= i < entries.len() ==> (#[trigger] entries[i]).type_ != type_,
    ensures
        of_type(entries, type_) == Seq::<FileTree>::empty(),
    decreases entries.len(),
{
    if entries.len() > 0 {
        lemma_of_type_absent(entries.drop_last(), type_);
    }
}

proof fn lemma_of_type_single(entry: FileTree, type_: int)
    ensures
        of_type(seq![entry], type_) == if entry.type_ == type_ {
            seq![entry]
        } else {
            Seq::<FileTree>::empty()
        },
{
    assert(of_type(seq![entry].drop_last(), type_) =~= Seq::<FileTree>::empty());
}

/// Putting `entry` behind the last entry whose type is not above its own keeps an
/// ordered sequence ordered, and adds `entry` at the end of the entries of its type.
proof fn lemma_insert_keeps_order(sorted: Seq<FileTree>, at: int, entry: FileTree)
    requires
        ordered_by_type(sorted),
        0 <= at <= sorted.len(),
        forall|i: int| 0 <= i < at ==> (#[trigger] sorted[i]).type_ <= entry.type_,
        forall|i: int| at <= i < sorted.len() ==> (#[trigger] sorted[i]).type_ > entry.type_,
    ensures
        ordered_by_type(sorted.insert(at, entry)),
        forall|type_: int| #[trigger]
            of_type(sorted.insert(at, entry), type_) == of_type(sorted, type_) + of_type(
                seq![entry],
                type_,
            ),
{
    let grown = sorted.insert(at, entry);
    let front = sorted.take(at);
    let back = sorted.skip(at);
    assert(grown =~= front + seq![entry] + back);
    assert(sorted =~= front + back);
    assert forall|type_: int| #[trigger]
        of_type(grown, type_) == of_type(sorted, type_) + of_type(seq![entry], type_) by {
        lemma_of_type_append(front + seq![entry], back, type_);
        lemma_of_type_append(front, seq![entry], type_);
        lemma_of_type_append(front, back, type_);
        lemma_of_type_single(entry, type_);
        if entry.type_ == type_ {
            lemma_of_type_absent(back, type_);
        }
    }
}

/// The type under which the entry at `path` is shown in the tree; `None` for an
/// entry that the tree leaves out.
pub fn tree_type(path: &str, is_directory: bool) -> (type_: Option<i32>)
    ensures
        type_ == tree_type_of(path@, is_directory),
{
    if is_directory {
        return Some(TREE_DIRECTORY);
    }
    match extension(path) {
        Some(ext) => {
            proof {
                reveal_strlit("md");
                reveal_strlit("ahtml");
                assert("md"@ =~= markdown_extension());
                assert("ahtml"@ =~= page_extension());
            }
            if same_text(ext.as_str(), "md") {
                Some(TREE_NOTE)
            } else if same_text(ext.as_str(), "ahtml") {
                Some(TREE_PAGE)
            } else {
                None
            }
        },
        None => None,
    }
}

/// Whether an entry with this name is shown at this depth of the tree.
pub fn is_listed(name: &str, depth: i32) -> (listed: bool)
    ensures
        listed == is_listed_at(name@, depth as int),
{
    proof {
        reveal_strlit(".ahriknow");
        assert(".ahriknow"@ =~= settings_directory());
    }
    !(depth == 0 && same_text(name, ".ahriknow"))
}

/// Orders the entries of one directory by type: directories, then notes, then
/// pages.  Entries of one type keep the order in which they came.
pub fn sort_by_type(entries: Vec<FileTree>) -> (sorted: Vec<FileTree>)
    ensures
        is_stable_order(entries@, sorted@),
{
    let mut rest = entries;
    let mut sorted: Vec<FileTree> = Vec::new();
    while rest.len() > 0
        invariant
            sorted@.len() + rest@.len() == entries@.len(),
            ordered_by_type(sorted@),
            forall|type_: int| #[trigger]
                of_type(entries@, type_) == of_type(sorted@, type_) + of_type(rest@, type_),
        decreases rest@.len(),
    {
        let ghost waiting = rest@;
        let ghost placed = sorted@;
        let entry = rest.remove(0);
        let mut at: usize = sorted.len();
        while at > 0 && sorted[at - 1].type_ > entry.type_
            invariant
                at <= sorted@.len(),
                sorted@ == placed,
                ordered_by_type(sorted@),
                forall|i: int| at <= i < sorted@.len() ==> (#[trigger] sorted@[i]).type_
                    > entry.type_,
            decreases at,
        {
            at -= 1;
        }
        proof {
            lemma_insert_keeps_order(placed, at as int, entry);
            assert(waiting =~= seq![entry] + rest@);
            assert forall|type_: int| #[trigger]
                of_type(entries@, type_) == of_type(placed.insert(at as int, entry), type_)
                    + of_type(rest@, type_) by {
                lemma_of_type_append(seq![entry], rest@, type_);
            }
        }
        sorted.insert(at, entry);
    }
    sorted
}

} // verus!
