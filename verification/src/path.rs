//! Path text: the extended-length prefix and the extension of the final component.
//!
//! Paths are handled as sequences of characters.  Both `/` and `\` separate
//! components, so that the same text is read the same way on every platform.

use vstd::prelude::*;
use crate::text::chars_of;

verus! {

/// The extended-length prefix `\\?\` that some platforms put in front of a path.
pub open spec fn extended_prefix() -> Seq<char> {
    seq!['\\', '\\', '?', '\\']
}

/// Whether `path` starts with the extended-length prefix.
pub open spec fn has_extended_prefix(path: Seq<char>) -> bool {
    path.len() >= 4 && path.take(4) == extended_prefix()
}

/// `path` as the consumer sees it: without the extended-length prefix, if it had one.
pub open spec fn normalized(path: Seq<char>) -> Seq<char> {
    if has_extended_prefix(path) {
        path.skip(4)
    } else {
        path
    }
}

/// Whether `plain` is `path` without its extended-length prefix: `path` itself where
/// it has no such prefix, and what follows the prefix where it has one.
pub open spec fn is_stripped(path: Seq<char>, plain: Seq<char>) -> bool {
    if has_extended_prefix(path) {
        extended_prefix() + plain == path
    } else {
        plain == path
    }
}

/// Normalizing strips the prefix, and nothing else.
pub proof fn lemma_normalized_is_stripped(path: Seq<char>)
    ensures
        is_stripped(path, normalized(path)),
{
    if has_extended_prefix(path) {
        assert(path.take(4) + path.skip(4) =~= path);
    }
}

/// Whether `c` separates two components of a path.
pub open spec fn is_separator(c: char) -> bool {
    c == '/' || c == '\\'
}

/// Whether the dot at index `dot` starts the extension of `path`: it is the last dot,
/// it lies in the final component, and it is not that component's first character.
pub open spec fn is_extension_dot(path: Seq<char>, dot: int) -> bool {
    &&& 0 < dot < path.len()
    &&& path[dot] == '.'
    &&& !is_separator(path[dot - 1])
    &&& forall|i: int| dot < i < path.len() ==> path[i] != '.' && !is_separator(#[trigger] path[i])
}

/// The extension of the final component of `path`, without its dot.
///
/// A component that only starts with a dot (`.profile`) has no extension, and a
/// component that ends with one (`draft.`) has the empty extension.
pub open spec fn extension_of(path: Seq<char>) -> Option<Seq<char>> {
    if exists|dot: int| is_extension_dot(path, dot) {
        let dot = choose|dot: int| is_extension_dot(path, dot);
        Some(path.skip(dot + 1))
    } else {
        None
    }
}

/// A path has at most one dot that starts its extension.
pub proof fn lemma_extension_dot_unique(path: Seq<char>, first: int, second: int)
    requires
        is_extension_dot(path, first),
        is_extension_dot(path, second),
    ensures
        first == second,
{
}

/// The extension is what follows the extension dot, wherever that dot was found.
pub proof fn lemma_extension_at(path: Seq<char>, dot: int)
    requires
        is_extension_dot(path, dot),
    ensures
        extension_of(path) == Some(path.skip(dot + 1)),
{
    let chosen = choose|d: int| is_extension_dot(path, d);
    lemma_extension_dot_unique(path, dot, chosen);
}

/// Whether `path` starts with the extended-length prefix.
pub fn starts_with_extended_prefix(path: &str) -> (found: bool)
    ensures
        found == has_extended_prefix(path@),
{
    let n: usize = path.unicode_len();
    if n < 4 {
        return false;
    }
    let found = path.get_char(0) == '\\' && path.get_char(1) == '\\' && path.get_char(2) == '?'
        && path.get_char(3) == '\\';
    assert(found ==> path@.take(4) =~= extended_prefix());
    found
}

/// Strips the extended-length prefix from `path`, once, and leaves any other path as it is.
pub fn normalize_path(path: &str) -> (plain: String)
    ensures
        plain@ == normalized(path@),
{
    if starts_with_extended_prefix(path) {
        let n: usize = path.unicode_len();
        let rest = path.substring_char(4, n);
        rest.to_owned()
    } else {
        path.to_owned()
    }
}

/// The extension of the final component of `path`, if it has one.
pub fn extension(path: &str) -> (ext: Option<String>)
    ensures
        match ext {
            Some(e) => extension_of(path@) == Some(e@),
            None => extension_of(path@) is None,
        },
{
    let chars = chars_of(path);
    let n: usize = chars.len();
    let mut i: usize = n;
    while i > 0
        invariant
            chars@ == path@,
            n == chars@.len(),
            i <= n,
            forall|k: int| i <= k < n ==> chars@[k] != '.' && !is_separator(#[trigger] chars@[k]),
        decreases i,
    {
        i -= 1;
        let c: char = chars[i];
        if c == '/' || c == '\\' {
            return None;
        }
        if c == '.' {
            if i > 0 && chars[i - 1] != '/' && chars[i - 1] != '\\' {
                let rest = path.substring_char(i + 1, n);
                proof {
                    lemma_extension_at(path@, i as int);
                }
                return Some(rest.to_owned());
            }
            return None;
        }
    }
    None
}

} // verus!
