use crate::text::{first_match, lemma_first_match, lemma_first_match_is, same_text};
use vstd::prelude::*;

verus! {

/// How many levels below the root a container is looked for.
pub const MAX_DEPTH: usize = 4;

/// One entry of a walk through the directory tree below a root, as the
/// finder reads it.
#[derive(Clone, Debug, PartialEq, Eq)]
pub struct TreeEntry {
    /// The number of levels between the root and the entry; the root itself
    /// is at depth 0.
    pub depth: usize,
    /// Whether the entry is a directory.
    pub is_dir: bool,
    /// The extension of the entry's name, without the dot, where the name
    /// has one.
    pub extension: Option<String>,
    /// The entry's path from the root on; empty for the root itself.
    pub relative: String,
}

/// Whether an entry is a container with the extension `ext`: a directory
/// within the depth bound whose name has that extension.
pub open spec fn is_container(entry: TreeEntry, ext: Seq<char>) -> bool {
    entry.depth <= MAX_DEPTH && entry.is_dir && entry.extension.deep_view() == Some(ext)
}

/// The path, from the root on, of the first container with the extension
/// `ext` among `entries`; none where there is no such container.
pub open spec fn first_container(entries: Seq<TreeEntry>, ext: Seq<char>) -> Option<Seq<char>> {
    let i = first_match(entries, |e: TreeEntry| is_container(e, ext));
    if 0 <= i < entries.len() {
        Some(entries[i].relative@)
    } else {
        None
    }
}

/// A container is found exactly when one is among the entries, and then no
/// container stands before the one that is found.
pub proof fn lemma_first_container(entries: Seq<TreeEntry>, ext: Seq<char>)
    ensures
        first_container(entries, ext) is None <==> forall|i: int|
            0 <= i < entries.len() ==> !is_container(#[trigger] entries[i], ext),
        first_container(entries, ext) is Some ==> exists|i: int|
            0 <= i < entries.len() && is_container(#[trigger] entries[i], ext) && entries[i].relative@
                == first_container(entries, ext)->0 && forall|j: int|
                0 <= j < i ==> !is_container(#[trigger] entries[j], ext),
{
    let wanted = |e: TreeEntry| is_container(e, ext);
    lemma_first_match(entries, wanted);
    let i = first_match(entries, wanted);
    if 0 <= i < entries.len() {
        assert(wanted(entries[i]));
        assert forall|j: int| 0 <= j < i implies !is_container(#[trigger] entries[j], ext) by {
            assert(!wanted(entries[j]));
        }
    } else {
        assert forall|j: int| 0 <= j < entries.len() implies !is_container(
            #[trigger] entries[j],
            ext,
        ) by {
            assert(!wanted(entries[j]));
        }
    }
}

/// Finds the first container with the extension `ext` among the entries of
/// a walk, which stand in the order of the walk.
pub fn find_first_with_ext(entries: &[TreeEntry], ext: &str) -> (r: Option<String>)
    ensures
        r.deep_view() == first_container(entries@, ext@),
{
    let ghost wanted = |e: TreeEntry| is_container(e, ext@);
    let mut i: usize = 0;
    while i < entries.len()
        invariant
            i <= entries.len(),
            wanted == (|e: TreeEntry| is_container(e, ext@)),
            forall|j: int| 0 <= j < i ==> !wanted(#[trigger] entries@[j]),
        decreases entries.len() - i,
    {
        let entry = &entries[i];
        let matches = entry.depth <= MAX_DEPTH && entry.is_dir && match &entry.extension {
            Some(e) => same_text(e.as_str(), ext),
            None => false,
        };
        if matches {
            proof {
                assert(wanted(entries@[i as int]));
                lemma_first_match_is(entries@, wanted, i as int);
            }
            return Some(entry.relative.clone());
        }
        assert(!wanted(entries@[i as int]));
        i += 1;
    }
    proof {
        lemma_first_match_is(entries@, wanted, entries@.len() as int);
    }
    None
}

} // verus!
