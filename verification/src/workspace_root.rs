//! Finding the root of a workspace among a directory and its ancestors.
use vstd::prelude::*;

verus! {

/// `root` is the first of `candidates` that holds the workspace file, as
/// `has_metadata` tells.
pub open spec fn is_first_marked(candidates: Seq<String>, has_metadata: Seq<bool>, root: Seq<char>) -> bool {
    exists|i: int|
        0 <= i < candidates.len() && has_metadata[i] && root == candidates[i]@ && forall|j: int|
            0 <= j < i ==> !has_metadata[j]
}

/// No candidate holds the workspace file.
pub open spec fn none_marked(has_metadata: Seq<bool>) -> bool {
    forall|i: int| 0 <= i < has_metadata.len() ==> !has_metadata[i]
}

/// Searching again from the workspace root found (so among the root and its
/// ancestors, the candidates from the root's position `i` on) finds that root and
/// no other.
pub proof fn law_workspace_root_search_is_stable(
    candidates: Seq<String>,
    has_metadata: Seq<bool>,
    root: Seq<char>,
    i: int,
    again: Seq<char>,
)
    requires
        candidates.len() == has_metadata.len(),
        0 <= i < candidates.len(),
        has_metadata[i],
        candidates[i]@ == root,
        forall|j: int| 0 <= j < i ==> !has_metadata[j],
    ensures
        is_first_marked(candidates, has_metadata, root),
        is_first_marked(candidates.skip(i), has_metadata.skip(i), again) <==> again == root,
{
    assert(candidates.skip(i)[0] == candidates[i]);
    assert(has_metadata.skip(i)[0] == has_metadata[i]);
    if is_first_marked(candidates.skip(i), has_metadata.skip(i), again) {
        let k = choose|k: int|
            0 <= k < candidates.skip(i).len() && has_metadata.skip(i)[k] && again
                == candidates.skip(i)[k]@ && forall|j: int|
                0 <= j < k ==> !has_metadata.skip(i)[j];
        if k > 0 {
            assert(!has_metadata.skip(i)[0]);
        }
    }
}

/// The first of `candidates` (a directory, then its ancestors, nearest first) that
/// holds the workspace file, as `has_metadata` tells.
pub fn first_marked_directory(candidates: &Vec<String>, has_metadata: &Vec<bool>) -> (r: Option<String>)
    requires
        candidates@.len() == has_metadata@.len(),
    ensures
        match r {
            Some(root) => is_first_marked(candidates@, has_metadata@, root@),
            None => none_marked(has_metadata@),
        },
{
    let mut i: usize = 0;
    while i < candidates.len()
        invariant
            i <= candidates@.len(),
            candidates@.len() == has_metadata@.len(),
            forall|j: int| 0 <= j < i ==> !has_metadata@[j],
        decreases candidates@.len() - i,
    {
        if has_metadata[i] {
            return Some(candidates[i].clone());
        }
        i = i + 1;
    }
    None
}

} // verus!
