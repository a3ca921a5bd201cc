//! Depth-first scanner over a modelled directory tree.
//!
//! A filesystem subtree is held as plain data: a directory with its entries in
//! enumeration order, a regular file with its base name, or a node that is
//! neither (a special file, a broken link). The scanner returns the first
//! location, in pre-order, whose base name equals the target, as the sequence
//! of path components from the root of the scanned tree down to the file.

use vstd::prelude::*;

verus! {

/// One node of a directory tree, as handed to the scanner.
///
/// `name` is the node's last path component, except at the root of a scanned
/// tree, where it holds the directory location as the caller wrote it, so that
/// the components of a found location concatenate to a full path.
pub enum FsTree {
    /// A directory and its immediate entries, in enumeration order.
    Dir { name: String, entries: Vec<FsTree> },
    /// A regular file.
    File { name: String },
    /// A node that is neither a directory nor a regular file; never matches.
    Other { name: String },
}

/// First match for `target` in `t`, depth-first and pre-order: the path
/// components from `t` itself down to the matching file, or `None`.
pub open spec fn tree_find(t: FsTree, target: Seq<char>) -> Option<Seq<Seq<char>>>
    decreases t, 0int,
{
    match t {
        FsTree::Dir { name, entries } => match seq_find_from(entries@, target, 0) {
            Some(sub) => Some(seq![name@] + sub),
            None => None,
        },
        FsTree::File { name } => if name@ == target {
            Some(seq![name@])
        } else {
            None
        },
        FsTree::Other { .. } => None,
    }
}

/// First match for `target` in `ts[i..]`, scanning the trees in order.
pub open spec fn seq_find_from(ts: Seq<FsTree>, target: Seq<char>, i: int) -> Option<
    Seq<Seq<char>>,
>
    decreases ts, ts.len() - i,
{
    if 0 <= i < ts.len() {
        match tree_find(ts[i], target) {
            Some(sub) => Some(sub),
            None => seq_find_from(ts, target, i + 1),
        }
    } else {
        None
    }
}

/// Number of files named `target` anywhere in the tree.
pub open spec fn count_matches(t: FsTree, target: Seq<char>) -> nat
    decreases t, 0int,
{
    match t {
        FsTree::Dir { entries, .. } => count_from(entries@, target, 0),
        FsTree::File { name } => if name@ == target {
            1nat
        } else {
            0nat
        },
        FsTree::Other { .. } => 0nat,
    }
}

/// Number of files named `target` in the trees `ts[i..]` together.
pub open spec fn count_from(ts: Seq<FsTree>, target: Seq<char>, i: int) -> nat
    decreases ts, ts.len() - i,
{
    if 0 <= i < ts.len() {
        count_matches(ts[i], target) + count_from(ts, target, i + 1)
    } else {
        0nat
    }
}

/// Whether the tree holds at least one file named `target`.
pub open spec fn tree_contains(t: FsTree, target: Seq<char>) -> bool {
    count_matches(t, target) > 0
}

/// Whether `path` is the component sequence of a file named `target`: it
/// starts at the root of `t`, descends through directory entries, and ends at
/// such a file.
pub open spec fn path_resolves(t: FsTree, path: Seq<Seq<char>>, target: Seq<char>) -> bool
    decreases t, 0int,
{
    match t {
        FsTree::Dir { name, entries } => path.len() >= 2 && path[0] == name@
            && resolves_in_seq(entries@, path.subrange(1, path.len() as int), target, 0),
        FsTree::File { name } => name@ == target && path == seq![name@],
        FsTree::Other { .. } => false,
    }
}

/// Whether `path` resolves in one of the trees `ts[i..]`.
pub open spec fn resolves_in_seq(
    ts: Seq<FsTree>,
    path: Seq<Seq<char>>,
    target: Seq<char>,
    i: int,
) -> bool
    decreases ts, ts.len() - i,
{
    if 0 <= i < ts.len() {
        path_resolves(ts[i], path, target) || resolves_in_seq(ts, path, target, i + 1)
    } else {
        false
    }
}

/// Scans the tree rooted at `tree` for a file whose base name equals
/// `to_find`, depth-first and in entry-enumeration order, returning the path
/// components from `tree` down to the first match.
///
/// The result is exactly `tree_find` of the tree, so repeated calls on an
/// unchanged tree return the same location.
pub fn find_it_in(to_find: &str, tree: &FsTree) -> (r: Option<Vec<String>>)
    ensures
        r.deep_view() == tree_find(*tree, to_find@),
    decreases *tree, 0int,
{
    match tree {
        FsTree::Dir { name, entries } => {
            proof {
                assert(decreases_to!(*tree => *entries));
                assert(decreases_to!(*entries => entries@));
            }
            match find_in_entries(to_find, entries, 0) {
                Some(mut sub) => {
                    let ghost sub_dv = sub.deep_view();
                    let mut res: Vec<String> = Vec::new();
                    res.push(name.clone());
                    res.append(&mut sub);
                    proof {
                        assert(res.deep_view() =~= seq![name@] + sub_dv);
                    }
                    Some(res)
                },
                None => None,
            }
        },
        FsTree::File { name } => {
            let target = to_find.to_owned();
            if *name == target {
                let res: Vec<String> = vec![name.clone()];
                proof {
                    assert(res.deep_view() =~= seq![name@]);
                }
                Some(res)
            } else {
                None
            }
        },
        FsTree::Other { .. } => None,
    }
}

/// Scans `entries[j..]` in order, returning the first match in any of them.
fn find_in_entries(to_find: &str, entries: &Vec<FsTree>, j: usize) -> (r: Option<Vec<String>>)
    ensures
        r.deep_view() == seq_find_from(entries@, to_find@, j as int),
    decreases entries@, entries@.len() - j,
{
    if j < entries.len() {
        match find_it_in(to_find, &entries[j]) {
            Some(found) => Some(found),
            None => find_in_entries(to_find, entries, j + 1),
        }
    } else {
        None
    }
}

/// Scans an ordered list of directory trees (a search path) for `to_find`,
/// returning the first match across all of them in order: directories after
/// the first match do not influence the result.
pub fn find_it(dirs: &Vec<FsTree>, to_find: &str) -> (r: Option<Vec<String>>)
    ensures
        r.deep_view() == seq_find_from(dirs@, to_find@, 0),
{
    find_in_entries(to_find, dirs, 0)
}

} // verus!
