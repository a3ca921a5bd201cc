//! The guarantees the scanner and the resolver give, stated and proved over
//! the model: what a scan returns is governed by which files the tree holds,
//! and the two-tier resolution consults its tiers in the promised order.

use crate::resolver::resolve_spec;
use crate::scanner::count_from;
use crate::scanner::count_matches;
use crate::scanner::path_resolves;
use crate::scanner::resolves_in_seq;
use crate::scanner::seq_find_from;
use crate::scanner::tree_contains;
use crate::scanner::tree_find;
use crate::scanner::FsTree;
use vstd::prelude::*;

verus! {

/// A scan succeeds exactly when the tree holds a file with the target name.
pub proof fn lemma_find_some_iff_contains(t: FsTree, target: Seq<char>)
    ensures
        tree_find(t, target) is Some <==> tree_contains(t, target),
    decreases t, 0int,
{
    if let FsTree::Dir { entries, .. } = t {
        lemma_seq_find_some_iff_count(entries@, target, 0);
    }
}

/// A scan of `ts[i..]` succeeds exactly when those trees hold a match.
pub proof fn lemma_seq_find_some_iff_count(ts: Seq<FsTree>, target: Seq<char>, i: int)
    ensures
        seq_find_from(ts, target, i) is Some <==> count_from(ts, target, i) > 0,
    decreases ts, ts.len() - i,
{
    if 0 <= i < ts.len() {
        lemma_find_some_iff_contains(ts[i], target);
        lemma_seq_find_some_iff_count(ts, target, i + 1);
    }
}

/// A successful scan returns a real location: its components lead from the
/// root of the tree to a file with the target name.
pub proof fn lemma_find_is_a_match(t: FsTree, target: Seq<char>)
    requires
        tree_find(t, target) is Some,
    ensures
        path_resolves(t, tree_find(t, target)->Some_0, target),
        tree_find(t, target)->Some_0.len() >= 1,
    decreases t, 0int,
{
    if let FsTree::Dir { name, entries } = t {
        let sub = seq_find_from(entries@, target, 0)->Some_0;
        lemma_seq_find_is_a_match(entries@, target, 0);
        let path = seq![name@] + sub;
        assert(path.subrange(1, path.len() as int) =~= sub);
    }
}

/// A successful scan of `ts[i..]` returns a location resolving in one of them.
pub proof fn lemma_seq_find_is_a_match(ts: Seq<FsTree>, target: Seq<char>, i: int)
    requires
        seq_find_from(ts, target, i) is Some,
    ensures
        resolves_in_seq(ts, seq_find_from(ts, target, i)->Some_0, target, i),
        seq_find_from(ts, target, i)->Some_0.len() >= 1,
    decreases ts, ts.len() - i,
{
    if 0 <= i < ts.len() {
        if tree_find(ts[i], target) is Some {
            lemma_find_is_a_match(ts[i], target);
        } else {
            lemma_seq_find_is_a_match(ts, target, i + 1);
        }
    }
}

/// A location that resolves is counted: the tree holds at least one match.
pub proof fn lemma_resolved_is_counted(t: FsTree, path: Seq<Seq<char>>, target: Seq<char>)
    requires
        path_resolves(t, path, target),
    ensures
        count_matches(t, target) >= 1,
    decreases t, 0int,
{
    if let FsTree::Dir { entries, .. } = t {
        lemma_seq_resolved_is_counted(entries@, path.subrange(1, path.len() as int), target, 0);
    }
}

/// A location resolving in one of `ts[i..]` is counted there.
pub proof fn lemma_seq_resolved_is_counted(
    ts: Seq<FsTree>,
    path: Seq<Seq<char>>,
    target: Seq<char>,
    i: int,
)
    requires
        resolves_in_seq(ts, path, target, i),
    ensures
        count_from(ts, target, i) >= 1,
    decreases ts, ts.len() - i,
{
    if path_resolves(ts[i], path, target) {
        lemma_resolved_is_counted(ts[i], path, target);
    } else {
        lemma_seq_resolved_is_counted(ts, path, target, i + 1);
    }
}

/// In a tree with exactly one match, at most one location resolves.
pub proof fn lemma_unique_match(t: FsTree, p: Seq<Seq<char>>, q: Seq<Seq<char>>, target: Seq<char>)
    requires
        count_matches(t, target) == 1,
        path_resolves(t, p, target),
        path_resolves(t, q, target),
    ensures
        p == q,
    decreases t, 0int,
{
    if let FsTree::Dir { entries, .. } = t {
        let p1 = p.subrange(1, p.len() as int);
        let q1 = q.subrange(1, q.len() as int);
        lemma_seq_unique_match(entries@, p1, q1, target, 0);
        assert(p =~= q) by {
            assert(p.len() == 1 + p1.len() && q.len() == 1 + q1.len());
            assert forall|k: int| 0 <= k < p.len() implies p[k] == q[k] by {
                if k > 0 {
                    assert(p[k] == p1[k - 1] && q[k] == q1[k - 1]);
                }
            }
        }
    }
}

/// In trees `ts[i..]` with exactly one match, at most one location resolves.
pub proof fn lemma_seq_unique_match(
    ts: Seq<FsTree>,
    p: Seq<Seq<char>>,
    q: Seq<Seq<char>>,
    target: Seq<char>,
    i: int,
)
    requires
        count_from(ts, target, i) == 1,
        resolves_in_seq(ts, p, target, i),
        resolves_in_seq(ts, q, target, i),
    ensures
        p == q,
    decreases ts, ts.len() - i,
{
    if path_resolves(ts[i], p, target) {
        lemma_resolved_is_counted(ts[i], p, target);
        if path_resolves(ts[i], q, target) {
            lemma_unique_match(ts[i], p, q, target);
        } else {
            lemma_seq_resolved_is_counted(ts, q, target, i + 1);
        }
    } else {
        if path_resolves(ts[i], q, target) {
            lemma_resolved_is_counted(ts[i], q, target);
            lemma_seq_resolved_is_counted(ts, p, target, i + 1);
        } else if count_matches(ts[i], target) >= 1 {
            lemma_seq_resolved_is_counted(ts, p, target, i + 1);
        } else {
            lemma_seq_unique_match(ts, p, q, target, i + 1);
        }
    }
}

/// For a tree holding exactly one file with the target name, the scan returns
/// precisely that file's location.
pub proof fn lemma_unique_file_is_found(t: FsTree, path: Seq<Seq<char>>, target: Seq<char>)
    requires
        count_matches(t, target) == 1,
        path_resolves(t, path, target),
    ensures
        tree_find(t, target) == Some(path),
{
    lemma_find_some_iff_contains(t, target);
    lemma_find_is_a_match(t, target);
    lemma_unique_match(t, tree_find(t, target)->Some_0, path, target);
}

/// A tree holding no file with the target name yields absence.
pub proof fn lemma_absent_is_not_found(t: FsTree, target: Seq<char>)
    requires
        count_matches(t, target) == 0,
    ensures
        tree_find(t, target) is None,
{
    lemma_find_some_iff_contains(t, target);
}

/// A tree holding matches — several are allowed — yields one location, not an
/// error, and the location resolves to a file with the target name. The scan
/// is a function of the tree alone, so repeated scans of an unchanged tree
/// return this same location.
pub proof fn lemma_match_is_found(t: FsTree, target: Seq<char>)
    requires
        count_matches(t, target) >= 1,
    ensures
        tree_find(t, target) is Some,
        path_resolves(t, tree_find(t, target)->Some_0, target),
{
    lemma_find_some_iff_contains(t, target);
    lemma_find_is_a_match(t, target);
}

/// Path-only mode over two directories: when the first lacks the header, the
/// result is exactly the scan of the second.
pub proof fn lemma_second_directory_wins(d1: FsTree, d2: FsTree, target: Seq<char>)
    requires
        count_matches(d1, target) == 0,
    ensures
        seq_find_from(seq![d1, d2], target, 0) == tree_find(d2, target),
{
    let ts = seq![d1, d2];
    lemma_absent_is_not_found(d1, target);
    reveal_with_fuel(seq_find_from, 3);
    assert(ts[0] == d1 && ts[1] == d2);
}

/// Package mode with a satisfying probe: the result is the first match in the
/// include directories, whatever the search path holds — the fallback is
/// never consulted.
pub proof fn lemma_probe_hit_ignores_search_path(
    incl: Seq<FsTree>,
    dirs_a: Seq<FsTree>,
    dirs_b: Seq<FsTree>,
    target: Seq<char>,
)
    requires
        seq_find_from(incl, target, 0) is Some,
    ensures
        resolve_spec(Some(incl), dirs_a, target) == seq_find_from(incl, target, 0),
        resolve_spec(Some(incl), dirs_a, target) == resolve_spec(Some(incl), dirs_b, target),
{
}

/// Package mode with a failing probe: the result equals path-only mode over
/// the same search path.
pub proof fn lemma_failed_probe_falls_back(path_dirs: Seq<FsTree>, target: Seq<char>)
    ensures
        resolve_spec(None, path_dirs, target) == seq_find_from(path_dirs, target, 0),
{
}

} // verus!
