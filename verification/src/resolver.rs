//! Two-tier resolution of a header name.
//!
//! The resolver either scans the search-path directories directly (path-only
//! mode) or first tries the include directories that a package-metadata probe
//! reported for a named package (package mode), falling back to the search
//! path when the probe failed or its directories lack the header.
//!
//! The probe itself is an outside collaborator that runs at the caller's edge;
//! the resolver takes its outcome as data and is verified for every outcome.

use crate::scanner::seq_find_from;
use crate::scanner::find_it;
use crate::scanner::FsTree;
use vstd::prelude::*;

verus! {

/// A package descriptor: the name handed to the package-metadata collaborator
/// and the minimum version it must satisfy, compared under the collaborator's
/// own version-ordering rules.
pub struct Package {
    pub version: String,
    pub name: String,
}

/// What the package-metadata probe answered for a package descriptor.
pub enum ProbeOutcome {
    /// The probe succeeded and reported these include directories, as trees,
    /// in the order the collaborator returned them.
    Found { include_dirs: Vec<FsTree> },
    /// The probe failed (package unknown or version unsatisfied); the
    /// resolver recovers by falling back to the search path.
    Failed,
}

/// The include directories of a successful probe, or `None` for a failure.
pub open spec fn probe_view(p: ProbeOutcome) -> Option<Seq<FsTree>> {
    match p {
        ProbeOutcome::Found { include_dirs } => Some(include_dirs@),
        ProbeOutcome::Failed => None,
    }
}

/// Collapses an optional probe: absent and failed both mean path-only mode.
pub open spec fn opt_probe_view(p: Option<&ProbeOutcome>) -> Option<Seq<FsTree>> {
    match p {
        Some(outcome) => probe_view(*outcome),
        None => None,
    }
}

/// The resolved location: the first match in the probe's include directories
/// when the probe succeeded and one of them holds the header, and otherwise
/// the first match across the search-path directories.
pub open spec fn resolve_spec(
    probe_dirs: Option<Seq<FsTree>>,
    path_dirs: Seq<FsTree>,
    target: Seq<char>,
) -> Option<Seq<Seq<char>>> {
    match probe_dirs {
        Some(incl) => match seq_find_from(incl, target, 0) {
            Some(found) => Some(found),
            None => seq_find_from(path_dirs, target, 0),
        },
        None => seq_find_from(path_dirs, target, 0),
    }
}

/// Package mode: scan the probe's include directories first, in order, and
/// fall back to the search-path directories when the probe failed or none of
/// its directories holds the header. A failed probe is recovered from here,
/// never surfaced to the caller.
pub fn locate_header_from_package(
    path_dirs: &Vec<FsTree>,
    header_name: &str,
    probe: &ProbeOutcome,
) -> (r: Option<Vec<String>>)
    ensures
        r.deep_view() == resolve_spec(probe_view(*probe), path_dirs@, header_name@),
{
    match probe {
        ProbeOutcome::Found { include_dirs } => match find_it(include_dirs, header_name) {
            Some(found) => Some(found),
            None => find_it(path_dirs, header_name),
        },
        ProbeOutcome::Failed => find_it(path_dirs, header_name),
    }
}

/// Resolves `header_name` against the search-path directories, first trying a
/// package probe's include directories when one was made. Never an error: the
/// result is the located path's components, or `None` when no directory holds
/// the header.
pub fn locate_header_with_path(
    path_dirs: &Vec<FsTree>,
    header_name: &str,
    probe: Option<&ProbeOutcome>,
) -> (r: Option<Vec<String>>)
    ensures
        r.deep_view() == resolve_spec(opt_probe_view(probe), path_dirs@, header_name@),
{
    match probe {
        Some(outcome) => locate_header_from_package(path_dirs, header_name, outcome),
        None => find_it(path_dirs, header_name),
    }
}

} // verus!
