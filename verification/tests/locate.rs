use header_locator::find_it;
use header_locator::find_it_in;
use header_locator::locate_header_from_package;
use header_locator::locate_header_with_path;
use header_locator::FsTree;
use header_locator::ProbeOutcome;

fn dir(name: &str, entries: Vec<FsTree>) -> FsTree {
    FsTree::Dir { name: name.to_owned(), entries }
}

fn file(name: &str) -> FsTree {
    FsTree::File { name: name.to_owned() }
}

fn comps(parts: &[&str]) -> Vec<String> {
    parts.iter().map(|p| (*p).to_owned()).collect()
}

/// The tree mirrors a crate directory holding a resource header among other
/// files; locating it through the search path succeeds.
#[test]
fn locate_resource_header() {
    let cargo_dir = dir(
        "project",
        vec![
            file("Cargo.toml"),
            dir("src", vec![file("lib.rs")]),
            dir("resources", vec![file("to_find.h")]),
        ],
    );
    assert!(locate_header_with_path(&vec![cargo_dir], "to_find.h", None).is_some());
}

#[test]
fn unique_file_is_found() {
    let t = dir("root", vec![dir("a", vec![file("other.h"), file("to_find.h")])]);
    let r = find_it_in("to_find.h", &t);
    assert_eq!(r, Some(comps(&["root", "a", "to_find.h"])));
}

#[test]
fn absent_header_is_not_found() {
    let t = dir("root", vec![dir("a", vec![file("other.h")]), file("more.h")]);
    assert_eq!(find_it_in("to_find.h", &t), None);
}

#[test]
fn duplicate_headers_yield_one_result() {
    let t = dir(
        "root",
        vec![
            dir("a", vec![file("to_find.h")]),
            dir("b", vec![file("to_find.h")]),
        ],
    );
    let first = find_it_in("to_find.h", &t);
    let again = find_it_in("to_find.h", &t);
    let r = first.clone().expect("one of the duplicates must be found");
    assert!(r == comps(&["root", "a", "to_find.h"]) || r == comps(&["root", "b", "to_find.h"]));
    assert_eq!(first, again);
}

#[test]
fn second_search_directory_wins() {
    let d1 = dir("d1", vec![file("other.h")]);
    let d2 = dir("d2", vec![dir("inc", vec![file("to_find.h")])]);
    let dirs = vec![d1, d2];
    assert_eq!(
        find_it(&dirs, "to_find.h"),
        Some(comps(&["d2", "inc", "to_find.h"]))
    );
    assert_eq!(
        locate_header_with_path(&dirs, "to_find.h", None),
        Some(comps(&["d2", "inc", "to_find.h"]))
    );
}

/// A satisfying probe wins over a search path that also holds the header in a
/// different place: the fallback is never consulted.
#[test]
fn probe_include_directories_win() {
    let probe = ProbeOutcome::Found {
        include_dirs: vec![dir("/pkg/include", vec![file("to_find.h")])],
    };
    let path_dirs = vec![dir("path_dir", vec![file("to_find.h")])];
    assert_eq!(
        locate_header_from_package(&path_dirs, "to_find.h", &probe),
        Some(comps(&["/pkg/include", "to_find.h"]))
    );
}

/// A failing probe falls back: the result equals path-only mode for the same
/// search path and header.
#[test]
fn failed_probe_equals_path_only_mode() {
    let mk_dirs = || vec![dir("d", vec![dir("sub", vec![file("to_find.h")])])];
    let with_probe = locate_header_from_package(&mk_dirs(), "to_find.h", &ProbeOutcome::Failed);
    let path_only = locate_header_with_path(&mk_dirs(), "to_find.h", None);
    assert_eq!(with_probe, path_only);
    assert_eq!(with_probe, Some(comps(&["d", "sub", "to_find.h"])));
}

/// A probe that succeeded but whose directories lack the header is not an
/// error: the resolver continues to the path fallback.
#[test]
fn probe_without_header_falls_back() {
    let probe = ProbeOutcome::Found {
        include_dirs: vec![dir("/pkg/include", vec![file("unrelated.h")])],
    };
    let path_dirs = vec![dir("d", vec![file("to_find.h")])];
    assert_eq!(
        locate_header_from_package(&path_dirs, "to_find.h", &probe),
        Some(comps(&["d", "to_find.h"]))
    );
}

#[test]
fn scenario_search_path_root() {
    let root = dir(
        "root",
        vec![
            dir("a", vec![file("to_find.h")]),
            dir("b", vec![file("other.h")]),
        ],
    );
    assert_eq!(
        locate_header_with_path(&vec![root], "to_find.h", None),
        Some(comps(&["root", "a", "to_find.h"]))
    );
}

#[test]
fn scenario_search_path_without_header() {
    let root_b = dir("root/b", vec![file("other.h")]);
    assert_eq!(locate_header_with_path(&vec![root_b], "to_find.h", None), None);
}

#[test]
fn special_node_never_matches() {
    let t = dir(
        "root",
        vec![FsTree::Other { name: "to_find.h".to_owned() }],
    );
    assert_eq!(find_it_in("to_find.h", &t), None);
}

#[test]
fn empty_search_path_finds_nothing() {
    assert_eq!(locate_header_with_path(&Vec::new(), "to_find.h", None), None);
}

/// A search-path entry that is itself a regular file matches by its name,
/// as a direct scan of that location would.
#[test]
fn file_entry_in_search_path_matches() {
    let dirs = vec![file("to_find.h")];
    assert_eq!(find_it(&dirs, "to_find.h"), Some(comps(&["to_find.h"])));
}

#[test]
fn empty_probe_directories_fall_back() {
    let probe = ProbeOutcome::Found { include_dirs: Vec::new() };
    let path_dirs = vec![dir("d", vec![file("to_find.h")])];
    assert_eq!(
        locate_header_from_package(&path_dirs, "to_find.h", &probe),
        Some(comps(&["d", "to_find.h"]))
    );
}

#[test]
fn empty_directory_finds_nothing() {
    let t = dir("root", vec![dir("empty", Vec::new())]);
    assert_eq!(find_it_in("to_find.h", &t), None);
}
