use sentinel_shell::greet;
use sentinel_shell::resolver::{get_project_root, join_path, resolve_project_root};

fn comps(parts: &[&str]) -> Vec<String> {
    parts.iter().map(|p| p.to_string()).collect()
}

#[test]
fn resolves_from_nested_build_dir() {
    // /home/u/sentinel/frontend/src-tauri/target/debug with
    // /home/u/sentinel/frontend/src-tauri existing on disk.
    let path = comps(&["home", "u", "sentinel", "frontend", "src-tauri", "target", "debug"]);
    let exists = vec![false, false, true, false, false, false, false];
    let root = resolve_project_root(&path, &exists);
    assert_eq!(root, comps(&["home", "u", "sentinel"]));
    assert_eq!(get_project_root(&path, &exists), "/home/u/sentinel");
}

#[test]
fn resolves_project_root_itself() {
    // The project root is its own nearest ancestor.
    let path = comps(&["home", "u", "sentinel"]);
    let exists = vec![false, false, true];
    let root = resolve_project_root(&path, &exists);
    assert_eq!(root, comps(&["home", "u", "sentinel"]));
    assert_eq!(get_project_root(&path, &exists), "/home/u/sentinel");
}

#[test]
fn nearest_marker_ancestor_wins() {
    // Two ancestors named for the project, both with the subpath: the
    // nearer (deeper) one is returned.
    let path = comps(&["home", "sentinel", "work", "sentinel", "frontend", "src-tauri"]);
    let exists = vec![false, true, false, true, false, false];
    let root = resolve_project_root(&path, &exists);
    assert_eq!(root, comps(&["home", "sentinel", "work", "sentinel"]));
}

#[test]
fn marker_without_subpath_falls_back() {
    // The ancestor named for the project lacks the required subpath, so
    // the build-output fallback decides instead.
    let path = comps(&["home", "u", "sentinel", "frontend", "src-tauri", "target", "debug"]);
    let exists = vec![false; 7];
    let root = resolve_project_root(&path, &exists);
    assert_eq!(root, comps(&["home", "u", "sentinel"]));
}

#[test]
fn unresolved_path_returned_unchanged() {
    let path = comps(&["home", "u", "elsewhere"]);
    let exists = vec![false, false, false];
    let root = resolve_project_root(&path, &exists);
    assert_eq!(root, comps(&["home", "u", "elsewhere"]));
    assert_eq!(get_project_root(&path, &exists), "/home/u/elsewhere");
}

#[test]
fn build_marker_matches_inside_components() {
    // "app-frontend/src-tauri" contains the marker substring, and the
    // exact build-directory name sits at index 2: parent-of-parent.
    let path = comps(&["home", "app-frontend", "src-tauri", "target"]);
    let exists = vec![false; 4];
    let root = resolve_project_root(&path, &exists);
    assert_eq!(root, comps(&["home"]));
}

#[test]
fn fallback_needs_build_marker_in_string() {
    // An ancestor named like the build directory alone does not trigger
    // the fallback: the marker substring is absent.
    let path = comps(&["home", "tools", "src-tauri", "misc"]);
    let exists = vec![false; 4];
    let root = resolve_project_root(&path, &exists);
    assert_eq!(root, comps(&["home", "tools", "src-tauri", "misc"]));
}

#[test]
fn joins_components_as_absolute_path() {
    assert_eq!(join_path(&comps(&[])), "/");
    assert_eq!(join_path(&comps(&["a", "b"])), "/a/b");
}

#[test]
fn greets_by_name() {
    assert_eq!(greet("Ada"), "Hello, Ada! Welcome to Sentinel.");
    assert_eq!(greet(""), "Hello, ! Welcome to Sentinel.");
}
