use rustwide::{DirEntry, DirEntryKind, Workspace, WorkspaceBuilder};

fn workspace() -> Workspace {
    WorkspaceBuilder::new("/work/root", "rustwide-tests")
        .init()
        .unwrap()
}

#[test]
fn fixed_directories_sit_directly_under_the_root() {
    let ws = workspace();
    let cargo = ws.cargo_home();
    assert_eq!(cargo.root_str(), "/work/root");
    assert_eq!(cargo.depth(), 1);
    assert_eq!(cargo.component(0), "cargo-home");
    assert_eq!(ws.rustup_home().component(0), "rustup-home");
    assert_eq!(ws.cache_dir().component(0), "cache");
    assert_eq!(ws.builds_dir().component(0), "builds");
}

#[test]
fn build_dir_paths_stay_inside_the_builds_subtree() {
    let ws = workspace();
    let dir = ws.build_dir("crate-under-test");
    assert_eq!(dir.name().as_str(), "crate-under-test");
    let path = dir.build_path();
    assert_eq!(path.root_str(), "/work/root");
    assert_eq!(path.depth(), 2);
    assert_eq!(path.component(0), "builds");
    assert_eq!(path.component(1), "crate-under-test");
}

#[test]
fn distinct_build_dir_names_get_disjoint_paths() {
    let ws = workspace();
    let a = ws.build_dir("alpha").build_path();
    let b = ws.build_dir("beta").build_path();
    assert_eq!(a.component(0), b.component(0));
    assert_ne!(a.component(1), b.component(1));
}

#[test]
fn purging_builds_cannot_touch_the_toolchain_root() {
    let ws = workspace();
    // Bulk purge removes the subtree under `builds`; the toolchain listing
    // reads the subtree under `rustup-home`. The two diverge at their very
    // first component.
    assert_ne!(ws.builds_dir().component(0), ws.rustup_home().component(0));
}

#[test]
fn toolchain_listing_is_a_function_of_the_entries_alone() {
    let ws = workspace();
    let entries = vec![DirEntry {
        name: "stable-x86_64-unknown-linux-gnu".to_string(),
        kind: DirEntryKind::Directory,
    }];
    let before = ws.installed_toolchains(&entries);
    // A purge never changes the toolchain root's entries (disjoint
    // subtrees), so listing again yields the same toolchains.
    let after = ws.installed_toolchains(&entries);
    assert_eq!(before.len(), 1);
    assert_eq!(before, after);
}

#[test]
fn only_plain_path_segments_are_valid_names() {
    assert!(rustwide::valid_component("alpha"));
    assert!(rustwide::valid_component("crate-0.1.2"));
    assert!(!rustwide::valid_component(""));
    assert!(!rustwide::valid_component("."));
    assert!(!rustwide::valid_component(".."));
    assert!(!rustwide::valid_component(".hidden"));
    assert!(!rustwide::valid_component("a/b"));
    assert!(!rustwide::valid_component("a\\b"));
    assert!(!rustwide::valid_component("a\0b"));
}

#[test]
fn one_workspace_hands_out_many_handles() {
    let ws = workspace();
    let other = ws.clone_handle();
    assert_eq!(ws.root_str(), other.root_str());
    assert_eq!(
        ws.default_command_timeout(),
        other.default_command_timeout()
    );
}
