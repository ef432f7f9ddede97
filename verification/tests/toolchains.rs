use rustwide::{DirEntry, DirEntryKind, Error, SandboxImage, Toolchain};
use rustwide::{contains_toolchain, install_plan, list_installed, parse_entry, uninstall_needed};

fn entry(name: &str, kind: DirEntryKind) -> DirEntry {
    DirEntry { name: name.to_string(), kind }
}

#[test]
fn directories_parse_as_dist_toolchains() {
    let t = parse_entry(&entry("stable-x86_64-unknown-linux-gnu", DirEntryKind::Directory));
    match t {
        Some(Toolchain::Dist { name }) => {
            assert_eq!(name.as_str(), "stable-x86_64-unknown-linux-gnu")
        }
        other => panic!("expected a dist toolchain, got {:?}", other),
    }
}

#[test]
fn symlinks_parse_as_custom_toolchains() {
    let t = parse_entry(&entry("local-build", DirEntryKind::Symlink));
    assert!(matches!(t, Some(Toolchain::Custom { .. })));
}

#[test]
fn stray_files_and_hidden_entries_are_skipped() {
    assert_eq!(parse_entry(&entry("settings.toml", DirEntryKind::Other)), None);
    assert_eq!(parse_entry(&entry(".tmp1234", DirEntryKind::Directory)), None);
    assert_eq!(parse_entry(&entry("", DirEntryKind::Directory)), None);
}

#[test]
fn listing_keeps_the_recognized_entry_and_ignores_the_rest() {
    // One recognized entry and one unrecognized one: exactly one toolchain.
    let entries = vec![
        entry("stable-x86_64-unknown-linux-gnu", DirEntryKind::Directory),
        entry(".partial-download", DirEntryKind::Directory),
    ];
    let listed = list_installed(&entries);
    assert_eq!(listed.len(), 1);
    assert_eq!(listed[0].name().as_str(), "stable-x86_64-unknown-linux-gnu");
    assert!(listed[0].is_dist());
}

#[test]
fn listing_preserves_order_over_mixed_entries() {
    let entries = vec![
        entry("beta", DirEntryKind::Directory),
        entry("notes.txt", DirEntryKind::Other),
        entry("mine", DirEntryKind::Symlink),
    ];
    let listed = list_installed(&entries);
    assert_eq!(listed.len(), 2);
    assert!(listed[0].is_dist());
    assert_eq!(listed[0].name().as_str(), "beta");
    assert!(!listed[1].is_dist());
    assert_eq!(listed[1].name().as_str(), "mine");
}

#[test]
fn main_toolchain_and_selector() {
    let main = Toolchain::main();
    assert!(main.is_dist());
    assert_eq!(main.name().as_str(), "stable");
    assert_eq!(main.selector_arg().as_str(), "+stable");
}

#[test]
fn same_as_tells_kind_and_name_apart() {
    let a = Toolchain::Dist { name: "stable".to_string() };
    let b = Toolchain::Dist { name: "stable".to_string() };
    let c = Toolchain::Custom { name: "stable".to_string() };
    let d = Toolchain::Dist { name: "beta".to_string() };
    assert!(a.same_as(&b));
    assert!(!a.same_as(&c));
    assert!(!a.same_as(&d));
}

#[test]
fn install_planning_is_idempotent() {
    let required = vec![
        Toolchain::Dist { name: "stable".to_string() },
        Toolchain::Dist { name: "beta".to_string() },
    ];
    let installed: Vec<Toolchain> = Vec::new();
    // The first initializer has everything to do...
    let plan = install_plan(&installed, &required);
    assert_eq!(plan.len(), 2);
    // ...and once its plan ran, a second initializer has nothing to do.
    let replan = install_plan(&plan, &required);
    assert!(replan.is_empty());
}

#[test]
fn installing_an_already_present_toolchain_plans_nothing() {
    let installed = vec![Toolchain::Dist { name: "stable".to_string() }];
    let required = vec![Toolchain::Dist { name: "stable".to_string() }];
    assert!(install_plan(&installed, &required).is_empty());
    assert!(contains_toolchain(&installed, &required[0]));
}

#[test]
fn removing_an_absent_toolchain_is_a_no_op() {
    let installed = vec![Toolchain::Dist { name: "stable".to_string() }];
    let absent = Toolchain::Dist { name: "nightly".to_string() };
    assert!(!uninstall_needed(&installed, &absent));
    assert!(uninstall_needed(&installed, &installed[0].clone()));
}

#[test]
fn malformed_image_tags_are_sandbox_errors() {
    assert!(matches!(SandboxImage::remote("has space"), Err(Error::Sandbox)));
    assert!(matches!(SandboxImage::remote(""), Err(Error::Sandbox)));
    assert!(matches!(SandboxImage::build(""), Err(Error::Sandbox)));
    assert!(SandboxImage::remote("rustops/crates-build-env:latest").is_ok());
}

#[test]
fn image_resolution_happens_once() {
    let mut img = SandboxImage::remote("rustops/crates-build-env").unwrap();
    assert!(img.resolution_action().is_some());
    img.mark_resolved();
    assert_eq!(img.resolution_action(), None);
}
