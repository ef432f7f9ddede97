use rustwide::{Error, InitFailure, ResolutionAction, SandboxImage, WorkspaceBuilder};

#[test]
fn builder_defaults_carry_into_workspace() {
    let ws = WorkspaceBuilder::new("/work/root", "rustwide-tests")
        .init()
        .unwrap();
    assert_eq!(ws.root_str(), "/work/root");
    assert_eq!(ws.default_command_timeout(), Some(15 * 60 * 1000));
    assert_eq!(ws.default_command_no_output_timeout(), None);
}

#[test]
fn default_sandbox_image_is_unresolved_remote_tag() {
    let ws = WorkspaceBuilder::new("/work/root", "rustwide-tests")
        .init()
        .unwrap();
    match ws.sandbox_image().resolution_action() {
        Some(ResolutionAction::Pull { tag }) => {
            assert_eq!(tag.as_str(), "rustops/crates-build-env")
        }
        other => panic!("expected a pull of the default tag, got {:?}", other),
    }
}

#[test]
fn builder_overrides_carry_into_workspace() {
    let image = SandboxImage::local("my-env:latest").unwrap();
    let ws = WorkspaceBuilder::new("/work/root", "rustwide-tests")
        .sandbox_image(image)
        .command_timeout(Some(1000))
        .command_no_output_timeout(Some(250))
        .init()
        .unwrap();
    assert_eq!(ws.default_command_timeout(), Some(1000));
    assert_eq!(ws.default_command_no_output_timeout(), Some(250));
    match ws.sandbox_image().resolution_action() {
        Some(ResolutionAction::CheckPresent { tag }) => {
            assert_eq!(tag.as_str(), "my-env:latest")
        }
        other => panic!("expected a local presence check, got {:?}", other),
    }
}

#[test]
fn timeouts_can_be_disabled() {
    let ws = WorkspaceBuilder::new("/work/root", "rustwide-tests")
        .command_timeout(None)
        .init()
        .unwrap();
    assert_eq!(ws.default_command_timeout(), None);
}

#[test]
fn control_character_user_agent_is_rejected() {
    let r = WorkspaceBuilder::new("/work/root", "bad\nagent").init();
    match r {
        Err(Error::Init { step }) => assert_eq!(step, InitFailure::HttpClient),
        other => panic!("expected an init failure, got {:?}", other.map(|_| ())),
    }
}

#[test]
fn lock_path_sits_directly_under_the_root() {
    let builder = WorkspaceBuilder::new("/work/root", "rustwide-tests");
    let lock = builder.lock_path();
    assert_eq!(lock.root_str(), "/work/root");
    assert_eq!(lock.depth(), 1);
    assert_eq!(lock.component(0), "lock");
}

#[test]
fn fast_init_flag_round_trips() {
    let builder = WorkspaceBuilder::new("/work/root", "rustwide-tests").fast_init(true);
    assert!(builder.is_fast_init());
    let builder = builder.fast_init(false);
    assert!(!builder.is_fast_init());
}
