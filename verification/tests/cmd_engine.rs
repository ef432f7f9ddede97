use rustwide::{
    Command, Error, ExecState, ProcessOutput, TimeoutKind, WorkspaceBuilder,
};

fn check(
    hard: Option<u64>,
    idle: Option<u64>,
    st: &ExecState,
    now: u64,
) -> Option<TimeoutKind> {
    rustwide::check_deadlines(hard, idle, st, now)
}

#[test]
fn hard_timeout_fires_once_the_run_is_old_enough() {
    let st = ExecState::start(0);
    assert_eq!(check(Some(100), None, &st, 99), None);
    assert_eq!(check(Some(100), None, &st, 100), Some(TimeoutKind::Hard));
    assert_eq!(check(Some(100), None, &st, 5000), Some(TimeoutKind::Hard));
}

#[test]
fn hard_timeout_wins_when_both_clocks_fired() {
    let st = ExecState::start(0);
    assert_eq!(
        check(Some(100), Some(50), &st, 100),
        Some(TimeoutKind::Hard)
    );
}

#[test]
fn disabled_clocks_never_fire() {
    let st = ExecState::start(0);
    assert_eq!(check(None, None, &st, u64::MAX), None);
}

#[test]
fn chatty_target_outlives_many_no_output_windows() {
    // A line every 50 ms under a 100 ms no-output window, over a run of
    // 500 ms (five whole windows): no verdict at any poll.
    let window: u64 = 100;
    let mut st = ExecState::start(0);
    let mut t: u64 = 0;
    while t < 5 * window {
        t += window / 2;
        assert_eq!(check(Some(60_000), Some(window), &st, t - 1), None);
        st.note_output(t);
        assert_eq!(check(Some(60_000), Some(window), &st, t), None);
    }
}

#[test]
fn silent_target_hits_the_no_output_timeout_first() {
    // Prints once early, then blocks forever; the much larger hard timeout
    // is still pending when the rolling clock fires.
    let mut st = ExecState::start(0);
    st.note_output(5);
    assert_eq!(check(Some(60_000), Some(100), &st, 104), None);
    assert_eq!(
        check(Some(60_000), Some(100), &st, 105),
        Some(TimeoutKind::NoOutput)
    );
}

#[test]
fn output_resets_only_the_rolling_clock() {
    let mut st = ExecState::start(0);
    st.note_output(95);
    // The rolling clock was refreshed...
    assert_eq!(check(Some(100), Some(100), &st, 99), None);
    // ...but the absolute clock was not.
    assert_eq!(check(Some(100), Some(100), &st, 100), Some(TimeoutKind::Hard));
}

fn sample_output() -> ProcessOutput {
    let mut out = ProcessOutput::empty();
    out.stdout.push("compiling".to_string());
    out.stderr.push("warning: dusty crate".to_string());
    out
}

#[test]
fn killed_runs_report_their_timeout_kind() {
    let r = rustwide::classify_termination(Some(TimeoutKind::Hard), false, sample_output());
    assert!(matches!(r, Err(Error::CommandTimeout)));
    let r = rustwide::classify_termination(Some(TimeoutKind::NoOutput), false, sample_output());
    assert!(matches!(r, Err(Error::CommandNoOutputTimeout)));
}

#[test]
fn clean_exit_hands_back_the_captured_output() {
    let r = rustwide::classify_termination(None, true, sample_output());
    let out = r.unwrap();
    assert_eq!(out.stdout, vec!["compiling".to_string()]);
    assert_eq!(out.stderr, vec!["warning: dusty crate".to_string()]);
}

#[test]
fn unsuccessful_exit_is_its_own_error_and_keeps_the_output() {
    let r = rustwide::classify_termination(None, false, sample_output());
    match r {
        Err(Error::CommandExit { output }) => {
            assert_eq!(output.stdout, vec!["compiling".to_string()]);
            assert_eq!(output.stderr, vec!["warning: dusty crate".to_string()]);
        }
        other => panic!("expected a command-exit error, got {:?}", other),
    }
}

#[test]
fn commands_inherit_workspace_defaults_and_can_override_them() {
    let ws = WorkspaceBuilder::new("/work/root", "rustwide-tests")
        .command_timeout(Some(1234))
        .command_no_output_timeout(Some(55))
        .init()
        .unwrap();
    let cmd = Command::new(&ws, "cargo");
    assert_eq!(cmd.hard_timeout(), Some(1234));
    assert_eq!(cmd.idle_timeout(), Some(55));
    let cmd = cmd.timeout(None).no_output_timeout(Some(9));
    assert_eq!(cmd.hard_timeout(), None);
    assert_eq!(cmd.idle_timeout(), Some(9));
}

#[test]
fn command_collects_arguments_and_environment_in_order() {
    let ws = WorkspaceBuilder::new("/work/root", "rustwide-tests")
        .init()
        .unwrap();
    let cmd = Command::new(&ws, "cargo")
        .args(&["build", "--release"])
        .arg("--offline")
        .env("RUSTFLAGS", "-Dwarnings");
    assert_eq!(cmd.program().as_str(), "cargo");
    let args: Vec<&str> = cmd.arg_list().iter().map(|a| a.as_str()).collect();
    assert_eq!(args, vec!["build", "--release", "--offline"]);
    assert_eq!(cmd.env_list().len(), 1);
    assert_eq!(cmd.env_list()[0].key.as_str(), "RUSTFLAGS");
    assert_eq!(cmd.env_list()[0].value.as_str(), "-Dwarnings");
    assert!(!cmd.is_sandboxed());
    let cmd = cmd.sandboxed(true);
    assert!(cmd.is_sandboxed());
}

#[test]
fn registry_priming_is_planned_best_effort_with_idle_clock_off() {
    let ws = WorkspaceBuilder::new("/work/root", "rustwide-tests")
        .init()
        .unwrap();
    let cmd = ws.registry_prime_command();
    assert_eq!(cmd.program().as_str(), "cargo");
    let args: Vec<&str> = cmd.arg_list().iter().map(|a| a.as_str()).collect();
    assert_eq!(args, vec!["+stable", "install", "lazy_static"]);
    assert_eq!(cmd.idle_timeout(), None);

    let steps = ws.init_steps(false);
    assert_eq!(steps.len(), 2);
    assert!(!steps[0].ignore_failure);
    assert!(steps[1].ignore_failure);
    match &steps[0].action {
        rustwide::InitAction::InstallHelpers { optimized } => assert!(*optimized),
        _ => panic!("expected the helper install first"),
    }
    let fast = ws.init_steps(true);
    match &fast[0].action {
        rustwide::InitAction::InstallHelpers { optimized } => assert!(!*optimized),
        _ => panic!("expected the helper install first"),
    }
}
