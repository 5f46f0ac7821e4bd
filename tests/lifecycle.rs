use wqbot_gui::info::backend_info;
use wqbot_gui::platform::Platform;
use wqbot_gui::restart::{next_restart, restart_action, restart_state, RestartAction, RestartState, RESTART_GRACE_MS};
use wqbot_gui::start::{
    next_start, start_action, start_state, Degraded, Deployment, LaunchStrategy, StartAction,
    StartOutcome, StartState,
};
use wqbot_gui::supervisor::{signal_command, stop_plan, BackendHandle, StopStep, Supervisor};

fn run_start(mode: Deployment, events: &[bool]) -> StartState {
    let mut s = start_state(mode);
    for &e in events {
        s = next_start(s, e);
    }
    s
}

fn run_restart(events: &[bool]) -> Vec<RestartAction> {
    let mut s = restart_state();
    let mut trace = vec![restart_action(s)];
    for &e in events {
        s = next_restart(s, e);
        trace.push(restart_action(s));
    }
    trace
}

#[test]
fn stop_without_handle_is_noop() {
    let mut sup: Supervisor<u32> = Supervisor::new(None);
    assert!(!sup.has_handle());
    assert!(sup.take().is_none());
    assert!(!sup.has_handle());
    assert!(stop_plan(Platform::Linux, None).is_empty());
    assert!(stop_plan(Platform::Windows, None).is_empty());
}

#[test]
fn install_keeps_exactly_one_handle() {
    let mut sup: Supervisor<&str> = Supervisor::new(None);
    assert!(sup.install(BackendHandle { pid: 10, process: "first" }).is_none());
    assert!(sup.has_handle());
    assert_eq!(sup.pid(), Some(10));
    let displaced = sup.install(BackendHandle { pid: 11, process: "second" }).unwrap();
    assert_eq!(displaced.pid, 10);
    assert_eq!(displaced.process, "first");
    assert_eq!(sup.pid(), Some(11));
    let taken = sup.take().unwrap();
    assert_eq!(taken.process, "second");
    assert_eq!(sup.pid(), None);
}

#[test]
fn window_destroyed_clears_and_waits() {
    let mut sup = Supervisor::new(Some(BackendHandle { pid: 4242, process: () }));
    let taken = sup.take().unwrap();
    assert!(!sup.has_handle());
    let plan = stop_plan(Platform::Linux, Some(taken.pid));
    assert_eq!(plan.len(), 2);
    match &plan[0] {
        StopStep::Signal(c) => {
            assert_eq!(c.program, "kill");
            assert_eq!(c.args, vec!["-TERM", "4242"]);
        }
        StopStep::WaitForExit => panic!("signal must come first"),
    }
    assert!(matches!(plan[1], StopStep::WaitForExit));
}

#[test]
fn windows_stop_is_tree_kill() {
    let c = signal_command(Platform::Windows, 77);
    assert_eq!(c.program, "taskkill");
    assert_eq!(c.args, vec!["/PID", "77", "/T"]);
    let plan = stop_plan(Platform::Windows, Some(77));
    assert!(matches!(&plan[0], StopStep::Signal(c) if c.program == "taskkill"));
    assert!(matches!(plan[1], StopStep::WaitForExit));
}

#[test]
fn no_cli_and_no_resources_gives_none() {
    let s = run_start(Deployment::Search, &[false, false, false]);
    assert_eq!(s, StartState::Finished(StartOutcome::NotStarted(Degraded::NoResourceDir)));
    assert!(matches!(
        start_action(Platform::Linux, s),
        StartAction::Finish(StartOutcome::NotStarted(Degraded::NoResourceDir))
    ));
}

#[test]
fn start_tries_candidates_in_order() {
    let s = start_state(Deployment::Search);
    match start_action(Platform::Linux, s) {
        StartAction::Spawn(c) => assert_eq!(c.program, "wqbot"),
        _ => panic!("expected the global CLI first"),
    }
    let s = next_start(s, false);
    assert_eq!(s, StartState::TryGlobal(1));
    match start_action(Platform::Linux, s) {
        StartAction::Spawn(c) => assert_eq!(c.program, "npx"),
        _ => panic!("expected the package runner second"),
    }
    assert_eq!(next_start(s, false), StartState::FindResourceDir);
    assert!(matches!(start_action(Platform::Linux, StartState::FindResourceDir), StartAction::FindResourceDir));
}

#[test]
fn first_successful_spawn_wins() {
    assert_eq!(
        run_start(Deployment::Search, &[true, true]),
        StartState::Finished(StartOutcome::Started(LaunchStrategy::GlobalCli))
    );
    assert_eq!(
        run_start(Deployment::Search, &[false, true]),
        StartState::Finished(StartOutcome::Started(LaunchStrategy::PackageRunner))
    );
    assert_eq!(
        run_start(Deployment::Search, &[false, false, true, true, true, true]),
        StartState::Finished(StartOutcome::Started(LaunchStrategy::EmbeddedScript))
    );
}

#[test]
fn embedded_failures_are_degraded() {
    assert_eq!(
        run_start(Deployment::Search, &[false, false, true, false]),
        StartState::Finished(StartOutcome::NotStarted(Degraded::NoRuntime))
    );
    assert_eq!(
        run_start(Deployment::Search, &[false, false, true, true, false]),
        StartState::Finished(StartOutcome::NotStarted(Degraded::NoEntryScript))
    );
    assert_eq!(
        run_start(Deployment::Search, &[false, false, true, true, true, false]),
        StartState::Finished(StartOutcome::NotStarted(Degraded::EmbeddedSpawnFailed))
    );
    assert_eq!(
        run_start(Deployment::Search, &[false, false, true, true, true, false, true, true]),
        StartState::Finished(StartOutcome::NotStarted(Degraded::EmbeddedSpawnFailed))
    );
}

#[test]
fn sidecar_mode_has_one_attempt() {
    let s = start_state(Deployment::Sidecar);
    match start_action(Platform::Windows, s) {
        StartAction::SpawnSidecar(args) => assert_eq!(args, vec!["--port", "3721", "--host", "127.0.0.1"]),
        _ => panic!("expected the sidecar"),
    }
    assert_eq!(
        next_start(s, true),
        StartState::Finished(StartOutcome::Started(LaunchStrategy::Sidecar))
    );
    assert_eq!(
        next_start(s, false),
        StartState::Finished(StartOutcome::NotStarted(Degraded::SidecarSpawnFailed))
    );
}

#[test]
fn restart_stops_pauses_then_starts() {
    assert_eq!(RESTART_GRACE_MS, 500);
    assert_eq!(
        run_restart(&[true, true, true, false]),
        vec![
            RestartAction::Stop,
            RestartAction::Pause(500),
            RestartAction::Start,
            RestartAction::Finish(true),
            RestartAction::Finish(true),
        ]
    );
}

#[test]
fn restart_without_spawn_path_fails() {
    let trace = run_restart(&[true, true, false]);
    assert_eq!(trace[3], RestartAction::Finish(false));
    assert_eq!(
        next_restart(RestartState::Starting, false),
        RestartState::Done(false)
    );
}

#[test]
fn info_reports_not_running() {
    let text = backend_info("linux", "x86_64", None, None, false);
    assert_eq!(
        text,
        "platform: linux\narch: x86_64\nresource dir: not found\nnode: not found\nbackend: not running\n"
    );
}

#[test]
fn info_reports_found_paths() {
    let text = backend_info("windows", "aarch64", Some("C:\\app\\resources"), Some("node.exe"), true);
    assert_eq!(
        text,
        "platform: windows\narch: aarch64\nresource dir: C:\\app\\resources\nnode: node.exe\nbackend: running\n"
    );
}
