use server_bootstrap::MAX_POLL_ATTEMPTS;
use server_bootstrap::POLL_INTERVAL_MS;
use server_bootstrap::SERVER_PORT;
use server_bootstrap::launch::build_plan;
use server_bootstrap::paths::FsPath;
use server_bootstrap::process::ProcessHandle;
use server_bootstrap::process::ProcessStatus;
use server_bootstrap::server_url;
use server_bootstrap::supervisor::Action;
use server_bootstrap::supervisor::Event;
use server_bootstrap::supervisor::Supervisor;
use server_bootstrap::supervisor::SupervisorState;

fn path(segs: &[&str]) -> FsPath {
    FsPath { segments: segs.iter().map(|s| s.to_string()).collect() }
}

fn full_plan() -> Supervisor {
    let runtime = Some(path(&["res", "bundled", "node", "bin", "node"]));
    let script = Some(path(&["res", "bundled", "server", "server.js"]));
    Supervisor::new(build_plan(&runtime, &script, &path(&["cwd"]), true))
}

#[test]
fn fixed_constants() {
    assert_eq!(SERVER_PORT, 3000);
    assert_eq!(POLL_INTERVAL_MS, 500);
    assert_eq!(MAX_POLL_ATTEMPTS, 120);
    assert_eq!(server_url(), "http://localhost:3000");
}

#[test]
fn short_circuit_skips_every_launch_strategy() {
    let mut sup = full_plan();
    assert!(!sup.is_ready());
    assert_eq!(sup.step(Event::HostSetup), Action::Probe);
    // the port already has a listener: straight to Ready, nothing spawned
    assert_eq!(sup.step(Event::ProbeCompleted(true)), Action::Redirect);
    assert_eq!(sup.state, SupervisorState::Ready);
    assert!(sup.is_ready());
    assert_eq!(sup.handle.status, ProcessStatus::NotSpawned);
    // terminal: later events change nothing and never ask for a spawn
    assert_eq!(sup.step(Event::ProbeCompleted(false)), Action::Halt);
    assert_eq!(sup.step(Event::SpawnCompleted(true)), Action::Halt);
    assert_eq!(sup.state, SupervisorState::Ready);
    assert!(sup.is_ready());
}

#[test]
fn successful_bootstrap_redirects_exactly_once() {
    let mut sup = full_plan();
    let mut redirects = 0;
    assert!(!sup.is_ready());
    assert_eq!(sup.step(Event::HostSetup), Action::Probe);
    assert_eq!(sup.step(Event::ProbeCompleted(false)), Action::Spawn(0));
    assert_eq!(sup.step(Event::SpawnCompleted(true)), Action::WaitThenProbe);
    assert_eq!(sup.handle.status, ProcessStatus::Running);
    // the server answers on the third poll
    assert_eq!(sup.step(Event::ProbeCompleted(false)), Action::WaitThenProbe);
    assert_eq!(sup.step(Event::ProbeCompleted(false)), Action::WaitThenProbe);
    let a = sup.step(Event::ProbeCompleted(true));
    if a == Action::Redirect {
        redirects += 1;
    }
    assert_eq!(redirects, 1);
    assert!(sup.is_ready());
    assert_eq!(sup.state, SupervisorState::Ready);
    assert_eq!(sup.step(Event::ProbeCompleted(true)), Action::Halt);
    assert!(sup.is_ready());
}

#[test]
fn readiness_flips_false_to_true_and_never_back() {
    let mut sup = full_plan();
    assert!(!sup.is_ready());
    sup.step(Event::HostSetup);
    assert!(!sup.is_ready());
    sup.step(Event::ProbeCompleted(true));
    assert!(sup.is_ready());
    for _ in 0..5 {
        sup.step(Event::ProbeCompleted(false));
        assert!(sup.is_ready());
    }
}

#[test]
fn chain_falls_through_to_dev_commands() {
    // steps one and two disabled: nothing located; only the manifest fallback
    let plan = build_plan(&None, &None, &path(&["cwd"]), true);
    let mut sup = Supervisor::new(plan);
    assert_eq!(sup.step(Event::HostSetup), Action::Probe);
    assert_eq!(sup.step(Event::ProbeCompleted(false)), Action::Spawn(0));
    assert_eq!(sup.step(Event::SpawnCompleted(false)), Action::Spawn(1));
    assert_eq!(sup.step(Event::SpawnCompleted(false)), Action::Halt);
    assert_eq!(sup.state, SupervisorState::Failed);
    assert!(!sup.is_ready());
}

#[test]
fn no_strategy_at_all_fails_without_redirect() {
    // nothing located and no manifest: the chain has nothing to try
    let plan = build_plan(&None, &None, &path(&["cwd"]), false);
    let mut sup = Supervisor::new(plan);
    assert_eq!(sup.step(Event::HostSetup), Action::Probe);
    let a = sup.step(Event::ProbeCompleted(false));
    assert_eq!(a, Action::Halt);
    assert_eq!(sup.state, SupervisorState::Failed);
    assert!(!sup.is_ready());
    assert_eq!(sup.handle.status, ProcessStatus::NotSpawned);
    for _ in 0..3 {
        assert_eq!(sup.step(Event::ProbeCompleted(true)), Action::Halt);
        assert!(!sup.is_ready());
    }
}

#[test]
fn exhausted_launch_chain_fails() {
    let mut sup = full_plan();
    sup.step(Event::HostSetup);
    assert_eq!(sup.step(Event::ProbeCompleted(false)), Action::Spawn(0));
    assert_eq!(sup.step(Event::SpawnCompleted(false)), Action::Spawn(1));
    assert_eq!(sup.step(Event::SpawnCompleted(false)), Action::Spawn(2));
    assert_eq!(sup.step(Event::SpawnCompleted(false)), Action::Spawn(3));
    assert_eq!(sup.step(Event::SpawnCompleted(false)), Action::Halt);
    assert_eq!(sup.state, SupervisorState::Failed);
    assert!(!sup.is_ready());
}

#[test]
fn polling_stops_at_the_attempt_ceiling() {
    let mut sup = full_plan();
    sup.step(Event::HostSetup);
    sup.step(Event::ProbeCompleted(false));
    let mut waits: u64 = 0;
    if sup.step(Event::SpawnCompleted(true)) == Action::WaitThenProbe {
        waits += 1;
    }
    let mut probes: u32 = 0;
    loop {
        let a = sup.step(Event::ProbeCompleted(false));
        probes += 1;
        match a {
            Action::WaitThenProbe => waits += 1,
            Action::Halt => break,
            other => panic!("unexpected action {:?}", other),
        }
        assert!(probes <= MAX_POLL_ATTEMPTS);
    }
    // the loop is self-bounding: it ends at the ceiling, after a total
    // waiting budget of ceiling times interval
    assert_eq!(probes, MAX_POLL_ATTEMPTS);
    assert_eq!(waits, MAX_POLL_ATTEMPTS as u64);
    assert_eq!(waits * POLL_INTERVAL_MS, 60_000);
    assert_eq!(sup.state, SupervisorState::Failed);
    assert!(!sup.is_ready());
}

#[test]
fn terminate_is_idempotent() {
    let mut h = ProcessHandle { status: ProcessStatus::Running };
    assert!(h.terminate());
    assert_eq!(h.status, ProcessStatus::Terminated);
    assert!(!h.terminate());
    assert_eq!(h.status, ProcessStatus::Terminated);
}

#[test]
fn terminate_after_exit_is_noop() {
    let mut h = ProcessHandle { status: ProcessStatus::Running };
    h.record_exit();
    assert_eq!(h.status, ProcessStatus::Exited);
    assert!(!h.terminate());
    assert_eq!(h.status, ProcessStatus::Exited);
}

#[test]
fn terminate_without_spawn_is_noop() {
    let mut h = ProcessHandle::new();
    assert!(!h.terminate());
    assert_eq!(h.status, ProcessStatus::NotSpawned);
}

#[test]
fn shutdown_kills_the_spawned_process_once() {
    let mut sup = full_plan();
    sup.step(Event::HostSetup);
    sup.step(Event::ProbeCompleted(false));
    sup.step(Event::SpawnCompleted(true));
    assert!(sup.on_shutdown());
    assert_eq!(sup.handle.status, ProcessStatus::Terminated);
    assert!(!sup.on_shutdown());
}

#[test]
fn shutdown_before_any_spawn_kills_nothing() {
    let mut sup = full_plan();
    sup.step(Event::HostSetup);
    assert!(!sup.on_shutdown());
    assert_eq!(sup.handle.status, ProcessStatus::NotSpawned);
}
