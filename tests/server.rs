use neko_tts::server::{
    launch_command, resolve_python, resolve_server_script, ExitProbe, HealthCheck, HealthStep, ServerPhase,
    ServerProcess, StopAction, WaitOutcome, HEALTH_MAX_RETRIES, HEALTH_RETRY_INTERVAL_MS,
};
use neko_tts::types::TtsError;
use std::path::PathBuf;

#[test]
fn server_address_is_fixed_loopback() {
    let s = ServerProcess::new();
    assert_eq!(s.server_url(), "http://127.0.0.1:17493");
    assert_eq!(s.health_url(), "http://127.0.0.1:17493/health");
    assert_eq!(s.phase(), ServerPhase::NotRunning);
    assert!(!s.holds_child());
}

#[test]
fn starting_twice_spawns_once() {
    let mut s = ServerProcess::new();
    assert!(s.start(ExitProbe::Exited));
    s.record_spawn(Ok(())).unwrap();
    assert!(s.holds_child());
    assert_eq!(s.phase(), ServerPhase::Starting);
    assert!(!s.start(ExitProbe::Running));
    assert!(s.holds_child());
}

#[test]
fn exited_child_is_dropped_and_respawned() {
    let mut s = ServerProcess::new();
    s.start(ExitProbe::Running);
    s.record_spawn(Ok(())).unwrap();
    assert!(!s.is_running(ExitProbe::Exited));
    assert!(!s.holds_child());
    assert!(s.start(ExitProbe::Running));
}

#[test]
fn spawn_failure_is_reported() {
    let mut s = ServerProcess::new();
    assert!(s.start(ExitProbe::Running));
    let err = s.record_spawn(Err("No such file or directory".into())).unwrap_err();
    assert_eq!(err, TtsError::ProcessSpawnFailure("Failed to spawn the server process: No such file or directory".into()));
    assert!(!s.holds_child());
}

#[test]
fn unresponsive_child_is_killed_and_cleared() {
    let mut s = ServerProcess::new();
    s.start(ExitProbe::Running);
    s.record_spawn(Ok(())).unwrap();
    s.mark_healthy();
    let plan = s.stop();
    assert_eq!(plan.shutdown_url, "http://127.0.0.1:17493/shutdown");
    assert_eq!(plan.wait_ms, Some(3000));
    assert_eq!(s.phase(), ServerPhase::Stopping);
    assert_eq!(s.finish_stop(WaitOutcome::TimedOut), StopAction::Kill);
    assert!(!s.holds_child());
    assert_eq!(s.phase(), ServerPhase::NotRunning);
}

#[test]
fn graceful_exit_and_idle_stop() {
    let mut s = ServerProcess::new();
    let plan = s.stop();
    assert_eq!(plan.wait_ms, None);
    assert_eq!(s.finish_stop(WaitOutcome::TimedOut), StopAction::Nothing);
    s.start(ExitProbe::Running);
    s.record_spawn(Ok(())).unwrap();
    s.stop();
    assert_eq!(s.finish_stop(WaitOutcome::Exited), StopAction::Exited);
    assert!(!s.holds_child());
}

#[test]
fn health_check_times_out_after_exactly_n_polls() {
    let mut h = HealthCheck::new(3);
    let mut steps = Vec::new();
    while h.may_poll() {
        let step = h.record(None);
        let done = !matches!(step, HealthStep::RetryAfter(_));
        steps.push(step);
        if done {
            break;
        }
    }
    assert_eq!(h.polls(), 3);
    assert_eq!(steps[0], HealthStep::RetryAfter(HEALTH_RETRY_INTERVAL_MS));
    assert_eq!(steps[1], HealthStep::RetryAfter(1000));
    assert_eq!(
        steps[2],
        HealthStep::TimedOut(TtsError::HealthCheckTimeout("Server did not become healthy after 3 attempts".into()))
    );
    assert!(!h.may_poll());
}

#[test]
fn health_check_default_ceiling_message() {
    let mut h = HealthCheck::new(HEALTH_MAX_RETRIES);
    let mut last = HealthStep::Healthy;
    while h.may_poll() {
        last = h.record(Some(503));
    }
    assert_eq!(h.polls(), 60);
    assert_eq!(last, HealthStep::TimedOut(TtsError::HealthCheckTimeout("Server did not become healthy after 60 attempts".into())));
}

#[test]
fn health_check_passes_on_2xx() {
    let mut h = HealthCheck::new(5);
    assert_eq!(h.record(Some(500)), HealthStep::RetryAfter(1000));
    assert_eq!(h.record(Some(204)), HealthStep::Healthy);
    assert_eq!(h.polls(), 2);
}

#[test]
fn launch_resolution() {
    assert_eq!(resolve_python(None), "python3");
    assert_eq!(resolve_python(Some("/usr/bin/python3.11".into())), "/usr/bin/python3.11");
    let c = vec!["/a/backend/server.py".to_string(), "/backend/server.py".to_string()];
    assert_eq!(resolve_server_script(&c, &vec![false, true]), "/backend/server.py");
    assert_eq!(resolve_server_script(&c, &vec![true, true]), "/a/backend/server.py");
    assert_eq!(PathBuf::from(resolve_server_script(&c, &vec![false, false])), PathBuf::from("backend/server.py"));
    let cmd = launch_command("python3".into(), "backend/server.py", "/d");
    assert_eq!(cmd.program, "python3");
    assert_eq!(cmd.args, vec!["backend/server.py", "--host", "127.0.0.1", "--port", "17493", "--data-dir", "/d"]);
}
