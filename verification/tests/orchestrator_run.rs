use stress_fleet::config::{extra_args_from_flag, RemoteEndpoints, RunConfig};
use stress_fleet::counter::{plan_reservation, UserBlock};
use stress_fleet::orchestrator::{Action, Orchestrator, Phase, RunError};
use stress_fleet::supervisor::{KillOutcome, ProcessInfo};

fn test_config(count: i32, stagger: Option<u64>) -> RunConfig {
    RunConfig {
        executable_name: "game".to_string(),
        instance_count: count,
        run_duration_secs: 20,
        stagger_delay_secs: stagger,
        extra_args: extra_args_from_flag(true),
    }
}

fn test_endpoints() -> RemoteEndpoints {
    RemoteEndpoints {
        counter_store_url: "https://store.example/".to_string(),
        login_url: "https://backend.example/api-token-auth/".to_string(),
        username_prefix: "user".to_string(),
        shared_test_password: "shared-test-pw".to_string(),
        credential_output_dir: "cfg".to_string(),
    }
}

/// Drives a fresh orchestrator through validation and block reservation,
/// with the counter observed at `observed`, and returns the first ordinal's
/// login request.
fn reserve(m: &mut Orchestrator, observed: i32) -> Action {
    let a = m.start();
    match a {
        Action::CheckExecutable { path } => assert_eq!(path, "./game.exe"),
        other => panic!("expected executable check, got {other:?}"),
    }
    let a = m.executable_checked(true);
    assert!(matches!(a, Action::ReadCounter));
    let a = m.counter_read(Some(observed));
    assert!(matches!(a, Action::WriteCounter { .. }));
    m.counter_written(true)
}

/// Finishes the current ordinal from its login request on: persists the
/// credential, launches, and returns the action that follows the launch.
fn provision_and_spawn(m: &mut Orchestrator, token: &str, handle: u64) -> Action {
    let a = m.token_received(Some(token.to_string()));
    assert!(matches!(a, Action::PersistCredential { .. }));
    let a = m.credential_saved(true);
    assert!(matches!(a, Action::Launch { .. }));
    m.spawn_finished(Some(handle))
}

#[test]
fn reserve_starts_at_observed_counter() {
    let (block, next) = plan_reservation(100, 5);
    assert_eq!(block.start_number, 100);
    assert_eq!(block.count, 5);
    assert_eq!(next, 105);
}

#[test]
fn scenario_counter_at_100_with_five_instances() {
    let mut m = Orchestrator::new(test_config(5, None), test_endpoints());
    let a = m.start();
    match a {
        Action::CheckExecutable { path } => assert_eq!(path, "./game.exe"),
        other => panic!("expected executable check, got {other:?}"),
    }
    let a = m.executable_checked(true);
    assert!(matches!(a, Action::ReadCounter));
    let a = m.counter_read(Some(100));
    match a {
        Action::WriteCounter { value } => assert_eq!(value, 105),
        other => panic!("expected counter write, got {other:?}"),
    }
    assert_eq!(
        m.block,
        Some(UserBlock {
            start_number: 100,
            count: 5
        })
    );

    let mut usernames = Vec::new();
    let mut a = m.counter_written(true);
    for ordinal in 1..=5 {
        match a {
            Action::RequestToken {
                url,
                username,
                password,
            } => {
                assert_eq!(url, "https://backend.example/api-token-auth/");
                assert_eq!(password, "shared-test-pw");
                usernames.push(username);
            }
            other => panic!("expected login request, got {other:?}"),
        }
        let token = format!("tok{ordinal}");
        a = m.token_received(Some(token.clone()));
        match a {
            Action::PersistCredential { path, contents } => {
                assert_eq!(path, "./cfg/auth.json");
                assert_eq!(contents, format!("{{\n  \"token\": \"{token}\"\n}}"));
            }
            other => panic!("expected credential write, got {other:?}"),
        }
        a = m.credential_saved(true);
        match &a {
            Action::Launch { path, args } => {
                assert_eq!(path, "./game.exe");
                assert_eq!(args, &vec!["-nullRHI".to_string()]);
            }
            other => panic!("expected launch, got {other:?}"),
        }
        a = m.spawn_finished(Some(1000 + ordinal as u64));
    }

    assert_eq!(
        usernames,
        vec!["user101", "user102", "user103", "user104", "user105"]
    );
    match a {
        Action::Sleep { seconds } => assert_eq!(seconds, 20),
        other => panic!("expected run-duration sleep, got {other:?}"),
    }
    assert!(matches!(m.phase(), Phase::Running));
    assert_eq!(m.handles, vec![1001, 1002, 1003, 1004, 1005]);
    assert_eq!(m.launch_attempts, 5);
    assert_eq!(m.assigned, vec![101, 102, 103, 104, 105]);

    let mut a = m.slept();
    for i in 0..5u64 {
        match a {
            Action::Kill { handle } => assert_eq!(handle, 1001 + i),
            other => panic!("expected kill, got {other:?}"),
        }
        a = m.kill_finished(KillOutcome::Killed);
    }
    assert!(matches!(a, Action::ListProcesses));
    let a = m.processes_listed(vec![
        ProcessInfo {
            pid: 7,
            name: "game".to_string(),
        },
        ProcessInfo {
            pid: 8,
            name: "idle".to_string(),
        },
    ]);
    match a {
        Action::KillPids { pids } => assert_eq!(pids, vec![7]),
        other => panic!("expected sweep kills, got {other:?}"),
    }
    let a = m.sweep_finished(Vec::new());
    assert!(matches!(a, Action::Halt));
    assert!(matches!(m.phase(), Phase::Done));

    let report = m.into_report();
    assert_eq!(report.spawned, 5);
    assert_eq!(report.kill_outcomes, vec![KillOutcome::Killed; 5]);
    assert_eq!(report.sweep_matches, vec![7]);
    assert!(report.sweep_failures.is_empty());
}

#[test]
fn zero_instances_fails_validation_before_any_call() {
    let mut m = Orchestrator::new(test_config(0, None), test_endpoints());
    let a = m.start();
    assert!(matches!(a, Action::Halt));
    assert!(matches!(
        m.phase(),
        Phase::Failed {
            error: RunError::ConfigError
        }
    ));
    assert!(!m.side_effects_issued);
    assert!(m.block.is_none());
    assert!(m.handles.is_empty());
}

#[test]
fn missing_executable_fails_validation_before_any_call() {
    let mut m = Orchestrator::new(test_config(5, None), test_endpoints());
    let a = m.start();
    assert!(matches!(a, Action::CheckExecutable { .. }));
    let a = m.executable_checked(false);
    assert!(matches!(a, Action::Halt));
    assert!(matches!(
        m.phase(),
        Phase::Failed {
            error: RunError::ConfigError
        }
    ));
    assert!(!m.side_effects_issued);
    assert!(m.block.is_none());
    assert!(m.handles.is_empty());
}

#[test]
fn scenario_auth_failure_at_third_of_five_leaves_first_two_running() {
    let mut m = Orchestrator::new(test_config(5, None), test_endpoints());
    let mut a = reserve(&mut m, 100);
    for ordinal in 1..=2u64 {
        assert!(matches!(a, Action::RequestToken { .. }));
        a = provision_and_spawn(&mut m, "tok", 1000 + ordinal);
    }
    match &a {
        Action::RequestToken { username, .. } => assert_eq!(username, "user103"),
        other => panic!("expected login request, got {other:?}"),
    }
    let a = m.token_received(None);
    assert!(matches!(a, Action::Halt));
    assert!(matches!(
        m.phase(),
        Phase::Failed {
            error: RunError::AuthError
        }
    ));
    assert_eq!(m.handles, vec![1001, 1002]);
    assert_eq!(m.launch_attempts, 2);
}

#[test]
fn scenario_stagger_of_two_seconds_separates_three_spawns() {
    let mut m = Orchestrator::new(test_config(3, Some(2)), test_endpoints());
    let mut a = reserve(&mut m, 0);
    let mut stagger_slept: u64 = 0;
    for ordinal in 1..=2u64 {
        assert!(matches!(a, Action::RequestToken { .. }));
        a = provision_and_spawn(&mut m, "tok", ordinal);
        match a {
            Action::Sleep { seconds } => {
                assert_eq!(seconds, 2);
                stagger_slept += seconds;
            }
            other => panic!("expected stagger sleep, got {other:?}"),
        }
        a = m.slept();
    }
    assert!(matches!(a, Action::RequestToken { .. }));
    let a = provision_and_spawn(&mut m, "tok", 3);
    match a {
        Action::Sleep { seconds } => assert_eq!(seconds, 20),
        other => panic!("expected run-duration sleep, got {other:?}"),
    }
    assert!(matches!(m.phase(), Phase::Running));
    assert!(stagger_slept >= 4);
}

#[test]
fn scenario_teardown_tolerates_already_exited_handle_and_still_sweeps() {
    let mut m = Orchestrator::new(test_config(2, None), test_endpoints());
    let mut a = reserve(&mut m, 10);
    for ordinal in 1..=2u64 {
        assert!(matches!(a, Action::RequestToken { .. }));
        a = provision_and_spawn(&mut m, "tok", 100 + ordinal);
    }
    assert!(matches!(a, Action::Sleep { .. }));
    let a = m.slept();
    assert!(matches!(a, Action::Kill { handle: 101 }));
    let a = m.kill_finished(KillOutcome::AlreadyExited);
    assert!(matches!(a, Action::Kill { handle: 102 }));
    let a = m.kill_finished(KillOutcome::Killed);
    assert!(matches!(a, Action::ListProcesses));
    let a = m.processes_listed(Vec::new());
    match a {
        Action::KillPids { pids } => assert!(pids.is_empty()),
        other => panic!("expected sweep kills, got {other:?}"),
    }
    let a = m.sweep_finished(Vec::new());
    assert!(matches!(a, Action::Halt));
    let report = m.into_report();
    assert_eq!(
        report.kill_outcomes,
        vec![KillOutcome::AlreadyExited, KillOutcome::Killed]
    );
    assert!(!report.kill_outcomes[0].is_failure());
    assert!(report.sweep_matches.is_empty());
}

#[test]
fn remote_failures_are_fatal() {
    let mut m = Orchestrator::new(test_config(3, None), test_endpoints());
    m.start();
    m.executable_checked(true);
    let a = m.counter_read(None);
    assert!(matches!(a, Action::Halt));
    assert!(matches!(
        m.phase(),
        Phase::Failed {
            error: RunError::RemoteUnavailable
        }
    ));

    let mut m = Orchestrator::new(test_config(3, None), test_endpoints());
    m.start();
    m.executable_checked(true);
    let a = m.counter_read(Some(i32::MAX - 1));
    assert!(matches!(a, Action::Halt));
    assert!(matches!(
        m.phase(),
        Phase::Failed {
            error: RunError::RemoteUnavailable
        }
    ));

    let mut m = Orchestrator::new(test_config(3, None), test_endpoints());
    m.start();
    m.executable_checked(true);
    m.counter_read(Some(0));
    let a = m.counter_written(false);
    assert!(matches!(a, Action::Halt));
    assert!(matches!(
        m.phase(),
        Phase::Failed {
            error: RunError::RemoteUnavailable
        }
    ));
}

#[test]
fn credential_write_failure_aborts_run() {
    let mut m = Orchestrator::new(test_config(2, None), test_endpoints());
    let a = reserve(&mut m, 0);
    assert!(matches!(a, Action::RequestToken { .. }));
    m.token_received(Some("tok".to_string()));
    let a = m.credential_saved(false);
    assert!(matches!(a, Action::Halt));
    assert!(matches!(
        m.phase(),
        Phase::Failed {
            error: RunError::AuthError
        }
    ));
}

#[test]
fn spawn_failure_aborts_run() {
    let mut m = Orchestrator::new(test_config(2, None), test_endpoints());
    let a = reserve(&mut m, 0);
    assert!(matches!(a, Action::RequestToken { .. }));
    m.token_received(Some("tok".to_string()));
    m.credential_saved(true);
    let a = m.spawn_finished(None);
    assert!(matches!(a, Action::Halt));
    assert!(matches!(
        m.phase(),
        Phase::Failed {
            error: RunError::SpawnError
        }
    ));
    assert!(m.handles.is_empty());
}

#[test]
fn placeholder_endpoints_are_all_default() {
    let e = RemoteEndpoints::default();
    assert_eq!(e.counter_store_url, "default");
    assert_eq!(e.login_url, "default");
    assert_eq!(e.username_prefix, "default");
    assert_eq!(e.shared_test_password, "default");
    assert_eq!(e.credential_output_dir, "default");
}
