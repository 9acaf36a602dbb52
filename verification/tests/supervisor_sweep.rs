use stress_fleet::supervisor::{sweep_targets, KillOutcome, ProcessInfo};

fn proc(pid: u64, name: &str) -> ProcessInfo {
    ProcessInfo {
        pid,
        name: name.to_string(),
    }
}

#[test]
fn sweep_picks_exact_name_matches_in_order() {
    let procs = vec![
        proc(10, "game"),
        proc(11, "other"),
        proc(12, "game"),
        proc(13, "game-helper"),
        proc(14, "game"),
    ];
    let name = "game".to_string();
    assert_eq!(sweep_targets(&procs, &name), vec![10, 12, 14]);
}

#[test]
fn sweep_of_empty_enumeration_targets_nothing() {
    let name = "game".to_string();
    assert_eq!(sweep_targets(&Vec::new(), &name), Vec::<u64>::new());
}

#[test]
fn sweep_twice_with_no_matches_left_is_empty_both_times() {
    let leftover = vec![proc(1, "editor"), proc(2, "shell")];
    let name = "game".to_string();
    let first = sweep_targets(&leftover, &name);
    let second = sweep_targets(&leftover, &name);
    assert_eq!(first, Vec::<u64>::new());
    assert_eq!(second, Vec::<u64>::new());
}

#[test]
fn already_exited_is_not_a_kill_failure() {
    assert!(!KillOutcome::Killed.is_failure());
    assert!(!KillOutcome::AlreadyExited.is_failure());
    assert!(KillOutcome::Failed.is_failure());
}
