use sidecar_shell::log_event::{log_event, log_event_with, Level, LogEvent};
use sidecar_shell::supervisor::{
    outcome_event, ChildState, SpawnError, SupervisionOutcome, Supervisor, ALREADY_RUNNING_MESSAGE,
    BACKEND_SIDECAR, CHILD_EXITED_MESSAGE, STARTED_MESSAGE,
};

fn spawned() -> Supervisor {
    let mut s = Supervisor::new();
    assert_eq!(s.begin(), None);
    assert_eq!(s.on_resolved(Ok(())), None);
    assert_eq!(s.on_spawned(Ok(())), SupervisionOutcome::Started);
    s
}

#[test]
fn logical_name_of_the_backend() {
    assert_eq!(BACKEND_SIDECAR, "binaries/backend");
}

#[test]
fn event_text_is_prefix_then_detail() {
    let e = log_event_with(Level::Error, "kind: ", &String::from("cause"));
    assert_eq!(e, LogEvent { level: Level::Error, message: String::from("kind: cause") });
    let plain = log_event(Level::Info, "hello");
    assert_eq!(plain.message, "hello");
    assert_eq!(plain.level, Level::Info);
}

#[test]
fn new_supervisor_is_unspawned() {
    let s = Supervisor::new();
    assert_eq!(s.state, ChildState::Unspawned);
    assert_eq!(s.spawn_attempts, 0);
    assert!(s.may_exit());
}

#[test]
fn successful_supervision_runs_the_child() {
    let s = spawned();
    assert_eq!(s.state, ChildState::Running);
    assert_eq!(s.spawn_attempts, 1);
    assert!(!s.may_exit());
}

#[test]
fn resolve_failure_counts_no_spawn() {
    let mut s = Supervisor::new();
    assert_eq!(s.begin(), None);
    assert_eq!(s.state, ChildState::Spawning);
    let r = s.on_resolved(Err(String::from("no such sidecar")));
    assert_eq!(r, Some(SupervisionOutcome::ResolveFailed(String::from("no such sidecar"))));
    assert_eq!(s.state, ChildState::Failed);
    assert_eq!(s.spawn_attempts, 0);
    assert!(s.may_exit());
}

#[test]
fn spawn_failure_keeps_the_os_cause() {
    let mut s = Supervisor::new();
    s.begin();
    s.on_resolved(Ok(()));
    assert_eq!(s.spawn_attempts, 1);
    let r = s.on_spawned(Err(String::from("permission denied")));
    assert_eq!(
        r,
        SupervisionOutcome::SpawnFailed(SpawnError::Os(String::from("permission denied")))
    );
    assert_eq!(s.state, ChildState::Failed);
}

#[test]
fn second_supervise_is_already_running() {
    let mut s = spawned();
    let before = s;
    assert_eq!(
        s.begin(),
        Some(SupervisionOutcome::SpawnFailed(SpawnError::AlreadyRunning))
    );
    assert_eq!(s, before);
    assert_eq!(s.spawn_attempts, 1);
}

#[test]
fn second_supervise_after_failure_is_refused_too() {
    let mut s = Supervisor::new();
    s.begin();
    s.on_resolved(Err(String::from("missing")));
    assert_eq!(
        s.begin(),
        Some(SupervisionOutcome::SpawnFailed(SpawnError::AlreadyRunning))
    );
    assert_eq!(s.state, ChildState::Failed);
}

#[test]
fn spontaneous_exit_is_logged_once_and_not_restarted() {
    let mut s = spawned();
    let e = s.on_child_exited();
    assert_eq!(
        e,
        Some(LogEvent { level: Level::Error, message: String::from(CHILD_EXITED_MESSAGE) })
    );
    assert_eq!(s.state, ChildState::Exited);
    assert_eq!(s.spawn_attempts, 1);
    assert!(s.may_exit());
}

#[test]
fn exit_during_shutdown_is_not_logged() {
    let mut s = spawned();
    assert!(s.request_stop());
    assert!(!s.may_exit());
    assert_eq!(s.on_child_exited(), None);
    assert!(s.may_exit());
}

#[test]
fn stop_without_child_needs_no_termination() {
    let mut s = Supervisor::new();
    assert!(!s.request_stop());
    assert!(s.stopping);
    assert_eq!(s.state, ChildState::Unspawned);
}

#[test]
fn outcome_events_name_kind_and_cause() {
    assert_eq!(
        outcome_event(&SupervisionOutcome::Started),
        LogEvent { level: Level::Info, message: String::from(STARTED_MESSAGE) }
    );
    assert_eq!(STARTED_MESSAGE, "Backend sidecar started successfully");
    let e = outcome_event(&SupervisionOutcome::ResolveFailed(String::from("not found")));
    assert_eq!(e.level, Level::Error);
    assert_eq!(e.message, "ResolveFailed: failed to create sidecar command: not found");
    let e = outcome_event(&SupervisionOutcome::SpawnFailed(SpawnError::Os(String::from("EACCES"))));
    assert_eq!(e.level, Level::Error);
    assert_eq!(e.message, "SpawnFailed: failed to start backend sidecar: EACCES");
    let e = outcome_event(&SupervisionOutcome::SpawnFailed(SpawnError::AlreadyRunning));
    assert_eq!(e.level, Level::Error);
    assert_eq!(e.message, ALREADY_RUNNING_MESSAGE);
    assert!(e.message.contains("AlreadyRunning"));
}
