use aegis_daemon::container_helpers::{
    begin_sweep, emit_unkillable_log, managed_container_reap_reason, reap_step, AttemptStates,
    ContainerEngineKind, ExecutionLookup, ExecutionStatus, LogLevel, ManagedAgentContainer,
    ReapAction, ReapAttemptState, ReapEvent, TerminateOutcome,
};
use aegis_daemon::string_map::StringMap;

fn seconds(n: u64) -> u128 {
    n as u128 * 1_000_000_000
}

fn container_with_state(state: Option<&str>) -> ManagedAgentContainer {
    ManagedAgentContainer {
        id: "test-id".to_string(),
        execution_id: None,
        debug_retain: false,
        state: state.map(|s| s.to_string()),
    }
}

#[test]
fn reap_reason_skips_stopping_state_regardless_of_execution_status() {
    let container = container_with_state(Some("stopping"));
    for status in [
        None,
        Some(ExecutionStatus::Running),
        Some(ExecutionStatus::Completed),
        Some(ExecutionStatus::Failed),
        Some(ExecutionStatus::Cancelled),
    ] {
        assert_eq!(
            managed_container_reap_reason(&container, status.as_ref()),
            None,
            "expected None for state=stopping with status={:?}",
            status
        );
    }
}

#[test]
fn reap_reason_skips_removing_state_regardless_of_execution_status() {
    let container = container_with_state(Some("removing"));
    for status in [
        None,
        Some(ExecutionStatus::Running),
        Some(ExecutionStatus::Completed),
        Some(ExecutionStatus::Failed),
        Some(ExecutionStatus::Cancelled),
    ] {
        assert_eq!(
            managed_container_reap_reason(&container, status.as_ref()),
            None,
            "expected None for state=removing with status={:?}",
            status
        );
    }
}

#[test]
fn reap_reason_still_fires_for_exited_container_with_terminal_execution() {
    let container = container_with_state(Some("exited"));
    assert_eq!(
        managed_container_reap_reason(&container, Some(&ExecutionStatus::Completed)),
        Some("execution_not_running")
    );
}

#[test]
fn reap_attempt_state_quarantines_after_five_failures_with_correct_backoff() {
    let t0 = seconds(1_000_000);
    let mut state = ReapAttemptState::new(t0);
    assert_eq!(state.attempts, 1);
    assert!(!state.quarantined);

    // After attempt 1: must wait 5 minutes.
    assert_eq!(ReapAttemptState::backoff(state.attempts), 5 * 60);
    assert!(!state.should_attempt(t0 + seconds(5 * 60 - 1)));
    assert!(state.should_attempt(t0 + seconds(5 * 60)));

    let t1 = t0 + seconds(5 * 60);
    state.record_failure(t1);
    assert_eq!(state.attempts, 2);
    assert!(!state.quarantined);
    assert_eq!(ReapAttemptState::backoff(state.attempts), 10 * 60);
    assert!(!state.should_attempt(t1 + seconds(10 * 60 - 1)));
    assert!(state.should_attempt(t1 + seconds(10 * 60)));

    let t2 = t1 + seconds(10 * 60);
    state.record_failure(t2);
    assert_eq!(state.attempts, 3);
    assert_eq!(ReapAttemptState::backoff(state.attempts), 20 * 60);

    let t3 = t2 + seconds(20 * 60);
    state.record_failure(t3);
    assert_eq!(state.attempts, 4);
    assert_eq!(ReapAttemptState::backoff(state.attempts), 40 * 60);
    assert!(!state.quarantined);

    let t4 = t3 + seconds(40 * 60);
    state.record_failure(t4);
    assert_eq!(state.attempts, 5);
    assert!(state.quarantined, "must quarantine after 5 failures");
    assert_eq!(ReapAttemptState::backoff(state.attempts), 60 * 60);

    // Cap holds beyond the threshold.
    let t5 = t4 + seconds(60 * 60);
    state.record_failure(t5);
    assert_eq!(state.attempts, 6);
    assert_eq!(ReapAttemptState::backoff(state.attempts), 60 * 60);
}

#[test]
fn reap_attempt_state_is_cleared_on_success() {
    let t0 = seconds(1);
    let mut map: AttemptStates = StringMap::new();
    map.insert("abc", ReapAttemptState::new(t0));
    map.remove("abc");
    assert!(map.get("abc").is_none());
}

#[test]
fn reap_attempt_state_is_cleared_when_the_engine_terminates_the_container() {
    let mut states: AttemptStates = StringMap::new();
    states.insert("test-id", ReapAttemptState::new(seconds(1)));
    let container = container_with_state(Some("exited"));
    let action = reap_step(
        &mut states,
        &container,
        seconds(500),
        ReapEvent::Asked(TerminateOutcome::Terminated),
    );
    assert!(matches!(action, ReapAction::CountReaped));
    assert!(states.get("test-id").is_none());
}

#[test]
fn attempts_count_without_overflow() {
    let mut state =
        ReapAttemptState { attempts: u32::MAX, last_attempt: 0, quarantined: true };
    state.record_failure(9);
    assert_eq!(state.attempts, u32::MAX);
    assert_eq!(state.last_attempt, 9);
    assert!(state.quarantined);
    assert!(!state.should_attempt(8), "a clock that runs back is not due");
}

#[test]
fn debug_containers_and_running_executions_are_kept() {
    let mut container = container_with_state(Some("running"));
    assert_eq!(
        managed_container_reap_reason(&container, Some(&ExecutionStatus::Running)),
        None
    );
    container.debug_retain = true;
    assert_eq!(managed_container_reap_reason(&container, None), None);
}

#[test]
fn a_sweep_forgets_containers_that_are_gone() {
    let mut states: AttemptStates = StringMap::new();
    states.insert("gone", ReapAttemptState::new(1));
    states.insert("test-id", ReapAttemptState::new(2));
    let containers = vec![container_with_state(Some("exited"))];
    begin_sweep(&mut states, &containers);
    assert!(states.get("gone").is_none());
    assert_eq!(states.get("test-id"), Some(&ReapAttemptState::new(2)));
}

#[test]
fn unkillable_reports_are_loud_once_and_quiet_afterwards() {
    let first = ReapAttemptState { attempts: 1, last_attempt: 0, quarantined: false };
    let threshold = ReapAttemptState { attempts: 5, last_attempt: 0, quarantined: true };
    let later = ReapAttemptState { attempts: 6, last_attempt: 0, quarantined: true };
    let engine = ContainerEngineKind::Podman;
    assert_eq!(emit_unkillable_log(&first, engine).level, LogLevel::Warn);
    assert_eq!(emit_unkillable_log(&threshold, engine).level, LogLevel::Error);
    assert_eq!(emit_unkillable_log(&later, engine).level, LogLevel::Debug);
}

#[test]
fn one_container_is_walked_from_listing_to_quarantine() {
    let mut states: AttemptStates = StringMap::new();
    let mut container = container_with_state(Some("exited"));
    container.execution_id = Some("e-1".to_string());

    let action = reap_step(&mut states, &container, 0, ReapEvent::Listed);
    assert!(matches!(action, ReapAction::LookUp));

    let action = reap_step(
        &mut states,
        &container,
        0,
        ReapEvent::LookedUp(ExecutionLookup::Found(ExecutionStatus::Failed)),
    );
    assert!(matches!(action, ReapAction::Terminate("execution_not_running")));

    let mut now = 0;
    for attempt in 1..=5u32 {
        let action = reap_step(
            &mut states,
            &container,
            now,
            ReapEvent::Asked(TerminateOutcome::Unkillable {
                container_id: "test-id".to_string(),
                engine: ContainerEngineKind::Docker,
            }),
        );
        match action {
            ReapAction::Report(log) => {
                assert_eq!(log.attempts, attempt);
                assert_eq!(log.quarantined, attempt == 5);
            }
            _ => panic!("an unkillable container is reported"),
        }
        now += seconds(3600);
    }
    assert!(states.get("test-id").unwrap().quarantined);

    // Within the pause the container is left alone.
    let action = reap_step(
        &mut states,
        &container,
        now - seconds(3600) + 1,
        ReapEvent::Listed,
    );
    assert!(matches!(action, ReapAction::NextContainer));
}

#[test]
fn a_sweep_counts_what_it_terminates_and_keeps_the_rest() {
    let named = |id: &str| {
        let mut container = container_with_state(Some("exited"));
        container.id = id.to_string();
        container
    };
    let containers = vec![named("gone"), named("stuck"), named("odd")];
    let mut states: AttemptStates = StringMap::new();
    states.insert("unlisted", ReapAttemptState::new(0));
    states.insert("gone", ReapAttemptState::new(0));
    begin_sweep(&mut states, &containers);
    let mut reaped: Vec<String> = vec![];
    for container in &containers {
        let mut event = ReapEvent::Listed;
        loop {
            event = match reap_step(&mut states, container, seconds(400), event) {
                ReapAction::Decide => ReapEvent::LookedUp(ExecutionLookup::Missing),
                ReapAction::Terminate(_) => ReapEvent::Asked(match container.id.as_str() {
                    "gone" => TerminateOutcome::Terminated,
                    "stuck" => TerminateOutcome::Unkillable {
                        container_id: container.id.clone(),
                        engine: ContainerEngineKind::Docker,
                    },
                    _ => TerminateOutcome::Failed,
                }),
                ReapAction::CountReaped => {
                    reaped.push(container.id.clone());
                    break;
                }
                _ => break,
            };
        }
    }
    assert_eq!(reaped, vec!["gone".to_string()]);
    assert!(states.get("gone").is_none() && states.get("unlisted").is_none());
    assert_eq!(states.get("stuck").map(|s| s.attempts), Some(1));
}
