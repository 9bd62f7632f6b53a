use loopx::schedule::{attach_reconciles, attach_snapshot, LaneSlots, RunSlots};
use loopx::store::LoopxPersistedState;
use loopx::types::{
    LoopxEnvironmentStatus, LoopxExecutionDomain, LoopxExecutionSupport, LoopxTaskSnapshot,
    LoopxTaskState,
};

#[test]
fn a_drive_asked_for_while_one_runs_becomes_one_rerun() {
    let mut slots = RunSlots::new();
    assert!(slots.reserve("task-1"));
    assert!(!slots.reserve("task-1"));
    assert!(!slots.reserve("task-1"));
    assert!(slots.reserve("task-2"));
    assert!(slots.release("task-1"));
    assert!(!slots.release("task-1"));
    assert!(slots.reserve("task-1"));
    assert!(!slots.reserve("task-1"));
    slots.suppress_rerun("task-1");
    assert!(!slots.release("task-1"));
    assert!(!slots.release("task-2"));
}

#[test]
fn one_task_runs_per_repository() {
    let mut lanes = LaneSlots::new();
    assert!(lanes.reserve("github.com/o/r", "a"));
    assert!(lanes.reserve("github.com/o/r", "a"));
    assert!(!lanes.reserve("github.com/o/r", "b"));
    assert!(lanes.reserve("github.com/o/other", "b"));
    lanes.release("github.com/o/r", "b");
    assert!(!lanes.reserve("github.com/o/r", "b"));
    lanes.release("github.com/o/r", "a");
    assert!(lanes.reserve("github.com/o/r", "b"));
}

#[test]
fn only_queued_tasks_are_driven_after_a_load() {
    let mut state = LoopxPersistedState::new(1);
    for (id, s) in [
        ("a", LoopxTaskState::Queued),
        ("b", LoopxTaskState::Running),
        ("c", LoopxTaskState::Queued),
    ] {
        state.tasks.push(LoopxTaskSnapshot {
            task_id: id.to_string(),
            state: s,
            ..LoopxTaskSnapshot::default()
        });
    }
    assert_eq!(
        state.tasks_to_enqueue_after_load(true),
        vec!["a".to_string(), "c".to_string()]
    );
    assert!(state.tasks_to_enqueue_after_load(false).is_empty());
    state.suspended = true;
    assert!(state.tasks_to_enqueue_after_load(true).is_empty());
}

#[test]
fn a_load_error_blocks_the_attached_snapshot() {
    let state = LoopxPersistedState::new(1);
    assert!(attach_reconciles(
        LoopxExecutionSupport::Supported,
        LoopxEnvironmentStatus::Ready,
        true
    ));
    assert!(!attach_reconciles(
        LoopxExecutionSupport::Supported,
        LoopxEnvironmentStatus::Degraded,
        true
    ));
    let normal = attach_snapshot(
        &state,
        LoopxExecutionDomain::default(),
        LoopxExecutionSupport::Supported,
        None,
        None,
        5,
    );
    assert_eq!(normal.execution_support, LoopxExecutionSupport::Supported);
    assert_eq!(normal.environment.status, state.environment.status);
    let blocked = attach_snapshot(
        &state,
        LoopxExecutionDomain::default(),
        LoopxExecutionSupport::Supported,
        None,
        Some("state file is corrupt".to_string()),
        5,
    );
    assert_eq!(
        blocked.execution_support,
        LoopxExecutionSupport::UnsupportedExecutionDomain
    );
    assert_eq!(blocked.unsupported_reason.as_deref(), Some("state file is corrupt"));
    assert_eq!(blocked.environment.status, LoopxEnvironmentStatus::Blocked);
}
