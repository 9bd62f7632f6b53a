use loopx::store::LoopxPersistedState;
use loopx::types::{
    LoopxEvent, LoopxEventKind, LoopxEventsPageStatus, LoopxPhase, LoopxTaskSnapshot,
    LoopxTaskState,
};

#[test]
fn cursor_gap_and_pagination_are_explicit() {
    let mut state = LoopxPersistedState::new(1);
    for index in 0..3 {
        state.append_event(LoopxEvent {
            message: format!("event-{index}"),
            ..LoopxEvent::default()
        });
    }

    let wrong = state.events_since("old-stream", 0, None);
    assert_eq!(wrong.status, LoopxEventsPageStatus::SnapshotRequired);
    let first = state.events_since(&state.stream_id, 0, Some(2));
    assert_eq!(first.events.len(), 2);
    assert!(first.has_more);
    let second = state.events_since(&state.stream_id, first.next_cursor, Some(2));
    assert_eq!(second.events.len(), 1);
    assert!(!second.has_more);
}

#[test]
fn restart_policy_requeues_pending_work_and_recovers_inflight_work() {
    let mut state = LoopxPersistedState::new(10);
    state.tasks.push(LoopxTaskSnapshot {
        task_id: "task-1".to_string(),
        state: LoopxTaskState::Running,
        phase: LoopxPhase::AgentRunning,
        revision: 3,
        created_at: 1,
        updated_at: 2,
        ..LoopxTaskSnapshot::default()
    });
    state.tasks.push(LoopxTaskSnapshot {
        task_id: "task-2".to_string(),
        state: LoopxTaskState::RetryWait,
        phase: LoopxPhase::RetryBackoff,
        revision: 5,
        created_at: 1,
        updated_at: 2,
        retry_at: Some(30),
        ..LoopxTaskSnapshot::default()
    });
    assert!(state.apply_restart_policy(20));

    assert_eq!(state.tasks[0].state, LoopxTaskState::RecoveryRequired);
    assert_eq!(
        state.tasks[0].recovery_reason.as_deref(),
        Some("host_restart")
    );
    assert_eq!(state.tasks[0].revision, 4);
    assert_eq!(state.tasks[1].state, LoopxTaskState::Queued);
    assert_eq!(state.tasks[1].phase, LoopxPhase::Queued);
    assert_eq!(state.tasks[1].retry_at, None);
    assert_eq!(state.tasks[1].recovery_reason, None);
    assert_eq!(state.tasks[1].revision, 6);
    assert_eq!(state.events[0].kind, LoopxEventKind::SnapshotInvalidated);
    assert_eq!(state.events.len(), 1);
    assert_eq!(state.cursor, 1);
    assert_eq!(state.events[0].cursor, 1);
    assert_eq!(state.events[0].stream_id, state.stream_id);
    assert_eq!(state.revision, 1);
}

#[test]
fn restart_policy_leaves_settled_work_unchanged() {
    let mut state = LoopxPersistedState::new(10);
    state.tasks.push(LoopxTaskSnapshot {
        task_id: "task-1".to_string(),
        state: LoopxTaskState::Completed,
        phase: LoopxPhase::Finished,
        revision: 3,
        ..LoopxTaskSnapshot::default()
    });
    assert!(!state.apply_restart_policy(20));
    assert_eq!(state.tasks[0].state, LoopxTaskState::Completed);
    assert_eq!(state.tasks[0].revision, 3);
    assert!(state.events.is_empty());
}

#[test]
fn stream_ids_differ_between_states() {
    let first = LoopxPersistedState::new(1);
    let second = LoopxPersistedState::new(1);
    assert!(!first.stream_id.is_empty());
    assert_ne!(first.stream_id, second.stream_id);
}

#[test]
fn processed_requests_are_remembered() {
    let mut state = LoopxPersistedState::new(1);
    assert!(!state.has_processed_request("request-1"));
    state.record_processed_request("request-1".to_string());
    assert!(state.has_processed_request("request-1"));
    assert!(!state.has_processed_request("request-2"));
}

#[test]
fn appended_events_take_consecutive_cursors() {
    let mut state = LoopxPersistedState::new(1);
    state.append_event(LoopxEvent::default());
    state.append_event(LoopxEvent::default());
    assert_eq!(state.events.len(), 2);
    assert_eq!(state.events[1].cursor, state.events[0].cursor + 1);
    assert_eq!(state.cursor, state.events[1].cursor);
}
