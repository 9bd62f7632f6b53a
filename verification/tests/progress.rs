use loopx::ports::{LoopxCliProgress, LoopxCliProgressStage};
use loopx::store::LoopxPersistedState;
use loopx::types::{LoopxEventKind, LoopxEventSource};

fn report(task_id: Option<&str>, message: &str, at: i64) -> LoopxCliProgress {
    LoopxCliProgress {
        operation_id: "op-1".to_string(),
        task_id: task_id.map(str::to_string),
        stage: LoopxCliProgressStage::InspectingGoal,
        message: message.to_string(),
        occurred_at: at,
    }
}

#[test]
fn progress_skips_process_lifecycle_messages() {
    let mut state = LoopxPersistedState::new(1);
    let revision = state.revision;
    state.record_progress(vec![
        report(Some("task-1"), "Starting LoopX process", 10),
        report(Some("task-1"), "Inspecting goal", 11),
        report(None, "LoopX process exited successfully", 12),
        report(None, "Sidecar ready", 13),
    ]);
    assert_eq!(state.events.len(), 2);
    assert_eq!(state.cursor, 2);
    assert_eq!(state.revision, revision);
    assert_eq!(state.events[0].message, "Inspecting goal");
    assert_eq!(state.events[0].task_id.as_deref(), Some("task-1"));
    assert_eq!(state.events[0].cursor, 1);
    assert_eq!(state.events[0].occurred_at, 11);
    assert_eq!(state.events[0].kind, LoopxEventKind::Progress);
    assert_eq!(state.events[0].source, LoopxEventSource::Sidecar);
    assert_eq!(state.events[0].stream_id, state.stream_id);
    assert_eq!(state.events[1].message, "Sidecar ready");
    assert_eq!(state.events[1].task_id, None);
    assert_eq!(state.events[1].cursor, 2);
}

#[test]
fn progress_of_only_lifecycle_messages_records_nothing() {
    let mut state = LoopxPersistedState::new(1);
    state.record_progress(vec![report(None, "Starting LoopX process", 10)]);
    assert!(state.events.is_empty());
    assert_eq!(state.cursor, 0);
}
