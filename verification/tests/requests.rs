use loopx::ports::LoopxCliResetGoalsResult;
use loopx::requests::{
    action_route, install_running_response, install_started_response, reset_goal_ids,
    reset_in_progress_response, reset_stream_event, reset_summary_message, resume_task_refusal,
    resume_task_state, state_after_load, state_after_reset, unsupported_action_error,
    LoopxActionRoute, LoopxTaskActionPrecheck,
};
use loopx::store::{LoopxPersistedState, LoopxTaskRuntimeRecord};
use loopx::types::{
    LoopxActionKind, LoopxActionRequest, LoopxActionStatus, LoopxEnvironmentFactStatus,
    LoopxEnvironmentStatus, LoopxEventKind, LoopxIssueKey, LoopxItemKind, LoopxPhase,
    LoopxRepositoryKey, LoopxTaskIdentity, LoopxTaskSnapshot, LoopxTaskState,
};

fn task(id: &str, state: LoopxTaskState, revision: u64) -> LoopxTaskSnapshot {
    LoopxTaskSnapshot {
        task_id: id.to_string(),
        state,
        revision,
        generation: 2,
        ..LoopxTaskSnapshot::default()
    }
}

fn request(action: LoopxActionKind, task_id: Option<&str>, id: &str, revision: u64) -> LoopxActionRequest {
    LoopxActionRequest {
        task_id: task_id.map(str::to_string),
        action,
        client_request_id: id.to_string(),
        expected_revision: revision,
        ..LoopxActionRequest::default()
    }
}

#[test]
fn suite_actions_have_their_own_routes() {
    assert_eq!(action_route(LoopxActionKind::RetryEnvironment), LoopxActionRoute::RetryEnvironment);
    assert_eq!(action_route(LoopxActionKind::InstallLoopx), LoopxActionRoute::InstallLoopx);
    assert_eq!(action_route(LoopxActionKind::ResumeRepository), LoopxActionRoute::ResumeRepository);
    assert_eq!(action_route(LoopxActionKind::ResetAll), LoopxActionRoute::ResetAll);
    assert_eq!(action_route(LoopxActionKind::PauseAll), LoopxActionRoute::PauseAll);
    assert_eq!(action_route(LoopxActionKind::ResumeAll), LoopxActionRoute::ResumeAll);
    assert_eq!(action_route(LoopxActionKind::Unsupported), LoopxActionRoute::Unsupported);
    for kind in [
        LoopxActionKind::Pause,
        LoopxActionKind::Abort,
        LoopxActionKind::Resume,
        LoopxActionKind::Approve,
        LoopxActionKind::Reject,
        LoopxActionKind::Archive,
        LoopxActionKind::Restore,
    ] {
        assert_eq!(action_route(kind), LoopxActionRoute::Task);
    }
    assert_eq!(unsupported_action_error(), "Unsupported LoopX action");
}

#[test]
fn task_action_precheck_follows_its_order() {
    let mut state = LoopxPersistedState::new(1);
    state.revision = 9;
    state.tasks.push(task("task-1", LoopxTaskState::Queued, 4));
    state.tasks.push(task("task-2", LoopxTaskState::Stopped, 6));

    match state.precheck_task_action(&request(LoopxActionKind::Pause, None, "r-1", 4)) {
        LoopxTaskActionPrecheck::Refuse(error) => assert_eq!(error, "taskId is required"),
        other => panic!("unexpected {other:?}"),
    }
    match state.precheck_task_action(&request(LoopxActionKind::Pause, Some("missing"), "r-1", 4)) {
        LoopxTaskActionPrecheck::Refuse(error) => assert_eq!(error, "LoopX task not found"),
        other => panic!("unexpected {other:?}"),
    }
    match state.precheck_task_action(&request(LoopxActionKind::Resume, Some("task-1"), "r-1", 4)) {
        LoopxTaskActionPrecheck::Respond(response) => {
            assert_eq!(response.status, LoopxActionStatus::Duplicate);
            assert_eq!(response.current_revision, 4);
            assert_eq!(response.task.unwrap().task_id, "task-1");
            assert_eq!(response.message.as_deref(), Some("Task is already queued or running"));
        }
        other => panic!("unexpected {other:?}"),
    }
    match state.precheck_task_action(&request(LoopxActionKind::Resume, Some("task-2"), "r-1", 5)) {
        LoopxTaskActionPrecheck::Respond(response) => {
            assert_eq!(response.status, LoopxActionStatus::RevisionConflict);
            assert_eq!(response.current_revision, 6);
            assert_eq!(
                response.message.as_deref(),
                Some("Task changed; refresh before applying the action")
            );
        }
        other => panic!("unexpected {other:?}"),
    }
    match state.precheck_task_action(&request(LoopxActionKind::Resume, Some("task-2"), "r-1", 6)) {
        LoopxTaskActionPrecheck::Proceed(index) => assert_eq!(index, 1),
        other => panic!("unexpected {other:?}"),
    }

    state.record_processed_request("r-1".to_string());
    match state.precheck_task_action(&request(LoopxActionKind::Resume, Some("task-2"), "r-1", 6)) {
        LoopxTaskActionPrecheck::Respond(response) => {
            assert_eq!(response.status, LoopxActionStatus::Duplicate);
            assert_eq!(response.current_revision, 9);
            assert_eq!(response.task.unwrap().task_id, "task-2");
            assert_eq!(response.message, None);
        }
        other => panic!("unexpected {other:?}"),
    }
}

#[test]
fn only_stopped_failed_or_recovering_tasks_resume() {
    let stopped = task("task-1", LoopxTaskState::Stopped, 3);
    let rejected = resume_task_refusal(true, &stopped).expect("suite stopped");
    assert_eq!(rejected.status, LoopxActionStatus::Rejected);
    assert_eq!(
        rejected.message.as_deref(),
        Some("LoopX suite is stopped; resume the suite first")
    );
    assert!(resume_task_refusal(false, &stopped).is_none());
    let running = task("task-1", LoopxTaskState::Running, 3);
    assert_eq!(
        resume_task_refusal(false, &running).unwrap().message.as_deref(),
        Some("Only stopped, failed, or recovery-required tasks can resume")
    );
}

#[test]
fn resumed_task_starts_a_new_generation() {
    let mut task = task("task-9", LoopxTaskState::Failed, 3);
    task.error = Some("boom".to_string());
    task.pending_gate_id = Some("gate".to_string());
    let mut runtime = LoopxTaskRuntimeRecord::default();
    runtime.session_id = Some("session".to_string());
    runtime.registry_path = "/registry".to_string();
    resume_task_state(&mut task, &mut runtime);
    assert_eq!(task.generation, 3);
    assert_eq!(task.revision, 4);
    assert_eq!(task.state, LoopxTaskState::Queued);
    assert_eq!(task.phase, LoopxPhase::Recovering);
    assert_eq!(task.error, None);
    assert_eq!(task.pending_gate_id, None);
    assert_eq!(runtime.operation_id, "resume-task-9-3");
    assert_eq!(runtime.session_id, None);
    assert_eq!(runtime.registry_path, "/registry");
}

#[test]
fn suite_stop_and_resume_toggle_once() {
    let mut state = LoopxPersistedState::new(1);
    state.tasks.push(task("a", LoopxTaskState::Queued, 1));
    state.tasks.push(task("b", LoopxTaskState::WaitingForUser, 1));
    state.tasks.push(task("c", LoopxTaskState::Running, 1));
    assert_eq!(state.pausable_task_ids(), vec!["a".to_string(), "c".to_string()]);

    state.suspend_suite(2, 50);
    assert!(state.suspended);
    assert_eq!(state.revision, 1);
    assert_eq!(
        state.events.last().unwrap().message,
        "LoopX suite stopped; intake and scheduling are held until resume (paused 2 task(s))"
    );
    state.suspend_suite(2, 60);
    assert_eq!(state.revision, 1);
    assert_eq!(state.events.len(), 1);

    state.resume_suite(70);
    assert!(!state.suspended);
    assert_eq!(state.revision, 2);
    assert_eq!(
        state.events.last().unwrap().message,
        "LoopX suite resumed; intake and scheduling re-enabled"
    );
    state.resume_suite(80);
    assert_eq!(state.events.len(), 2);
}

#[test]
fn reset_is_idempotent_and_revision_checked() {
    let mut state = LoopxPersistedState::new(1);
    state.revision = 5;
    state.tasks.push(task("a", LoopxTaskState::Running, 1));
    state.tasks.push(task("b", LoopxTaskState::Completed, 1));

    let conflict = state
        .begin_reset(&request(LoopxActionKind::ResetAll, None, "reset-1", 4), 10)
        .expect("stale revision");
    assert_eq!(conflict.status, LoopxActionStatus::RevisionConflict);
    assert_eq!(
        conflict.message.as_deref(),
        Some("LoopX state changed; refresh before resetting")
    );
    assert_eq!(state.tasks[0].state, LoopxTaskState::Running);

    assert!(state
        .begin_reset(&request(LoopxActionKind::ResetAll, None, "reset-1", 5), 10)
        .is_none());
    assert_eq!(state.tasks[0].state, LoopxTaskState::Cancelling);
    assert_eq!(state.tasks[0].phase, LoopxPhase::Cancelling);
    assert_eq!(state.tasks[0].revision, 2);
    assert_eq!(state.tasks[0].updated_at, 10);
    assert_eq!(state.tasks[1].state, LoopxTaskState::Completed);
    assert_eq!(state.revision, 6);

    let duplicate = state
        .begin_reset(&request(LoopxActionKind::ResetAll, None, "reset-1", 6), 11)
        .expect("already applied");
    assert_eq!(duplicate.status, LoopxActionStatus::Duplicate);
    assert_eq!(duplicate.message.as_deref(), Some("LoopX reset was already applied"));
    assert_eq!(state.revision, 6);

    let busy = reset_in_progress_response(6);
    assert_eq!(busy.status, LoopxActionStatus::Duplicate);
    assert_eq!(busy.message.as_deref(), Some("LoopX reset is already in progress"));
}

fn identity(owner: &str, number: u64, attempt: u32) -> LoopxTaskIdentity {
    LoopxTaskIdentity {
        item: LoopxIssueKey {
            repository: LoopxRepositoryKey {
                host: "github.com".to_string(),
                owner: owner.to_string(),
                repository: "repo".to_string(),
            },
            kind: LoopxItemKind::Issue,
            number,
        },
        attempt,
        ..LoopxTaskIdentity::default()
    }
}

#[test]
fn reset_retires_each_goal_once_in_order() {
    let mut tasks = Vec::new();
    for (owner, number) in [("zed", 1), ("abc", 2), ("zed", 1), ("abc", 1)] {
        tasks.push(LoopxTaskSnapshot {
            identity: identity(owner, number, 1),
            ..LoopxTaskSnapshot::default()
        });
    }
    assert_eq!(
        reset_goal_ids(&tasks),
        vec![
            "bfx-abc-repo-issue-1".to_string(),
            "bfx-abc-repo-issue-2".to_string(),
            "bfx-zed-repo-issue-1".to_string(),
        ]
    );
    assert!(reset_goal_ids(&[]).is_empty());
}

#[test]
fn reset_reports_what_it_cleared() {
    let goals = LoopxCliResetGoalsResult {
        retired_goal_ids: vec!["a".to_string(), "b".to_string()],
        already_absent_goal_ids: vec!["c".to_string()],
        archived_goal_ids: vec!["d".to_string()],
        ..LoopxCliResetGoalsResult::default()
    };
    assert_eq!(
        reset_summary_message(4, &goals),
        "Cleared 4 LoopX tasks, 3 global goal routes, managed workspaces, runtime state, and persisted controller state"
    );
    let event = reset_stream_event("fresh", "old-stream", 77);
    assert_eq!(event.stream_id, "fresh");
    assert_eq!(event.message, "LoopX reset replaced stream old-stream");
    assert_eq!(event.kind, LoopxEventKind::SnapshotInvalidated);

    let mut environment = LoopxPersistedState::new(1).environment;
    environment.revision = 12;
    let fresh = state_after_reset(environment, 5);
    assert_eq!(fresh.environment.revision, 12);
    assert!(fresh.tasks.is_empty());
    assert_eq!(fresh.revision, 0);
}

#[test]
fn install_requests_are_checked_before_they_start() {
    let mut state = LoopxPersistedState::new(1);
    state.revision = 3;
    let blank = request(LoopxActionKind::InstallLoopx, None, "  ", 0);
    assert_eq!(
        state.precheck_install(&blank),
        Some(Err("clientRequestId is required".to_string()))
    );
    let install = request(LoopxActionKind::InstallLoopx, None, "install-1", 0);
    assert!(state.precheck_install(&install).is_none());

    let revision = state.mark_loopx_installing("install-1".to_string(), 40);
    assert_eq!(revision, 4);
    assert_eq!(state.environment.status, LoopxEnvironmentStatus::Checking);
    assert_eq!(
        state.environment.core.sidecar.status,
        LoopxEnvironmentFactStatus::Checking
    );
    assert_eq!(
        state.events.last().unwrap().message,
        "LoopX managed source installation started"
    );
    let again = state.precheck_install(&install).unwrap().unwrap();
    assert_eq!(
        again.message.as_deref(),
        Some("LoopX installation request was already applied")
    );

    state.mark_loopx_install_failed("network down", 50);
    assert_eq!(state.environment.status, LoopxEnvironmentStatus::Blocked);
    assert_eq!(
        state.environment.core.sidecar.detail.as_deref(),
        Some("network down")
    );
    assert_eq!(
        state.events.last().unwrap().message,
        "LoopX managed source installation failed: network down"
    );

    state.environment.core.sidecar.status = LoopxEnvironmentFactStatus::Available;
    let other = request(LoopxActionKind::InstallLoopx, None, "install-2", 0);
    assert_eq!(
        state.precheck_install(&other).unwrap().unwrap().message.as_deref(),
        Some("A compatible LoopX runtime is already available")
    );
    assert_eq!(
        install_running_response(7).message.as_deref(),
        Some("LoopX installation is already running")
    );
    assert_eq!(install_started_response(7).status, LoopxActionStatus::Applied);
}

#[test]
fn load_applies_the_restart_policy_to_a_stored_state() {
    let mut stored = LoopxPersistedState::new(1);
    stored.tasks.push(task("a", LoopxTaskState::Running, 1));
    stored.processed_request_ids.push("req-1".to_string());
    stored.revision = 7;
    stored.suspended = true;
    let stream = stored.stream_id.clone();
    let (state, error, changed) = state_after_load(Ok(Some(stored)), 9);
    assert!(changed);
    assert_eq!(error, None);
    assert_eq!(state.stream_id, stream);
    assert_eq!(state.tasks[0].state, LoopxTaskState::RecoveryRequired);
    assert_eq!(state.revision, 8);
    assert!(state.has_processed_request("req-1"));
    assert!(state.suspended);
    assert_eq!(state.events.len(), 1);
    assert_eq!(state.events[0].kind, LoopxEventKind::SnapshotInvalidated);
    assert_eq!(state.cursor, 1);

    let mut settled = LoopxPersistedState::new(1);
    settled.tasks.push(task("b", LoopxTaskState::Completed, 3));
    settled.revision = 4;
    let (state, _, changed) = state_after_load(Ok(Some(settled)), 9);
    assert!(!changed);
    assert_eq!(state.revision, 4);
    assert!(state.events.is_empty());

    let (fresh, error, changed) = state_after_load(Ok(None), 9);
    assert!(!changed && error.is_none() && fresh.tasks.is_empty());
    assert_eq!(fresh.revision, 0);
    assert_eq!(fresh.stream_id.len(), 36);
    assert!(fresh.processed_request_ids.is_empty() && !fresh.suspended);

    let (fresh, error, changed) = state_after_load(Err("corrupt".to_string()), 9);
    assert!(!changed && fresh.tasks.is_empty());
    assert_eq!(error.as_deref(), Some("corrupt"));
}
