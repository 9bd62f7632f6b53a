use loopx::drive::{drive_step_follow_up, drive_step_target, LoopxDriveFollowUp};
use loopx::lifecycle::LoopxDriveStep;
use loopx::requests::{task_action_cancellation, task_action_target};
use loopx::router::{tool_result_entry, ToolResultFacts, ToolResultValue};
use loopx::store::LoopxPersistedState;
use loopx::types::{
    LoopxActionKind, LoopxCreateTaskOutcomeKind, LoopxCreateTaskRequest, LoopxIntakeCandidate,
    LoopxIntakePreview, LoopxIssueKey, LoopxItemKind, LoopxModelCapability, LoopxPermissionScope,
    LoopxPhase, LoopxRemoteItemState, LoopxRepositoryKey, LoopxTaskState,
    LoopxWorkspaceDisposition, LoopxWorkspacePreview,
};

fn key(owner: &str, number: u64) -> LoopxIssueKey {
    LoopxIssueKey {
        repository: LoopxRepositoryKey {
            host: "github.com".to_string(),
            owner: owner.to_string(),
            repository: "repo".to_string(),
        },
        kind: LoopxItemKind::Issue,
        number,
    }
}

fn scopes() -> Vec<LoopxPermissionScope> {
    vec![
        LoopxPermissionScope::WorkspaceRead,
        LoopxPermissionScope::WorkspaceWrite,
        LoopxPermissionScope::GitLocal,
        LoopxPermissionScope::GithubRead,
        LoopxPermissionScope::AgentExecution,
    ]
}

fn stored_preview(items: &[LoopxIssueKey], expires_at: i64) -> LoopxIntakePreview {
    LoopxIntakePreview {
        fingerprint: "sha256:flow".to_string(),
        workspace: LoopxWorkspacePreview {
            disposition: LoopxWorkspaceDisposition::CloneRequired,
            path: None,
            repository_verified: true,
            detail: None,
        },
        candidates: items
            .iter()
            .map(|item| LoopxIntakeCandidate {
                title: format!("Issue {}", item.number),
                key: item.clone(),
                state: LoopxRemoteItemState::Open,
                ..LoopxIntakeCandidate::default()
            })
            .collect(),
        model: LoopxModelCapability {
            model_id: "auto".to_string(),
            available: true,
            supports_images: false,
            detail: None,
        },
        permission_scopes: scopes(),
        expires_at: Some(expires_at),
        ..LoopxIntakePreview::default()
    }
}

fn request(items: Vec<LoopxIssueKey>) -> LoopxCreateTaskRequest {
    LoopxCreateTaskRequest {
        client_request_id: "flow-1".to_string(),
        preview_fingerprint: "sha256:flow".to_string(),
        selected_items: items,
        model_id: "auto".to_string(),
        granted_scopes: scopes(),
        retry_terminal: false,
    }
}

#[test]
fn an_applied_creation_request_is_answered_again_unchanged() {
    let a = key("o", 2);
    let b = key("o", 1);
    let mut state = LoopxPersistedState::new(1);
    let mut previews = vec![stored_preview(&[a.clone(), b.clone()], 10_000)];
    let req = request(vec![a.clone(), b.clone()]);

    let (response, to_start) = state.create_tasks(&mut previews, &req, 500).unwrap();
    assert_eq!(response.outcomes.len(), 2);
    assert_eq!(response.outcomes[0].item, b);
    assert_eq!(response.outcomes[1].item, a);
    assert!(response
        .outcomes
        .iter()
        .all(|o| o.kind == LoopxCreateTaskOutcomeKind::Created));
    assert_eq!(state.tasks.len(), 2);
    assert_eq!(response.snapshot_revision, state.revision);
    assert_eq!(state.revision, 2);
    assert_eq!(to_start, vec![state.tasks[0].task_id.clone()]);
    assert!(state.has_processed_request("flow-1"));
    assert_eq!(previews.len(), 1);

    let before = state.clone();
    let (again, again_start) = state.create_tasks(&mut previews, &req, 600).unwrap();
    assert_eq!(again.snapshot_revision, before.revision);
    assert!(again_start.is_empty());
    assert_eq!(again.outcomes.len(), 2);
    assert!(again
        .outcomes
        .iter()
        .all(|o| o.kind == LoopxCreateTaskOutcomeKind::OpenedExisting));
    assert_eq!(again.outcomes[0].task_id, response.outcomes[0].task_id);
    assert_eq!(again.outcomes[1].task_id, response.outcomes[1].task_id);
    assert_eq!(again.outcomes[0].attempt, Some(1));
    assert_eq!(format!("{state:?}"), format!("{before:?}"));
}

#[test]
fn a_stale_preview_refuses_the_request_and_is_dropped() {
    let a = key("o", 1);
    let mut state = LoopxPersistedState::new(1);
    let mut previews = vec![stored_preview(&[a.clone()], 100)];
    let before = state.clone();
    assert_eq!(
        state.create_tasks(&mut previews, &request(vec![a]), 500),
        Err("Intake preview is missing or stale; resolve it again".to_string())
    );
    assert!(previews.is_empty());
    assert_eq!(format!("{state:?}"), format!("{before:?}"));
}

#[test]
fn first_checks_come_before_the_preview_lookup() {
    let a = key("o", 1);
    let mut state = LoopxPersistedState::new(1);
    state.suspended = true;
    let mut previews = vec![stored_preview(&[a.clone()], 100)];
    let before = state.clone();
    assert_eq!(
        state.create_tasks(&mut previews, &request(vec![a.clone()]), 500),
        Err("LoopX is stopped; resume the suite before creating tasks".to_string())
    );
    assert_eq!(previews.len(), 1);
    assert_eq!(format!("{state:?}"), format!("{before:?}"));
    state.suspended = false;
    assert_eq!(
        state.create_tasks(&mut previews, &request(Vec::new()), 500),
        Err("Select at least one issue or pull request".to_string())
    );
    assert_eq!(previews.len(), 1);
}

#[test]
fn an_item_missing_from_the_preview_creates_nothing() {
    let a = key("o", 1);
    let other = key("o", 9);
    let mut state = LoopxPersistedState::new(1);
    let mut previews = vec![stored_preview(&[a], 10_000)];
    let before = state.clone();
    assert_eq!(
        state.create_tasks(&mut previews, &request(vec![other]), 500),
        Err("Selected item was not present in the intake preview".to_string())
    );
    assert_eq!(format!("{state:?}"), format!("{before:?}"));
    assert!(!state.has_processed_request("flow-1"));
}

#[test]
fn tool_results_keep_only_status_facts() {
    let facts = ToolResultFacts {
        tool_id: "exec".to_string(),
        tool_name: "ExecCommand".to_string(),
        effective_tool_name: None,
        result_for_assistant: Some("AssertionError: validation failed".to_string()),
        is_error: false,
        result_members: vec![
            ("raw_only".to_string(), ToolResultValue::Text("PRIVATE_RAW_RESULT".to_string())),
            ("path".to_string(), ToolResultValue::Other),
            ("success".to_string(), ToolResultValue::Bool(false)),
            ("exit_code".to_string(), ToolResultValue::Number("1".to_string())),
        ],
    };
    let entry = tool_result_entry(&facts);
    assert_eq!(entry.tool_id, "exec");
    assert_eq!(entry.tool_name, "ExecCommand");
    assert_eq!(entry.result_for_assistant.as_deref(), Some("AssertionError: validation failed"));
    assert!(!entry.is_error);
    assert_eq!(
        entry.status,
        vec![
            ("exit_code".to_string(), ToolResultValue::Number("1".to_string())),
            ("success".to_string(), ToolResultValue::Bool(false)),
        ]
    );
}

#[test]
fn tool_results_prefer_the_effective_name_and_keep_the_first_member() {
    let facts = ToolResultFacts {
        tool_id: "read".to_string(),
        tool_name: "Tool".to_string(),
        effective_tool_name: Some("Read".to_string()),
        result_for_assistant: None,
        is_error: true,
        result_members: vec![
            ("file_path".to_string(), ToolResultValue::Text("a.rs".to_string())),
            ("file_path".to_string(), ToolResultValue::Text("b.rs".to_string())),
            ("total_lines".to_string(), ToolResultValue::Number("12".to_string())),
        ],
    };
    let entry = tool_result_entry(&facts);
    assert_eq!(entry.tool_name, "Read");
    assert_eq!(entry.result_for_assistant, None);
    assert!(entry.is_error);
    assert_eq!(
        entry.status,
        vec![
            ("file_path".to_string(), ToolResultValue::Text("a.rs".to_string())),
            ("total_lines".to_string(), ToolResultValue::Number("12".to_string())),
        ]
    );
}

#[test]
fn task_actions_leave_their_fixed_states() {
    assert_eq!(
        task_action_target(LoopxActionKind::Pause),
        Some((LoopxTaskState::Stopped, LoopxPhase::Finished))
    );
    assert_eq!(
        task_action_target(LoopxActionKind::Abort),
        Some((LoopxTaskState::Aborted, LoopxPhase::Finished))
    );
    assert_eq!(
        task_action_target(LoopxActionKind::Reject),
        Some((LoopxTaskState::Queued, LoopxPhase::Queued))
    );
    assert_eq!(
        task_action_target(LoopxActionKind::Archive),
        Some((LoopxTaskState::Archived, LoopxPhase::Finished))
    );
    assert_eq!(
        task_action_target(LoopxActionKind::Restore),
        Some((LoopxTaskState::RecoveryRequired, LoopxPhase::Recovering))
    );
    assert_eq!(task_action_target(LoopxActionKind::Resume), None);
    assert_eq!(
        task_action_cancellation(LoopxActionKind::Abort),
        Some(("Aborting the active LoopX task".to_string(), "abort-cli".to_string()))
    );
    assert_eq!(task_action_cancellation(LoopxActionKind::Archive), None);
}

#[test]
fn drive_steps_set_their_states() {
    assert_eq!(
        drive_step_target(LoopxDriveStep::Wait { delay_ms: 5 }),
        Some((LoopxTaskState::Queued, LoopxPhase::Queued))
    );
    assert_eq!(
        drive_step_target(LoopxDriveStep::CompleteGoal { archived: true }),
        Some((LoopxTaskState::Completed, LoopxPhase::Finished))
    );
    assert_eq!(drive_step_target(LoopxDriveStep::FailGoal), None);
    assert_eq!(drive_step_target(LoopxDriveStep::BuildTurn { replan: false }), None);
}

#[test]
fn drive_steps_have_their_follow_ups() {
    assert_eq!(
        drive_step_follow_up(LoopxDriveStep::Wait { delay_ms: 30 }),
        LoopxDriveFollowUp::YieldAndRequeue { delay_ms: 30 }
    );
    assert_eq!(
        drive_step_follow_up(LoopxDriveStep::CompleteGoal { archived: false }),
        LoopxDriveFollowUp::YieldLane
    );
    assert_eq!(drive_step_follow_up(LoopxDriveStep::FailGoal), LoopxDriveFollowUp::FailTask);
    assert_eq!(drive_step_follow_up(LoopxDriveStep::WaitingForUser), LoopxDriveFollowUp::WaitingFrontier);
    assert_eq!(drive_step_follow_up(LoopxDriveStep::AlreadyParked), LoopxDriveFollowUp::Idle);
    assert_eq!(drive_step_follow_up(LoopxDriveStep::StayInRecovery), LoopxDriveFollowUp::Idle);
    assert_eq!(drive_step_follow_up(LoopxDriveStep::ParkPlanExhausted), LoopxDriveFollowUp::ParkAndYield);
    assert_eq!(
        drive_step_follow_up(LoopxDriveStep::BuildTurn { replan: true }),
        LoopxDriveFollowUp::StartTurn
    );
}
