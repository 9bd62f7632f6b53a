use loopx::drive::{
    build_turn_request, drive_step_message, inspect_goal_request, turn_build_conflict_message,
    check_prepared_workspace, create_goal_request, drive_proceeds, needs_goal_reconnect,
    plan_item_request, record_agent_summary_state, repository_busy_message,
    settle_turn_request, settlement_check_message, turn_output_response, turn_output_step,
    workspace_prepare_request, LoopxTurnOutputStep,
};
use loopx::lifecycle::LoopxDriveStep;
use loopx::ports::{
    LoopxCliError, LoopxCliErrorKind,
    LoopxAgentOutputSinceResult, LoopxAgentTurnStatus, LoopxCliIntakePlan, LoopxHostPortError,
    LoopxHostPortErrorKind, LoopxWorkspacePrepareResult,
};
use loopx::store::LoopxTaskRuntimeRecord;
use loopx::types::{
    LoopxIssueKey, LoopxItemKind, LoopxPermissionScope, LoopxPhase, LoopxRepositoryKey,
    LoopxTaskIdentity, LoopxTaskSnapshot, LoopxTaskState, LoopxTurnOutputSinceRequest,
    LoopxTurnOutputStatus,
};

fn task() -> LoopxTaskSnapshot {
    LoopxTaskSnapshot {
        task_id: "task-1".to_string(),
        generation: 2,
        revision: 5,
        identity: LoopxTaskIdentity {
            item: LoopxIssueKey {
                repository: LoopxRepositoryKey {
                    host: "github.com".to_string(),
                    owner: "owner".to_string(),
                    repository: "repo".to_string(),
                },
                kind: LoopxItemKind::Issue,
                number: 42,
            },
            attempt: 1,
            title: "Fix it".to_string(),
            labels: vec!["bug".to_string()],
            ..LoopxTaskIdentity::default()
        },
        granted_scopes: vec![LoopxPermissionScope::WorkspaceRead],
        ..LoopxTaskSnapshot::default()
    }
}

#[test]
fn drives_run_only_for_waiting_tasks_of_a_running_suite() {
    assert!(drive_proceeds(false, LoopxTaskState::Queued));
    assert!(drive_proceeds(false, LoopxTaskState::Preparing));
    assert!(!drive_proceeds(true, LoopxTaskState::Queued));
    assert!(!drive_proceeds(false, LoopxTaskState::Running));
    assert_eq!(repository_busy_message(), "Another task for this repository is running");
}

#[test]
fn missing_workspaces_reconnect_bound_goals() {
    let mut t = task();
    assert!(!needs_goal_reconnect(&t, false));
    t.goal_id = Some("goal".to_string());
    t.workspace_path = Some("/wt".to_string());
    assert!(needs_goal_reconnect(&t, false));
    assert!(!needs_goal_reconnect(&t, true));
}

#[test]
fn preparation_requests_name_the_task() {
    let t = task();
    let prepare = workspace_prepare_request(&t);
    assert_eq!(prepare.operation_id, "workspace-task-1-2");
    assert_eq!(prepare.item, t.identity.item);
    let verified = LoopxWorkspacePrepareResult {
        repository_verified: true,
        ..LoopxWorkspacePrepareResult::default()
    };
    assert_eq!(check_prepared_workspace(&Ok(verified)), Ok(()));
    assert_eq!(
        check_prepared_workspace(&Ok(LoopxWorkspacePrepareResult::default())),
        Err("Prepared worktree does not match the requested repository".to_string())
    );
    let error = LoopxHostPortError {
        kind: LoopxHostPortErrorKind::Timeout,
        message: "slow".to_string(),
        ..LoopxHostPortError::default()
    };
    assert_eq!(check_prepared_workspace(&Err(error)), Err("Timeout: slow".to_string()));

    let runtime = LoopxTaskRuntimeRecord::default();
    let plan = plan_item_request(&t, &runtime, &Vec::new());
    assert_eq!(plan.title, "Fix it");
    assert_eq!(plan.labels, vec!["bug".to_string()]);
    let goal = create_goal_request(&t, &runtime, &Vec::new(), LoopxCliIntakePlan::default());
    assert_eq!(goal.goal_id, "bfx-owner-repo-issue-42");
    assert_eq!(goal.agent_id, "bitfun-agent");
    assert_eq!(goal.granted_scopes, vec![LoopxPermissionScope::WorkspaceRead]);
}

#[test]
fn settlement_requests_carry_the_turn_facts() {
    let t = task();
    let runtime = LoopxTaskRuntimeRecord {
        loopx_turn_id: Some("turn-7".to_string()),
        settlement_token: Some("token".to_string()),
        ..LoopxTaskRuntimeRecord::default()
    };
    let request = settle_turn_request(&t, &runtime, &Vec::new(), LoopxAgentTurnStatus::Failed);
    assert_eq!(request.goal_id, "");
    assert_eq!(request.turn_id, "turn-7");
    assert_eq!(request.settlement_token, "token");
    assert_eq!(request.expected_durable_revision, "");
    assert_eq!(request.agent_status, LoopxAgentTurnStatus::Failed);
    assert_eq!(
        settlement_check_message(),
        "Agent turn ended; verifying LoopX-owned durable settlement"
    );
}

#[test]
fn final_responses_are_recorded_trimmed_and_parsed() {
    let mut t = task();
    record_agent_summary_state(&mut t, 2, Some("   "), 10);
    assert_eq!(t.revision, 5);
    record_agent_summary_state(&mut t, 1, Some("done"), 10);
    assert_eq!(t.revision, 5);
    let summary = "  Done.\n\n```loopx_summary_v1\n{\"issue_verdict\":\"needs_fix\"}\n```  ";
    record_agent_summary_state(&mut t, 2, Some(summary), 10);
    assert_eq!(t.revision, 6);
    assert_eq!(t.last_agent_summary.as_deref(), Some(summary.trim()));
    assert_eq!(t.last_agent_summary_at, Some(10));
    assert_eq!(
        t.structured_summary.as_deref(),
        Some("{\"issue_verdict\":\"needs_fix\"}")
    );
}

#[test]
fn turn_output_requires_a_running_turn() {
    let request = LoopxTurnOutputSinceRequest {
        task_id: "task-1".to_string(),
        ..LoopxTurnOutputSinceRequest::default()
    };
    let runtime = LoopxTaskRuntimeRecord::default();
    match turn_output_step(None, &runtime, &request) {
        LoopxTurnOutputStep::Respond(r) => {
            assert_eq!(r.status, LoopxTurnOutputStatus::TaskNotFound);
            assert_eq!(r.message.as_deref(), Some("LoopX task was not found"));
        }
        other => panic!("unexpected {other:?}"),
    }
    let mut t = task();
    match turn_output_step(Some(&t), &runtime, &request) {
        LoopxTurnOutputStep::Respond(r) => assert_eq!(r.status, LoopxTurnOutputStatus::NotRunning),
        other => panic!("unexpected {other:?}"),
    }
    t.state = LoopxTaskState::Running;
    t.phase = LoopxPhase::AgentRunning;
    match turn_output_step(Some(&t), &runtime, &request) {
        LoopxTurnOutputStep::Respond(r) => {
            assert_eq!(r.status, LoopxTurnOutputStatus::OutputUnavailable);
            assert_eq!(r.message.as_deref(), Some("LoopX Agent session output is unavailable"));
        }
        other => panic!("unexpected {other:?}"),
    }
    let mut runtime = LoopxTaskRuntimeRecord {
        session_id: Some("session".to_string()),
        ..LoopxTaskRuntimeRecord::default()
    };
    match turn_output_step(Some(&t), &runtime, &request) {
        LoopxTurnOutputStep::Respond(r) => {
            assert_eq!(r.message.as_deref(), Some("LoopX Agent turn output is unavailable"))
        }
        other => panic!("unexpected {other:?}"),
    }
    runtime.agent_turn_id = Some("agent-turn".to_string());
    let stale = LoopxTurnOutputSinceRequest {
        turn_id: Some("older".to_string()),
        ..request.clone()
    };
    match turn_output_step(Some(&t), &runtime, &stale) {
        LoopxTurnOutputStep::Respond(r) => {
            assert_eq!(r.status, LoopxTurnOutputStatus::StaleTurn);
            assert_eq!(r.turn_id.as_deref(), Some("agent-turn"));
        }
        other => panic!("unexpected {other:?}"),
    }
    match turn_output_step(Some(&t), &runtime, &request) {
        LoopxTurnOutputStep::Fetch { session_id, turn_id } => {
            assert_eq!(session_id, "session");
            assert_eq!(turn_id, "agent-turn");
        }
        other => panic!("unexpected {other:?}"),
    }

    let page = LoopxAgentOutputSinceResult {
        stream_id: Some("s".to_string()),
        next_cursor: 4,
        has_more: true,
        ..LoopxAgentOutputSinceResult::default()
    };
    let response = turn_output_response("task-1".to_string(), "agent-turn".to_string(), Ok(page));
    assert_eq!(response.status, LoopxTurnOutputStatus::Current);
    assert_eq!(response.next_cursor, 4);
    let failed = turn_output_response(
        "task-1".to_string(),
        "agent-turn".to_string(),
        Err(LoopxHostPortError {
            message: "gone".to_string(),
            ..LoopxHostPortError::default()
        }),
    );
    assert_eq!(failed.status, LoopxTurnOutputStatus::OutputUnavailable);
    assert_eq!(failed.message.as_deref(), Some("Backend: gone"));
}

#[test]
fn turn_requests_and_step_messages() {
    let mut t = task();
    t.goal_id = Some("goal-1".to_string());
    t.agent_id = Some("agent-x".to_string());
    let runtime = LoopxTaskRuntimeRecord::default();
    let inspect = inspect_goal_request(&t, &runtime, &Vec::new());
    assert_eq!(inspect.goal_id, "goal-1");
    assert_eq!(inspect.agent_id, "agent-x");
    let build = build_turn_request(&t, &runtime, &Vec::new(), "rev-3".to_string());
    assert_eq!(build.expected_durable_revision, "rev-3");

    let conflict = LoopxCliError {
        kind: LoopxCliErrorKind::Conflict,
        message: "registry sync".to_string(),
        retryable: true,
        ..LoopxCliError::default()
    };
    assert_eq!(
        turn_build_conflict_message(&conflict).as_deref(),
        Some("LoopX durable state changed while building the turn (registry sync); requeueing with backoff")
    );
    let fatal = LoopxCliError {
        retryable: false,
        ..conflict
    };
    assert_eq!(turn_build_conflict_message(&fatal), None);

    assert_eq!(
        drive_step_message(LoopxDriveStep::Wait { delay_ms: 5 }).as_deref(),
        Some("LoopX is waiting before the next bounded turn")
    );
    assert_eq!(
        drive_step_message(LoopxDriveStep::CompleteGoal { archived: true }).as_deref(),
        Some("LoopX Goal was archived")
    );
    assert_eq!(
        drive_step_message(LoopxDriveStep::CompleteGoal { archived: false }).as_deref(),
        Some("LoopX goal completed")
    );
    assert_eq!(
        drive_step_message(LoopxDriveStep::FailGoal).as_deref(),
        Some("LoopX reported a failed goal")
    );
    assert_eq!(drive_step_message(LoopxDriveStep::WaitingForUser), None);
}

#[test]
fn a_missing_quota_receipt_is_reported_with_the_projected_state() {
    assert_eq!(
        loopx::drive::receipt_missing_message("turn-3", LoopxTaskState::WaitingForUser),
        "LoopX settlement for turn turn-3 reported RetryRequired: the durable writeback validated but the quota spend receipt is missing; the task continues from the authoritative Goal projection (WaitingForUser). The receipt is not retried or fabricated by the host."
    );
    assert_eq!(
        loopx::gates::read_only_approval_after_settlement_event("read"),
        "Read-only user gate auto-approved by BitFun after settlement: read"
    );
}
