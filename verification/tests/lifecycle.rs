use loopx::host::{LOOPX_PLAN_EXHAUSTED_MESSAGE, LOOPX_PLAN_EXHAUSTED_REASON};
use loopx::lifecycle::{
    agent_start_request, apply_goal_projection_state, forget_agent_session_state,
    update_task_phase_state, fail_task_state, goal_projection_unchanged,
    is_reconcile_candidate, park_plan_exhausted_state, plan_drive_step, plan_settlement,
    settlement_event, settlement_follow_up, settlement_receipt_missing, transition_task_state,
    LoopxDriveStep, LoopxSettlementFollowUp, GOAL_RECONCILE_TTL_MS,
};
use loopx::ports::{
    LoopxAgentTurnStatus, LoopxCliBuildTurnResult, LoopxCliGoalSnapshot, LoopxCliRunDecision, LoopxCliSettlementStatus,
    LoopxCliUserGate,
};
use loopx::store::LoopxTaskRuntimeRecord;
use loopx::types::{
    LoopxCliGoalState, LoopxCurrentTodo, LoopxEventKind, LoopxPhase, LoopxTaskSnapshot,
    LoopxTaskState,
};

fn running_task() -> LoopxTaskSnapshot {
    LoopxTaskSnapshot {
        task_id: "task-1".to_string(),
        state: LoopxTaskState::Running,
        phase: LoopxPhase::AgentRunning,
        generation: 2,
        revision: 5,
        goal_id: Some("goal-1".to_string()),
        workspace_path: Some("/work/task-1".to_string()),
        ..LoopxTaskSnapshot::default()
    }
}

fn goal(decision: LoopxCliRunDecision) -> LoopxCliGoalSnapshot {
    LoopxCliGoalSnapshot {
        goal_id: "goal-1".to_string(),
        state: LoopxCliGoalState::Active,
        run_decision: decision,
        ..LoopxCliGoalSnapshot::default()
    }
}

fn todo(id: &str) -> LoopxCurrentTodo {
    LoopxCurrentTodo {
        todo_id: id.to_string(),
        ..LoopxCurrentTodo::default()
    }
}

#[test]
fn healthy_turn_without_durable_progress_gets_one_corrective_turn() {
    let plan = plan_settlement(
        LoopxAgentTurnStatus::Completed,
        LoopxCliSettlementStatus::NoDurableProgress,
        false,
        None,
    );
    assert!(plan.compensate_durable_writeback);
    assert_eq!(plan.final_state, LoopxTaskState::Queued);
    assert!(plan.keep_agent_session);
    let (kind, _, important) = settlement_event(&plan, LoopxCliSettlementStatus::NoDurableProgress);
    assert_eq!(kind, LoopxEventKind::StateChanged);
    assert!(important);

    let again = plan_settlement(
        LoopxAgentTurnStatus::Completed,
        LoopxCliSettlementStatus::NoDurableProgress,
        true,
        None,
    );
    assert!(!again.compensate_durable_writeback);
    assert_eq!(again.final_state, LoopxTaskState::RecoveryRequired);
    assert!(!again.keep_agent_session);
    assert_eq!(
        settlement_event(&again, LoopxCliSettlementStatus::NoDurableProgress).1,
        "LoopX turn requires recovery after settlement"
    );
}

#[test]
fn settlement_follows_the_post_settlement_goal() {
    let mut waiting = goal(LoopxCliRunDecision::WaitingForUser);
    waiting.pending_user_gate = Some(LoopxCliUserGate {
        gate_id: "gate-1".to_string(),
        message: "Approve".to_string(),
        action_kind: Some("approve_pr_read".to_string()),
    });
    let plan = plan_settlement(
        LoopxAgentTurnStatus::Completed,
        LoopxCliSettlementStatus::Settled,
        false,
        Some(&waiting),
    );
    assert_eq!(plan.final_state, LoopxTaskState::WaitingForUser);
    assert!(plan.keep_agent_session);
    assert_eq!(
        settlement_follow_up(LoopxAgentTurnStatus::Completed, plan.final_state, Some(&waiting), false),
        LoopxSettlementFollowUp::ProjectGate { auto_approve_read_only: true }
    );
    let bare = goal(LoopxCliRunDecision::WaitingForUser);
    assert_eq!(
        settlement_follow_up(LoopxAgentTurnStatus::Completed, LoopxTaskState::WaitingForUser, Some(&bare), false),
        LoopxSettlementFollowUp::ParkOwnerAction
    );
    assert_eq!(
        settlement_follow_up(LoopxAgentTurnStatus::Failed, LoopxTaskState::RecoveryRequired, None, true),
        LoopxSettlementFollowUp::ReportFailure { pause_repository: true }
    );
    assert_eq!(
        settlement_follow_up(LoopxAgentTurnStatus::Completed, LoopxTaskState::Queued, None, false),
        LoopxSettlementFollowUp::RecordAndContinue
    );

    let completed = plan_settlement(
        LoopxAgentTurnStatus::Completed,
        LoopxCliSettlementStatus::GoalCompleted,
        false,
        None,
    );
    assert_eq!(completed.final_state, LoopxTaskState::Completed);
    assert!(!completed.keep_agent_session);
    assert_eq!(
        settlement_event(&completed, LoopxCliSettlementStatus::GoalCompleted),
        (LoopxEventKind::SettlementRecorded, "LoopX goal completed", false)
    );
}

#[test]
fn a_missing_receipt_is_reported_only_for_completed_retry_turns_with_a_goal() {
    assert!(settlement_receipt_missing(
        LoopxAgentTurnStatus::Completed,
        LoopxCliSettlementStatus::RetryRequired,
        true
    ));
    assert!(!settlement_receipt_missing(
        LoopxAgentTurnStatus::Completed,
        LoopxCliSettlementStatus::RetryRequired,
        false
    ));
    assert!(!settlement_receipt_missing(
        LoopxAgentTurnStatus::Failed,
        LoopxCliSettlementStatus::RetryRequired,
        true
    ));
}

#[test]
fn drive_steps_follow_the_run_decision() {
    let task = running_task();
    let mut waiting = goal(LoopxCliRunDecision::Wait);
    waiting.scheduler_cadence = Some("monitor_wait".to_string());
    assert_eq!(plan_drive_step(&task, &waiting), LoopxDriveStep::Wait { delay_ms: 900_000 });
    let mut archived = goal(LoopxCliRunDecision::Wait);
    archived.state = LoopxCliGoalState::Archived;
    assert_eq!(plan_drive_step(&task, &archived), LoopxDriveStep::CompleteGoal { archived: true });
    assert_eq!(
        plan_drive_step(&task, &goal(LoopxCliRunDecision::Complete)),
        LoopxDriveStep::CompleteGoal { archived: false }
    );
    assert_eq!(plan_drive_step(&task, &goal(LoopxCliRunDecision::Failed)), LoopxDriveStep::FailGoal);

    let mut with_todo = goal(LoopxCliRunDecision::RunNow);
    with_todo.open_todo_count = 1;
    with_todo.selected_todo = Some(todo("todo-1"));
    assert_eq!(plan_drive_step(&task, &with_todo), LoopxDriveStep::BuildTurn { replan: false });

    let dry = goal(LoopxCliRunDecision::RunNow);
    assert_eq!(plan_drive_step(&task, &dry), LoopxDriveStep::ParkPlanExhausted);
    let mut replan = dry.clone();
    replan.pending_replan_obligation_id = Some("obligation-1".to_string());
    assert_eq!(plan_drive_step(&task, &replan), LoopxDriveStep::BuildTurn { replan: true });

    let mut parked = task.clone();
    park_plan_exhausted_state(&mut parked);
    assert_eq!(parked.state, LoopxTaskState::RecoveryRequired);
    assert_eq!(parked.recovery_reason.as_deref(), Some(LOOPX_PLAN_EXHAUSTED_REASON));
    assert_eq!(parked.error.as_deref(), Some(LOOPX_PLAN_EXHAUSTED_MESSAGE));
    assert_eq!(parked.revision, 6);
    assert_eq!(plan_drive_step(&parked, &dry), LoopxDriveStep::AlreadyParked);

    let mut gated = goal(LoopxCliRunDecision::RunNow);
    gated.waiting_user_todo_count = 1;
    assert_eq!(plan_drive_step(&task, &gated), LoopxDriveStep::WaitingForUser);
}

#[test]
fn transitions_apply_only_to_the_current_generation() {
    let mut task = running_task();
    task.pending_gate_id = Some("gate-1".to_string());
    assert!(!transition_task_state(&mut task, 1, LoopxTaskState::Queued, LoopxPhase::Queued));
    assert_eq!(task, running_task_with_gate());
    assert!(transition_task_state(&mut task, 2, LoopxTaskState::Queued, LoopxPhase::Queued));
    assert_eq!(task.state, LoopxTaskState::Queued);
    assert_eq!(task.pending_gate_id, None);
    assert_eq!(task.revision, 6);
}

fn running_task_with_gate() -> LoopxTaskSnapshot {
    LoopxTaskSnapshot {
        pending_gate_id: Some("gate-1".to_string()),
        ..running_task()
    }
}

#[test]
fn failures_park_prepared_tasks_in_recovery() {
    let mut prepared = running_task();
    fail_task_state(&mut prepared, "boom".to_string());
    assert_eq!(prepared.state, LoopxTaskState::RecoveryRequired);
    assert_eq!(prepared.phase, LoopxPhase::Recovering);
    assert_eq!(prepared.recovery_reason.as_deref(), Some("execution_failure"));
    assert_eq!(prepared.error.as_deref(), Some("boom"));

    let mut fresh = LoopxTaskSnapshot {
        task_id: "task-2".to_string(),
        ..LoopxTaskSnapshot::default()
    };
    fail_task_state(&mut fresh, "early".to_string());
    assert_eq!(fresh.state, LoopxTaskState::Failed);
    assert_eq!(fresh.phase, LoopxPhase::Finished);
}

#[test]
fn goal_projection_keeps_an_unanswered_local_gate() {
    let mut task = LoopxTaskSnapshot {
        state: LoopxTaskState::WaitingForUser,
        phase: LoopxPhase::WaitingForApproval,
        goal_state: Some(LoopxCliGoalState::WaitingForUser),
        pending_gate_id: Some("local-gate".to_string()),
        pending_gate_message: Some("Approve the publish".to_string()),
        ..running_task()
    };
    let mut runtime = LoopxTaskRuntimeRecord::default();
    let active = goal(LoopxCliRunDecision::RunNow);
    apply_goal_projection_state(&mut task, &mut runtime, 2, &active);
    assert_eq!(task.pending_gate_id.as_deref(), Some("local-gate"));
    assert_eq!(task.goal_state, Some(LoopxCliGoalState::Active));
    assert!(goal_projection_unchanged(&task, &active));
}

#[test]
fn reconciliation_candidates_respect_the_ttl() {
    let now = 10_000_000;
    let task = LoopxTaskSnapshot {
        state: LoopxTaskState::Queued,
        goal_state: Some(LoopxCliGoalState::Active),
        updated_at: now - 1_000,
        ..running_task()
    };
    let runtime = LoopxTaskRuntimeRecord {
        registry_path: "/work/task-1/.loopx/registry.json".to_string(),
        ..LoopxTaskRuntimeRecord::default()
    };
    assert!(!is_reconcile_candidate(&task, Some(&runtime), false, now));
    assert!(is_reconcile_candidate(&task, Some(&runtime), true, now));
    let stale = LoopxTaskSnapshot {
        updated_at: now - GOAL_RECONCILE_TTL_MS,
        ..task.clone()
    };
    assert!(is_reconcile_candidate(&stale, Some(&runtime), false, now));
    assert!(!is_reconcile_candidate(&stale, None, false, now));
    let running = LoopxTaskSnapshot {
        state: LoopxTaskState::Running,
        ..stale
    };
    assert!(!is_reconcile_candidate(&running, Some(&runtime), true, now));
}

#[test]
fn agent_start_request_carries_the_turn() {
    let mut task = running_task();
    task.generation = 3;
    task.model_id = None;
    let turn = LoopxCliBuildTurnResult {
        goal_id: "goal-1".to_string(),
        turn_id: "turn-7".to_string(),
        agent_instruction: "Fix the selected issue".to_string(),
        ..LoopxCliBuildTurnResult::default()
    };
    let runtime = LoopxTaskRuntimeRecord {
        session_id: Some("session-1".to_string()),
        ..LoopxTaskRuntimeRecord::default()
    };
    let request = agent_start_request(&task, &runtime, &turn, Some("Mind the flaky test"));
    assert_eq!(request.operation_id, "agent-task-1-3");
    assert_eq!(request.task_id, "task-1");
    assert_eq!(request.generation, 3);
    assert_eq!(request.worktree_path, "/work/task-1");
    assert_eq!(request.model_id, "auto");
    assert_eq!(request.reuse_session_id.as_deref(), Some("session-1"));
    assert_eq!(request.metadata.goal_id, "goal-1");
    assert_eq!(request.metadata.loopx_turn_id, "turn-7");
    assert!(request.instruction.starts_with("Fix the selected issue"));
    assert!(request.instruction.ends_with("Mind the flaky test"));
}

#[test]
fn phase_changes_and_session_forgetting_respect_the_generation() {
    let mut task = running_task();
    assert!(!update_task_phase_state(&mut task, 1, LoopxPhase::ValidatingProgress));
    assert_eq!(task, running_task());
    assert!(update_task_phase_state(&mut task, 2, LoopxPhase::ValidatingProgress));
    assert_eq!(task.phase, LoopxPhase::ValidatingProgress);
    assert_eq!(task.revision, 6);
    assert_eq!(task.state, LoopxTaskState::Running);

    let mut runtime = LoopxTaskRuntimeRecord {
        session_id: Some("session-1".to_string()),
        agent_turn_id: Some("turn-1".to_string()),
        ..LoopxTaskRuntimeRecord::default()
    };
    forget_agent_session_state(&task, &mut runtime, 1);
    assert_eq!(runtime.session_id.as_deref(), Some("session-1"));
    forget_agent_session_state(&task, &mut runtime, 2);
    assert_eq!(runtime.session_id, None);
    assert_eq!(runtime.agent_turn_id.as_deref(), Some("turn-1"));
}
