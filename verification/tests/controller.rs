use loopx::host::{
    bounded_agent_summary, compose_agent_turn_instruction, goal_id_for,
    inspects_goal_after_settlement, is_normal_process_lifecycle_message,
    is_repository_recovery_candidate, phase_after_settlement, preserve_unanswered_local_gate,
    run_now_is_frontier_contradiction, should_requeue_after_settlement,
    sticky_continue_after_settlement, task_has_bound_goal, task_state_after_settlement,
    todoless_run_now_frontier, wait_requeue_delay_ms, TodolessRunNowFrontier,
    MAX_AGENT_SUMMARY_CHARS, WAIT_RESCHEDULE_FALLBACK_MS,
};
use loopx::ports::{
    LoopxAgentTurnStatus, LoopxCliGoalSnapshot, LoopxCliRunDecision, LoopxCliSettlementStatus,
    LoopxCliUserGate,
};
use loopx::types::{
    LoopxCliGoalState, LoopxIssueKey, LoopxItemKind, LoopxPhase, LoopxRepositoryKey,
    LoopxTaskIdentity, LoopxTaskSnapshot, LoopxTaskState,
};

#[test]
fn agent_turn_instruction_always_carries_the_environment_boundary() {
    let composed = compose_agent_turn_instruction("turn body".to_string(), None, None, false);
    assert!(composed.starts_with("turn body"));
    assert!(composed.contains("[BitFun environment boundary]"));
    assert!(composed.contains("loopx/pyproject.toml"));
    assert!(!composed.contains("[BitFun host note]"));
}

#[test]
fn agent_turn_instruction_keeps_host_note_after_the_boundary() {
    let composed = compose_agent_turn_instruction(
        "turn body".to_string(),
        Some("corrective guidance"),
        None,
        false,
    );
    let boundary = composed
        .find("[BitFun environment boundary]")
        .expect("boundary note present");
    let host_note = composed
        .find("[BitFun host note]")
        .expect("host note present");
    assert!(boundary < host_note);
    assert!(composed.ends_with("corrective guidance"));
}

#[test]
fn fresh_session_turn_instruction_asks_for_a_one_time_reference_read() {
    let composed = compose_agent_turn_instruction(
        "turn body".to_string(),
        None,
        Some(r"C:\wt\.loopx\pinned-loopx-skill.md"),
        false,
    );
    assert!(composed.contains("[Pinned LoopX references - read exactly once]"));
    assert!(composed.contains("pinned-loopx-skill.md"));
    assert!(!composed.contains("pinned-loopx-reference.md"));
    assert!(composed.contains(".loopx/loopx-doc-registry.md"));
    assert!(composed.contains(".loopx/loopx-pr-program.md"));
    assert!(composed.contains(".loopx/loopx-pr-review.md"));
    assert!(composed.contains(".loopx/loopx-change-quality.md"));
    assert!(composed.contains("never resolve loopx skill names through your skill catalog"));
    assert_eq!(composed.matches("Read `").count(), 1);
    assert!(composed.contains("[BitFun host facts - closing ceremony]"));
    assert!(composed.contains("governed only by the pointer section above"));
}

#[test]
fn continued_session_turn_instruction_reuses_the_loaded_reference() {
    let composed = compose_agent_turn_instruction(
        "turn body".to_string(),
        None,
        Some(r"C:\wt\.loopx\pinned-loopx-skill.md"),
        true,
    );
    assert!(composed.contains("[Pinned LoopX references - already loaded]"));
    assert!(composed.contains("remain the authoritative"));
    assert!(composed.contains("sibling documents"));
    assert!(!composed.contains("read exactly once]"));
    assert_eq!(composed.matches("Read `").count(), 0);
    assert!(composed.contains("pinned-loopx-skill.md"));
}

#[test]
fn turn_instruction_blocks_loopx_skill_catalog_and_installer_drift() {
    let composed = compose_agent_turn_instruction("turn body".to_string(), None, None, false);
    assert!(composed.contains("[BitFun environment boundary]"));
    assert!(composed.contains("loopx-*` entries from your skill catalog"));
    assert!(composed.contains("~/.codex/skills"));
    assert!(composed
        .contains("Never install, update, self-update, or repair the LoopX installation"));
}

#[test]
fn run_now_with_a_selected_todo_is_not_a_frontier_contradiction() {
    assert!(!run_now_is_frontier_contradiction(0, 0, true));
    assert!(run_now_is_frontier_contradiction(0, 0, false));
    assert!(!run_now_is_frontier_contradiction(2, 0, false));
    assert!(!run_now_is_frontier_contradiction(0, 1, false));
}

#[test]
fn todoless_run_now_frontier_drives_a_replan_turn_only_with_an_obligation() {
    assert_eq!(
        todoless_run_now_frontier(Some("replan-d4066f99c1ea4b11")),
        TodolessRunNowFrontier::DriveReplanTurn,
    );
    assert_eq!(
        todoless_run_now_frontier(None),
        TodolessRunNowFrontier::Park,
    );
    assert_eq!(
        todoless_run_now_frontier(Some("")),
        TodolessRunNowFrontier::Park,
    );
    assert_eq!(
        todoless_run_now_frontier(Some("   ")),
        TodolessRunNowFrontier::Park,
    );
}

#[test]
fn retry_required_from_a_completed_turn_recovers_from_the_goal_projection() {
    assert!(inspects_goal_after_settlement(
        LoopxAgentTurnStatus::Completed,
        LoopxCliSettlementStatus::RetryRequired,
    ));
    assert!(!inspects_goal_after_settlement(
        LoopxAgentTurnStatus::Cancelled,
        LoopxCliSettlementStatus::RetryRequired,
    ));
    assert!(!inspects_goal_after_settlement(
        LoopxAgentTurnStatus::Interrupted,
        LoopxCliSettlementStatus::RetryRequired,
    ));
    assert!(inspects_goal_after_settlement(
        LoopxAgentTurnStatus::Cancelled,
        LoopxCliSettlementStatus::Settled,
    ));
    assert!(!inspects_goal_after_settlement(
        LoopxAgentTurnStatus::Failed,
        LoopxCliSettlementStatus::Settled,
    ));
    assert!(!inspects_goal_after_settlement(
        LoopxAgentTurnStatus::Completed,
        LoopxCliSettlementStatus::NoDurableProgress,
    ));
}

#[test]
fn goal_ids_are_per_item_and_attempt() {
    let identity = LoopxTaskIdentity {
        item: LoopxIssueKey {
            repository: LoopxRepositoryKey {
                host: "github.com".to_string(),
                owner: "owner".to_string(),
                repository: "repo".to_string(),
            },
            kind: LoopxItemKind::Issue,
            number: 42,
        },
        attempt: 2,
        ..Default::default()
    };
    assert_eq!(goal_id_for(&identity), "bfx-owner-repo-issue-42-2");
}

#[test]
fn repository_recovery_includes_all_resumable_tasks() {
    let repository = LoopxRepositoryKey {
        host: "github.com".to_string(),
        owner: "owner".to_string(),
        repository: "repo".to_string(),
    };
    let task = |state| LoopxTaskSnapshot {
        identity: LoopxTaskIdentity {
            item: LoopxIssueKey {
                repository: repository.clone(),
                kind: LoopxItemKind::Issue,
                number: 42,
            },
            ..LoopxTaskIdentity::default()
        },
        state,
        ..LoopxTaskSnapshot::default()
    };
    let repository_id = repository.canonical_id();

    assert!(is_repository_recovery_candidate(
        &task(LoopxTaskState::RecoveryRequired),
        &repository_id,
    ));
    assert!(is_repository_recovery_candidate(
        &task(LoopxTaskState::Failed),
        &repository_id,
    ));
    assert!(is_repository_recovery_candidate(
        &task(LoopxTaskState::Stopped),
        &repository_id,
    ));
}

#[test]
fn agent_summary_projection_is_bounded_on_character_boundaries() {
    let summary = "界".repeat(MAX_AGENT_SUMMARY_CHARS + 1);
    let bounded = bounded_agent_summary(&summary);

    assert!(bounded.ends_with("[Summary truncated by LoopX host]"));
    assert_eq!(bounded.matches('界').count(), MAX_AGENT_SUMMARY_CHARS);
}

#[test]
fn settled_task_does_not_self_requeue_after_yielding_repository() {
    assert!(!should_requeue_after_settlement(
        LoopxTaskState::Queued,
        true,
    ));
    assert!(should_requeue_after_settlement(
        LoopxTaskState::Queued,
        false,
    ));
    assert!(!should_requeue_after_settlement(
        LoopxTaskState::Completed,
        false,
    ));
}

#[test]
fn depth_first_sticky_continues_only_for_runnable_goals() {
    assert!(sticky_continue_after_settlement(
        LoopxTaskState::Queued,
        Some(LoopxCliRunDecision::RunNow),
    ));
    assert!(sticky_continue_after_settlement(
        LoopxTaskState::Queued,
        None
    ));
    assert!(!sticky_continue_after_settlement(
        LoopxTaskState::Queued,
        Some(LoopxCliRunDecision::Wait),
    ));
    assert!(!sticky_continue_after_settlement(
        LoopxTaskState::Queued,
        Some(LoopxCliRunDecision::WaitingForUser),
    ));
    assert!(!sticky_continue_after_settlement(
        LoopxTaskState::Completed,
        Some(LoopxCliRunDecision::RunNow),
    ));
    assert!(!sticky_continue_after_settlement(
        LoopxTaskState::RecoveryRequired,
        Some(LoopxCliRunDecision::RunNow),
    ));
    assert!(!sticky_continue_after_settlement(
        LoopxTaskState::WaitingForUser,
        None,
    ));
}

#[test]
fn wait_requeue_delay_follows_the_pinned_cadence_labels() {
    let snapshot = |cadence: Option<&str>| LoopxCliGoalSnapshot {
        scheduler_cadence: cadence.map(str::to_string),
        ..LoopxCliGoalSnapshot::default()
    };
    assert_eq!(
        wait_requeue_delay_ms(&snapshot(Some("active_work"))),
        3 * 60 * 1000
    );
    assert_eq!(
        wait_requeue_delay_ms(&snapshot(Some("monitor_wait"))),
        15 * 60 * 1000
    );
    assert_eq!(
        wait_requeue_delay_ms(&snapshot(Some("human_gate"))),
        30 * 60 * 1000
    );
    assert_eq!(
        wait_requeue_delay_ms(&snapshot(Some("quiet_wait"))),
        30 * 60 * 1000
    );
    assert_eq!(
        wait_requeue_delay_ms(&snapshot(Some("unchanged_noop"))),
        60 * 60 * 1000
    );
    assert_eq!(
        wait_requeue_delay_ms(&snapshot(Some("agent_scope_wait"))),
        10 * 60 * 1000
    );
    assert_eq!(
        wait_requeue_delay_ms(&snapshot(None)),
        WAIT_RESCHEDULE_FALLBACK_MS
    );
    assert_eq!(
        wait_requeue_delay_ms(&snapshot(Some("future_cadence"))),
        WAIT_RESCHEDULE_FALLBACK_MS
    );
}

#[test]
fn post_settlement_gate_is_projected_before_requeue() {
    let goal = LoopxCliGoalSnapshot {
        state: LoopxCliGoalState::WaitingForUser,
        run_decision: LoopxCliRunDecision::WaitingForUser,
        pending_user_gate: Some(LoopxCliUserGate {
            gate_id: "todo-owner".to_string(),
            message: "Owner decision required".to_string(),
            ..LoopxCliUserGate::default()
        }),
        ..LoopxCliGoalSnapshot::default()
    };

    let state = task_state_after_settlement(
        LoopxAgentTurnStatus::Completed,
        LoopxCliSettlementStatus::Settled,
        Some(&goal),
    );
    assert_eq!(state, LoopxTaskState::WaitingForUser);
    assert_eq!(
        phase_after_settlement(state),
        LoopxPhase::WaitingForApproval
    );
    assert!(!should_requeue_after_settlement(state, false));
}

#[test]
fn successful_process_lifecycle_messages_are_not_persisted_as_task_events() {
    assert!(is_normal_process_lifecycle_message(
        "Starting LoopX process"
    ));
    assert!(is_normal_process_lifecycle_message(
        "LoopX process exited successfully"
    ));
    assert!(!is_normal_process_lifecycle_message(
        "LoopX process exited with an error"
    ));
    assert!(!is_normal_process_lifecycle_message(
        "Building a fresh LoopX custom-runner turn contract"
    ));
}

#[test]
fn resumed_tasks_with_a_goal_skip_intake_and_goal_creation() {
    assert!(task_has_bound_goal(&LoopxTaskSnapshot {
        goal_id: Some("goal-42".to_string()),
        ..LoopxTaskSnapshot::default()
    }));
    assert!(!task_has_bound_goal(&LoopxTaskSnapshot::default()));
    assert!(!task_has_bound_goal(&LoopxTaskSnapshot {
        goal_id: Some("  ".to_string()),
        ..LoopxTaskSnapshot::default()
    }));
}

#[test]
fn reconciliation_cannot_clear_an_unanswered_local_gate() {
    let task = LoopxTaskSnapshot {
        state: LoopxTaskState::WaitingForUser,
        phase: LoopxPhase::WaitingForApproval,
        pending_gate_id: Some("todo_owner_review".to_string()),
        ..LoopxTaskSnapshot::default()
    };
    let active_goal = LoopxCliGoalSnapshot {
        state: LoopxCliGoalState::Active,
        ..LoopxCliGoalSnapshot::default()
    };
    assert!(preserve_unanswered_local_gate(&task, &active_goal));

    let answered_task = LoopxTaskSnapshot {
        state: LoopxTaskState::Queued,
        ..task.clone()
    };
    assert!(!preserve_unanswered_local_gate(
        &answered_task,
        &active_goal,
    ));

    let completed_goal = LoopxCliGoalSnapshot {
        state: LoopxCliGoalState::Completed,
        ..active_goal
    };
    assert!(!preserve_unanswered_local_gate(&task, &completed_goal));
}
