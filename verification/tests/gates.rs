use loopx::gates::{
    answer_gate_request, auto_answer_request, concurrent_gate_shown, goal_context,
    merge_gate_auto_rejects, merge_rejection_event, merge_rejection_note, owner_action_message,
    park_for_owner_action_state, read_only_approval_event, read_only_approval_note,
    record_gate_answer_state, show_concurrent_gate_state, unapplied_answer_response,
    waiting_route, LoopxWaitingRoute,
};
use loopx::host::reuse_merge_pr_label;
use loopx::ports::{LoopxCliGateDecision, LoopxCliGoalSnapshot, LoopxCliUserGate};
use loopx::store::LoopxTaskRuntimeRecord;
use loopx::types::{
    LoopxActionKind, LoopxActionRequest, LoopxActionStatus, LoopxPhase, LoopxRepositoryKey,
    LoopxTaskSnapshot, LoopxTaskState,
};

fn task() -> LoopxTaskSnapshot {
    LoopxTaskSnapshot {
        task_id: "task-1".to_string(),
        generation: 3,
        revision: 7,
        goal_id: Some("goal-1".to_string()),
        workspace_path: Some("/wt/task-1".to_string()),
        deadline_at: Some(99),
        ..LoopxTaskSnapshot::default()
    }
}

fn runtime() -> LoopxTaskRuntimeRecord {
    LoopxTaskRuntimeRecord {
        operation_id: "op-1".to_string(),
        registry_path: "/wt/task-1/.loopx/registry.json".to_string(),
        ..LoopxTaskRuntimeRecord::default()
    }
}

fn gate(kind: Option<&str>, message: &str) -> LoopxCliUserGate {
    LoopxCliUserGate {
        gate_id: "gate-1".to_string(),
        message: message.to_string(),
        action_kind: kind.map(str::to_string),
    }
}

#[test]
fn goal_context_carries_the_task_and_runtime() {
    let caps = vec!["exec".to_string()];
    let context = goal_context(&task(), &runtime(), &caps);
    assert_eq!(context.call.operation_id, "op-1");
    assert_eq!(context.call.deadline_at, Some(99));
    assert_eq!(context.task_id, "task-1");
    assert_eq!(context.generation, 3);
    assert_eq!(context.worktree_path, "/wt/task-1");
    assert_eq!(context.registry_path, "/wt/task-1/.loopx/registry.json");
    assert_eq!(context.available_capabilities, caps);
}

#[test]
fn owner_answers_need_a_workspace_and_a_gate() {
    let caps = Vec::new();
    let mut request = LoopxActionRequest {
        task_id: Some("task-1".to_string()),
        action: LoopxActionKind::Reject,
        gate_id: Some("gate-1".to_string()),
        note: Some("not now".to_string()),
        ..LoopxActionRequest::default()
    };
    let missing = answer_gate_request(&task(), &runtime(), &caps, &request, false).unwrap_err();
    assert!(missing.starts_with("LoopX workspace is missing for this \
        task"));
    let answer = answer_gate_request(&task(), &runtime(), &caps, &request, true).unwrap();
    assert_eq!(answer.goal_id, "goal-1");
    assert_eq!(answer.agent_id, "bitfun-agent");
    assert_eq!(answer.gate_id, "gate-1");
    assert_eq!(answer.decision, LoopxCliGateDecision::Reject);
    assert_eq!(answer.note.as_deref(), Some("not now"));
    request.gate_id = None;
    assert_eq!(
        answer_gate_request(&task(), &runtime(), &caps, &request, true),
        Err("gateId is required".to_string())
    );

    let auto = auto_answer_request(
        &task(),
        &runtime(),
        &caps,
        &gate(None, "m"),
        LoopxCliGateDecision::Approve,
        read_only_approval_note(),
    );
    assert_eq!(
        auto.note.as_deref(),
        Some("Auto-approved by BitFun: read-only public issue metadata access.")
    );
    let rejected = unapplied_answer_response(&task());
    assert_eq!(rejected.status, LoopxActionStatus::Rejected);
    assert_eq!(
        rejected.message.as_deref(),
        Some("LoopX did not apply the \
        gate decision")
    );
}

#[test]
fn answered_gates_update_the_current_generation_only() {
    let mut t = task();
    t.pending_gate_id = Some("gate-1".to_string());
    let mut r = runtime();
    record_gate_answer_state(&mut t, &mut r, 2, "rev-9".to_string(), true);
    assert_eq!(t.revision, 7);
    assert_eq!(r.expected_durable_revision, None);
    record_gate_answer_state(&mut t, &mut r, 3, "rev-9".to_string(), false);
    assert_eq!(t.revision, 8);
    assert_eq!(t.pending_gate_id.as_deref(), Some("gate-1"));
    assert_eq!(r.expected_durable_revision.as_deref(), Some("rev-9"));
    record_gate_answer_state(&mut t, &mut r, 3, "rev-10".to_string(), true);
    assert_eq!(t.pending_gate_id, None);
}

#[test]
fn waiting_goals_are_routed_by_their_gate() {
    let waiting = |g: Option<LoopxCliUserGate>| LoopxCliGoalSnapshot {
        pending_user_gate: g,
        ..LoopxCliGoalSnapshot::default()
    };
    assert_eq!(waiting_route(&waiting(None), false), LoopxWaitingRoute::ParkForOwnerAction);
    let read_only = waiting(Some(gate(Some("approve_github_issue_body_or_comment_read"), "read")));
    assert_eq!(waiting_route(&read_only, false), LoopxWaitingRoute::AutoApprove);
    assert_eq!(waiting_route(&read_only, true), LoopxWaitingRoute::Surface);
    let publish = waiting(Some(gate(Some("approve_publish"), "Publish the branch")));
    assert_eq!(waiting_route(&publish, false), LoopxWaitingRoute::Surface);
    assert!(merge_gate_auto_rejects(Some(false)));
    assert!(!merge_gate_auto_rejects(Some(true)));
    assert!(!merge_gate_auto_rejects(None));
}

#[test]
fn automatic_answers_explain_themselves() {
    assert_eq!(
        read_only_approval_event("read the issue"),
        "Read-only user gate auto-approved by BitFun: read the issue"
    );
    let repository = LoopxRepositoryKey {
        host: "github.com".to_string(),
        owner: "owner".to_string(),
        repository: "repo".to_string(),
    };
    assert_eq!(
        merge_rejection_note(&repository),
        "Auto-rejected by BitFun: the authenticated GitHub identity has no merge authority for owner/repo; the agent must propose an alternative route (track the upstream PR, or an independent patch)."
    );
    let label = reuse_merge_pr_label("Merge the existing PR #12 now");
    assert_eq!(
        merge_rejection_event(&repository, &label),
        format!("Merge gate auto-rejected: no merge authority for owner/repo ({label}); the agent will need an alternative route")
    );
}

#[test]
fn owner_actions_park_the_task_with_a_message() {
    let with_summary = owner_action_message(Some("review PR #4"));
    assert!(with_summary.starts_with(
        "LoopX is waiting for an owner action outside this host: review PR #4. Finish that action"
    ));
    let without = owner_action_message(None);
    assert!(without.starts_with("LoopX is waiting for an owner action outside this host. Finish"));

    let mut t = task();
    t.pending_gate_id = Some("old".to_string());
    park_for_owner_action_state(&mut t, 3, with_summary.clone());
    assert_eq!(t.state, LoopxTaskState::WaitingForUser);
    assert_eq!(t.phase, LoopxPhase::WaitingForApproval);
    assert_eq!(t.pending_gate_id, None);
    assert_eq!(t.pending_gate_message, Some(with_summary));
    assert_eq!(t.revision, 8);
}

#[test]
fn concurrent_gates_are_shown_once() {
    let mut t = task();
    assert!(concurrent_gate_shown(&t, None));
    let g = gate(Some("approve_publish"), "Publish?");
    assert!(!concurrent_gate_shown(&t, Some(&g)));
    show_concurrent_gate_state(&mut t, 3, Some(&g));
    assert!(concurrent_gate_shown(&t, Some(&g)));
    assert_eq!(t.revision, 8);
    show_concurrent_gate_state(&mut t, 3, None);
    assert!(concurrent_gate_shown(&t, None));
    assert_eq!(t.revision, 9);
}
