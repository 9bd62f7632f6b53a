use loopx::fingerprint::build_intake_fingerprint;
use loopx::intake::{parse_loopx_intake, LoopxIntakeParseErrorKind};
use loopx::policy::{
    decide_action_status, decide_events_page_status, decide_task_dedup, decide_task_restart,
    decide_task_transition, derive_environment_status, intake_scope_is_pregrantable,
    project_host_task_from_goal, task_state_after_restart, LoopxDedupDecision,
    LoopxRestartDecision, LoopxTransitionDecision,
};
use loopx::summary::{
    decide_repository_recovery_candidate, is_loopx_monitor_action, parse_structured_summary,
    task_summary_resolves_upstream,
};
use loopx::types::{
    LoopxActionStatus, LoopxCliGoalState, LoopxCoreEnvironmentFacts, LoopxEnvironmentFact,
    LoopxEnvironmentFactStatus, LoopxEnvironmentStatus, LoopxEventsPageStatus, LoopxExistingTask,
    LoopxIntakeCandidate, LoopxIntakeTarget, LoopxIssueKey, LoopxItemKind,
    LoopxOptionalEnvironmentFacts, LoopxPermissionScope, LoopxPhase, LoopxRemoteItemState,
    LoopxRepositoryKey, LoopxTaskIdentity, LoopxTaskSnapshot, LoopxTaskState,
};

fn issue(owner: &str, repository: &str, number: u64) -> LoopxIssueKey {
    LoopxIssueKey {
        repository: LoopxRepositoryKey {
            host: "github.com".to_string(),
            owner: owner.to_ascii_lowercase(),
            repository: repository.to_ascii_lowercase(),
        },
        kind: LoopxItemKind::Issue,
        number,
    }
}

fn existing(
    task_id: &str,
    key: LoopxIssueKey,
    attempt: u32,
    state: LoopxTaskState,
) -> LoopxExistingTask {
    LoopxExistingTask {
        task_id: task_id.to_string(),
        identity: LoopxTaskIdentity {
            item: key,
            attempt,
            ..Default::default()
        },
        state,
    }
}

#[test]
fn github_url_matrix_accepts_only_supported_intake_targets() {
    let cases = [
        (
            "https://github.com/OpenAI/Codex/issues/123?utm_source=test#issuecomment-1",
            "github.com/openai/codex/issues/123",
        ),
        (
            "https://www.github.com/OpenAI/Codex/pull/456/",
            "github.com/openai/codex/pull/456",
        ),
        ("https://github.com/OpenAI/Codex", "github.com/openai/codex"),
        (
            "https://github.com/OpenAI/Codex/issues?q=is%3Aopen",
            "github.com/openai/codex",
        ),
        ("git@github.com:OpenAI/Codex.git", "github.com/openai/codex"),
        ("OpenAI/Codex", "github.com/openai/codex"),
    ];

    for (input, expected) in cases {
        let parsed = parse_loopx_intake(input)
            .unwrap_or_else(|error| panic!("{input}: {}", error.to_string()));
        let actual = match parsed {
            LoopxIntakeTarget::Repository { repository } => repository.canonical_id(),
            LoopxIntakeTarget::Item { item } => item.canonical_id(),
        };
        assert_eq!(actual, expected, "{input}");
    }

    let unsupported = parse_loopx_intake("https://gitlab.com/openai/codex/issues/1").unwrap_err();
    assert_eq!(unsupported.kind, LoopxIntakeParseErrorKind::UnsupportedHost);
    let unsupported_path =
        parse_loopx_intake("https://github.com/openai/codex/actions").unwrap_err();
    assert_eq!(
        unsupported_path.kind,
        LoopxIntakeParseErrorKind::UnsupportedPath
    );
    let zero = parse_loopx_intake("https://github.com/openai/codex/issues/0").unwrap_err();
    assert_eq!(zero.kind, LoopxIntakeParseErrorKind::InvalidItemNumber);
}

#[test]
fn canonical_item_identity_collapses_case_and_url_noise() {
    let first = parse_loopx_intake("https://github.com/OpenAI/Codex/issues/42").unwrap();
    let second = parse_loopx_intake("http://github.com/openai/codex/issues/42?x=1").unwrap();
    assert_eq!(first, second);

    let LoopxIntakeTarget::Item { item } = first else {
        panic!("expected item target");
    };
    assert_eq!(item.canonical_id(), "github.com/openai/codex/issues/42");
    assert_eq!(
        item.canonical_url(),
        "https://github.com/openai/codex/issues/42"
    );

    let pr = parse_loopx_intake("https://github.com/openai/codex/pull/42").unwrap();
    assert_ne!(LoopxIntakeTarget::Item { item }, pr);
}

#[test]
fn nonterminal_duplicate_opens_the_existing_task() {
    let key = issue("openai", "codex", 7);
    let tasks = vec![existing(
        "task-running",
        key.clone(),
        1,
        LoopxTaskState::Running,
    )];

    assert_eq!(
        decide_task_dedup(&key, LoopxRemoteItemState::Open, &tasks, false),
        LoopxDedupDecision::OpenExisting {
            task_id: "task-running".to_string()
        }
    );
}

#[test]
fn terminal_duplicate_requires_an_explicit_new_attempt() {
    let key = issue("openai", "codex", 8);
    let tasks = vec![
        existing("attempt-1", key.clone(), 1, LoopxTaskState::Failed),
        existing("attempt-2", key.clone(), 2, LoopxTaskState::Completed),
    ];

    assert_eq!(
        decide_task_dedup(&key, LoopxRemoteItemState::Open, &tasks, false),
        LoopxDedupDecision::RequireExplicitRetry {
            previous_task_id: "attempt-2".to_string(),
            next_attempt: 3,
        }
    );
    assert_eq!(
        decide_task_dedup(&key, LoopxRemoteItemState::Open, &tasks, true),
        LoopxDedupDecision::CreateAttempt { attempt: 3 }
    );
}

#[test]
fn resolved_remote_item_is_a_successful_noop() {
    let key = issue("openai", "codex", 9);
    assert_eq!(
        decide_task_dedup(&key, LoopxRemoteItemState::Closed, &[], false),
        LoopxDedupDecision::ClosedNoop
    );

    let mut pr = key;
    pr.kind = LoopxItemKind::PullRequest;
    assert_eq!(
        decide_task_dedup(&pr, LoopxRemoteItemState::Merged, &[], false),
        LoopxDedupDecision::ClosedNoop
    );
}

#[test]
fn restart_requeues_safe_pending_work_and_recovers_inflight_work() {
    for state in [LoopxTaskState::Preparing, LoopxTaskState::RetryWait] {
        assert_eq!(
            decide_task_restart(state),
            LoopxRestartDecision::Preserve {
                state: LoopxTaskState::Queued
            }
        );
        assert_eq!(task_state_after_restart(state), LoopxTaskState::Queued);
    }

    for state in [LoopxTaskState::Running, LoopxTaskState::Cancelling] {
        assert_eq!(
            decide_task_restart(state),
            LoopxRestartDecision::RequireRecovery
        );
        assert_eq!(
            task_state_after_restart(state),
            LoopxTaskState::RecoveryRequired
        );
    }

    for state in [
        LoopxTaskState::Queued,
        LoopxTaskState::WaitingForUser,
        LoopxTaskState::RecoveryRequired,
        LoopxTaskState::Stopped,
        LoopxTaskState::Completed,
        LoopxTaskState::Failed,
        LoopxTaskState::Archived,
    ] {
        assert_eq!(
            decide_task_restart(state),
            LoopxRestartDecision::Preserve { state }
        );
        assert_eq!(task_state_after_restart(state), state);
    }
}

#[test]
fn authoritative_goal_projection_preserves_explicit_host_stops() {
    let stopped = project_host_task_from_goal(
        LoopxTaskState::Stopped,
        LoopxPhase::Finished,
        LoopxCliGoalState::Completed,
    );
    assert_eq!(stopped.state, LoopxTaskState::Stopped);

    let completed = project_host_task_from_goal(
        LoopxTaskState::RecoveryRequired,
        LoopxPhase::Recovering,
        LoopxCliGoalState::Completed,
    );
    assert_eq!(completed.state, LoopxTaskState::Completed);
    assert_eq!(completed.phase, LoopxPhase::Finished);

    let reopened = project_host_task_from_goal(
        LoopxTaskState::Completed,
        LoopxPhase::Finished,
        LoopxCliGoalState::Active,
    );
    assert_eq!(reopened.state, LoopxTaskState::RecoveryRequired);
    assert_eq!(reopened.phase, LoopxPhase::Recovering);

    let pending_approval = project_host_task_from_goal(
        LoopxTaskState::WaitingForUser,
        LoopxPhase::WaitingForApproval,
        LoopxCliGoalState::Active,
    );
    assert_eq!(pending_approval.state, LoopxTaskState::WaitingForUser);
    assert_eq!(pending_approval.phase, LoopxPhase::WaitingForApproval);
}

#[test]
fn transition_policy_separates_turn_completion_from_task_completion() {
    assert_eq!(
        decide_task_transition(LoopxTaskState::Running, LoopxTaskState::Queued),
        LoopxTransitionDecision::Allowed {
            next: LoopxTaskState::Queued
        }
    );
    assert_eq!(
        decide_task_transition(LoopxTaskState::Running, LoopxTaskState::Completed),
        LoopxTransitionDecision::Allowed {
            next: LoopxTaskState::Completed
        }
    );
    assert_eq!(
        decide_task_transition(LoopxTaskState::Completed, LoopxTaskState::Running),
        LoopxTransitionDecision::Rejected
    );
}

#[test]
fn intake_fingerprint_is_order_independent_but_state_sensitive() {
    let target = parse_loopx_intake("https://github.com/openai/codex/issues").unwrap();
    let candidate = |number, state| LoopxIntakeCandidate {
        key: issue("openai", "codex", number),
        url: format!("https://github.com/openai/codex/issues/{number}"),
        title: format!("Issue {number}"),
        state,
        ..LoopxIntakeCandidate::default()
    };
    let first = vec![
        candidate(1, LoopxRemoteItemState::Open),
        candidate(2, LoopxRemoteItemState::Open),
    ];
    let reversed = vec![first[1].clone(), first[0].clone()];
    let scopes = [
        LoopxPermissionScope::AgentExecution,
        LoopxPermissionScope::WorkspaceWrite,
    ];

    let fingerprint =
        build_intake_fingerprint(&target, &first, Some("/work/codex"), "primary", &scopes);
    assert_eq!(
        fingerprint,
        build_intake_fingerprint(&target, &reversed, Some("/work/codex"), "primary", &scopes)
    );

    let changed = vec![
        candidate(1, LoopxRemoteItemState::Closed),
        candidate(2, LoopxRemoteItemState::Open),
    ];
    assert_ne!(
        fingerprint,
        build_intake_fingerprint(&target, &changed, Some("/work/codex"), "primary", &scopes)
    );
}

#[test]
fn optional_environment_failures_degrade_without_blocking_core_readiness() {
    let available = LoopxEnvironmentFact {
        status: LoopxEnvironmentFactStatus::Available,
        ..LoopxEnvironmentFact::default()
    };
    let core = LoopxCoreEnvironmentFacts {
        sidecar: available.clone(),
        git_worktree: available.clone(),
        agent_model: available.clone(),
        node_runtime: available,
    };
    let optional = LoopxOptionalEnvironmentFacts {
        python_fallback: LoopxEnvironmentFact {
            status: LoopxEnvironmentFactStatus::Unavailable,
            ..LoopxEnvironmentFact::default()
        },
        ..LoopxOptionalEnvironmentFacts::default()
    };
    assert_eq!(
        derive_environment_status(&core, &optional),
        LoopxEnvironmentStatus::Degraded
    );

    let disabled_optional = LoopxOptionalEnvironmentFacts::default();
    assert_eq!(
        derive_environment_status(&core, &disabled_optional),
        LoopxEnvironmentStatus::Ready
    );

    let mut blocked_core = core;
    blocked_core.sidecar.status = LoopxEnvironmentFactStatus::Unavailable;
    assert_eq!(
        derive_environment_status(&blocked_core, &optional),
        LoopxEnvironmentStatus::Blocked
    );
    assert!(intake_scope_is_pregrantable(
        LoopxPermissionScope::WorkspaceWrite
    ));
    assert!(!intake_scope_is_pregrantable(
        LoopxPermissionScope::PullRequest
    ));
}

#[test]
fn action_idempotency_precedes_revision_conflict() {
    assert_eq!(
        decide_action_status(true, 4, 5),
        LoopxActionStatus::Duplicate
    );
    assert_eq!(
        decide_action_status(false, 4, 5),
        LoopxActionStatus::RevisionConflict
    );
    assert_eq!(
        decide_action_status(false, 5, 5),
        LoopxActionStatus::Applied
    );
}

#[test]
fn event_cursor_gaps_and_stream_changes_require_a_snapshot() {
    assert_eq!(
        decide_events_page_status("stream-2", "stream-1", 10, Some(5), 20),
        LoopxEventsPageStatus::SnapshotRequired
    );
    assert_eq!(
        decide_events_page_status("stream-2", "stream-2", 3, Some(5), 20),
        LoopxEventsPageStatus::SnapshotRequired
    );
    assert_eq!(
        decide_events_page_status("stream-2", "stream-2", 4, Some(5), 20),
        LoopxEventsPageStatus::Current
    );
    assert_eq!(
        decide_events_page_status("stream-2", "stream-2", 21, Some(5), 20),
        LoopxEventsPageStatus::SnapshotRequired
    );
}

#[test]
fn resolved_upstream_summaries_are_detected_in_both_locales() {
    assert!(task_summary_resolves_upstream(Some(
        "Issue covered-upstream by #618 (merged 2026-08-25); no follow-up required."
    )));
    assert!(task_summary_resolves_upstream(Some(
        "原始故障路径在 v2.0.3 中已消失，不开 PR，无需继续修复。"
    )));
    assert!(!task_summary_resolves_upstream(Some(
        "Candidate evidence collected; implementation requires parent write approval."
    )));
    assert!(!task_summary_resolves_upstream(Some("  ")));
    assert!(!task_summary_resolves_upstream(None));
}

#[test]
fn repository_recovery_candidates_exclude_resolved_upstream_tasks() {
    let repository = "github.com/owner/repo";
    let mut task = LoopxTaskSnapshot {
        task_id: "task-1".to_string(),
        identity: LoopxTaskIdentity {
            item: issue("owner", "repo", 515),
            attempt: 1,
            title: "t".to_string(),
            description: String::new(),
            state: LoopxRemoteItemState::Open,
            labels: Vec::new(),
        },
        state: LoopxTaskState::RecoveryRequired,
        ..LoopxTaskSnapshot::default()
    };
    assert!(decide_repository_recovery_candidate(&task, repository));

    task.last_agent_summary =
        Some("Issue covered_upstream by #618; no follow-up required.".to_string());
    assert!(!decide_repository_recovery_candidate(&task, repository));

    task.state = LoopxTaskState::Running;
    task.last_agent_summary = None;
    assert!(!decide_repository_recovery_candidate(&task, repository));

    task.state = LoopxTaskState::RecoveryRequired;
    assert!(!decide_repository_recovery_candidate(
        &task,
        "github.com/owner/other"
    ));
}

#[test]
fn structured_summary_parses_valid_block_and_rejects_contract_violations() {
    let valid = "本段完成。\n\n```loopx_summary_v1\n{\"issue_verdict\":\"needs_fix\",\"reproduction\":\"reproduced\",\"reproduction_evidence\":\"evidence/rep.md\",\"segment_kind\":\"evidence\",\"completed\":[\"收集完成\"],\"next_step\":\"实现修复\"}\n```\n";
    let parsed = parse_structured_summary(Some(valid)).expect("valid block parses");
    let parsed: serde_json::Value = serde_json::from_str(&parsed).expect("block is JSON");
    assert_eq!(
        parsed.get("issue_verdict").and_then(|v| v.as_str()),
        Some("needs_fix")
    );

    let missing_link = "```loopx_summary_v1\n{\"issue_verdict\":\"already_fixed_upstream\"}\n```";
    assert_eq!(parse_structured_summary(Some(missing_link)), None);

    let missing_reason = "```loopx_summary_v1\n{\"issue_verdict\":\"wont_fix\"}\n```";
    assert_eq!(parse_structured_summary(Some(missing_reason)), None);

    let missing_evidence = "```loopx_summary_v1\n{\"issue_verdict\":\"needs_fix\",\"reproduction\":\"reproduced\"}\n```";
    assert_eq!(parse_structured_summary(Some(missing_evidence)), None);

    let unknown = "```loopx_summary_v1\n{\"issue_verdict\":\"maybe\",\"fixed_by\":\"x\"}\n```";
    assert_eq!(parse_structured_summary(Some(unknown)), None);

    assert_eq!(parse_structured_summary(Some("plain text only")), None);
    assert_eq!(parse_structured_summary(None), None);
}

#[test]
fn monitor_action_classification_covers_track_and_monitor_kinds() {
    assert!(is_loopx_monitor_action(
        "issue_fix_track_pr_merge_readiness"
    ));
    assert!(is_loopx_monitor_action("issue_fix_pr_state_open_monitor"));
    assert!(is_loopx_monitor_action("continuous_monitor"));
    assert!(!is_loopx_monitor_action(
        "issue_fix_collect_candidate_evidence"
    ));
    assert!(!is_loopx_monitor_action("issue_fix_reuse_existing_pr"));
    assert!(!is_loopx_monitor_action("issue_fix_implementation"));
    assert!(!is_loopx_monitor_action(""));
    assert!(!is_loopx_monitor_action("   "));
}
