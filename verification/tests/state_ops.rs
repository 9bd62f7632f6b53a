use std::collections::BTreeMap;

use loopx::fingerprint::{build_intake_fingerprint, intake_fingerprint_payload};
use loopx::host::{
    bound_workspace_missing, github_auth_fact_status, is_read_only_user_gate,
    is_reuse_merge_user_gate, loopx_node_environment_fact,
};
use loopx::policy::{required_permission_scopes, required_permission_scopes_are_granted};
use loopx::ports::{LoopxCliError, LoopxCliErrorKind, LoopxGithubAuthProbe, LoopxNodeRuntimeFact};
use loopx::router::{summary_system_prompt, RouterContextConfig, SUMMARY_SYSTEM};
use loopx::store::LoopxPersistedState;
use loopx::summary::{recovery_candidate_given_resolution, structured_summary_block};
use loopx::types::{
    LoopxEnvironmentFactStatus, LoopxEventKind, LoopxEventLevel, LoopxEventSource,
    LoopxIntakeCandidate, LoopxIntakeTarget, LoopxIssueKey, LoopxItemKind, LoopxPermissionScope,
    LoopxPhase, LoopxRemoteItemState, LoopxRepositoryKey, LoopxTaskIdentity, LoopxTaskSnapshot,
    LoopxTaskState,
};

fn repository() -> LoopxRepositoryKey {
    LoopxRepositoryKey {
        host: "github.com".to_string(),
        owner: "openai".to_string(),
        repository: "codex".to_string(),
    }
}

fn issue(number: u64) -> LoopxIssueKey {
    LoopxIssueKey {
        repository: repository(),
        kind: LoopxItemKind::Issue,
        number,
    }
}

fn task(id: &str, state: LoopxTaskState) -> LoopxTaskSnapshot {
    LoopxTaskSnapshot {
        task_id: id.to_string(),
        state,
        phase: LoopxPhase::AgentRunning,
        generation: 1,
        revision: 1,
        identity: LoopxTaskIdentity {
            item: issue(1),
            attempt: 1,
            ..LoopxTaskIdentity::default()
        },
        ..LoopxTaskSnapshot::default()
    }
}

#[test]
fn agent_output_touches_only_running_tasks() {
    let mut state = LoopxPersistedState::new(1);
    state.tasks.push(task("a", LoopxTaskState::Running));
    state.tasks.push(task("b", LoopxTaskState::Queued));
    assert_eq!(state.task_index("b"), Some(1));
    assert_eq!(state.task_index("c"), None);
    assert!(state.record_agent_activity(0, 50));
    assert_eq!(state.tasks[0].last_output_at, Some(50));
    assert_eq!(state.tasks[0].revision, 2);
    assert!(!state.record_agent_activity(1, 50));
    assert_eq!(state.tasks[1].revision, 1);
    state.finish_task_mutation(0, Some("req-1".to_string()), 60);
    assert_eq!(state.tasks[0].updated_at, 60);
    assert_eq!(state.revision, 1);
    assert!(state.has_processed_request("req-1"));
}

#[test]
fn tool_activity_is_logged_as_an_agent_event() {
    let mut state = LoopxPersistedState::new(1);
    state.tasks.push(task("a", LoopxTaskState::Running));
    let mut details = BTreeMap::new();
    details.insert("path".to_string(), "src/lib.rs".to_string());
    assert!(state.apply_tool_activity(
        0,
        Some("edit".to_string()),
        "Editing src/lib.rs".to_string(),
        false,
        "edit".to_string(),
        details.clone(),
        70,
    ));
    assert_eq!(state.tasks[0].current_tool.as_deref(), Some("edit"));
    assert_eq!(state.tasks[0].revision, 2);
    assert_eq!(state.revision, 1);
    let event = state.events.last().unwrap();
    assert_eq!(event.kind, LoopxEventKind::Log);
    assert_eq!(event.source, LoopxEventSource::Agent);
    assert_eq!(event.level, LoopxEventLevel::Info);
    assert_eq!(event.tool_name.as_deref(), Some("edit"));
    assert_eq!(event.details, details);
    assert_eq!(event.revision, Some(2));
    assert_eq!(event.cursor, 1);

    state.tasks[0].state = LoopxTaskState::Queued;
    assert!(!state.apply_tool_activity(
        0,
        None,
        "ignored".to_string(),
        true,
        "edit".to_string(),
        BTreeMap::new(),
        80,
    ));
    assert_eq!(state.events.len(), 1);
}

#[test]
fn host_resume_lifts_a_suite_stop() {
    let mut state = LoopxPersistedState::new(1);
    state.suspended = true;
    state.host_resume(90);
    assert!(!state.suspended);
    assert_eq!(state.revision, 1);
    let event = state.events.last().unwrap();
    assert_eq!(event.kind, LoopxEventKind::SnapshotInvalidated);
    assert_eq!(event.message, "Host resumed; refreshing LoopX projections");
}

#[test]
fn gate_kinds_are_classified() {
    assert!(is_read_only_user_gate(Some("approve_github_issue_body_or_comment_read")));
    assert!(is_read_only_user_gate(Some(" approve_pr_diff_read ")));
    assert!(!is_read_only_user_gate(Some("approve_publish")));
    assert!(!is_read_only_user_gate(None));
    assert!(is_reuse_merge_user_gate(Some("Merge_Existing_PR"), ""));
    assert!(is_reuse_merge_user_gate(None, "Please MERGE PR #12 first"));
    assert!(is_reuse_merge_user_gate(None, "Reuse existing PR for this fix"));
    assert!(!is_reuse_merge_user_gate(Some("publish"), "Publish the comment"));
}

#[test]
fn environment_fact_helpers() {
    let mut bound = task("a", LoopxTaskState::Queued);
    assert!(!bound_workspace_missing(&bound, false));
    bound.workspace_path = Some("/work/a".to_string());
    assert!(bound_workspace_missing(&bound, false));
    assert!(!bound_workspace_missing(&bound, true));

    let degraded = LoopxGithubAuthProbe {
        authenticated: false,
        rate_limit_remaining: Some(10),
        detail: None,
    };
    assert_eq!(github_auth_fact_status(&degraded), LoopxEnvironmentFactStatus::Degraded);
    assert_eq!(
        github_auth_fact_status(&LoopxGithubAuthProbe::default()),
        LoopxEnvironmentFactStatus::Unavailable
    );

    let missing_node = loopx_node_environment_fact(&LoopxNodeRuntimeFact::default(), Some(3));
    assert_eq!(missing_node.status, LoopxEnvironmentFactStatus::Unavailable);
    assert!(missing_node.remediation.unwrap().starts_with("Install Node.js from https://nodejs.org"));
}

#[test]
fn required_scopes_must_all_be_granted() {
    let required = required_permission_scopes();
    assert_eq!(required.len(), 5);
    assert!(required_permission_scopes_are_granted(&required));
    assert!(!required_permission_scopes_are_granted(&required[1..]));
    let mut extra = required.clone();
    extra.push(LoopxPermissionScope::Publish);
    assert!(required_permission_scopes_are_granted(&extra));
}

#[test]
fn fingerprint_payload_lists_sorted_facts_and_scopes() {
    let target = LoopxIntakeTarget::Repository {
        repository: repository(),
    };
    let candidate = |number: u64, state: LoopxRemoteItemState| LoopxIntakeCandidate {
        key: issue(number),
        state,
        from_repository: true,
        ..LoopxIntakeCandidate::default()
    };
    let candidates = vec![
        candidate(2, LoopxRemoteItemState::Open),
        candidate(1, LoopxRemoteItemState::Closed),
    ];
    let scopes = [
        LoopxPermissionScope::AgentExecution,
        LoopxPermissionScope::WorkspaceRead,
        LoopxPermissionScope::AgentExecution,
    ];
    let payload = intake_fingerprint_payload(&target, &candidates, Some("/work"), "auto", &scopes);
    assert_eq!(
        payload,
        "target=github.com/openai/codex\n\
         items=github.com/openai/codex/issues/1:Closed:false:true|github.com/openai/codex/issues/2:Open:false:true\n\
         workspace=/work\n\
         model=auto\n\
         scopes=[WorkspaceRead, AgentExecution]"
    );
    let fingerprint = build_intake_fingerprint(&target, &candidates, Some("/work"), "auto", &scopes);
    assert!(fingerprint.starts_with("sha256:"));
    assert_eq!(fingerprint.len(), "sha256:".len() + 64);
    assert_ne!(
        fingerprint,
        build_intake_fingerprint(&target, &candidates, None, "auto", &scopes)
    );
}

#[test]
fn summary_block_and_recovery_helpers() {
    assert_eq!(
        structured_summary_block("Done.\n```loopx_summary_v1\n {\"a\":1} \n```\n"),
        Some("{\"a\":1}".to_string())
    );
    assert_eq!(structured_summary_block("no block here"), None);
    let failed = task("a", LoopxTaskState::Failed);
    assert!(recovery_candidate_given_resolution(&failed, "github.com/openai/codex", false));
    assert!(!recovery_candidate_given_resolution(&failed, "github.com/openai/codex", true));
    assert!(!recovery_candidate_given_resolution(&failed, "github.com/openai/other", false));
    let running = task("b", LoopxTaskState::Running);
    assert!(!recovery_candidate_given_resolution(&running, "github.com/openai/codex", false));
}

#[test]
fn summary_prompt_states_its_target() {
    let prompt = summary_system_prompt(&RouterContextConfig::default());
    assert!(prompt.starts_with(SUMMARY_SYSTEM));
    assert!(prompt.ends_with(
        " Keep the final summary below roughly 4096 tokens; this target excludes internal reasoning."
    ));
}

#[test]
fn cli_errors_carry_their_operation() {
    let error = LoopxCliError::new(LoopxCliErrorKind::Timeout, "slow").for_operation("op-9");
    assert_eq!(error.operation_id.as_deref(), Some("op-9"));
    assert_eq!(error.kind, LoopxCliErrorKind::Timeout);
    assert_eq!(error.message, "slow");
    assert!(!error.retryable);
}
