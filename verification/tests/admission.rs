use loopx::admission::{
    check_against_preview, find_preview, intake_preview, key_less, precheck_create_request,
    prepared_runtime, prune_intake_previews, remember_preview, selection_order,
    INTAKE_PREVIEW_TTL_MS,
};
use loopx::ports::{
    LoopxAgentProbeResult, LoopxCliResolveIntakeResult, LoopxHostPortError,
    LoopxHostPortErrorKind, LoopxWorkspaceProbeResult,
};
use loopx::store::LoopxPersistedState;
use loopx::types::{
    LoopxCreateTaskOutcomeKind, LoopxCreateTaskRequest, LoopxIntakeCandidate,
    LoopxIntakePreview, LoopxIssueKey, LoopxItemKind, LoopxModelCapability,
    LoopxPermissionScope, LoopxPhase, LoopxRemoteItemState, LoopxRepositoryKey,
    LoopxTaskIdentity, LoopxTaskSnapshot, LoopxTaskState, LoopxWorkspaceDisposition,
    LoopxWorkspacePreview,
};

fn key(owner: &str, kind: LoopxItemKind, number: u64) -> LoopxIssueKey {
    LoopxIssueKey {
        repository: LoopxRepositoryKey {
            host: "github.com".to_string(),
            owner: owner.to_string(),
            repository: "repo".to_string(),
        },
        kind,
        number,
    }
}

fn required_scopes() -> Vec<LoopxPermissionScope> {
    vec![
        LoopxPermissionScope::WorkspaceRead,
        LoopxPermissionScope::WorkspaceWrite,
        LoopxPermissionScope::GitLocal,
        LoopxPermissionScope::GithubRead,
        LoopxPermissionScope::AgentExecution,
    ]
}

fn candidate(key: LoopxIssueKey, state: LoopxRemoteItemState) -> LoopxIntakeCandidate {
    LoopxIntakeCandidate {
        title: format!("Issue {}", key.number),
        key,
        state,
        labels: vec!["bug".to_string()],
        ..LoopxIntakeCandidate::default()
    }
}

fn preview(candidates: Vec<LoopxIntakeCandidate>) -> LoopxIntakePreview {
    LoopxIntakePreview {
        fingerprint: "sha256:abc".to_string(),
        workspace: LoopxWorkspacePreview {
            disposition: LoopxWorkspaceDisposition::CloneRequired,
            path: None,
            repository_verified: true,
            detail: None,
        },
        candidates,
        model: LoopxModelCapability {
            model_id: "auto".to_string(),
            available: true,
            supports_images: false,
            detail: None,
        },
        permission_scopes: required_scopes(),
        ..LoopxIntakePreview::default()
    }
}

fn create_request(items: Vec<LoopxIssueKey>) -> LoopxCreateTaskRequest {
    LoopxCreateTaskRequest {
        client_request_id: "create-1".to_string(),
        preview_fingerprint: "sha256:abc".to_string(),
        selected_items: items,
        model_id: "auto".to_string(),
        granted_scopes: required_scopes(),
        retry_terminal: false,
    }
}

#[test]
fn selection_is_sorted_like_a_set() {
    let a = key("abc", LoopxItemKind::Issue, 2);
    let b = key("abc", LoopxItemKind::PullRequest, 1);
    let c = key("abd", LoopxItemKind::Issue, 1);
    let d = key("abc", LoopxItemKind::Issue, 10);
    assert!(key_less(&a, &b));
    assert!(key_less(&a, &d));
    assert!(key_less(&b, &c));
    assert!(!key_less(&a, &a));
    let ordered = selection_order(&[c.clone(), a.clone(), b.clone(), a.clone(), d.clone()]);
    assert_eq!(ordered, vec![a, d, b, c]);
}

#[test]
fn create_requests_are_checked_in_order() {
    let mut blank = create_request(vec![key("o", LoopxItemKind::Issue, 1)]);
    blank.client_request_id = "   ".to_string();
    assert_eq!(
        precheck_create_request(&blank, false),
        Err("clientRequestId is required".to_string())
    );
    let request = create_request(vec![key("o", LoopxItemKind::Issue, 1)]);
    assert_eq!(
        precheck_create_request(&request, true),
        Err("LoopX is stopped; resume the suite before creating tasks".to_string())
    );
    let empty = create_request(Vec::new());
    assert_eq!(
        precheck_create_request(&empty, false),
        Err("Select at least one issue or pull request".to_string())
    );
    assert_eq!(
        precheck_create_request(&request, false),
        Ok(vec![key("o", LoopxItemKind::Issue, 1)])
    );
}

#[test]
fn preview_checks_report_each_failure() {
    let item = key("o", LoopxItemKind::Issue, 1);
    let request = create_request(vec![item.clone()]);
    let selected = vec![item.clone()];
    let good = preview(vec![candidate(item.clone(), LoopxRemoteItemState::Open)]);
    assert_eq!(check_against_preview(&request, &selected, Some(&good)), Ok(()));
    assert_eq!(
        check_against_preview(&request, &selected, None),
        Err("Intake preview is missing or stale; resolve it again".to_string())
    );
    let other = preview(vec![candidate(key("o", LoopxItemKind::Issue, 2), LoopxRemoteItemState::Open)]);
    assert_eq!(
        check_against_preview(&request, &selected, Some(&other)),
        Err("Selected item was not present in the intake preview".to_string())
    );
    let mut unverified = good.clone();
    unverified.workspace.repository_verified = false;
    assert_eq!(
        check_against_preview(&request, &selected, Some(&unverified)),
        Err("The repository workspace did not pass live Git verification".to_string())
    );
    unverified.workspace.detail = Some("git missing".to_string());
    assert_eq!(
        check_against_preview(&request, &selected, Some(&unverified)),
        Err("git missing".to_string())
    );
    let mut no_model = good.clone();
    no_model.model.available = false;
    assert_eq!(
        check_against_preview(&request, &selected, Some(&no_model)),
        Err("The selected Agent model is unavailable".to_string())
    );
    let mut extra = request.clone();
    extra.granted_scopes.push(LoopxPermissionScope::Merge);
    assert_eq!(
        check_against_preview(&extra, &selected, Some(&good)),
        Err("Intake includes a permission scope that was not previewed".to_string())
    );
    let mut missing = request.clone();
    missing.granted_scopes.pop();
    assert_eq!(
        check_against_preview(&missing, &selected, Some(&good)),
        Err("All LoopX permission scopes shown in intake are required for an autonomous issue-fix task".to_string())
    );
}

fn existing(id: &str, item: LoopxIssueKey, attempt: u32, state: LoopxTaskState) -> LoopxTaskSnapshot {
    LoopxTaskSnapshot {
        task_id: id.to_string(),
        identity: LoopxTaskIdentity {
            item,
            attempt,
            ..LoopxTaskIdentity::default()
        },
        state,
        ..LoopxTaskSnapshot::default()
    }
}

#[test]
fn applied_requests_reopen_the_latest_attempt() {
    let item = key("o", LoopxItemKind::Issue, 1);
    let mut state = LoopxPersistedState::new(1);
    state.tasks.push(existing("first", item.clone(), 1, LoopxTaskState::Failed));
    state.tasks.push(existing("second", item.clone(), 2, LoopxTaskState::Failed));
    state.tasks.push(existing("again", item.clone(), 2, LoopxTaskState::Completed));
    let unknown = key("o", LoopxItemKind::Issue, 7);
    let outcomes = state.existing_outcomes(&[item.clone(), unknown.clone()]);
    assert_eq!(outcomes.len(), 2);
    assert_eq!(outcomes[0].kind, LoopxCreateTaskOutcomeKind::OpenedExisting);
    assert_eq!(outcomes[0].task_id.as_deref(), Some("again"));
    assert_eq!(outcomes[0].attempt, Some(2));
    assert_eq!(outcomes[1].item, unknown);
    assert_eq!(outcomes[1].task_id, None);
}

#[test]
fn creation_reserves_new_attempts_and_reports_duplicates() {
    let fresh = key("o", LoopxItemKind::Issue, 1);
    let running = key("o", LoopxItemKind::Issue, 2);
    let closed = key("o", LoopxItemKind::Issue, 3);
    let failed = key("p", LoopxItemKind::Issue, 4);
    let mut state = LoopxPersistedState::new(1);
    state.tasks.push(existing("busy", running.clone(), 1, LoopxTaskState::Running));
    state.tasks.push(existing("old", failed.clone(), 1, LoopxTaskState::Failed));
    let preview = preview(vec![
        candidate(fresh.clone(), LoopxRemoteItemState::Open),
        candidate(running.clone(), LoopxRemoteItemState::Open),
        candidate(closed.clone(), LoopxRemoteItemState::Closed),
        candidate(failed.clone(), LoopxRemoteItemState::Open),
    ]);
    let request = create_request(vec![failed.clone(), closed.clone(), running.clone(), fresh.clone()]);
    let selected = precheck_create_request(&request, false).unwrap();
    assert_eq!(check_against_preview(&request, &selected, Some(&preview)), Ok(()));
    let creation = state.reserve_tasks(&request, &selected, &preview, 500);

    let kinds: Vec<_> = creation.outcomes.iter().map(|o| o.kind).collect();
    assert_eq!(
        kinds,
        vec![
            LoopxCreateTaskOutcomeKind::Created,
            LoopxCreateTaskOutcomeKind::OpenedExisting,
            LoopxCreateTaskOutcomeKind::ClosedNoop,
            LoopxCreateTaskOutcomeKind::RetryConfirmationRequired,
        ]
    );
    assert_eq!(creation.outcomes[1].task_id.as_deref(), Some("busy"));
    assert_eq!(creation.outcomes[3].task_id.as_deref(), Some("old"));
    assert_eq!(creation.outcomes[3].attempt, Some(2));
    assert_eq!(creation.created_task_ids.len(), 1);
    let batch = creation.batch_id.clone().expect("several items share a batch");
    assert_eq!(batch.len(), 36);

    let created = state.tasks.last().unwrap();
    assert_eq!(created.task_id, creation.created_task_ids[0]);
    assert_eq!(creation.outcomes[0].task_id.as_deref(), Some(created.task_id.as_str()));
    assert_eq!(created.identity.item, fresh);
    assert_eq!(created.identity.attempt, 1);
    assert_eq!(created.identity.title, "Issue 1");
    assert_eq!(created.identity.labels, vec!["bug".to_string()]);
    assert_eq!(created.state, LoopxTaskState::Preparing);
    assert_eq!(created.phase, LoopxPhase::PreparingWorkspace);
    assert_eq!(created.agent_id.as_deref(), Some("bitfun-agent"));
    assert_eq!(created.batch_id.as_deref(), Some(batch.as_str()));
    assert_eq!(created.created_at, 500);
    assert_eq!(state.revision, 1);
    let event = state.events.last().unwrap();
    assert_eq!(event.message, "LoopX task reserved before workspace preparation");
    assert_eq!(event.task_id.as_deref(), Some(created.task_id.as_str()));
    assert!(state.has_processed_request("create-1"));
    let runtime = state.runtime.get(&created.task_id).expect("runtime record");
    assert_eq!(runtime.operation_id, format!("prepare-{}-1", created.task_id));

    let tasks_before = state.tasks.len();
    let revision_before = state.revision;
    let replay = state
        .replay_create_request(&request, &selected)
        .expect("an applied request is replayed");
    assert_eq!(replay.snapshot_revision, revision_before);
    assert_eq!(replay.outcomes.len(), selected.len());
    assert!(replay
        .outcomes
        .iter()
        .all(|o| o.kind == LoopxCreateTaskOutcomeKind::OpenedExisting));
    let fresh_outcome = replay.outcomes.iter().find(|o| o.item == fresh).unwrap();
    assert_eq!(fresh_outcome.task_id.as_deref(), Some(created.task_id.as_str()));
    let closed_outcome = replay.outcomes.iter().find(|o| o.item == closed).unwrap();
    assert_eq!(closed_outcome.task_id, None);
    assert_eq!(state.tasks.len(), tasks_before);
    let other = LoopxCreateTaskRequest {
        client_request_id: "create-2".to_string(),
        ..request.clone()
    };
    assert!(state.replay_create_request(&other, &selected).is_none());
}

#[test]
fn single_item_creation_has_no_batch() {
    let item = key("o", LoopxItemKind::Issue, 1);
    let mut state = LoopxPersistedState::new(1);
    let preview = preview(vec![candidate(item.clone(), LoopxRemoteItemState::Open)]);
    let request = create_request(vec![item.clone()]);
    let creation = state.reserve_tasks(&request, &[item], &preview, 1);
    assert_eq!(creation.batch_id, None);
    assert_eq!(state.tasks[0].batch_id, None);
    assert_eq!(prepared_runtime("t").operation_id, "prepare-t-1");
}

#[test]
fn only_the_first_task_of_each_repository_starts() {
    let mut state = LoopxPersistedState::new(1);
    state.tasks.push(existing("a1", key("a", LoopxItemKind::Issue, 1), 1, LoopxTaskState::Preparing));
    state.tasks.push(existing("b1", key("b", LoopxItemKind::Issue, 1), 1, LoopxTaskState::Preparing));
    state.tasks.push(existing("a2", key("a", LoopxItemKind::Issue, 2), 1, LoopxTaskState::Preparing));
    let created = vec![
        "a2".to_string(),
        "gone".to_string(),
        "a1".to_string(),
        "b1".to_string(),
    ];
    assert_eq!(state.lane_heads_of(&created), vec!["a2".to_string(), "b1".to_string()]);
}

fn port_error(message: &str) -> LoopxHostPortError {
    LoopxHostPortError {
        kind: LoopxHostPortErrorKind::Io,
        message: message.to_string(),
        ..LoopxHostPortError::default()
    }
}

#[test]
fn intake_preview_reflects_the_probes() {
    let resolved = LoopxCliResolveIntakeResult {
        candidates: vec![candidate(key("o", LoopxItemKind::Issue, 1), LoopxRemoteItemState::Open)],
        resolved_at: 0,
        ..LoopxCliResolveIntakeResult::default()
    };
    let preview = intake_preview(
        resolved.clone(),
        Ok(LoopxWorkspaceProbeResult {
            git_version: Some("git 2.45".to_string()),
            repository_verified: true,
            ..LoopxWorkspaceProbeResult::default()
        }),
        Ok(LoopxAgentProbeResult {
            model_id: "glm".to_string(),
            supports_images: true,
        }),
        "auto".to_string(),
        1_000,
    );
    assert_eq!(preview.resolved_at, 1_000);
    assert_eq!(preview.expires_at, Some(1_000 + INTAKE_PREVIEW_TTL_MS));
    assert_eq!(preview.model.detail.as_deref(), Some("Resolved Agent model: glm"));
    assert!(preview.model.available && preview.model.supports_images);
    assert_eq!(
        preview.workspace.detail.as_deref(),
        Some("git 2.45; repository access verified")
    );
    assert_eq!(preview.workspace.disposition, LoopxWorkspaceDisposition::CloneRequired);
    assert_eq!(preview.permission_scopes, required_scopes());
    assert!(preview.fingerprint.starts_with("sha256:"));

    let failed = intake_preview(
        LoopxCliResolveIntakeResult {
            resolved_at: 42,
            ..resolved
        },
        Err(port_error("no git")),
        Err(port_error("no model")),
        "auto".to_string(),
        1_000,
    );
    assert_eq!(failed.resolved_at, 42);
    assert!(!failed.model.available);
    assert_eq!(failed.model.detail.as_deref(), Some("Io: no model"));
    assert_eq!(failed.workspace.disposition, LoopxWorkspaceDisposition::Unavailable);
    assert_eq!(failed.workspace.detail.as_deref(), Some("Io: no git"));
    assert_eq!(failed.fingerprint, preview.fingerprint);
}

fn stored(fingerprint: &str, resolved_at: i64, expires_at: Option<i64>) -> LoopxIntakePreview {
    LoopxIntakePreview {
        fingerprint: fingerprint.to_string(),
        resolved_at,
        expires_at,
        ..LoopxIntakePreview::default()
    }
}

#[test]
fn previews_expire_and_stay_bounded() {
    let previews = vec![
        stored("expired", 1, Some(10)),
        stored("never", 1, None),
        stored("fresh", 5, Some(100)),
    ];
    let kept = prune_intake_previews(previews, 50);
    assert_eq!(kept.len(), 1);
    assert_eq!(kept[0].fingerprint, "fresh");

    let many: Vec<_> = (0..70)
        .map(|i| stored(&format!("p{i}"), 1_000 - i as i64, Some(10_000)))
        .collect();
    let kept = prune_intake_previews(many, 0);
    assert_eq!(kept.len(), 64);
    assert!(kept.iter().all(|p| p.resolved_at > 1_000 - 64));

    let with_new = remember_preview(kept, stored("p0", 2_000, Some(10_000)), 0);
    assert_eq!(with_new.len(), 64);
    let at = find_preview(&with_new, "p0").expect("stored preview");
    assert_eq!(with_new[at].resolved_at, 2_000);
    assert_eq!(find_preview(&with_new, "missing"), None);
}

#[test]
fn selection_order_does_not_depend_on_the_selection() {
    let a = key("abc", LoopxItemKind::Issue, 2);
    let b = key("abc", LoopxItemKind::PullRequest, 1);
    let c = key("abd", LoopxItemKind::Issue, 1);
    let first = selection_order(&[a.clone(), b.clone(), c.clone()]);
    let second = selection_order(&[c.clone(), c, b, a.clone(), a]);
    assert_eq!(first, second);
}
