use loopx::store::LoopxPersistedState;
use loopx::types::{
    LoopxActionKind, LoopxActionRequest, LoopxActionStatus, LoopxEnvironmentFactStatus,
    LoopxIssueKey, LoopxItemKind, LoopxPhase, LoopxRepositoryKey, LoopxTaskIdentity,
    LoopxTaskSnapshot, LoopxTaskState,
};

fn repo(owner: &str) -> LoopxRepositoryKey {
    LoopxRepositoryKey {
        host: "github.com".to_string(),
        owner: owner.to_string(),
        repository: "repo".to_string(),
    }
}

fn task(id: &str, owner: &str, number: u64, state: LoopxTaskState) -> LoopxTaskSnapshot {
    LoopxTaskSnapshot {
        task_id: id.to_string(),
        identity: LoopxTaskIdentity {
            item: LoopxIssueKey {
                repository: repo(owner),
                kind: LoopxItemKind::Issue,
                number,
            },
            attempt: 1,
            ..LoopxTaskIdentity::default()
        },
        state,
        generation: 1,
        revision: 1,
        ..LoopxTaskSnapshot::default()
    }
}

#[test]
fn lanes_pick_the_first_waiting_task() {
    let mut state = LoopxPersistedState::new(1);
    state.tasks.push(task("a", "o", 1, LoopxTaskState::Running));
    state.tasks.push(task("b", "o", 2, LoopxTaskState::Queued));
    state.tasks.push(task("c", "o", 3, LoopxTaskState::Preparing));
    state.tasks.push(task("d", "p", 4, LoopxTaskState::Queued));
    assert_eq!(state.next_task_for_repository("github.com/o/repo", None), Some("b".to_string()));
    assert_eq!(
        state.next_task_for_repository("github.com/o/repo", Some("b")),
        Some("c".to_string())
    );
    assert_eq!(state.next_task_for_repository("github.com/q/repo", None), None);
    state.suspended = true;
    assert_eq!(state.next_task_for_repository("github.com/o/repo", None), None);
}

#[test]
fn repository_resume_requeues_its_candidates() {
    let mut state = LoopxPersistedState::new(1);
    state.revision = 3;
    state.tasks.push(task("a", "o", 1, LoopxTaskState::Failed));
    state.tasks.push(task("b", "o", 2, LoopxTaskState::Running));
    let mut resolved = task("c", "o", 3, LoopxTaskState::RecoveryRequired);
    resolved.last_agent_summary =
        Some("Issue covered-upstream by #618; no follow-up required.".to_string());
    state.tasks.push(resolved);
    state.tasks.push(task("d", "o", 4, LoopxTaskState::Stopped));
    state.tasks.push(task("e", "p", 5, LoopxTaskState::Failed));

    let missing = LoopxActionRequest {
        action: LoopxActionKind::ResumeRepository,
        client_request_id: "r-1".to_string(),
        expected_revision: 3,
        ..LoopxActionRequest::default()
    };
    assert_eq!(
        state.resume_repository(&missing, 10).err(),
        Some("repository is required for resume_repository".to_string())
    );
    let stale = LoopxActionRequest {
        repository: Some(repo("o")),
        expected_revision: 2,
        ..missing.clone()
    };
    let conflict = state.resume_repository(&stale, 10).unwrap();
    assert_eq!(conflict.response.status, LoopxActionStatus::RevisionConflict);

    let request = LoopxActionRequest {
        repository: Some(repo("o")),
        ..missing.clone()
    };
    let resumed = state.resume_repository(&request, 10).unwrap();
    assert_eq!(resumed.queued_task_ids, vec!["a".to_string(), "d".to_string()]);
    assert_eq!(resumed.response.status, LoopxActionStatus::Applied);
    assert_eq!(resumed.response.message.as_deref(), Some("Queued 2 repository tasks"));
    assert_eq!(resumed.response.current_revision, 5);
    assert_eq!(state.tasks[0].state, LoopxTaskState::Queued);
    assert_eq!(state.tasks[0].phase, LoopxPhase::Recovering);
    assert_eq!(state.tasks[0].generation, 2);
    assert_eq!(state.tasks[1].state, LoopxTaskState::Running);
    assert_eq!(state.tasks[2].state, LoopxTaskState::RecoveryRequired);
    assert_eq!(state.tasks[4].state, LoopxTaskState::Failed);
    assert_eq!(state.runtime.get("a").unwrap().operation_id, "resume-a-2");
    assert_eq!(state.events.len(), 2);
    assert_eq!(state.events[0].message, "Task queued by repository resume");

    let again = state.resume_repository(&request, 11).unwrap();
    assert_eq!(again.response.status, LoopxActionStatus::Duplicate);
    assert_eq!(
        again.response.message.as_deref(),
        Some("Repository resume was already applied")
    );
}

#[test]
fn model_failure_parks_the_rest_of_the_lane() {
    let mut state = LoopxPersistedState::new(1);
    let failed = task("a", "o", 7, LoopxTaskState::Failed);
    state.tasks.push(failed.clone());
    state.tasks.push(task("b", "o", 8, LoopxTaskState::Queued));
    state.tasks.push(task("c", "o", 9, LoopxTaskState::Running));
    state.tasks.push(task("d", "p", 10, LoopxTaskState::Queued));
    let reason = "x".repeat(800);
    let parked = state.pause_repository_after_failure(&failed, &reason, 30);
    assert_eq!(parked, vec!["b".to_string()]);
    let message = format!("Repository queue paused after Issue #7 failed: {}", "x".repeat(700));
    assert_eq!(state.tasks[1].state, LoopxTaskState::RecoveryRequired);
    assert_eq!(state.tasks[1].error.as_deref(), Some(message.as_str()));
    assert_eq!(state.tasks[1].recovery_reason.as_deref(), Some("repository_paused"));
    assert_eq!(state.tasks[1].revision, 2);
    assert_eq!(state.tasks[2].state, LoopxTaskState::Running);
    assert_eq!(state.tasks[3].state, LoopxTaskState::Queued);
    assert_eq!(
        state.environment.core.agent_model.status,
        LoopxEnvironmentFactStatus::Degraded
    );
    assert_eq!(state.environment.core.agent_model.detail.as_deref(), Some(reason.as_str()));
    assert_eq!(state.revision, 2);
    assert_eq!(state.events.len(), 2);
    assert_eq!(
        state.events[1].message,
        "Agent model runtime failed; repository queue paused"
    );
}
