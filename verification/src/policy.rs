//! Pure lifecycle decisions for LoopX tasks.

use vstd::prelude::*;

use crate::text::str_eq;
use crate::types::{
    IssueKeyView, LoopxActionStatus, LoopxCliGoalState, LoopxCoreEnvironmentFacts,
    LoopxEnvironmentFactStatus, LoopxEnvironmentStatus, LoopxEventsPageStatus, LoopxExistingTask,
    LoopxIssueKey, LoopxOptionalEnvironmentFacts, LoopxPermissionScope, LoopxPhase,
    LoopxRemoteItemState, LoopxTaskState,
};

verus! {

#[derive(Debug, Clone, Copy, PartialEq, Eq, Structural)]
pub enum LoopxTransitionDecision {
    NoChange,
    Allowed { next: LoopxTaskState },
    Rejected,
}

/// The host-job transitions the lifecycle permits between two distinct states.
pub open spec fn transition_allowed(current: LoopxTaskState, next: LoopxTaskState) -> bool {
    match current {
        LoopxTaskState::Preparing => next == LoopxTaskState::Queued || next
            == LoopxTaskState::Cancelling || next == LoopxTaskState::RecoveryRequired || next
            == LoopxTaskState::Failed,
        LoopxTaskState::Queued => next == LoopxTaskState::Running || next
            == LoopxTaskState::Cancelling || next == LoopxTaskState::RecoveryRequired || next
            == LoopxTaskState::Failed,
        LoopxTaskState::Running => next == LoopxTaskState::Queued || next
            == LoopxTaskState::WaitingForUser || next == LoopxTaskState::Cancelling || next
            == LoopxTaskState::RecoveryRequired || next == LoopxTaskState::Completed || next
            == LoopxTaskState::Failed,
        LoopxTaskState::WaitingForUser => next == LoopxTaskState::Queued || next
            == LoopxTaskState::Cancelling || next == LoopxTaskState::RecoveryRequired || next
            == LoopxTaskState::Failed,
        LoopxTaskState::Cancelling => next == LoopxTaskState::Stopped || next
            == LoopxTaskState::Aborted || next == LoopxTaskState::RecoveryRequired || next
            == LoopxTaskState::Failed,
        LoopxTaskState::Stopped | LoopxTaskState::Failed => next == LoopxTaskState::Queued || next
            == LoopxTaskState::Archived,
        LoopxTaskState::Aborted => next == LoopxTaskState::Archived,
        LoopxTaskState::RetryWait => false,
        LoopxTaskState::RecoveryRequired => next == LoopxTaskState::Queued || next
            == LoopxTaskState::Stopped || next == LoopxTaskState::Failed,
        LoopxTaskState::Completed => next == LoopxTaskState::Archived,
        LoopxTaskState::Archived => next == LoopxTaskState::RecoveryRequired,
    }
}

/// The decision for a requested transition.
pub open spec fn spec_decide_task_transition(
    current: LoopxTaskState,
    next: LoopxTaskState,
) -> LoopxTransitionDecision {
    if current == next {
        LoopxTransitionDecision::NoChange
    } else if transition_allowed(current, next) {
        LoopxTransitionDecision::Allowed { next }
    } else {
        LoopxTransitionDecision::Rejected
    }
}

pub fn decide_task_transition(current: LoopxTaskState, next: LoopxTaskState) -> (res:
    LoopxTransitionDecision)
    ensures
        res == spec_decide_task_transition(current, next),
{
    if current == next {
        return LoopxTransitionDecision::NoChange;
    }
    let allowed = match current {
        LoopxTaskState::Preparing => next == LoopxTaskState::Queued || next
            == LoopxTaskState::Cancelling || next == LoopxTaskState::RecoveryRequired || next
            == LoopxTaskState::Failed,
        LoopxTaskState::Queued => next == LoopxTaskState::Running || next
            == LoopxTaskState::Cancelling || next == LoopxTaskState::RecoveryRequired || next
            == LoopxTaskState::Failed,
        LoopxTaskState::Running => next == LoopxTaskState::Queued || next
            == LoopxTaskState::WaitingForUser || next == LoopxTaskState::Cancelling || next
            == LoopxTaskState::RecoveryRequired || next == LoopxTaskState::Completed || next
            == LoopxTaskState::Failed,
        LoopxTaskState::WaitingForUser => next == LoopxTaskState::Queued || next
            == LoopxTaskState::Cancelling || next == LoopxTaskState::RecoveryRequired || next
            == LoopxTaskState::Failed,
        LoopxTaskState::Cancelling => next == LoopxTaskState::Stopped || next
            == LoopxTaskState::Aborted || next == LoopxTaskState::RecoveryRequired || next
            == LoopxTaskState::Failed,
        LoopxTaskState::Stopped | LoopxTaskState::Failed => next == LoopxTaskState::Queued || next
            == LoopxTaskState::Archived,
        LoopxTaskState::Aborted => next == LoopxTaskState::Archived,
        // Legacy persisted state only: every transition from it is rejected
        // until restart recovery requeues the task.
        LoopxTaskState::RetryWait => false,
        LoopxTaskState::RecoveryRequired => next == LoopxTaskState::Queued || next
            == LoopxTaskState::Stopped || next == LoopxTaskState::Failed,
        LoopxTaskState::Completed => next == LoopxTaskState::Archived,
        LoopxTaskState::Archived => next == LoopxTaskState::RecoveryRequired,
    };
    if allowed {
        LoopxTransitionDecision::Allowed { next }
    } else {
        LoopxTransitionDecision::Rejected
    }
}

#[derive(Debug, Clone, Copy, PartialEq, Eq, Structural)]
pub enum LoopxRestartDecision {
    Preserve { state: LoopxTaskState },
    RequireRecovery,
}

/// What a host restart does to a persisted task state.
pub open spec fn spec_decide_task_restart(state: LoopxTaskState) -> LoopxRestartDecision {
    if state == LoopxTaskState::Preparing || state == LoopxTaskState::RetryWait {
        LoopxRestartDecision::Preserve { state: LoopxTaskState::Queued }
    } else if state.spec_was_executing_at_shutdown() {
        LoopxRestartDecision::RequireRecovery
    } else {
        LoopxRestartDecision::Preserve { state }
    }
}

pub fn decide_task_restart(state: LoopxTaskState) -> (res: LoopxRestartDecision)
    ensures
        res == spec_decide_task_restart(state),
{
    match state {
        LoopxTaskState::Preparing | LoopxTaskState::RetryWait => LoopxRestartDecision::Preserve {
            state: LoopxTaskState::Queued,
        },
        _ => if state.was_executing_at_shutdown() {
            LoopxRestartDecision::RequireRecovery
        } else {
            LoopxRestartDecision::Preserve { state }
        },
    }
}

/// The task state a host restart leaves behind.
pub open spec fn spec_task_state_after_restart(state: LoopxTaskState) -> LoopxTaskState {
    match spec_decide_task_restart(state) {
        LoopxRestartDecision::RequireRecovery => LoopxTaskState::RecoveryRequired,
        LoopxRestartDecision::Preserve { state } => state,
    }
}

pub fn task_state_after_restart(state: LoopxTaskState) -> (res: LoopxTaskState)
    ensures
        res == spec_task_state_after_restart(state),
{
    match decide_task_restart(state) {
        LoopxRestartDecision::RequireRecovery => LoopxTaskState::RecoveryRequired,
        LoopxRestartDecision::Preserve { state } => state,
    }
}

/// A restart leaves nothing for a second restart to do: the state it produces
/// is one that a restart preserves.
pub proof fn lemma_restart_settles(state: LoopxTaskState)
    ensures
        spec_task_state_after_restart(spec_task_state_after_restart(state))
            == spec_task_state_after_restart(state),
        !spec_task_state_after_restart(state).spec_was_executing_at_shutdown(),
{
}

#[derive(Debug, Clone, Copy, PartialEq, Eq, Structural)]
pub struct LoopxGoalProjection {
    pub state: LoopxTaskState,
    pub phase: LoopxPhase,
}

/// The host projection of an authoritative Goal state.
pub open spec fn spec_project_host_task_from_goal(
    current_state: LoopxTaskState,
    current_phase: LoopxPhase,
    goal_state: LoopxCliGoalState,
) -> LoopxGoalProjection {
    let keep = LoopxGoalProjection { state: current_state, phase: current_phase };
    if current_state == LoopxTaskState::Stopped || current_state == LoopxTaskState::Aborted
        || current_state == LoopxTaskState::Archived || current_state == LoopxTaskState::Running
        || current_state == LoopxTaskState::Cancelling {
        keep
    } else {
        match goal_state {
            LoopxCliGoalState::Completed => LoopxGoalProjection {
                state: LoopxTaskState::Completed,
                phase: LoopxPhase::Finished,
            },
            LoopxCliGoalState::Failed => LoopxGoalProjection {
                state: LoopxTaskState::Failed,
                phase: LoopxPhase::Finished,
            },
            LoopxCliGoalState::Archived => LoopxGoalProjection {
                state: LoopxTaskState::Archived,
                phase: LoopxPhase::Finished,
            },
            LoopxCliGoalState::WaitingForUser => LoopxGoalProjection {
                state: LoopxTaskState::WaitingForUser,
                phase: LoopxPhase::WaitingForApproval,
            },
            LoopxCliGoalState::Active => if current_state == LoopxTaskState::Completed
                || current_state == LoopxTaskState::Failed {
                LoopxGoalProjection {
                    state: LoopxTaskState::RecoveryRequired,
                    phase: LoopxPhase::Recovering,
                }
            } else {
                keep
            },
            LoopxCliGoalState::Unknown => keep,
        }
    }
}

/// Reconcile the local host-job projection with the authoritative LoopX Goal
/// lifecycle. Explicit local operator states and in-flight host work are
/// preserved; terminal or user-gate facts from LoopX replace stale projections.
pub fn project_host_task_from_goal(
    current_state: LoopxTaskState,
    current_phase: LoopxPhase,
    goal_state: LoopxCliGoalState,
) -> (res: LoopxGoalProjection)
    ensures
        res == spec_project_host_task_from_goal(current_state, current_phase, goal_state),
{
    match current_state {
        LoopxTaskState::Stopped | LoopxTaskState::Aborted | LoopxTaskState::Archived
        | LoopxTaskState::Running | LoopxTaskState::Cancelling => {
            return LoopxGoalProjection { state: current_state, phase: current_phase };
        },
        _ => {},
    }
    match goal_state {
        LoopxCliGoalState::Completed => LoopxGoalProjection {
            state: LoopxTaskState::Completed,
            phase: LoopxPhase::Finished,
        },
        LoopxCliGoalState::Failed => LoopxGoalProjection {
            state: LoopxTaskState::Failed,
            phase: LoopxPhase::Finished,
        },
        LoopxCliGoalState::Archived => LoopxGoalProjection {
            state: LoopxTaskState::Archived,
            phase: LoopxPhase::Finished,
        },
        LoopxCliGoalState::WaitingForUser => LoopxGoalProjection {
            state: LoopxTaskState::WaitingForUser,
            phase: LoopxPhase::WaitingForApproval,
        },
        LoopxCliGoalState::Active => {
            if current_state == LoopxTaskState::Completed || current_state
                == LoopxTaskState::Failed {
                LoopxGoalProjection {
                    state: LoopxTaskState::RecoveryRequired,
                    phase: LoopxPhase::Recovering,
                }
            } else {
                LoopxGoalProjection { state: current_state, phase: current_phase }
            }
        },
        LoopxCliGoalState::Unknown => LoopxGoalProjection {
            state: current_state,
            phase: current_phase,
        },
    }
}

#[derive(Debug, Clone, PartialEq, Eq)]
pub enum LoopxDedupDecision {
    CreateAttempt { attempt: u32 },
    OpenExisting { task_id: String },
    RequireExplicitRetry { previous_task_id: String, next_attempt: u32 },
    ClosedNoop,
    NeedsLiveVerification,
}

/// Whether `tasks[i]` is for item `key` (and, with `active_only`, not terminal).
pub open spec fn task_matches(
    tasks: Seq<LoopxExistingTask>,
    key: IssueKeyView,
    active_only: bool,
    i: int,
) -> bool {
    0 <= i < tasks.len() && tasks[i].identity.item@ == key && (!active_only
        || !tasks[i].state.spec_is_terminal())
}

/// `tasks[i]` is the matching task ordered last by attempt, ties going to the
/// later position (what a stable sort by attempt puts last).
pub open spec fn is_last_match(
    tasks: Seq<LoopxExistingTask>,
    key: IssueKeyView,
    active_only: bool,
    i: int,
) -> bool {
    &&& task_matches(tasks, key, active_only, i)
    &&& forall|j: int|
        #![trigger task_matches(tasks, key, active_only, j)]
        task_matches(tasks, key, active_only, j) ==> (tasks[j].identity.attempt
            < tasks[i].identity.attempt || (tasks[j].identity.attempt == tasks[i].identity.attempt
            && j <= i))
}

/// Whether some task matches.
pub open spec fn any_match(tasks: Seq<LoopxExistingTask>, key: IssueKeyView, active_only: bool) -> bool {
    exists|i: int| task_matches(tasks, key, active_only, i)
}

/// The attempt number after `attempt` (saturating, never below one).
pub open spec fn next_attempt(attempt: u32) -> u32 {
    if attempt == u32::MAX {
        u32::MAX
    } else {
        (attempt + 1) as u32
    }
}

/// Finds the last match among `tasks`.
fn last_match(tasks: &[LoopxExistingTask], key: &LoopxIssueKey, active_only: bool) -> (res:
    Option<usize>)
    ensures
        match res {
            Some(i) => is_last_match(tasks@, key@, active_only, i as int),
            None => !any_match(tasks@, key@, active_only),
        },
{
    let mut best: Option<usize> = None;
    let mut i: usize = 0;
    while i < tasks.len()
        invariant
            i <= tasks@.len(),
            match best {
                Some(b) => b < i && task_matches(tasks@, key@, active_only, b as int) && forall|
                    j: int,
                |
                    #![trigger task_matches(tasks@, key@, active_only, j)]
                    0 <= j < i && task_matches(tasks@, key@, active_only, j) ==> (
                    tasks@[j].identity.attempt < tasks@[b as int].identity.attempt || (
                    tasks@[j].identity.attempt == tasks@[b as int].identity.attempt && j <= b)),
                None => forall|j: int|
                    #![trigger task_matches(tasks@, key@, active_only, j)]
                    0 <= j < i ==> !task_matches(tasks@, key@, active_only, j),
            },
        decreases tasks@.len() - i,
    {
        let task = &tasks[i];
        let matches = task.identity.item.same_as(key) && (!active_only || !task.state.is_terminal());
        if matches {
            let replace = match best {
                Some(b) => task.identity.attempt >= tasks[b].identity.attempt,
                None => true,
            };
            if replace {
                best = Some(i);
            }
        }
        i = i + 1;
    }
    best
}

/// What `decide_task_dedup` decides.
pub open spec fn dedup_holds(
    key: IssueKeyView,
    remote_state: LoopxRemoteItemState,
    tasks: Seq<LoopxExistingTask>,
    retry_terminal: bool,
    res: LoopxDedupDecision,
) -> bool {
    if any_match(tasks, key, true) {
        exists|i: int|
            #[trigger] is_last_match(tasks, key, true, i) && res == LoopxDedupDecision::OpenExisting {
                task_id: tasks[i].task_id,
            }
    } else if remote_state == LoopxRemoteItemState::Closed || remote_state
        == LoopxRemoteItemState::Merged {
        res == LoopxDedupDecision::ClosedNoop
    } else if remote_state == LoopxRemoteItemState::Unknown {
        res == LoopxDedupDecision::NeedsLiveVerification
    } else if !any_match(tasks, key, false) {
        res == LoopxDedupDecision::CreateAttempt { attempt: 1 }
    } else if retry_terminal {
        exists|i: int|
            #[trigger] is_last_match(tasks, key, false, i) && res == LoopxDedupDecision::CreateAttempt {
                attempt: next_attempt(tasks[i].identity.attempt),
            }
    } else {
        exists|i: int|
            #[trigger] is_last_match(tasks, key, false, i) && res
                == LoopxDedupDecision::RequireExplicitRetry {
                previous_task_id: tasks[i].task_id,
                next_attempt: next_attempt(tasks[i].identity.attempt),
            }
    }
}

/// Decides how an intake item relates to the existing tasks for it: open the
/// latest active task, skip a resolved item, ask for live verification of an
/// unknown one, or create a (possibly explicitly confirmed) new attempt.
pub fn decide_task_dedup(
    key: &LoopxIssueKey,
    remote_state: LoopxRemoteItemState,
    existing: &[LoopxExistingTask],
    retry_terminal: bool,
) -> (res: LoopxDedupDecision)
    ensures
        dedup_holds(key@, remote_state, existing@, retry_terminal, res),
{
    if let Some(i) = last_match(existing, key, true) {
        let res = LoopxDedupDecision::OpenExisting { task_id: existing[i].task_id.clone() };
        assert(is_last_match(existing@, key@, true, i as int));
        return res;
    }
    if remote_state.is_resolved() {
        return LoopxDedupDecision::ClosedNoop;
    }
    if remote_state == LoopxRemoteItemState::Unknown {
        return LoopxDedupDecision::NeedsLiveVerification;
    }
    match last_match(existing, key, false) {
        None => LoopxDedupDecision::CreateAttempt { attempt: 1 },
        Some(i) => {
            let previous = &existing[i];
            let next = previous.identity.attempt.saturating_add(1);
            let next = if next < 1 {
                1
            } else {
                next
            };
            assert(is_last_match(existing@, key@, false, i as int));
            if retry_terminal {
                LoopxDedupDecision::CreateAttempt { attempt: next }
            } else {
                LoopxDedupDecision::RequireExplicitRetry {
                    previous_task_id: previous.task_id.clone(),
                    next_attempt: next,
                }
            }
        },
    }
}

/// The permission scopes every autonomous issue-fix task needs.
pub const LOOPX_REQUIRED_PERMISSION_SCOPES: [LoopxPermissionScope; 5] = [
    LoopxPermissionScope::WorkspaceRead,
    LoopxPermissionScope::WorkspaceWrite,
    LoopxPermissionScope::GitLocal,
    LoopxPermissionScope::GithubRead,
    LoopxPermissionScope::AgentExecution,
];

/// Membership in the required scope set.
pub open spec fn is_required_scope(scope: LoopxPermissionScope) -> bool {
    scope == LoopxPermissionScope::WorkspaceRead || scope == LoopxPermissionScope::WorkspaceWrite
        || scope == LoopxPermissionScope::GitLocal || scope == LoopxPermissionScope::GithubRead
        || scope == LoopxPermissionScope::AgentExecution
}

/// The required scopes, in order.
pub fn required_permission_scopes() -> (res: Vec<LoopxPermissionScope>)
    ensures
        res@ == seq![
            LoopxPermissionScope::WorkspaceRead,
            LoopxPermissionScope::WorkspaceWrite,
            LoopxPermissionScope::GitLocal,
            LoopxPermissionScope::GithubRead,
            LoopxPermissionScope::AgentExecution,
        ],
        forall|s: LoopxPermissionScope| res@.contains(s) <==> is_required_scope(s),
{
    let res = vec![
        LoopxPermissionScope::WorkspaceRead,
        LoopxPermissionScope::WorkspaceWrite,
        LoopxPermissionScope::GitLocal,
        LoopxPermissionScope::GithubRead,
        LoopxPermissionScope::AgentExecution,
    ];
    assert forall|s: LoopxPermissionScope| res@.contains(s) <==> is_required_scope(s) by {
        if is_required_scope(s) {
            if s == LoopxPermissionScope::WorkspaceRead {
                assert(res@[0] == s);
            } else if s == LoopxPermissionScope::WorkspaceWrite {
                assert(res@[1] == s);
            } else if s == LoopxPermissionScope::GitLocal {
                assert(res@[2] == s);
            } else if s == LoopxPermissionScope::GithubRead {
                assert(res@[3] == s);
            } else {
                assert(res@[4] == s);
            }
        }
    }
    res
}

pub fn intake_scope_is_pregrantable(scope: LoopxPermissionScope) -> (res: bool)
    ensures
        res == is_required_scope(scope),
{
    match scope {
        LoopxPermissionScope::WorkspaceRead | LoopxPermissionScope::WorkspaceWrite
        | LoopxPermissionScope::GitLocal | LoopxPermissionScope::GithubRead
        | LoopxPermissionScope::AgentExecution => true,
        _ => false,
    }
}

pub(crate) fn scope_granted(granted: &[LoopxPermissionScope], scope: LoopxPermissionScope) -> (res: bool)
    ensures
        res == granted@.contains(scope),
{
    let mut i: usize = 0;
    while i < granted.len()
        invariant
            i <= granted@.len(),
            forall|j: int| 0 <= j < i ==> granted@[j] != scope,
        decreases granted@.len() - i,
    {
        if granted[i] == scope {
            assert(granted@[i as int] == scope);
            return true;
        }
        i = i + 1;
    }
    false
}

pub fn required_permission_scopes_are_granted(granted: &[LoopxPermissionScope]) -> (res: bool)
    ensures
        res == forall|s: LoopxPermissionScope| is_required_scope(s) ==> granted@.contains(s),
{
    let a = scope_granted(granted, LoopxPermissionScope::WorkspaceRead);
    let b = scope_granted(granted, LoopxPermissionScope::WorkspaceWrite);
    let c = scope_granted(granted, LoopxPermissionScope::GitLocal);
    let d = scope_granted(granted, LoopxPermissionScope::GithubRead);
    let e = scope_granted(granted, LoopxPermissionScope::AgentExecution);
    proof {
        if !a {
            assert(is_required_scope(LoopxPermissionScope::WorkspaceRead));
        } else if !b {
            assert(is_required_scope(LoopxPermissionScope::WorkspaceWrite));
        } else if !c {
            assert(is_required_scope(LoopxPermissionScope::GitLocal));
        } else if !d {
            assert(is_required_scope(LoopxPermissionScope::GithubRead));
        } else if !e {
            assert(is_required_scope(LoopxPermissionScope::AgentExecution));
        }
    }
    a && b && c && d && e
}

/// The four core environment statuses.
pub open spec fn core_statuses(core: LoopxCoreEnvironmentFacts) -> Seq<LoopxEnvironmentFactStatus> {
    seq![
        core.sidecar.status,
        core.git_worktree.status,
        core.agent_model.status,
        core.node_runtime.status,
    ]
}

/// The overall environment status: a checking core fact wins, then an
/// unavailable core fact blocks, then an unknown core fact, then a degraded
/// one; with a healthy core, a degraded or unavailable optional fact degrades.
pub open spec fn spec_environment_status(
    core: LoopxCoreEnvironmentFacts,
    optional: LoopxOptionalEnvironmentFacts,
) -> LoopxEnvironmentStatus {
    let c = core_statuses(core);
    if c.contains(LoopxEnvironmentFactStatus::Checking) {
        LoopxEnvironmentStatus::Checking
    } else if c.contains(LoopxEnvironmentFactStatus::Unavailable) {
        LoopxEnvironmentStatus::Blocked
    } else if c.contains(LoopxEnvironmentFactStatus::Unknown) {
        LoopxEnvironmentStatus::Unknown
    } else if c.contains(LoopxEnvironmentFactStatus::Degraded) {
        LoopxEnvironmentStatus::Degraded
    } else if optional.python_fallback.status == LoopxEnvironmentFactStatus::Degraded
        || optional.python_fallback.status == LoopxEnvironmentFactStatus::Unavailable
        || optional.github_auth.status == LoopxEnvironmentFactStatus::Degraded
        || optional.github_auth.status == LoopxEnvironmentFactStatus::Unavailable {
        LoopxEnvironmentStatus::Degraded
    } else {
        LoopxEnvironmentStatus::Ready
    }
}

fn core_has(core: &LoopxCoreEnvironmentFacts, status: LoopxEnvironmentFactStatus) -> (res: bool)
    ensures
        res == core_statuses(*core).contains(status),
{
    let ghost c = core_statuses(*core);
    let r = core.sidecar.status == status || core.git_worktree.status == status
        || core.agent_model.status == status || core.node_runtime.status == status;
    if r {
        if core.sidecar.status == status {
            assert(c[0] == status);
        } else if core.git_worktree.status == status {
            assert(c[1] == status);
        } else if core.agent_model.status == status {
            assert(c[2] == status);
        } else {
            assert(c[3] == status);
        }
    }
    r
}

pub fn derive_environment_status(
    core: &LoopxCoreEnvironmentFacts,
    optional: &LoopxOptionalEnvironmentFacts,
) -> (res: LoopxEnvironmentStatus)
    ensures
        res == spec_environment_status(*core, *optional),
{
    if core_has(core, LoopxEnvironmentFactStatus::Checking) {
        return LoopxEnvironmentStatus::Checking;
    }
    if core_has(core, LoopxEnvironmentFactStatus::Unavailable) {
        return LoopxEnvironmentStatus::Blocked;
    }
    if core_has(core, LoopxEnvironmentFactStatus::Unknown) {
        return LoopxEnvironmentStatus::Unknown;
    }
    if core_has(core, LoopxEnvironmentFactStatus::Degraded) {
        return LoopxEnvironmentStatus::Degraded;
    }
    let p = optional.python_fallback.status;
    let g = optional.github_auth.status;
    if p == LoopxEnvironmentFactStatus::Degraded || p == LoopxEnvironmentFactStatus::Unavailable
        || g == LoopxEnvironmentFactStatus::Degraded || g
        == LoopxEnvironmentFactStatus::Unavailable {
        LoopxEnvironmentStatus::Degraded
    } else {
        LoopxEnvironmentStatus::Ready
    }
}

/// Idempotency first, then the optimistic revision check.
pub open spec fn spec_action_status(
    client_request_already_applied: bool,
    expected_revision: u64,
    current_revision: u64,
) -> LoopxActionStatus {
    if client_request_already_applied {
        LoopxActionStatus::Duplicate
    } else if expected_revision != current_revision {
        LoopxActionStatus::RevisionConflict
    } else {
        LoopxActionStatus::Applied
    }
}

pub fn decide_action_status(
    client_request_already_applied: bool,
    expected_revision: u64,
    current_revision: u64,
) -> (res: LoopxActionStatus)
    ensures
        res == spec_action_status(client_request_already_applied, expected_revision, current_revision),
{
    if client_request_already_applied {
        LoopxActionStatus::Duplicate
    } else if expected_revision != current_revision {
        LoopxActionStatus::RevisionConflict
    } else {
        LoopxActionStatus::Applied
    }
}

/// A page is current only on the same stream, for a cursor not past the latest
/// one and not before the oldest retained event (a gap forces a snapshot).
pub open spec fn spec_events_page_status(
    current_stream_id: Seq<char>,
    requested_stream_id: Seq<char>,
    after_cursor: u64,
    oldest_retained_cursor: Option<u64>,
    latest_cursor: u64,
) -> LoopxEventsPageStatus {
    if current_stream_id != requested_stream_id || after_cursor > latest_cursor {
        LoopxEventsPageStatus::SnapshotRequired
    } else if oldest_retained_cursor matches Some(oldest) && (if after_cursor == u64::MAX {
        u64::MAX as int
    } else {
        after_cursor + 1
    }) < oldest {
        LoopxEventsPageStatus::SnapshotRequired
    } else {
        LoopxEventsPageStatus::Current
    }
}

pub fn decide_events_page_status(
    current_stream_id: &str,
    requested_stream_id: &str,
    after_cursor: u64,
    oldest_retained_cursor: Option<u64>,
    latest_cursor: u64,
) -> (res: LoopxEventsPageStatus)
    ensures
        res == spec_events_page_status(
            current_stream_id@,
            requested_stream_id@,
            after_cursor,
            oldest_retained_cursor,
            latest_cursor,
        ),
{
    if !str_eq(current_stream_id, requested_stream_id) || after_cursor > latest_cursor {
        return LoopxEventsPageStatus::SnapshotRequired;
    }
    if let Some(oldest) = oldest_retained_cursor {
        if after_cursor.saturating_add(1) < oldest {
            return LoopxEventsPageStatus::SnapshotRequired;
        }
    }
    LoopxEventsPageStatus::Current
}


// ---------------------------------------------------------------------------
// Laws of the task lifecycle.
// ---------------------------------------------------------------------------

/// The permitted lifecycle moves between two distinct states, as a table of
/// (from, to) pairs.
pub open spec fn permitted_transitions() -> Set<(LoopxTaskState, LoopxTaskState)> {
    set![
        (LoopxTaskState::Preparing, LoopxTaskState::Queued),
        (LoopxTaskState::Preparing, LoopxTaskState::Cancelling),
        (LoopxTaskState::Preparing, LoopxTaskState::RecoveryRequired),
        (LoopxTaskState::Preparing, LoopxTaskState::Failed),
        (LoopxTaskState::Queued, LoopxTaskState::Running),
        (LoopxTaskState::Queued, LoopxTaskState::Cancelling),
        (LoopxTaskState::Queued, LoopxTaskState::RecoveryRequired),
        (LoopxTaskState::Queued, LoopxTaskState::Failed),
        (LoopxTaskState::Running, LoopxTaskState::Queued),
        (LoopxTaskState::Running, LoopxTaskState::WaitingForUser),
        (LoopxTaskState::Running, LoopxTaskState::Cancelling),
        (LoopxTaskState::Running, LoopxTaskState::RecoveryRequired),
        (LoopxTaskState::Running, LoopxTaskState::Completed),
        (LoopxTaskState::Running, LoopxTaskState::Failed),
        (LoopxTaskState::WaitingForUser, LoopxTaskState::Queued),
        (LoopxTaskState::WaitingForUser, LoopxTaskState::Cancelling),
        (LoopxTaskState::WaitingForUser, LoopxTaskState::RecoveryRequired),
        (LoopxTaskState::WaitingForUser, LoopxTaskState::Failed),
        (LoopxTaskState::Cancelling, LoopxTaskState::Stopped),
        (LoopxTaskState::Cancelling, LoopxTaskState::Aborted),
        (LoopxTaskState::Cancelling, LoopxTaskState::RecoveryRequired),
        (LoopxTaskState::Cancelling, LoopxTaskState::Failed),
        (LoopxTaskState::Stopped, LoopxTaskState::Queued),
        (LoopxTaskState::Stopped, LoopxTaskState::Archived),
        (LoopxTaskState::Failed, LoopxTaskState::Queued),
        (LoopxTaskState::Failed, LoopxTaskState::Archived),
        (LoopxTaskState::Aborted, LoopxTaskState::Archived),
        (LoopxTaskState::RecoveryRequired, LoopxTaskState::Queued),
        (LoopxTaskState::RecoveryRequired, LoopxTaskState::Stopped),
        (LoopxTaskState::RecoveryRequired, LoopxTaskState::Failed),
        (LoopxTaskState::Completed, LoopxTaskState::Archived),
        (LoopxTaskState::Archived, LoopxTaskState::RecoveryRequired),
    ]
}

/// Every transition decision follows the table: staying put is no change, a
/// listed move is allowed to its target, and any other move is rejected.
pub proof fn lemma_transition_decision_follows_table(current: LoopxTaskState, next: LoopxTaskState)
    ensures
        spec_decide_task_transition(current, next) == (if current == next {
            LoopxTransitionDecision::NoChange
        } else if permitted_transitions().contains((current, next)) {
            LoopxTransitionDecision::Allowed { next }
        } else {
            LoopxTransitionDecision::Rejected
        }),
{
    let t = permitted_transitions();
    if current != next {
        assert(transition_allowed(current, next) == t.contains((current, next)));
    }
}

/// Only a queued task may start running: the move to `Running` is allowed
/// from `Queued` and rejected from every other state.
pub proof fn lemma_only_queued_tasks_start_running(current: LoopxTaskState)
    ensures
        current == LoopxTaskState::Queued ==> spec_decide_task_transition(current, LoopxTaskState::Running)
            == (LoopxTransitionDecision::Allowed { next: LoopxTaskState::Running }),
        current != LoopxTaskState::Queued && current != LoopxTaskState::Running
            ==> spec_decide_task_transition(current, LoopxTaskState::Running)
            == LoopxTransitionDecision::Rejected,
{
}

/// Whether the host holds the task's state against the Goal: an operator
/// stop, abort or archive, or host work in flight.
pub open spec fn held_by_host(state: LoopxTaskState) -> bool {
    state == LoopxTaskState::Stopped || state == LoopxTaskState::Aborted || state
        == LoopxTaskState::Archived || state == LoopxTaskState::Running || state
        == LoopxTaskState::Cancelling
}

/// Projection keeps what the host holds, and otherwise lets the Goal's
/// terminal and user-gate facts replace the task's state: a completed, failed
/// or archived Goal finishes the task in the matching state, and a Goal
/// waiting for the user makes the task wait for approval.
pub proof fn lemma_goal_facts_replace_projection(
    current_state: LoopxTaskState,
    current_phase: LoopxPhase,
    goal_state: LoopxCliGoalState,
)
    ensures
        held_by_host(current_state) ==> spec_project_host_task_from_goal(current_state, current_phase, goal_state)
            == (LoopxGoalProjection { state: current_state, phase: current_phase }),
        !held_by_host(current_state) && goal_state == LoopxCliGoalState::Failed
            ==> spec_project_host_task_from_goal(current_state, current_phase, goal_state)
            == (LoopxGoalProjection { state: LoopxTaskState::Failed, phase: LoopxPhase::Finished }),
        !held_by_host(current_state) && goal_state == LoopxCliGoalState::Completed
            ==> spec_project_host_task_from_goal(current_state, current_phase, goal_state)
            == (LoopxGoalProjection { state: LoopxTaskState::Completed, phase: LoopxPhase::Finished }),
        !held_by_host(current_state) && goal_state == LoopxCliGoalState::Archived
            ==> spec_project_host_task_from_goal(current_state, current_phase, goal_state)
            == (LoopxGoalProjection { state: LoopxTaskState::Archived, phase: LoopxPhase::Finished }),
        !held_by_host(current_state) && goal_state == LoopxCliGoalState::WaitingForUser
            ==> spec_project_host_task_from_goal(current_state, current_phase, goal_state)
            == (LoopxGoalProjection {
                state: LoopxTaskState::WaitingForUser,
                phase: LoopxPhase::WaitingForApproval,
            }),
        goal_state == LoopxCliGoalState::Unknown ==> spec_project_host_task_from_goal(
            current_state,
            current_phase,
            goal_state,
        ) == (LoopxGoalProjection { state: current_state, phase: current_phase }),
        goal_state == LoopxCliGoalState::Active && (current_state == LoopxTaskState::Completed
            || current_state == LoopxTaskState::Failed) ==> spec_project_host_task_from_goal(
            current_state,
            current_phase,
            goal_state,
        ) == (LoopxGoalProjection {
            state: LoopxTaskState::RecoveryRequired,
            phase: LoopxPhase::Recovering,
        }),
        goal_state == LoopxCliGoalState::Active && current_state != LoopxTaskState::Completed
            && current_state != LoopxTaskState::Failed ==> spec_project_host_task_from_goal(
            current_state,
            current_phase,
            goal_state,
        ) == (LoopxGoalProjection { state: current_state, phase: current_phase }),
{
}

} // verus!
