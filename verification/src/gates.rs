//! User gates: the requests that answer them, what the host does with a goal
//! that waits for the owner, the texts of automatic answers, and the task
//! fields a gate leaves behind.

use vstd::prelude::*;

use crate::host::{
    bound_workspace_missing, is_read_only_user_gate, is_reuse_merge_user_gate, opt_string,
    spec_read_only_gate, spec_reuse_merge_gate, DEFAULT_AGENT_ID,
};
use crate::lifecycle::next_revision;
use crate::ports::{
    LoopxCliAnswerGateRequest, LoopxCliCallContext, LoopxCliGateDecision, LoopxCliGoalContext,
    LoopxCliGoalSnapshot, LoopxCliUserGate,
};
use crate::store::LoopxTaskRuntimeRecord;
use crate::text::{copy_opt_string, copy_strings, push_str};
use crate::types::{
    LoopxActionKind, LoopxActionRequest, LoopxActionResponse, LoopxActionStatus,
    LoopxRepositoryKey, LoopxPhase, LoopxTaskSnapshot, LoopxTaskState,
};

verus! {

// ---------------------------------------------------------------------------
// Answer requests.
// ---------------------------------------------------------------------------

/// The context of a CLI call about a task's goal.
pub open spec fn goal_context_of(
    ctx: LoopxCliGoalContext,
    task: LoopxTaskSnapshot,
    runtime: LoopxTaskRuntimeRecord,
    capabilities: Seq<String>,
) -> bool {
    &&& ctx.call.operation_id == runtime.operation_id
    &&& ctx.call.deadline_at == task.deadline_at
    &&& ctx.task_id == task.task_id
    &&& ctx.generation == task.generation
    &&& ctx.worktree_path@ == (match task.workspace_path {
        Some(p) => p@,
        None => Seq::<char>::empty(),
    })
    &&& ctx.registry_path == runtime.registry_path
    &&& ctx.available_capabilities@ == capabilities
}

/// The context of a CLI call about a task's goal: the task's operation and
/// deadline, its generation, worktree and registry, and the agent's
/// capabilities.
pub fn goal_context(
    task: &LoopxTaskSnapshot,
    runtime: &LoopxTaskRuntimeRecord,
    capabilities: &Vec<String>,
) -> (res: LoopxCliGoalContext)
    ensures
        goal_context_of(res, *task, *runtime, capabilities@),
{
    LoopxCliGoalContext {
        call: LoopxCliCallContext {
            operation_id: runtime.operation_id.clone(),
            deadline_at: task.deadline_at,
        },
        task_id: task.task_id.clone(),
        generation: task.generation,
        worktree_path: match &task.workspace_path {
            Some(p) => p.clone(),
            None => String::new(),
        },
        registry_path: runtime.registry_path.clone(),
        available_capabilities: copy_strings(capabilities),
    }
}

/// The goal and agent a gate answer is about: the task's, the default agent
/// when it has none.
pub open spec fn answers_for(req: LoopxCliAnswerGateRequest, task: LoopxTaskSnapshot) -> bool {
    &&& req.goal_id@ == (match task.goal_id {
        Some(g) => g@,
        None => Seq::<char>::empty(),
    })
    &&& req.agent_id@ == (match task.agent_id {
        Some(a) => a@,
        None => DEFAULT_AGENT_ID@,
    })
    &&& req.granted_scope is None
}

fn goal_and_agent(task: &LoopxTaskSnapshot) -> (res: (String, String))
    ensures
        res.0@ == (match task.goal_id {
            Some(g) => g@,
            None => Seq::<char>::empty(),
        }),
        res.1@ == (match task.agent_id {
            Some(a) => a@,
            None => DEFAULT_AGENT_ID@,
        }),
{
    let goal_id = match &task.goal_id {
        Some(g) => g.clone(),
        None => String::new(),
    };
    let agent_id = match &task.agent_id {
        Some(a) => a.clone(),
        None => DEFAULT_AGENT_ID.to_owned(),
    };
    (goal_id, agent_id)
}

/// The error when the task's workspace directory is gone.
pub open spec fn missing_workspace_message() -> Seq<char> {
    "LoopX workspace is missing for this \
    task; it will be re-prepared on the next run — retry the approval after the task leaves recovery and re-raises the \
    gate"@
}

/// The CLI request for an owner's gate answer. A task whose workspace
/// directory is gone cannot answer (its next run re-prepares the workspace
/// and its gate comes back), and the answer must name its gate.
pub fn answer_gate_request(
    task: &LoopxTaskSnapshot,
    runtime: &LoopxTaskRuntimeRecord,
    capabilities: &Vec<String>,
    request: &LoopxActionRequest,
    workspace_exists: bool,
) -> (res: Result<LoopxCliAnswerGateRequest, String>)
    ensures
        task.workspace_path is Some && !workspace_exists ==> (res matches Err(e) && e@
            == missing_workspace_message()),
        !(task.workspace_path is Some && !workspace_exists) && request.gate_id is None ==> (res matches Err(
            e,
        ) && e@ == "gateId is required"@),
        !(task.workspace_path is Some && !workspace_exists) && request.gate_id is Some ==> (
        res matches Ok(r) && {
            &&& goal_context_of(r.context, *task, *runtime, capabilities@)
            &&& answers_for(r, *task)
            &&& Some(r.gate_id) == request.gate_id
            &&& r.decision == (if request.action == LoopxActionKind::Approve {
                LoopxCliGateDecision::Approve
            } else {
                LoopxCliGateDecision::Reject
            })
            &&& r.note == request.note
        }),
{
    if bound_workspace_missing(task, workspace_exists) {
        return Err(
            "LoopX workspace is missing for this \
    task; it will be re-prepared on the next run — retry the approval after the task leaves recovery and re-raises the \
    gate".to_owned(),
        );
    }
    let gate_id = match &request.gate_id {
        None => return Err("gateId is required".to_owned()),
        Some(g) => g.clone(),
    };
    let (goal_id, agent_id) = goal_and_agent(task);
    Ok(
        LoopxCliAnswerGateRequest {
            context: goal_context(task, runtime, capabilities),
            goal_id,
            agent_id,
            gate_id,
            decision: if request.action == LoopxActionKind::Approve {
                LoopxCliGateDecision::Approve
            } else {
                LoopxCliGateDecision::Reject
            },
            note: copy_opt_string(&request.note),
            granted_scope: None,
        },
    )
}

/// The CLI request for an automatic gate answer, with the host's note.
pub fn auto_answer_request(
    task: &LoopxTaskSnapshot,
    runtime: &LoopxTaskRuntimeRecord,
    capabilities: &Vec<String>,
    gate: &LoopxCliUserGate,
    decision: LoopxCliGateDecision,
    note: String,
) -> (res: LoopxCliAnswerGateRequest)
    ensures
        goal_context_of(res.context, *task, *runtime, capabilities@),
        answers_for(res, *task),
        res.gate_id == gate.gate_id,
        res.decision == decision,
        res.note == Some(note),
{
    let (goal_id, agent_id) = goal_and_agent(task);
    LoopxCliAnswerGateRequest {
        context: goal_context(task, runtime, capabilities),
        goal_id,
        agent_id,
        gate_id: gate.gate_id.clone(),
        decision,
        note: Some(note),
        granted_scope: None,
    }
}

/// The answer when LoopX did not apply an owner's gate decision.
pub fn unapplied_answer_response(task: &LoopxTaskSnapshot) -> (res: LoopxActionResponse)
    ensures
        res.status == LoopxActionStatus::Rejected,
        res.current_revision == task.revision,
        res.task matches Some(t) && t.same_as(*task),
        res.message matches Some(m) && m@ == "LoopX did not apply the \
    gate decision"@,
{
    LoopxActionResponse {
        status: LoopxActionStatus::Rejected,
        current_revision: task.revision,
        task: Some(task.copy()),
        message: Some("LoopX did not apply the \
    gate decision".to_owned()),
    }
}

/// Records an applied gate answer on the task's current generation: a new
/// revision and the durable revision LoopX reported; an automatic answer also
/// clears the task's gate.
pub fn record_gate_answer_state(
    task: &mut LoopxTaskSnapshot,
    runtime: &mut LoopxTaskRuntimeRecord,
    generation: u64,
    durable_revision: String,
    clear_gate: bool,
)
    ensures
        old(task).generation != generation ==> *final(task) == *old(task) && *final(runtime)
            == *old(runtime),
        old(task).generation == generation ==> {
            &&& *final(task) == (if clear_gate {
                LoopxTaskSnapshot {
                    revision: next_revision(old(task).revision),
                    pending_gate_id: None,
                    pending_gate_message: None,
                    pending_gate_action_kind: None,
                    ..*old(task)
                }
            } else {
                LoopxTaskSnapshot { revision: next_revision(old(task).revision), ..*old(task) }
            })
            &&& *final(runtime) == (LoopxTaskRuntimeRecord {
                expected_durable_revision: Some(durable_revision),
                ..*old(runtime)
            })
        },
{
    if task.generation != generation {
        return;
    }
    task.revision = task.revision.saturating_add(1);
    if clear_gate {
        task.pending_gate_id = None;
        task.pending_gate_message = None;
        task.pending_gate_action_kind = None;
    }
    runtime.expected_durable_revision = Some(durable_revision);
}

// ---------------------------------------------------------------------------
// A goal that waits for the owner.
// ---------------------------------------------------------------------------

/// What the host does with a goal that waits for the user.
#[derive(Debug, Clone, Copy, PartialEq, Eq, Structural)]
pub enum LoopxWaitingRoute {
    /// No typed gate: the owner acts outside the host; park the task.
    ParkForOwnerAction,
    /// A read-only gate: approve it automatically.
    AutoApprove,
    /// A merge gate on a reused pull request: ask whether the viewer may merge.
    ProbeMergeAuthority,
    /// Show it to the owner.
    Surface,
}

pub open spec fn spec_waiting_route(goal: LoopxCliGoalSnapshot, auto_approve_failed: bool) -> LoopxWaitingRoute {
    match goal.pending_user_gate {
        None => LoopxWaitingRoute::ParkForOwnerAction,
        Some(g) => if spec_read_only_gate(opt_string(g.action_kind)) && !auto_approve_failed {
            LoopxWaitingRoute::AutoApprove
        } else if spec_reuse_merge_gate(opt_string(g.action_kind), g.message@) {
            LoopxWaitingRoute::ProbeMergeAuthority
        } else {
            LoopxWaitingRoute::Surface
        },
    }
}

/// The route of a waiting goal; `auto_approve_failed` asks again after an
/// automatic approval that did not go through.
pub fn waiting_route(goal: &LoopxCliGoalSnapshot, auto_approve_failed: bool) -> (res: LoopxWaitingRoute)
    ensures
        res == spec_waiting_route(*goal, auto_approve_failed),
{
    match &goal.pending_user_gate {
        None => LoopxWaitingRoute::ParkForOwnerAction,
        Some(g) => {
            let kind = match &g.action_kind {
                Some(k) => Some(k.as_str()),
                None => None,
            };
            if is_read_only_user_gate(kind) && !auto_approve_failed {
                LoopxWaitingRoute::AutoApprove
            } else if is_reuse_merge_user_gate(kind, g.message.as_str()) {
                LoopxWaitingRoute::ProbeMergeAuthority
            } else {
                LoopxWaitingRoute::Surface
            }
        },
    }
}

/// A merge gate is rejected automatically only when the viewer is known to
/// have no merge authority; an unknown authority leaves it to the owner.
pub fn merge_gate_auto_rejects(merge_authority: Option<bool>) -> (res: bool)
    ensures
        res == (merge_authority == Some(false)),
{
    match merge_authority {
        Some(false) => true,
        _ => false,
    }
}

/// The note of an automatic read-only approval.
pub fn read_only_approval_note() -> (res: String)
    ensures
        res@ == "Auto-approved by BitFun: read-only public issue metadata access."@,
{
    "Auto-approved by BitFun: read-only public issue metadata access.".to_owned()
}

/// The event of an automatic read-only approval.
pub fn read_only_approval_event(gate_message: &str) -> (res: String)
    ensures
        res@ == "Read-only user gate auto-approved by BitFun: "@ + gate_message@,
{
    let mut res = String::new();
    push_str(&mut res, "Read-only user gate auto-approved by BitFun: ");
    push_str(&mut res, gate_message);
    proof {
        reveal_strlit("Read-only user gate auto-approved by BitFun: ");
    }
    res
}

/// The note of an automatic merge-gate rejection.
pub open spec fn merge_rejection_note_text(label: Seq<char>) -> Seq<char> {
    "Auto-rejected by BitFun: the authenticated GitHub identity has no merge authority for "@
        + label
        + "; the agent must propose an alternative route (track the upstream PR, or an independent patch)."@
}

pub fn merge_rejection_note(repository: &LoopxRepositoryKey) -> (res: String)
    ensures
        res@ == merge_rejection_note_text(repository@.label()),
{
    let mut res = String::new();
    push_str(&mut res, "Auto-rejected by BitFun: the authenticated GitHub identity has no merge authority for ");
    push_str(&mut res, repository.label().as_str());
    push_str(
        &mut res,
        "; the agent must propose an alternative route (track the upstream PR, or an independent patch).",
    );
    proof {
        reveal_strlit("Auto-rejected by BitFun: the authenticated GitHub identity has no merge authority for ");
        reveal_strlit(
            "; the agent must propose an alternative route (track the upstream PR, or an independent patch).",
        );
    }
    res
}

/// The event of an automatic merge-gate rejection.
pub open spec fn merge_rejection_event_text(label: Seq<char>, pr_label: Seq<char>) -> Seq<char> {
    "Merge gate auto-rejected: no merge authority for "@ + label + " ("@ + pr_label
        + "); the agent will need an alternative route"@
}

pub fn merge_rejection_event(repository: &LoopxRepositoryKey, pr_label: &str) -> (res: String)
    ensures
        res@ == merge_rejection_event_text(repository@.label(), pr_label@),
{
    let mut res = String::new();
    push_str(&mut res, "Merge gate auto-rejected: no merge authority for ");
    push_str(&mut res, repository.label().as_str());
    push_str(&mut res, " (");
    push_str(&mut res, pr_label);
    push_str(&mut res, "); the agent will need an alternative route");
    proof {
        reveal_strlit("Merge gate auto-rejected: no merge authority for ");
        reveal_strlit(" (");
        reveal_strlit("); the agent will need an alternative route");
    }
    res
}

/// What the task shows while the goal waits on an owner action outside the
/// host, with LoopX's summary of it when there is one.
pub open spec fn owner_action_text(summary: Option<Seq<char>>) -> Seq<char> {
    match summary {
        Some(text) => "LoopX is waiting for an owner action outside this host: "@ + text
            + ". Finish that action (for example review or merge the pull request on GitHub); the task continues when the goal gains new work, or use Resume after acting."@,
        None => "LoopX is waiting for an owner action outside this host. Finish the pending owner decision on the external surface (for example GitHub); the task continues when the goal gains new work, or use Resume after acting."@,
    }
}

pub fn owner_action_message(summary: Option<&str>) -> (res: String)
    ensures
        res@ == owner_action_text(match summary {
            Some(s) => Some(s@),
            None => None,
        }),
{
    match summary {
        Some(text) => {
            let mut res = String::new();
            push_str(&mut res, "LoopX is waiting for an owner action outside this host: ");
            push_str(&mut res, text);
            push_str(
                &mut res,
                ". Finish that action (for example review or merge the pull request on GitHub); the task continues when the goal gains new work, or use Resume after acting.",
            );
            proof {
                reveal_strlit("LoopX is waiting for an owner action outside this host: ");
                reveal_strlit(
                    ". Finish that action (for example review or merge the pull request on GitHub); the task continues when the goal gains new work, or use Resume after acting.",
                );
            }
            res
        },
        None => "LoopX is waiting for an owner action outside this host. Finish the pending owner decision on the external surface (for example GitHub); the task continues when the goal gains new work, or use Resume after acting.".to_owned(),
    }
}

/// Parks the task's current generation on an owner action outside the host:
/// it waits for the user with the message and no answerable gate.
pub fn park_for_owner_action_state(task: &mut LoopxTaskSnapshot, generation: u64, message: String)
    ensures
        old(task).generation != generation ==> *final(task) == *old(task),
        old(task).generation == generation ==> *final(task) == (LoopxTaskSnapshot {
            state: LoopxTaskState::WaitingForUser,
            phase: LoopxPhase::WaitingForApproval,
            pending_gate_id: None,
            pending_gate_message: Some(message),
            pending_gate_action_kind: None,
            revision: next_revision(old(task).revision),
            ..*old(task)
        }),
{
    if task.generation != generation {
        return;
    }
    task.state = LoopxTaskState::WaitingForUser;
    task.phase = LoopxPhase::WaitingForApproval;
    task.pending_gate_id = None;
    task.pending_gate_message = Some(message);
    task.pending_gate_action_kind = None;
    task.revision = task.revision.saturating_add(1);
}

// ---------------------------------------------------------------------------
// A gate raised while a turn runs.
// ---------------------------------------------------------------------------

/// The task already shows that gate (or shows none when there is none).
pub open spec fn gate_shown(task: LoopxTaskSnapshot, gate: Option<LoopxCliUserGate>) -> bool {
    match gate {
        None => task.pending_gate_id is None && task.pending_gate_message is None
            && task.pending_gate_action_kind is None,
        Some(g) => opt_string(task.pending_gate_id) == Some(g.gate_id@) && opt_string(
            task.pending_gate_message,
        ) == Some(g.message@) && opt_string(task.pending_gate_action_kind) == opt_string(
            g.action_kind,
        ),
    }
}

fn opt_text_eq(a: &Option<String>, b: Option<&String>) -> (res: bool)
    ensures
        res == (opt_string(*a) == match b {
            Some(s) => Some(s@),
            None => None::<Seq<char>>,
        }),
{
    match (a, b) {
        (None, None) => true,
        (Some(x), Some(y)) => crate::text::str_eq(x.as_str(), y.as_str()),
        _ => false,
    }
}

/// Whether the task already shows a gate LoopX reports during a turn.
pub fn concurrent_gate_shown(task: &LoopxTaskSnapshot, gate: Option<&LoopxCliUserGate>) -> (res: bool)
    ensures
        res == gate_shown(*task, match gate {
            Some(g) => Some(*g),
            None => None,
        }),
{
    match gate {
        None => task.pending_gate_id.is_none() && task.pending_gate_message.is_none()
            && task.pending_gate_action_kind.is_none(),
        Some(g) => opt_text_eq(&task.pending_gate_id, Some(&g.gate_id)) && opt_text_eq(
            &task.pending_gate_message,
            Some(&g.message),
        ) && opt_text_eq(
            &task.pending_gate_action_kind,
            match &g.action_kind {
                Some(k) => Some(k),
                None => None,
            },
        ),
    }
}

/// Shows a gate LoopX reports during a turn on the task's current
/// generation (or clears the shown one), with a new revision.
pub fn show_concurrent_gate_state(
    task: &mut LoopxTaskSnapshot,
    generation: u64,
    gate: Option<&LoopxCliUserGate>,
)
    ensures
        old(task).generation != generation ==> *final(task) == *old(task),
        old(task).generation == generation ==> *final(task) == (match gate {
            Some(g) => LoopxTaskSnapshot {
                pending_gate_id: Some(g.gate_id),
                pending_gate_message: Some(g.message),
                pending_gate_action_kind: g.action_kind,
                revision: next_revision(old(task).revision),
                ..*old(task)
            },
            None => LoopxTaskSnapshot {
                pending_gate_id: None,
                pending_gate_message: None,
                pending_gate_action_kind: None,
                revision: next_revision(old(task).revision),
                ..*old(task)
            },
        }),
{
    if task.generation != generation {
        return;
    }
    match gate {
        Some(g) => {
            task.pending_gate_id = Some(g.gate_id.clone());
            task.pending_gate_message = Some(g.message.clone());
            task.pending_gate_action_kind = copy_opt_string(&g.action_kind);
        },
        None => {
            task.pending_gate_id = None;
            task.pending_gate_message = None;
            task.pending_gate_action_kind = None;
        },
    }
    task.revision = task.revision.saturating_add(1);
}

/// The event of an automatic read-only approval right after a settlement.
pub fn read_only_approval_after_settlement_event(gate_message: &str) -> (res: String)
    ensures
        res@ == "Read-only user gate auto-approved by BitFun after settlement: "@ + gate_message@,
{
    let mut res = String::new();
    push_str(&mut res, "Read-only user gate auto-approved by BitFun after settlement: ");
    push_str(&mut res, gate_message);
    proof {
        reveal_strlit("Read-only user gate auto-approved by BitFun after settlement: ");
    }
    res
}

} // verus!
