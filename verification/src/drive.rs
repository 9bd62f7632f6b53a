//! Driving a queued task up to its goal: whether a drive goes ahead, the
//! workspace, plan and goal requests it sends, and what the MiniApp is told
//! when it follows the output of a running turn.

use vstd::prelude::*;

use crate::gates::{goal_context, goal_context_of};
use crate::host::{bounded_agent_summary, goal_id_for, spec_bounded_summary, spec_goal_id, DEFAULT_AGENT_ID};
use crate::lifecycle::next_revision;
use crate::summary::{parse_structured_summary, spec_parse_structured_summary};
use crate::lifecycle::LoopxDriveStep;
use crate::ports::{
    LoopxAgentOutputSinceResult, LoopxAgentTurnStatus, LoopxCliBuildTurnRequest, LoopxCliError,
    LoopxCliErrorKind, LoopxCliInspectGoalRequest, LoopxCliSettleTurnRequest, LoopxCliCreateGoalRequest, LoopxCliIntakePlan,
    LoopxCliPlanItemRequest, LoopxHostPortError, LoopxWorkspacePrepareRequest,
    LoopxWorkspacePrepareResult,
};
use crate::store::LoopxTaskRuntimeRecord;
use crate::text::{
    chars_of, copy_opt_string, copy_strings, decimal, push_decimal, push_str, str_eq,
    string_from_chars, trim, trim_chars,
};
use crate::types::{
    copy_scopes, LoopxPhase, LoopxTaskSnapshot, LoopxTaskState, LoopxTurnOutputSinceRequest,
    LoopxTurnOutputSinceResponse, LoopxTurnOutputStatus,
};

verus! {

// ---------------------------------------------------------------------------
// Preparing a task.
// ---------------------------------------------------------------------------

/// A queued drive goes ahead only while the suite runs, and only for a task
/// that is preparing or queued.
pub fn drive_proceeds(suspended: bool, state: LoopxTaskState) -> (res: bool)
    ensures
        res == (!suspended && (state == LoopxTaskState::Preparing || state
            == LoopxTaskState::Queued)),
{
    !suspended && (state == LoopxTaskState::Preparing || state == LoopxTaskState::Queued)
}

/// Why a task waits when another task holds its repository.
pub fn repository_busy_message() -> (res: String)
    ensures
        res@ == "Another task for this repository is running"@,
{
    "Another task for this repository is running".to_owned()
}

/// A bound goal whose workspace directory is gone is reconnected: the task
/// is unbound, and the preparation re-adds the worktree and the same goal.
pub fn needs_goal_reconnect(task: &LoopxTaskSnapshot, workspace_exists: bool) -> (res: bool)
    ensures
        res == ((task.goal_id matches Some(g) && trim(g@).len() > 0) && task.workspace_path is Some
            && !workspace_exists),
{
    crate::host::task_has_bound_goal(task) && crate::host::bound_workspace_missing(
        task,
        workspace_exists,
    )
}

/// The operation id of a generation's workspace preparation.
pub open spec fn workspace_operation_id(task_id: Seq<char>, generation: u64) -> Seq<char> {
    "workspace-"@ + task_id + "-"@ + decimal(generation as nat)
}

/// The request that prepares the task's worktree for its item.
pub fn workspace_prepare_request(task: &LoopxTaskSnapshot) -> (res: LoopxWorkspacePrepareRequest)
    ensures
        res.operation_id@ == workspace_operation_id(task.task_id@, task.generation),
        res.task_id == task.task_id,
        res.item == task.identity.item,
{
    let mut operation_id = String::new();
    push_str(&mut operation_id, "workspace-");
    push_str(&mut operation_id, task.task_id.as_str());
    push_str(&mut operation_id, "-");
    push_decimal(&mut operation_id, task.generation);
    proof {
        reveal_strlit("workspace-");
        reveal_strlit("-");
    }
    LoopxWorkspacePrepareRequest {
        operation_id,
        task_id: task.task_id.clone(),
        item: task.identity.item.copy(),
    }
}

/// A prepared worktree is used only when it is verified to hold the
/// requested repository.
pub fn check_prepared_workspace(prepared: &Result<LoopxWorkspacePrepareResult, LoopxHostPortError>) -> (res:
    Result<(), String>)
    ensures
        match prepared {
            Err(e) => res matches Err(m) && m@ == e.spec_text(),
            Ok(p) => if p.repository_verified {
                res is Ok
            } else {
                res matches Err(m) && m@ == "Prepared worktree does not match the requested repository"@
            },
        },
{
    match prepared {
        Err(e) => Err(e.to_string()),
        Ok(p) => if p.repository_verified {
            Ok(())
        } else {
            Err("Prepared worktree does not match the requested repository".to_owned())
        },
    }
}

/// The request that plans the task's item, with the metadata the intake
/// resolved.
pub fn plan_item_request(
    task: &LoopxTaskSnapshot,
    runtime: &LoopxTaskRuntimeRecord,
    capabilities: &Vec<String>,
) -> (res: LoopxCliPlanItemRequest)
    ensures
        goal_context_of(res.context, *task, *runtime, capabilities@),
        res.item == task.identity.item,
        res.title == task.identity.title,
        res.state == task.identity.state,
        res.labels@ == task.identity.labels@,
{
    LoopxCliPlanItemRequest {
        context: goal_context(task, runtime, capabilities),
        item: task.identity.item.copy(),
        title: task.identity.title.clone(),
        state: task.identity.state,
        labels: copy_strings(&task.identity.labels),
    }
}

/// The request that creates the task's goal from the planned intake: the
/// goal id is the task's, the agent the task's (the default one when unset),
/// and the granted scopes the task's.
pub fn create_goal_request(
    task: &LoopxTaskSnapshot,
    runtime: &LoopxTaskRuntimeRecord,
    capabilities: &Vec<String>,
    intake: LoopxCliIntakePlan,
) -> (res: LoopxCliCreateGoalRequest)
    ensures
        goal_context_of(res.context, *task, *runtime, capabilities@),
        res.goal_id@ == spec_goal_id(task.identity),
        res.agent_id@ == (match task.agent_id {
            Some(a) => a@,
            None => DEFAULT_AGENT_ID@,
        }),
        res.intake == intake,
        res.granted_scopes@ == task.granted_scopes@,
{
    LoopxCliCreateGoalRequest {
        context: goal_context(task, runtime, capabilities),
        goal_id: goal_id_for(&task.identity),
        agent_id: match &task.agent_id {
            Some(a) => a.clone(),
            None => DEFAULT_AGENT_ID.to_owned(),
        },
        intake,
        granted_scopes: copy_scopes(&task.granted_scopes),
    }
}

// ---------------------------------------------------------------------------
// Following a running turn.
// ---------------------------------------------------------------------------

/// What a request for turn output leads to.
#[derive(Debug)]
pub enum LoopxTurnOutputStep {
    /// Answer at once.
    Respond(LoopxTurnOutputSinceResponse),
    /// Read the agent's output of this session and turn.
    Fetch { session_id: String, turn_id: String },
}

/// An answer with no output.
pub open spec fn bare_answer(
    r: LoopxTurnOutputSinceResponse,
    status: LoopxTurnOutputStatus,
    task_id: Seq<char>,
    turn_id: Option<Seq<char>>,
    message: Seq<char>,
) -> bool {
    &&& r.status == status
    &&& r.task_id@ == task_id
    &&& match (turn_id, r.turn_id) {
        (None, None) => true,
        (Some(a), Some(b)) => a == b@,
        _ => false,
    }
    &&& r.stream_id is None
    &&& r.events@.len() == 0
    &&& r.next_cursor == 0
    &&& !r.has_more
    &&& r.message matches Some(m) && m@ == message
}

/// The agent turn whose output is followed: the runtime's, else the task's.
pub open spec fn followed_turn(task: LoopxTaskSnapshot, runtime: LoopxTaskRuntimeRecord) -> Option<String> {
    match runtime.agent_turn_id {
        Some(t) => Some(t),
        None => task.current_turn_id,
    }
}

fn bare_response(
    status: LoopxTurnOutputStatus,
    task_id: String,
    turn_id: Option<String>,
    message: &str,
) -> (res: LoopxTurnOutputSinceResponse)
    ensures
        res.status == status,
        res.task_id == task_id,
        res.turn_id == turn_id,
        res.stream_id is None,
        res.events@.len() == 0,
        res.next_cursor == 0,
        !res.has_more,
        res.message matches Some(m) && m@ == message@,
{
    LoopxTurnOutputSinceResponse {
        status,
        task_id,
        turn_id,
        stream_id: None,
        events: Vec::new(),
        next_cursor: 0,
        has_more: false,
        message: Some(message.to_owned()),
    }
}

/// The checks before the output of a turn is read: the task exists, it runs
/// an agent turn, its session and turn are known, and the request (when it
/// names a turn) names that one.
pub fn turn_output_step(
    task: Option<&LoopxTaskSnapshot>,
    runtime: &LoopxTaskRuntimeRecord,
    request: &LoopxTurnOutputSinceRequest,
) -> (res: LoopxTurnOutputStep)
    ensures
        match task {
            None => res matches LoopxTurnOutputStep::Respond(r) && bare_answer(
                r,
                LoopxTurnOutputStatus::TaskNotFound,
                request.task_id@,
                None,
                "LoopX task was not found"@,
            ),
            Some(t) => if t.state != LoopxTaskState::Running || t.phase != LoopxPhase::AgentRunning {
                res matches LoopxTurnOutputStep::Respond(r) && bare_answer(
                    r,
                    LoopxTurnOutputStatus::NotRunning,
                    t.task_id@,
                    match t.current_turn_id {
                        Some(c) => Some(c@),
                        None => None,
                    },
                    "LoopX task does not have an active Agent turn"@,
                )
            } else if runtime.session_id is None {
                res matches LoopxTurnOutputStep::Respond(r) && bare_answer(
                    r,
                    LoopxTurnOutputStatus::OutputUnavailable,
                    t.task_id@,
                    match t.current_turn_id {
                        Some(c) => Some(c@),
                        None => None,
                    },
                    "LoopX Agent session output is unavailable"@,
                )
            } else if followed_turn(*t, *runtime) is None {
                res matches LoopxTurnOutputStep::Respond(r) && bare_answer(
                    r,
                    LoopxTurnOutputStatus::OutputUnavailable,
                    t.task_id@,
                    None,
                    "LoopX Agent turn output is unavailable"@,
                )
            } else if request.turn_id matches Some(asked) && asked@ != followed_turn(
                *t,
                *runtime,
            )->0@ {
                res matches LoopxTurnOutputStep::Respond(r) && bare_answer(
                    r,
                    LoopxTurnOutputStatus::StaleTurn,
                    t.task_id@,
                    Some(followed_turn(*t, *runtime)->0@),
                    "LoopX task moved to a different Agent turn"@,
                )
            } else {
                res matches LoopxTurnOutputStep::Fetch { session_id, turn_id } && session_id
                    == runtime.session_id->0 && turn_id == followed_turn(*t, *runtime)->0
            },
        },
{
    let t = match task {
        None => {
            return LoopxTurnOutputStep::Respond(
                bare_response(
                    LoopxTurnOutputStatus::TaskNotFound,
                    request.task_id.clone(),
                    None,
                    "LoopX task was not found",
                ),
            );
        },
        Some(t) => t,
    };
    if t.state != LoopxTaskState::Running || t.phase != LoopxPhase::AgentRunning {
        return LoopxTurnOutputStep::Respond(
            bare_response(
                LoopxTurnOutputStatus::NotRunning,
                t.task_id.clone(),
                copy_opt_string(&t.current_turn_id),
                "LoopX task does not have an active Agent turn",
            ),
        );
    }
    let session_id = match &runtime.session_id {
        None => {
            return LoopxTurnOutputStep::Respond(
                bare_response(
                    LoopxTurnOutputStatus::OutputUnavailable,
                    t.task_id.clone(),
                    copy_opt_string(&t.current_turn_id),
                    "LoopX Agent session output is unavailable",
                ),
            );
        },
        Some(s) => s.clone(),
    };
    let turn_id = match &runtime.agent_turn_id {
        Some(turn) => turn.clone(),
        None => match &t.current_turn_id {
            Some(turn) => turn.clone(),
            None => {
                return LoopxTurnOutputStep::Respond(
                    bare_response(
                        LoopxTurnOutputStatus::OutputUnavailable,
                        t.task_id.clone(),
                        None,
                        "LoopX Agent turn output is unavailable",
                    ),
                );
            },
        },
    };
    if let Some(asked) = &request.turn_id {
        if !str_eq(asked.as_str(), turn_id.as_str()) {
            return LoopxTurnOutputStep::Respond(
                bare_response(
                    LoopxTurnOutputStatus::StaleTurn,
                    t.task_id.clone(),
                    Some(turn_id),
                    "LoopX task moved to a different Agent turn",
                ),
            );
        }
    }
    LoopxTurnOutputStep::Fetch { session_id, turn_id }
}

/// The answer with the output the agent returned, or with the agent's error.
pub fn turn_output_response(
    task_id: String,
    turn_id: String,
    page: Result<LoopxAgentOutputSinceResult, LoopxHostPortError>,
) -> (res: LoopxTurnOutputSinceResponse)
    ensures
        res.task_id == task_id,
        res.turn_id == Some(turn_id),
        match page {
            Ok(p) => {
                &&& res.status == LoopxTurnOutputStatus::Current
                &&& res.stream_id == p.stream_id
                &&& res.events == p.events
                &&& res.next_cursor == p.next_cursor
                &&& res.has_more == p.has_more
                &&& res.message is None
            },
            Err(e) => {
                &&& res.status == LoopxTurnOutputStatus::OutputUnavailable
                &&& res.stream_id is None
                &&& res.events@.len() == 0
                &&& res.next_cursor == 0
                &&& !res.has_more
                &&& res.message matches Some(m) && m@ == e.spec_text()
            },
        },
{
    match page {
        Ok(p) => LoopxTurnOutputSinceResponse {
            status: LoopxTurnOutputStatus::Current,
            task_id,
            turn_id: Some(turn_id),
            stream_id: p.stream_id,
            events: p.events,
            next_cursor: p.next_cursor,
            has_more: p.has_more,
            message: None,
        },
        Err(e) => LoopxTurnOutputSinceResponse {
            status: LoopxTurnOutputStatus::OutputUnavailable,
            task_id,
            turn_id: Some(turn_id),
            stream_id: None,
            events: Vec::new(),
            next_cursor: 0,
            has_more: false,
            message: Some(e.to_string()),
        },
    }
}

// ---------------------------------------------------------------------------
// Settling a finished turn.
// ---------------------------------------------------------------------------

/// The phase message while a finished turn's settlement is verified.
pub fn settlement_check_message() -> (res: String)
    ensures
        res@ == "Agent turn ended; verifying LoopX-owned durable settlement"@,
{
    "Agent turn ended; verifying LoopX-owned durable settlement".to_owned()
}

/// The text of an optional value, empty when absent.
pub open spec fn text_or_empty(o: Option<String>) -> Seq<char> {
    match o {
        Some(s) => s@,
        None => Seq::empty(),
    }
}

fn string_or_empty(o: &Option<String>) -> (res: String)
    ensures
        res@ == text_or_empty(*o),
{
    match o {
        Some(s) => s.clone(),
        None => String::new(),
    }
}

/// The request that verifies a finished turn's settlement: the goal, agent,
/// LoopX turn, settlement token and expected durable revision the host holds
/// (empty when unknown), and how the agent turn ended.
pub fn settle_turn_request(
    task: &LoopxTaskSnapshot,
    runtime: &LoopxTaskRuntimeRecord,
    capabilities: &Vec<String>,
    agent_status: LoopxAgentTurnStatus,
) -> (res: LoopxCliSettleTurnRequest)
    ensures
        goal_context_of(res.context, *task, *runtime, capabilities@),
        res.goal_id@ == text_or_empty(task.goal_id),
        res.agent_id@ == (match task.agent_id {
            Some(a) => a@,
            None => DEFAULT_AGENT_ID@,
        }),
        res.turn_id@ == text_or_empty(runtime.loopx_turn_id),
        res.settlement_token@ == text_or_empty(runtime.settlement_token),
        res.expected_durable_revision@ == text_or_empty(runtime.expected_durable_revision),
        res.agent_status == agent_status,
{
    LoopxCliSettleTurnRequest {
        context: goal_context(task, runtime, capabilities),
        goal_id: string_or_empty(&task.goal_id),
        agent_id: match &task.agent_id {
            Some(a) => a.clone(),
            None => DEFAULT_AGENT_ID.to_owned(),
        },
        turn_id: string_or_empty(&runtime.loopx_turn_id),
        settlement_token: string_or_empty(&runtime.settlement_token),
        expected_durable_revision: string_or_empty(&runtime.expected_durable_revision),
        agent_status,
    }
}

/// Records the final response of a finished turn on the task's current
/// generation, when it is not blank: its bounded trimmed text, the structured
/// summary it carries (if valid), the time, and a new revision.
pub fn record_agent_summary_state(
    task: &mut LoopxTaskSnapshot,
    generation: u64,
    summary: Option<&str>,
    now_ms: i64,
)
    ensures
        old(task).generation != generation || !(summary matches Some(s) && trim(s@).len() > 0)
            ==> *final(task) == *old(task),
        old(task).generation == generation && (summary matches Some(s) && trim(s@).len() > 0)
            ==> {
            let text = trim(summary->0@);
            &&& final(task).last_agent_summary matches Some(b) && b@ == spec_bounded_summary(text)
            &&& (match final(task).structured_summary {
                Some(j) => spec_parse_structured_summary(Some(text)) == Some(j@),
                None => spec_parse_structured_summary(Some(text)) is None,
            })
            &&& *final(task) == (LoopxTaskSnapshot {
                last_agent_summary: final(task).last_agent_summary,
                structured_summary: final(task).structured_summary,
                last_agent_summary_at: Some(now_ms),
                revision: next_revision(old(task).revision),
                ..*old(task)
            })
        },
{
    let summary = match summary {
        None => return,
        Some(s) => s,
    };
    let chars = chars_of(summary);
    let trimmed_chars = trim_chars(&chars);
    if trimmed_chars.len() == 0 {
        return;
    }
    if task.generation != generation {
        return;
    }
    let trimmed = string_from_chars(&trimmed_chars);
    let bounded = bounded_agent_summary(trimmed.as_str());
    let structured = parse_structured_summary(Some(trimmed.as_str()));
    task.last_agent_summary = Some(bounded);
    task.structured_summary = structured;
    task.last_agent_summary_at = Some(now_ms);
    task.revision = task.revision.saturating_add(1);
}

// ---------------------------------------------------------------------------
// Driving a turn.
// ---------------------------------------------------------------------------

/// The request that reads the goal's frontier.
pub fn inspect_goal_request(
    task: &LoopxTaskSnapshot,
    runtime: &LoopxTaskRuntimeRecord,
    capabilities: &Vec<String>,
) -> (res: LoopxCliInspectGoalRequest)
    ensures
        goal_context_of(res.context, *task, *runtime, capabilities@),
        res.goal_id@ == text_or_empty(task.goal_id),
        res.agent_id@ == (match task.agent_id {
            Some(a) => a@,
            None => DEFAULT_AGENT_ID@,
        }),
{
    LoopxCliInspectGoalRequest {
        context: goal_context(task, runtime, capabilities),
        goal_id: string_or_empty(&task.goal_id),
        agent_id: match &task.agent_id {
            Some(a) => a.clone(),
            None => DEFAULT_AGENT_ID.to_owned(),
        },
    }
}

/// The request that builds the next turn against the durable revision the
/// frontier was read at.
pub fn build_turn_request(
    task: &LoopxTaskSnapshot,
    runtime: &LoopxTaskRuntimeRecord,
    capabilities: &Vec<String>,
    durable_revision: String,
) -> (res: LoopxCliBuildTurnRequest)
    ensures
        goal_context_of(res.context, *task, *runtime, capabilities@),
        res.goal_id@ == text_or_empty(task.goal_id),
        res.agent_id@ == (match task.agent_id {
            Some(a) => a@,
            None => DEFAULT_AGENT_ID@,
        }),
        res.expected_durable_revision == durable_revision,
{
    LoopxCliBuildTurnRequest {
        context: goal_context(task, runtime, capabilities),
        goal_id: string_or_empty(&task.goal_id),
        agent_id: match &task.agent_id {
            Some(a) => a.clone(),
            None => DEFAULT_AGENT_ID.to_owned(),
        },
        expected_durable_revision: durable_revision,
    }
}

/// A turn build that lost a race with a concurrent durable-state change is
/// retried after a short backoff; the message says why. Other failures fail
/// the task.
pub fn turn_build_conflict_message(error: &LoopxCliError) -> (res: Option<String>)
    ensures
        (error.kind == LoopxCliErrorKind::Conflict && error.retryable) ==> (res matches Some(m) && m@
            == "LoopX durable state changed while building the turn ("@ + error.message@
            + "); requeueing with backoff"@),
        !(error.kind == LoopxCliErrorKind::Conflict && error.retryable) ==> res is None,
{
    if error.kind == LoopxCliErrorKind::Conflict && error.retryable {
        let mut message = String::new();
        push_str(&mut message, "LoopX durable state changed while building the turn (");
        push_str(&mut message, error.message.as_str());
        push_str(&mut message, "); requeueing with backoff");
        proof {
            reveal_strlit("LoopX durable state changed while building the turn (");
            reveal_strlit("); requeueing with backoff");
        }
        Some(message)
    } else {
        None
    }
}

/// The message a drive step leaves on the task, for the steps that move it
/// with one: a wait, a completed or archived goal, a failed goal.
pub open spec fn drive_step_text(step: LoopxDriveStep) -> Option<Seq<char>> {
    match step {
        LoopxDriveStep::Wait { .. } => Some("LoopX is waiting before the next bounded turn"@),
        LoopxDriveStep::CompleteGoal { archived } => if archived {
            Some("LoopX Goal was archived"@)
        } else {
            Some("LoopX goal completed"@)
        },
        LoopxDriveStep::FailGoal => Some("LoopX reported a failed goal"@),
        _ => None,
    }
}

pub fn drive_step_message(step: LoopxDriveStep) -> (res: Option<String>)
    ensures
        match drive_step_text(step) {
            Some(t) => res matches Some(m) && m@ == t,
            None => res is None,
        },
{
    match step {
        LoopxDriveStep::Wait { .. } => Some("LoopX is waiting before the next bounded turn".to_owned()),
        LoopxDriveStep::CompleteGoal { archived } => if archived {
            Some("LoopX Goal was archived".to_owned())
        } else {
            Some("LoopX goal completed".to_owned())
        },
        LoopxDriveStep::FailGoal => Some("LoopX reported a failed goal".to_owned()),
        _ => None,
    }
}

/// The state and phase a drive step moves the task to, where the step sets
/// them directly: a wait requeues the task, a completed or archived goal
/// finishes it. A failed goal fails the task by its own rule
/// (`fail_task_state`); the other steps leave the task as it is, park it or
/// start a turn.
pub open spec fn spec_drive_step_target(step: LoopxDriveStep) -> Option<
    (crate::types::LoopxTaskState, crate::types::LoopxPhase),
> {
    match step {
        LoopxDriveStep::Wait { .. } => Some(
            (crate::types::LoopxTaskState::Queued, crate::types::LoopxPhase::Queued),
        ),
        LoopxDriveStep::CompleteGoal { .. } => Some(
            (crate::types::LoopxTaskState::Completed, crate::types::LoopxPhase::Finished),
        ),
        _ => None,
    }
}

/// The state and phase a drive step moves the task to, if it sets them.
pub fn drive_step_target(step: LoopxDriveStep) -> (res: Option<
    (crate::types::LoopxTaskState, crate::types::LoopxPhase),
>)
    ensures
        res == spec_drive_step_target(step),
{
    match step {
        LoopxDriveStep::Wait { .. } => Some(
            (crate::types::LoopxTaskState::Queued, crate::types::LoopxPhase::Queued),
        ),
        LoopxDriveStep::CompleteGoal { .. } => Some(
            (crate::types::LoopxTaskState::Completed, crate::types::LoopxPhase::Finished),
        ),
        _ => None,
    }
}

/// What the host does after a drive step, besides the state the step sets.
#[derive(Debug, Clone, Copy, PartialEq, Eq, Structural)]
pub enum LoopxDriveFollowUp {
    /// Hand the repository lane on and drive the task again after the delay.
    YieldAndRequeue { delay_ms: u64 },
    /// Hand the repository lane to the next queued task.
    YieldLane,
    /// Fail the task, which hands the lane on.
    FailTask,
    /// The waiting-user frontier decides.
    WaitingFrontier,
    /// Nothing more to do now.
    Idle,
    /// Park with `plan_exhausted`, log it as an important state change, and
    /// hand the lane on.
    ParkAndYield,
    /// Build and start the next turn.
    StartTurn,
}

/// The follow-up of each drive step: a wait requeues after its delay, a
/// finished goal yields the lane, a failed goal fails the task, a waiting
/// frontier is routed, an already parked or recovering task stays, an
/// exhausted plan parks the task, and a runnable goal starts a turn.
pub open spec fn spec_drive_step_follow_up(step: LoopxDriveStep) -> LoopxDriveFollowUp {
    match step {
        LoopxDriveStep::Wait { delay_ms } => LoopxDriveFollowUp::YieldAndRequeue { delay_ms },
        LoopxDriveStep::CompleteGoal { .. } => LoopxDriveFollowUp::YieldLane,
        LoopxDriveStep::FailGoal => LoopxDriveFollowUp::FailTask,
        LoopxDriveStep::WaitingForUser => LoopxDriveFollowUp::WaitingFrontier,
        LoopxDriveStep::AlreadyParked => LoopxDriveFollowUp::Idle,
        LoopxDriveStep::StayInRecovery => LoopxDriveFollowUp::Idle,
        LoopxDriveStep::ParkPlanExhausted => LoopxDriveFollowUp::ParkAndYield,
        LoopxDriveStep::BuildTurn { .. } => LoopxDriveFollowUp::StartTurn,
    }
}

/// What the host does after a drive step.
pub fn drive_step_follow_up(step: LoopxDriveStep) -> (res: LoopxDriveFollowUp)
    ensures
        res == spec_drive_step_follow_up(step),
{
    match step {
        LoopxDriveStep::Wait { delay_ms } => LoopxDriveFollowUp::YieldAndRequeue { delay_ms },
        LoopxDriveStep::CompleteGoal { .. } => LoopxDriveFollowUp::YieldLane,
        LoopxDriveStep::FailGoal => LoopxDriveFollowUp::FailTask,
        LoopxDriveStep::WaitingForUser => LoopxDriveFollowUp::WaitingFrontier,
        LoopxDriveStep::AlreadyParked => LoopxDriveFollowUp::Idle,
        LoopxDriveStep::StayInRecovery => LoopxDriveFollowUp::Idle,
        LoopxDriveStep::ParkPlanExhausted => LoopxDriveFollowUp::ParkAndYield,
        LoopxDriveStep::BuildTurn { .. } => LoopxDriveFollowUp::StartTurn,
    }
}

/// The name of a task state, as the host writes it in messages.
pub open spec fn task_state_name(state: LoopxTaskState) -> Seq<char> {
    match state {
        LoopxTaskState::Preparing => "Preparing"@,
        LoopxTaskState::Queued => "Queued"@,
        LoopxTaskState::Running => "Running"@,
        LoopxTaskState::WaitingForUser => "WaitingForUser"@,
        LoopxTaskState::RetryWait => "RetryWait"@,
        LoopxTaskState::Cancelling => "Cancelling"@,
        LoopxTaskState::Stopped => "Stopped"@,
        LoopxTaskState::Aborted => "Aborted"@,
        LoopxTaskState::Completed => "Completed"@,
        LoopxTaskState::Failed => "Failed"@,
        LoopxTaskState::Archived => "Archived"@,
        LoopxTaskState::RecoveryRequired => "RecoveryRequired"@,
    }
}

fn task_state_text(state: LoopxTaskState) -> (res: &'static str)
    ensures
        res@ == task_state_name(state),
{
    let res = match state {
        LoopxTaskState::Preparing => "Preparing",
        LoopxTaskState::Queued => "Queued",
        LoopxTaskState::Running => "Running",
        LoopxTaskState::WaitingForUser => "WaitingForUser",
        LoopxTaskState::RetryWait => "RetryWait",
        LoopxTaskState::Cancelling => "Cancelling",
        LoopxTaskState::Stopped => "Stopped",
        LoopxTaskState::Aborted => "Aborted",
        LoopxTaskState::Completed => "Completed",
        LoopxTaskState::Failed => "Failed",
        LoopxTaskState::Archived => "Archived",
        LoopxTaskState::RecoveryRequired => "RecoveryRequired",
    };
    proof {
        reveal_strlit("Preparing");
        reveal_strlit("Queued");
        reveal_strlit("Running");
        reveal_strlit("WaitingForUser");
        reveal_strlit("RetryWait");
        reveal_strlit("Cancelling");
        reveal_strlit("Stopped");
        reveal_strlit("Aborted");
        reveal_strlit("Completed");
        reveal_strlit("Failed");
        reveal_strlit("Archived");
        reveal_strlit("RecoveryRequired");
    }
    res
}

/// What a settlement that validated the writeback but missed its quota
/// receipt records: the task continues from the Goal's projection.
pub open spec fn receipt_missing_text(turn_id: Seq<char>, state: LoopxTaskState) -> Seq<char> {
    "LoopX settlement for turn "@ + turn_id
        + " reported RetryRequired: the durable writeback validated but the quota spend receipt is missing; the task continues from the authoritative Goal projection ("@
        + task_state_name(state) + "). The receipt is not retried or fabricated by the host."@
}

pub fn receipt_missing_message(turn_id: &str, state: LoopxTaskState) -> (res: String)
    ensures
        res@ == receipt_missing_text(turn_id@, state),
{
    let mut res = String::new();
    push_str(&mut res, "LoopX settlement for turn ");
    push_str(&mut res, turn_id);
    push_str(
        &mut res,
        " reported RetryRequired: the durable writeback validated but the quota spend receipt is missing; the task continues from the authoritative Goal projection (",
    );
    push_str(&mut res, task_state_text(state));
    push_str(&mut res, "). The receipt is not retried or fabricated by the host.");
    proof {
        reveal_strlit("LoopX settlement for turn ");
        reveal_strlit(
            " reported RetryRequired: the durable writeback validated but the quota spend receipt is missing; the task continues from the authoritative Goal projection (",
        );
        reveal_strlit("). The receipt is not retried or fabricated by the host.");
    }
    res
}

} // verus!
