//! Admission of MiniApp requests: which handler an action goes to, the checks
//! a task action passes before it runs, the suite-level stop and resume, and
//! the first, durable half of the suite reset.

use vstd::prelude::*;

use std::collections::BTreeMap;

use crate::fingerprint::{sort_texts, text_order};
use crate::host::{goal_id_for, install_loopx_remediation, spec_goal_id, unavailable_loopx_environment_fact};
use crate::lifecycle::next_revision;
use crate::ports::LoopxCliResetGoalsResult;
use crate::store::{
    appended, keep_last, knows_request, lemma_appended_logs_one, logged_one, LoopxPersistedState, LoopxTaskRuntimeRecord,
    MAX_IDEMPOTENCY_KEYS,
};
use crate::text::{chars_of, decimal, push_decimal, push_str, seq_eq, str_is_blank, string_from_chars, trim};
use crate::types::{
    LoopxActionKind, LoopxActionRequest, LoopxActionResponse, LoopxActionStatus,
    LoopxEnvironmentFact, LoopxEnvironmentFactStatus, LoopxEnvironmentRemediationAction,
    LoopxEnvironmentSnapshot, LoopxEnvironmentStatus, LOOPX_PINNED_VERSION, LoopxEvent, LoopxEventKind, LoopxEventLevel, LoopxEventSource,
    LoopxPhase, LoopxTaskSnapshot, LoopxTaskState,
};

verus! {

// ---------------------------------------------------------------------------
// Routing.
// ---------------------------------------------------------------------------

/// The handler an action request goes to: suite-level actions have their own,
/// every other action is about one task.
#[derive(Debug, Clone, Copy, PartialEq, Eq, Structural)]
pub enum LoopxActionRoute {
    RetryEnvironment,
    InstallLoopx,
    ResumeRepository,
    ResetAll,
    PauseAll,
    ResumeAll,
    Unsupported,
    Task,
}

pub open spec fn spec_action_route(kind: LoopxActionKind) -> LoopxActionRoute {
    match kind {
        LoopxActionKind::RetryEnvironment => LoopxActionRoute::RetryEnvironment,
        LoopxActionKind::InstallLoopx => LoopxActionRoute::InstallLoopx,
        LoopxActionKind::ResumeRepository => LoopxActionRoute::ResumeRepository,
        LoopxActionKind::ResetAll => LoopxActionRoute::ResetAll,
        LoopxActionKind::PauseAll => LoopxActionRoute::PauseAll,
        LoopxActionKind::ResumeAll => LoopxActionRoute::ResumeAll,
        LoopxActionKind::Unsupported => LoopxActionRoute::Unsupported,
        _ => LoopxActionRoute::Task,
    }
}

/// The handler of an action kind.
pub fn action_route(kind: LoopxActionKind) -> (res: LoopxActionRoute)
    ensures
        res == spec_action_route(kind),
{
    match kind {
        LoopxActionKind::RetryEnvironment => LoopxActionRoute::RetryEnvironment,
        LoopxActionKind::InstallLoopx => LoopxActionRoute::InstallLoopx,
        LoopxActionKind::ResumeRepository => LoopxActionRoute::ResumeRepository,
        LoopxActionKind::ResetAll => LoopxActionRoute::ResetAll,
        LoopxActionKind::PauseAll => LoopxActionRoute::PauseAll,
        LoopxActionKind::ResumeAll => LoopxActionRoute::ResumeAll,
        LoopxActionKind::Unsupported => LoopxActionRoute::Unsupported,
        _ => LoopxActionRoute::Task,
    }
}

/// The state and phase a task action leaves the task in, where the action
/// fixes them: pausing stops it, aborting aborts it (both finished), an
/// answered gate queues it, archiving archives it, restoring sends it to
/// recovery. Resuming follows its own rule (`resume_task_state`); other kinds
/// are not task actions.
pub open spec fn spec_task_action_target(kind: LoopxActionKind) -> Option<
    (crate::types::LoopxTaskState, crate::types::LoopxPhase),
> {
    match kind {
        LoopxActionKind::Pause => Some(
            (crate::types::LoopxTaskState::Stopped, crate::types::LoopxPhase::Finished),
        ),
        LoopxActionKind::Abort => Some(
            (crate::types::LoopxTaskState::Aborted, crate::types::LoopxPhase::Finished),
        ),
        LoopxActionKind::Approve | LoopxActionKind::Reject => Some(
            (crate::types::LoopxTaskState::Queued, crate::types::LoopxPhase::Queued),
        ),
        LoopxActionKind::Archive => Some(
            (crate::types::LoopxTaskState::Archived, crate::types::LoopxPhase::Finished),
        ),
        LoopxActionKind::Restore => Some(
            (crate::types::LoopxTaskState::RecoveryRequired, crate::types::LoopxPhase::Recovering),
        ),
        _ => None,
    }
}

/// The state and phase a task action leaves the task in, if it fixes them.
pub fn task_action_target(kind: LoopxActionKind) -> (res: Option<
    (crate::types::LoopxTaskState, crate::types::LoopxPhase),
>)
    ensures
        res == spec_task_action_target(kind),
{
    match kind {
        LoopxActionKind::Pause => Some(
            (crate::types::LoopxTaskState::Stopped, crate::types::LoopxPhase::Finished),
        ),
        LoopxActionKind::Abort => Some(
            (crate::types::LoopxTaskState::Aborted, crate::types::LoopxPhase::Finished),
        ),
        LoopxActionKind::Approve | LoopxActionKind::Reject => Some(
            (crate::types::LoopxTaskState::Queued, crate::types::LoopxPhase::Queued),
        ),
        LoopxActionKind::Archive => Some(
            (crate::types::LoopxTaskState::Archived, crate::types::LoopxPhase::Finished),
        ),
        LoopxActionKind::Restore => Some(
            (crate::types::LoopxTaskState::RecoveryRequired, crate::types::LoopxPhase::Recovering),
        ),
        _ => None,
    }
}

/// The cancelling step a task action starts with: pausing and aborting move
/// the task to `Cancelling` with this message, then cancel the CLI operation
/// under an operation id with this prefix.
pub fn task_action_cancellation(kind: LoopxActionKind) -> (res: Option<(String, String)>)
    ensures
        kind == LoopxActionKind::Pause ==> (res matches Some((m, p)) && m@
            == "Cancelling the active LoopX task"@ && p@ == "cancel-cli"@),
        kind == LoopxActionKind::Abort ==> (res matches Some((m, p)) && m@
            == "Aborting the active LoopX task"@ && p@ == "abort-cli"@),
        kind != LoopxActionKind::Pause && kind != LoopxActionKind::Abort ==> res is None,
{
    match kind {
        LoopxActionKind::Pause => Some(("Cancelling the active LoopX task".to_owned(), "cancel-cli".to_owned())),
        LoopxActionKind::Abort => Some(("Aborting the active LoopX task".to_owned(), "abort-cli".to_owned())),
        _ => None,
    }
}

/// The error an unsupported action is refused with.
pub fn unsupported_action_error() -> (res: String)
    ensures
        res@ == "Unsupported LoopX action"@,
{
    "Unsupported LoopX action".to_owned()
}

// ---------------------------------------------------------------------------
// Task actions.
// ---------------------------------------------------------------------------

/// What happens to a task action before its handler runs.
#[derive(Debug)]
pub enum LoopxTaskActionPrecheck {
    /// Answer at once, without running the handler.
    Respond(LoopxActionResponse),
    /// Refuse the request with an error.
    Refuse(String),
    /// Run the handler on the task at this position.
    Proceed(usize),
}

/// The position of the first task with the id.
pub open spec fn first_task_with_id(tasks: Seq<LoopxTaskSnapshot>, id: Seq<char>, i: int) -> bool {
    &&& 0 <= i < tasks.len()
    &&& tasks[i].task_id@ == id
    &&& forall|j: int| 0 <= j < i ==> (#[trigger] tasks[j]).task_id@ != id
}

/// No task has the id.
pub open spec fn no_task_with_id(tasks: Seq<LoopxTaskSnapshot>, id: Seq<char>) -> bool {
    forall|j: int| 0 <= j < tasks.len() ==> (#[trigger] tasks[j]).task_id@ != id
}

/// A response for a task: the task (when one) as it stands.
pub open spec fn responds_with(
    res: LoopxTaskActionPrecheck,
    status: LoopxActionStatus,
    revision: u64,
    task: Option<LoopxTaskSnapshot>,
    message: Option<Seq<char>>,
) -> bool {
    &&& res is Respond
    &&& res->Respond_0.status == status
    &&& res->Respond_0.current_revision == revision
    &&& match (task, res->Respond_0.task) {
        (None, None) => true,
        (Some(t), Some(r)) => r.same_as(t),
        _ => false,
    }
    &&& match (message, res->Respond_0.message) {
        (None, None) => true,
        (Some(m), Some(r)) => r@ == m,
        _ => false,
    }
}

/// A resume of a task that is preparing, queued or running is answered as a
/// duplicate.
pub open spec fn already_active(state: LoopxTaskState) -> bool {
    state == LoopxTaskState::Preparing || state == LoopxTaskState::Queued || state
        == LoopxTaskState::Running
}

impl LoopxPersistedState {
    /// The checks a task action passes, in order: it names a task; a request
    /// already applied is a duplicate; the task exists; resuming an active task
    /// is a duplicate; the expected revision is the task's.
    pub fn precheck_task_action(&self, request: &LoopxActionRequest) -> (res:
        LoopxTaskActionPrecheck)
        ensures
            request.task_id is None ==> (res matches LoopxTaskActionPrecheck::Refuse(e) && e@
                == "taskId is required"@),
            request.task_id matches Some(id) ==> {
                let tasks = self.tasks@;
                if knows_request(self.processed_request_ids@, request.client_request_id@) {
                    if no_task_with_id(tasks, id@) {
                        responds_with(res, LoopxActionStatus::Duplicate, self.revision, None, None)
                    } else {
                        exists|i: int|
                            first_task_with_id(tasks, id@, i) && responds_with(
                                res,
                                LoopxActionStatus::Duplicate,
                                self.revision,
                                Some(tasks[i]),
                                None,
                            )
                    }
                } else if no_task_with_id(tasks, id@) {
                    res matches LoopxTaskActionPrecheck::Refuse(e) && e@ == "LoopX task not found"@
                } else {
                    exists|i: int|
                        first_task_with_id(tasks, id@, i) && if request.action
                            == LoopxActionKind::Resume && already_active(tasks[i].state) {
                            responds_with(
                                res,
                                LoopxActionStatus::Duplicate,
                                tasks[i].revision,
                                Some(tasks[i]),
                                Some("Task is already queued or running"@),
                            )
                        } else if tasks[i].revision != request.expected_revision {
                            responds_with(
                                res,
                                LoopxActionStatus::RevisionConflict,
                                tasks[i].revision,
                                Some(tasks[i]),
                                Some("Task changed; refresh before applying the action"@),
                            )
                        } else {
                            res == LoopxTaskActionPrecheck::Proceed(i as usize)
                        }
                }
            },
    {
        let task_id = match &request.task_id {
            None => return LoopxTaskActionPrecheck::Refuse("taskId is required".to_owned()),
            Some(id) => id.as_str(),
        };
        let found = self.task_index(task_id);
        if self.has_processed_request(request.client_request_id.as_str()) {
            let task = match found {
                Some(i) => {
                    assert(first_task_with_id(self.tasks@, task_id@, i as int));
                    Some(self.tasks[i].copy())
                },
                None => None,
            };
            return LoopxTaskActionPrecheck::Respond(
                LoopxActionResponse {
                    status: LoopxActionStatus::Duplicate,
                    current_revision: self.revision,
                    task,
                    message: None,
                },
            );
        }
        let i = match found {
            None => return LoopxTaskActionPrecheck::Refuse("LoopX task not found".to_owned()),
            Some(i) => i,
        };
        let task = &self.tasks[i];
        assert(first_task_with_id(self.tasks@, task_id@, i as int));
        if request.action == LoopxActionKind::Resume && (task.state == LoopxTaskState::Preparing
            || task.state == LoopxTaskState::Queued || task.state == LoopxTaskState::Running) {
            return LoopxTaskActionPrecheck::Respond(
                LoopxActionResponse {
                    status: LoopxActionStatus::Duplicate,
                    current_revision: task.revision,
                    task: Some(task.copy()),
                    message: Some("Task is already queued or running".to_owned()),
                },
            );
        }
        if task.revision != request.expected_revision {
            return LoopxTaskActionPrecheck::Respond(
                LoopxActionResponse {
                    status: LoopxActionStatus::RevisionConflict,
                    current_revision: task.revision,
                    task: Some(task.copy()),
                    message: Some("Task changed; refresh before applying the action".to_owned()),
                },
            );
        }
        LoopxTaskActionPrecheck::Proceed(i)
    }
}


// ---------------------------------------------------------------------------
// Resuming a task.
// ---------------------------------------------------------------------------

/// Only a stopped, failed or recovery-required task resumes.
pub open spec fn resumable(state: LoopxTaskState) -> bool {
    state == LoopxTaskState::Stopped || state == LoopxTaskState::Failed || state
        == LoopxTaskState::RecoveryRequired
}

/// A rejection of an action on `task` with the message.
pub open spec fn rejects(res: Option<LoopxActionResponse>, task: LoopxTaskSnapshot, message: Seq<char>) -> bool {
    &&& res matches Some(r)
    &&& r.status == LoopxActionStatus::Rejected
    &&& r.current_revision == task.revision
    &&& r.task matches Some(t) && t.same_as(task)
    &&& r.message matches Some(m) && m@ == message
}

/// Why a task cannot resume now, if it cannot: the suite is stopped, or the
/// task is not stopped, failed or recovery-required.
pub fn resume_task_refusal(suspended: bool, task: &LoopxTaskSnapshot) -> (res: Option<
    LoopxActionResponse,
>)
    ensures
        suspended ==> rejects(res, *task, "LoopX suite is stopped; resume the suite first"@),
        !suspended && !resumable(task.state) ==> rejects(
            res,
            *task,
            "Only stopped, failed, or recovery-required tasks can resume"@,
        ),
        !suspended && resumable(task.state) ==> res is None,
{
    if suspended {
        return Some(
            LoopxActionResponse {
                status: LoopxActionStatus::Rejected,
                current_revision: task.revision,
                task: Some(task.copy()),
                message: Some("LoopX suite is stopped; resume the suite first".to_owned()),
            },
        );
    }
    if !(task.state == LoopxTaskState::Stopped || task.state == LoopxTaskState::Failed
        || task.state == LoopxTaskState::RecoveryRequired) {
        return Some(
            LoopxActionResponse {
                status: LoopxActionStatus::Rejected,
                current_revision: task.revision,
                task: Some(task.copy()),
                message: Some(
                    "Only stopped, failed, or recovery-required tasks can resume".to_owned(),
                ),
            },
        );
    }
    None
}

/// The operation id of a resumed generation: `resume-{task}-{generation}`.
pub open spec fn resume_operation_id(task_id: Seq<char>, generation: u64) -> Seq<char> {
    "resume-"@ + task_id + "-"@ + decimal(generation as nat)
}

/// Resumes a task in a new generation: queued for recovery with no turn, gate,
/// error or recovery reason; its runtime gets a fresh operation and forgets
/// the agent session, turns, settlement token and durable revision.
pub fn resume_task_state(task: &mut LoopxTaskSnapshot, runtime: &mut LoopxTaskRuntimeRecord)
    ensures
        *final(task) == (LoopxTaskSnapshot {
            generation: next_revision(old(task).generation),
            revision: next_revision(old(task).revision),
            state: LoopxTaskState::Queued,
            phase: LoopxPhase::Recovering,
            current_turn_id: None,
            pending_gate_id: None,
            pending_gate_message: None,
            pending_gate_action_kind: None,
            error: None,
            recovery_reason: None,
            ..*old(task)
        }),
        final(runtime).operation_id@ == resume_operation_id(
            old(task).task_id@,
            next_revision(old(task).generation),
        ),
        *final(runtime) == (LoopxTaskRuntimeRecord {
            operation_id: final(runtime).operation_id,
            session_id: None,
            agent_turn_id: None,
            loopx_turn_id: None,
            settlement_token: None,
            expected_durable_revision: None,
            ..*old(runtime)
        }),
{
    task.generation = task.generation.saturating_add(1);
    task.revision = task.revision.saturating_add(1);
    task.state = LoopxTaskState::Queued;
    task.phase = LoopxPhase::Recovering;
    task.current_turn_id = None;
    task.pending_gate_id = None;
    task.pending_gate_message = None;
    task.pending_gate_action_kind = None;
    task.error = None;
    task.recovery_reason = None;
    let mut operation_id = String::new();
    push_str(&mut operation_id, "resume-");
    push_str(&mut operation_id, task.task_id.as_str());
    push_str(&mut operation_id, "-");
    push_decimal(&mut operation_id, task.generation);
    proof {
        reveal_strlit("resume-");
        reveal_strlit("-");
    }
    runtime.operation_id = operation_id;
    runtime.session_id = None;
    runtime.agent_turn_id = None;
    runtime.loopx_turn_id = None;
    runtime.settlement_token = None;
    runtime.expected_durable_revision = None;
}

// ---------------------------------------------------------------------------
// Suite stop and resume.
// ---------------------------------------------------------------------------

/// A suite-level stop parks the tasks that are preparing, queued or running.
pub open spec fn pausable(state: LoopxTaskState) -> bool {
    state == LoopxTaskState::Preparing || state == LoopxTaskState::Queued || state
        == LoopxTaskState::Running
}

/// The ids of the tasks a suite stop parks, in task order.
pub open spec fn pausable_ids(tasks: Seq<LoopxTaskSnapshot>) -> Seq<Seq<char>>
    decreases tasks.len(),
{
    if tasks.len() == 0 {
        Seq::empty()
    } else {
        let rest = pausable_ids(tasks.drop_last());
        if pausable(tasks.last().state) {
            rest.push(tasks.last().task_id@)
        } else {
            rest
        }
    }
}

/// A suite-level event: an informational controller event about no task.
pub open spec fn is_suite_event(e: LoopxEvent, message: Seq<char>, now_ms: i64) -> bool {
    &&& e.task_id is None
    &&& e.generation is None
    &&& e.revision is None
    &&& e.kind == LoopxEventKind::SnapshotInvalidated
    &&& e.level == LoopxEventLevel::Info
    &&& e.source == LoopxEventSource::Controller
    &&& e.phase is None
    &&& e.message@ == message
    &&& !e.important
    &&& e.tool_name is None
    &&& e.deadline_at is None
    &&& e.details@ == Map::<String, String>::empty()
    &&& e.occurred_at == now_ms
}

/// The message of a suite stop that parked `paused` tasks.
pub open spec fn suite_stopped_message(paused: u64) -> Seq<char> {
    "LoopX suite stopped; intake and scheduling are held until resume (paused "@ + decimal(
        paused as nat,
    ) + " task(s))"@
}

fn suite_event(message: String, now_ms: i64) -> (res: LoopxEvent)
    ensures
        is_suite_event(res, message@, now_ms),
        res.cursor == 0,
{
    let mut event = LoopxEvent::default();
    event.kind = LoopxEventKind::SnapshotInvalidated;
    event.level = LoopxEventLevel::Info;
    event.source = LoopxEventSource::Controller;
    event.message = message;
    event.occurred_at = now_ms;
    event
}

impl LoopxPersistedState {
    /// The ids of the tasks a suite stop parks.
    pub fn pausable_task_ids(&self) -> (res: Vec<String>)
        ensures
            res@.map_values(|s: String| s@) == pausable_ids(self.tasks@),
    {
        let mut res: Vec<String> = Vec::new();
        let mut i: usize = 0;
        while i < self.tasks.len()
            invariant
                i <= self.tasks@.len(),
                res@.map_values(|s: String| s@) == pausable_ids(self.tasks@.take(i as int)),
            decreases self.tasks@.len() - i,
        {
            proof {
                assert(self.tasks@.take(i + 1).drop_last() =~= self.tasks@.take(i as int));
            }
            let state = self.tasks[i].state;
            if state == LoopxTaskState::Preparing || state == LoopxTaskState::Queued || state
                == LoopxTaskState::Running {
                res.push(self.tasks[i].task_id.clone());
            }
            i = i + 1;
            proof {
                assert(res@.map_values(|s: String| s@) =~= pausable_ids(self.tasks@.take(i as int)));
            }
        }
        proof {
            assert(self.tasks@.take(self.tasks@.len() as int) =~= self.tasks@);
        }
        res
    }

    /// Holds intake and scheduling: a running suite becomes suspended, with a
    /// new revision and an event that counts the parked tasks; a suspended one
    /// is left as it is.
    pub fn suspend_suite(&mut self, paused: u64, now_ms: i64)
        ensures
            old(self).suspended ==> *final(self) == *old(self),
            !old(self).suspended ==> exists|e: LoopxEvent|
                #[trigger] is_suite_event(e, suite_stopped_message(paused), now_ms) && appended(
                    LoopxPersistedState {
                        suspended: true,
                        revision: next_revision(old(self).revision),
                        ..*old(self)
                    },
                    *final(self),
                    e,
                ),
            old(self).wf() && old(self).cursor < u64::MAX ==> final(self).wf(),
    {
        if self.suspended {
            return;
        }
        self.suspended = true;
        self.revision = self.revision.saturating_add(1);
        let ghost mid = *self;
        let mut message = String::new();
        push_str(&mut message, "LoopX suite stopped; intake and scheduling are held until resume (paused ");
        push_decimal(&mut message, paused);
        push_str(&mut message, " task(s))");
        proof {
            reveal_strlit("LoopX suite stopped; intake and scheduling are held until resume (paused ");
            reveal_strlit(" task(s))");
            assert(message@ =~= suite_stopped_message(paused));
        }
        let event = suite_event(message, now_ms);
        let ghost e = event;
        self.append_event(event);
        proof {
            assert(mid == (LoopxPersistedState {
                suspended: true,
                revision: next_revision(old(self).revision),
                ..*old(self)
            }));
            assert(appended(mid, *self, e));
        }
    }

    /// Lifts a suite stop: a suspended suite runs again, with a new revision
    /// and an event; a running one is left as it is.
    pub fn resume_suite(&mut self, now_ms: i64)
        ensures
            !old(self).suspended ==> *final(self) == *old(self),
            old(self).suspended ==> exists|e: LoopxEvent|
                #[trigger] is_suite_event(e, "LoopX suite resumed; intake and scheduling re-enabled"@, now_ms)
                    && appended(
                    LoopxPersistedState {
                        suspended: false,
                        revision: next_revision(old(self).revision),
                        ..*old(self)
                    },
                    *final(self),
                    e,
                ),
            old(self).wf() && old(self).cursor < u64::MAX ==> final(self).wf(),
    {
        if !self.suspended {
            return;
        }
        self.suspended = false;
        self.revision = self.revision.saturating_add(1);
        let ghost mid = *self;
        let event = suite_event(
            "LoopX suite resumed; intake and scheduling re-enabled".to_owned(),
            now_ms,
        );
        let ghost e = event;
        self.append_event(event);
        proof {
            assert(appended(mid, *self, e));
        }
    }
}

// ---------------------------------------------------------------------------
// Suite reset.
// ---------------------------------------------------------------------------

/// The answer to a reset while another reset runs.
pub fn reset_in_progress_response(current_revision: u64) -> (res: LoopxActionResponse)
    ensures
        res.status == LoopxActionStatus::Duplicate,
        res.current_revision == current_revision,
        res.task is None,
        res.message matches Some(m) && m@ == "LoopX reset is already in progress"@,
{
    LoopxActionResponse {
        status: LoopxActionStatus::Duplicate,
        current_revision,
        task: None,
        message: Some("LoopX reset is already in progress".to_owned()),
    }
}

/// A reset cancels the tasks that are preparing, queued, running or already
/// cancelling.
pub open spec fn cancelled_by_reset(state: LoopxTaskState) -> bool {
    state == LoopxTaskState::Preparing || state == LoopxTaskState::Queued || state
        == LoopxTaskState::Running || state == LoopxTaskState::Cancelling
}

/// What a reset makes of a task before the teardown.
pub open spec fn cancel_for_reset(t: LoopxTaskSnapshot, now_ms: i64) -> LoopxTaskSnapshot {
    if cancelled_by_reset(t.state) {
        LoopxTaskSnapshot {
            state: LoopxTaskState::Cancelling,
            phase: LoopxPhase::Cancelling,
            revision: next_revision(t.revision),
            updated_at: now_ms,
            ..t
        }
    } else {
        t
    }
}

/// A plain answer to a suite-level request.
pub open spec fn answers(
    res: Option<LoopxActionResponse>,
    status: LoopxActionStatus,
    revision: u64,
    message: Seq<char>,
) -> bool {
    &&& res matches Some(r)
    &&& r.status == status
    &&& r.current_revision == revision
    &&& r.task is None
    &&& r.message matches Some(m) && m@ == message
}

impl LoopxPersistedState {
    /// The durable first step of a suite reset: a request already applied is a
    /// duplicate and a stale expected revision a conflict, both leaving the
    /// state as it is; otherwise every active task is marked cancelling, the
    /// request is remembered and the state gets a new revision (`None`: go on
    /// with the teardown).
    pub fn begin_reset(&mut self, request: &LoopxActionRequest, now_ms: i64) -> (res: Option<
        LoopxActionResponse,
    >)
        ensures
            knows_request(old(self).processed_request_ids@, request.client_request_id@) ==> {
                &&& *final(self) == *old(self)
                &&& answers(
                    res,
                    LoopxActionStatus::Duplicate,
                    old(self).revision,
                    "LoopX reset was already applied"@,
                )
            },
            !knows_request(old(self).processed_request_ids@, request.client_request_id@)
                && old(self).revision != request.expected_revision ==> {
                &&& *final(self) == *old(self)
                &&& answers(
                    res,
                    LoopxActionStatus::RevisionConflict,
                    old(self).revision,
                    "LoopX state changed; refresh before resetting"@,
                )
            },
            !knows_request(old(self).processed_request_ids@, request.client_request_id@)
                && old(self).revision == request.expected_revision ==> {
                &&& res is None
                &&& final(self).tasks@.len() == old(self).tasks@.len()
                &&& forall|i: int|
                    0 <= i < old(self).tasks@.len() ==> #[trigger] final(self).tasks@[i]
                        == cancel_for_reset(old(self).tasks@[i], now_ms)
                &&& final(self).revision == next_revision(old(self).revision)
                &&& final(self).processed_request_ids@ == (if request.client_request_id@.len()
                    == 0 {
                    old(self).processed_request_ids@
                } else {
                    keep_last(
                        old(self).processed_request_ids@.push(request.client_request_id),
                        MAX_IDEMPOTENCY_KEYS as nat,
                    )
                })
                &&& final(self).schema_version == old(self).schema_version
                &&& final(self).stream_id == old(self).stream_id
                &&& final(self).cursor == old(self).cursor
                &&& final(self).environment == old(self).environment
                &&& final(self).runtime == old(self).runtime
                &&& final(self).events == old(self).events
                &&& final(self).suspended == old(self).suspended
            },
            old(self).wf() ==> final(self).wf(),
    {
        if self.has_processed_request(request.client_request_id.as_str()) {
            return Some(
                LoopxActionResponse {
                    status: LoopxActionStatus::Duplicate,
                    current_revision: self.revision,
                    task: None,
                    message: Some("LoopX reset was already applied".to_owned()),
                },
            );
        }
        if self.revision != request.expected_revision {
            return Some(
                LoopxActionResponse {
                    status: LoopxActionStatus::RevisionConflict,
                    current_revision: self.revision,
                    task: None,
                    message: Some("LoopX state changed; refresh before resetting".to_owned()),
                },
            );
        }
        let ghost before = self.tasks@;
        let ghost pre = *self;
        let mut i: usize = 0;
        while i < self.tasks.len()
            invariant
                *self == (LoopxPersistedState { tasks: self.tasks, ..pre }),
                i <= self.tasks@.len(),
                self.tasks@.len() == before.len(),
                forall|k: int| 0 <= k < i ==> #[trigger] self.tasks@[k] == cancel_for_reset(before[k], now_ms),
                forall|k: int| i <= k < before.len() ==> #[trigger] self.tasks@[k] == before[k],
            decreases before.len() - i,
        {
            let state = self.tasks[i].state;
            if state == LoopxTaskState::Preparing || state == LoopxTaskState::Queued || state
                == LoopxTaskState::Running || state == LoopxTaskState::Cancelling {
                let revision = self.tasks[i].revision.saturating_add(1);
                self.tasks[i].state = LoopxTaskState::Cancelling;
                self.tasks[i].phase = LoopxPhase::Cancelling;
                self.tasks[i].revision = revision;
                self.tasks[i].updated_at = now_ms;
            }
            i = i + 1;
        }
        self.record_processed_request(request.client_request_id.clone());
        self.revision = self.revision.saturating_add(1);
        None
    }
}

/// The texts in order with adjacent repeats dropped.
pub open spec fn dedup_adjacent(s: Seq<Seq<char>>) -> Seq<Seq<char>>
    decreases s.len(),
{
    if s.len() == 0 {
        s
    } else {
        let rest = dedup_adjacent(s.drop_last());
        if s.len() > 1 && s[s.len() - 2] == s.last() {
            rest
        } else {
            rest.push(s.last())
        }
    }
}

/// The goal ids of the tasks.
pub open spec fn goal_ids_of(tasks: Seq<LoopxTaskSnapshot>) -> Seq<Seq<char>> {
    tasks.map_values(|t: LoopxTaskSnapshot| spec_goal_id(t.identity))
}

/// The goal ids a reset retires: each task's goal id, sorted, each once.
pub fn reset_goal_ids(tasks: &[LoopxTaskSnapshot]) -> (res: Vec<String>)
    ensures
        res@.map_values(|s: String| s@) == dedup_adjacent(goal_ids_of(tasks@).sort_by(text_order())),
{
    let mut ids: Vec<Vec<char>> = Vec::new();
    let ghost mut views: Seq<Seq<char>> = Seq::empty();
    let mut i: usize = 0;
    while i < tasks.len()
        invariant
            i <= tasks@.len(),
            views == goal_ids_of(tasks@.take(i as int)),
            ids@.len() == views.len(),
            forall|k: int| 0 <= k < ids@.len() ==> #[trigger] ids@[k]@ == views[k],
        decreases tasks@.len() - i,
    {
        let id = goal_id_for(&tasks[i].identity);
        let chars = chars_of(id.as_str());
        ids.push(chars);
        proof {
            views = views.push(id@);
            assert(views =~= goal_ids_of(tasks@.take(i + 1)));
        }
        i = i + 1;
    }
    proof {
        assert(tasks@.take(tasks@.len() as int) =~= tasks@);
    }
    let (sorted, Ghost(sorted_views)) = sort_texts(ids, Ghost(views));
    let mut res: Vec<String> = Vec::new();
    let mut j: usize = 0;
    while j < sorted.len()
        invariant
            j <= sorted@.len(),
            sorted_views.len() == sorted@.len(),
            forall|k: int| 0 <= k < sorted@.len() ==> #[trigger] sorted@[k]@ == sorted_views[k],
            res@.map_values(|s: String| s@) == dedup_adjacent(sorted_views.take(j as int)),
        decreases sorted@.len() - j,
    {
        proof {
            assert(sorted_views.take(j + 1).drop_last() =~= sorted_views.take(j as int));
        }
        if j == 0 || !seq_eq(&sorted[j - 1], &sorted[j]) {
            res.push(string_from_chars(&sorted[j]));
        }
        j = j + 1;
        proof {
            assert(res@.map_values(|s: String| s@) =~= dedup_adjacent(sorted_views.take(j as int)));
        }
    }
    proof {
        assert(sorted_views.take(sorted_views.len() as int) =~= sorted_views);
    }
    res
}

/// How a finished reset is reported: the tasks cleared and the global goal
/// routes the CLI retired or found already absent.
pub open spec fn reset_summary(task_count: u64, cleared_routes: nat) -> Seq<char> {
    "Cleared "@ + decimal(task_count as nat) + " LoopX tasks, "@ + decimal(cleared_routes)
        + " global goal routes, managed workspaces, runtime state, and persisted controller state"@
}

/// The message of a finished reset.
pub fn reset_summary_message(task_count: u64, goals: &LoopxCliResetGoalsResult) -> (res: String)
    requires
        goals.retired_goal_ids@.len() + goals.already_absent_goal_ids@.len() <= u64::MAX,
    ensures
        res@ == reset_summary(
            task_count,
            (goals.retired_goal_ids@.len() + goals.already_absent_goal_ids@.len()) as nat,
        ),
{
    let cleared = goals.retired_goal_ids.len() as u64 + goals.already_absent_goal_ids.len() as u64;
    let mut res = String::new();
    push_str(&mut res, "Cleared ");
    push_decimal(&mut res, task_count);
    push_str(&mut res, " LoopX tasks, ");
    push_decimal(&mut res, cleared);
    push_str(
        &mut res,
        " global goal routes, managed workspaces, runtime state, and persisted controller state",
    );
    proof {
        reveal_strlit("Cleared ");
        reveal_strlit(" LoopX tasks, ");
        reveal_strlit(
            " global goal routes, managed workspaces, runtime state, and persisted controller state",
        );
        assert(res@ =~= reset_summary(task_count, cleared as nat));
    }
    res
}

/// The event that announces the stream a reset replaced.
pub fn reset_stream_event(fresh_stream_id: &str, previous_stream_id: &str, now_ms: i64) -> (res:
    LoopxEvent)
    ensures
        res.stream_id@ == fresh_stream_id@,
        res.cursor == 0,
        res.task_id is None,
        res.kind == LoopxEventKind::SnapshotInvalidated,
        res.level == LoopxEventLevel::Info,
        res.source == LoopxEventSource::Controller,
        res.message@ == "LoopX reset replaced stream "@ + previous_stream_id@,
        !res.important,
        res.occurred_at == now_ms,
{
    let mut message = String::new();
    push_str(&mut message, "LoopX reset replaced stream ");
    push_str(&mut message, previous_stream_id);
    proof {
        reveal_strlit("LoopX reset replaced stream ");
    }
    let mut event = suite_event(message, now_ms);
    event.stream_id = fresh_stream_id.to_owned();
    event
}

/// The state after a reset: a fresh stream that keeps the environment facts.
pub fn state_after_reset(environment: LoopxEnvironmentSnapshot, now_ms: i64) -> (res:
    LoopxPersistedState)
    ensures
        res.environment == environment,
        res.stream_id@.len() == 36,
        res.cursor == 0,
        res.revision == 0,
        res.tasks@.len() == 0,
        res.runtime@ == Map::<String, LoopxTaskRuntimeRecord>::empty(),
        res.events@.len() == 0,
        res.processed_request_ids@.len() == 0,
        !res.suspended,
        res.wf(),
{
    let mut fresh = LoopxPersistedState::new(now_ms);
    fresh.environment = environment;
    fresh
}

// ---------------------------------------------------------------------------
// Installing the runtime.
// ---------------------------------------------------------------------------

impl LoopxPersistedState {
    /// The checks before an installation starts: it carries a request id; a
    /// request already applied, or a runtime already available, is a
    /// duplicate. `None`: go on.
    pub fn precheck_install(&self, request: &LoopxActionRequest) -> (res: Option<
        Result<LoopxActionResponse, String>,
    >)
        ensures
            trim(request.client_request_id@).len() == 0 ==> (res matches Some(Err(e)) && e@
                == "clientRequestId is required"@),
            trim(request.client_request_id@).len() > 0 && knows_request(
                self.processed_request_ids@,
                request.client_request_id@,
            ) ==> (res matches Some(Ok(r)) && answers(
                Some(r),
                LoopxActionStatus::Duplicate,
                self.revision,
                "LoopX installation request was already applied"@,
            )),
            trim(request.client_request_id@).len() > 0 && !knows_request(
                self.processed_request_ids@,
                request.client_request_id@,
            ) && self.environment.core.sidecar.status == LoopxEnvironmentFactStatus::Available ==> (
            res matches Some(Ok(r)) && answers(
                Some(r),
                LoopxActionStatus::Duplicate,
                self.revision,
                "A compatible LoopX runtime is already available"@,
            )),
            trim(request.client_request_id@).len() > 0 && !knows_request(
                self.processed_request_ids@,
                request.client_request_id@,
            ) && self.environment.core.sidecar.status != LoopxEnvironmentFactStatus::Available
                ==> res is None,
    {
        if str_is_blank(request.client_request_id.as_str()) {
            return Some(Err("clientRequestId is required".to_owned()));
        }
        if self.has_processed_request(request.client_request_id.as_str()) {
            return Some(
                Ok(
                    LoopxActionResponse {
                        status: LoopxActionStatus::Duplicate,
                        current_revision: self.revision,
                        task: None,
                        message: Some("LoopX installation request was already applied".to_owned()),
                    },
                ),
            );
        }
        if self.environment.core.sidecar.status == LoopxEnvironmentFactStatus::Available {
            return Some(
                Ok(
                    LoopxActionResponse {
                        status: LoopxActionStatus::Duplicate,
                        current_revision: self.revision,
                        task: None,
                        message: Some("A compatible LoopX runtime is already available".to_owned()),
                    },
                ),
            );
        }
        None
    }

    /// Records that an installation started: the runtime fact is being
    /// checked while the pinned version downloads, the environment and the
    /// state get new revisions, the request is remembered and an event logged.
    /// Returns the new state revision.
    pub fn mark_loopx_installing(&mut self, request_id: String, now_ms: i64) -> (res: u64)
        ensures
            res == final(self).revision,
            final(self).revision == next_revision(old(self).revision),
            final(self).environment.revision == next_revision(old(self).environment.revision),
            final(self).environment.status == LoopxEnvironmentStatus::Checking,
            final(self).environment.checked_at == Some(now_ms),
            final(self).environment.core.sidecar.status == LoopxEnvironmentFactStatus::Checking,
            final(self).environment.core.sidecar.version matches Some(v) && v@ == LOOPX_PINNED_VERSION@,
            final(self).environment.core.sidecar.detail matches Some(d) && d@
                == "Downloading runtime files from the official GitHub source"@,
            final(self).environment.core.sidecar.remediation is None,
            final(self).environment.core.sidecar.remediation_action
                == LoopxEnvironmentRemediationAction::NoRemediation,
            final(self).environment.core.sidecar.checked_at == Some(now_ms),
            final(self).environment.core.node_runtime == old(self).environment.core.node_runtime,
            final(self).environment.core.git_worktree == old(self).environment.core.git_worktree,
            final(self).environment.core.agent_model == old(self).environment.core.agent_model,
            final(self).environment.optional == old(self).environment.optional,
            request_id@.len() > 0 ==> knows_request(final(self).processed_request_ids@, request_id@),
            final(self).processed_request_ids@ == (if request_id@.len() == 0 || knows_request(
                old(self).processed_request_ids@,
                request_id@,
            ) {
                old(self).processed_request_ids@
            } else {
                keep_last(old(self).processed_request_ids@.push(request_id), MAX_IDEMPOTENCY_KEYS as nat)
            }),
            final(self).events@.last().kind == LoopxEventKind::EnvironmentChanged,
            final(self).events@.last().source == LoopxEventSource::System,
            final(self).events@.last().message@ == "LoopX managed source installation started"@,
            final(self).events@.last().occurred_at == now_ms,
            logged_one(*old(self), *final(self)),
            final(self).tasks == old(self).tasks,
            final(self).runtime == old(self).runtime,
            final(self).suspended == old(self).suspended,
            final(self).schema_version == old(self).schema_version,
            final(self).stream_id == old(self).stream_id,
            old(self).wf() && old(self).cursor < u64::MAX ==> final(self).wf(),
    {
        let checked_at = Some(now_ms);
        self.environment.revision = self.environment.revision.saturating_add(1);
        self.environment.status = LoopxEnvironmentStatus::Checking;
        self.environment.checked_at = checked_at;
        self.environment.core.sidecar = LoopxEnvironmentFact {
            status: LoopxEnvironmentFactStatus::Checking,
            version: Some(LOOPX_PINNED_VERSION.to_owned()),
            detail: Some("Downloading runtime files from the official GitHub source".to_owned()),
            remediation: None,
            remediation_action: LoopxEnvironmentRemediationAction::NoRemediation,
            checked_at,
        };
        self.record_processed_request(request_id);
        self.revision = self.revision.saturating_add(1);
        let current_revision = self.revision;
        let mut event = LoopxEvent::default();
        event.kind = LoopxEventKind::EnvironmentChanged;
        event.source = LoopxEventSource::System;
        event.message = "LoopX managed source installation started".to_owned();
        event.occurred_at = now_ms;
        let ghost mid = *self;
        let ghost e = event;
        self.append_event(event);
        proof {
            let pushed = mid.events@.push(LoopxEvent { stream_id: mid.stream_id, cursor: self.cursor, ..e });
            assert(self.events@.last() == pushed.last());
            lemma_appended_logs_one(*old(self), mid, *self, e);
        }
        current_revision
    }

    /// Records that an installation failed: the runtime is unavailable with
    /// the error (installing it is the remedy), the environment is blocked,
    /// and an error event is logged.
    pub fn mark_loopx_install_failed(&mut self, error: &str, now_ms: i64)
        ensures
            final(self).revision == next_revision(old(self).revision),
            final(self).environment.revision == next_revision(old(self).environment.revision),
            final(self).environment.status == LoopxEnvironmentStatus::Blocked,
            final(self).environment.checked_at == Some(now_ms),
            final(self).environment.core.sidecar.status == LoopxEnvironmentFactStatus::Unavailable,
            final(self).environment.core.sidecar.detail matches Some(d) && d@ == error@,
            final(self).environment.core.sidecar.remediation matches Some(r) && r@
                == install_loopx_remediation(),
            final(self).environment.core.sidecar.remediation_action
                == LoopxEnvironmentRemediationAction::InstallLoopx,
            final(self).environment.core.node_runtime == old(self).environment.core.node_runtime,
            final(self).environment.core.git_worktree == old(self).environment.core.git_worktree,
            final(self).environment.core.agent_model == old(self).environment.core.agent_model,
            final(self).environment.optional == old(self).environment.optional,
            final(self).events@.last().kind == LoopxEventKind::EnvironmentChanged,
            final(self).events@.last().level == LoopxEventLevel::Error,
            final(self).events@.last().message@ == "LoopX managed source installation failed: "@
                + error@,
            final(self).events@.last().important,
            final(self).events@.last().occurred_at == now_ms,
            logged_one(*old(self), *final(self)),
            final(self).tasks == old(self).tasks,
            crate::store::keeps_records(*old(self), *final(self)),
            final(self).suspended == old(self).suspended,
            old(self).wf() && old(self).cursor < u64::MAX ==> final(self).wf(),
    {
        let checked_at = Some(now_ms);
        self.environment.revision = self.environment.revision.saturating_add(1);
        self.environment.status = LoopxEnvironmentStatus::Blocked;
        self.environment.checked_at = checked_at;
        self.environment.core.sidecar = unavailable_loopx_environment_fact(error.to_owned(), checked_at);
        self.revision = self.revision.saturating_add(1);
        let mut message = String::new();
        push_str(&mut message, "LoopX managed source installation failed: ");
        push_str(&mut message, error);
        proof {
            reveal_strlit("LoopX managed source installation failed: ");
        }
        let mut event = LoopxEvent::default();
        event.kind = LoopxEventKind::EnvironmentChanged;
        event.level = LoopxEventLevel::Error;
        event.source = LoopxEventSource::System;
        event.message = message;
        event.important = true;
        event.occurred_at = now_ms;
        let ghost mid = *self;
        let ghost e = event;
        self.append_event(event);
        proof {
            let pushed = mid.events@.push(LoopxEvent { stream_id: mid.stream_id, cursor: self.cursor, ..e });
            assert(self.events@.last() == pushed.last());
            lemma_appended_logs_one(*old(self), mid, *self, e);
        }
    }
}

/// The answer while another installation runs.
pub fn install_running_response(current_revision: u64) -> (res: LoopxActionResponse)
    ensures
        answers(Some(res), LoopxActionStatus::Duplicate, current_revision, "LoopX installation is already running"@),
{
    LoopxActionResponse {
        status: LoopxActionStatus::Duplicate,
        current_revision,
        task: None,
        message: Some("LoopX installation is already running".to_owned()),
    }
}

/// The answer once an installation started in the background.
pub fn install_started_response(current_revision: u64) -> (res: LoopxActionResponse)
    ensures
        answers(Some(res), LoopxActionStatus::Applied, current_revision, "LoopX installation started"@),
{
    LoopxActionResponse {
        status: LoopxActionStatus::Applied,
        current_revision,
        task: None,
        message: Some("LoopX installation started".to_owned()),
    }
}

// ---------------------------------------------------------------------------
// Loading the durable state.
// ---------------------------------------------------------------------------

/// The state the controller starts from: the stored one (a fresh one when
/// none was stored, or when loading failed, which then blocks writes), with
/// the restart policy applied to a stored one. Returns the state, the load
/// error, and whether the restart changed anything (the state is then saved
/// again).
pub fn state_after_load(loaded: Result<Option<LoopxPersistedState>, String>, now_ms: i64) -> (res: (
    LoopxPersistedState,
    Option<String>,
    bool,
))
    ensures
        match loaded {
            Ok(Some(stored)) => res.1 is None && crate::store::restart_applied(stored, res.0, res.2, now_ms),
            Ok(None) => res.1 is None && !res.2 && crate::store::fresh_state(res.0),
            Err(e) => res.1 == Some(e) && !res.2 && crate::store::fresh_state(res.0),
        },
{
    match loaded {
        Ok(Some(stored)) => {
            let mut state = stored;
            let changed = state.apply_restart_policy(now_ms);
            (state, None, changed)
        },
        Ok(None) => (LoopxPersistedState::new(now_ms), None, false),
        Err(e) => (LoopxPersistedState::new(now_ms), Some(e), false),
    }
}


/// Answering a gate, and nothing else, requeues the task: approving and
/// rejecting both leave it queued, and every other action with a fixed end
/// finishes it or sends it to recovery.
pub proof fn lemma_answered_gates_requeue(kind: LoopxActionKind)
    ensures
        (spec_task_action_target(kind) == Some(
            (crate::types::LoopxTaskState::Queued, crate::types::LoopxPhase::Queued),
        )) <==> (kind == LoopxActionKind::Approve || kind == LoopxActionKind::Reject),
        spec_task_action_target(LoopxActionKind::Approve) == spec_task_action_target(
            LoopxActionKind::Reject,
        ),
        spec_task_action_target(kind) matches Some((s, p)) ==> (s != crate::types::LoopxTaskState::Queued
            ==> (p == crate::types::LoopxPhase::Finished || p == crate::types::LoopxPhase::Recovering)),
        kind == LoopxActionKind::Pause ==> spec_task_action_target(kind) == Some(
            (crate::types::LoopxTaskState::Stopped, crate::types::LoopxPhase::Finished),
        ),
        kind == LoopxActionKind::Abort ==> spec_task_action_target(kind) == Some(
            (crate::types::LoopxTaskState::Aborted, crate::types::LoopxPhase::Finished),
        ),
        kind == LoopxActionKind::Archive ==> spec_task_action_target(kind) == Some(
            (crate::types::LoopxTaskState::Archived, crate::types::LoopxPhase::Finished),
        ),
        kind == LoopxActionKind::Restore ==> spec_task_action_target(kind) == Some(
            (crate::types::LoopxTaskState::RecoveryRequired, crate::types::LoopxPhase::Recovering),
        ),
        kind == LoopxActionKind::Resume ==> spec_task_action_target(kind) is None,
{
}
} // verus!
