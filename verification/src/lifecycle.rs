//! The controller's decisions over a task's life: settling a turn, driving
//! the next turn, projecting user gates and Goal state, and the task
//! transitions they make. Each is a function from the current task (and the
//! facts LoopX reported) to the next task and the follow-up the host runs.

use vstd::prelude::*;

use crate::host::{
    preserve_unanswered_local_gate, spec_preserve_local_gate, compose_agent_turn_instruction, is_read_only_user_gate, opt_str, opt_string,
    phase_after_settlement, spec_phase_after_settlement, spec_read_only_gate,
    spec_state_after_settlement, spec_turn_instruction, task_state_after_settlement,
    LOOPX_DURABLE_COMPENSATION_NOTE, LOOPX_PLAN_EXHAUSTED_MESSAGE, LOOPX_PLAN_EXHAUSTED_REASON,
};
use crate::ports::{
    LoopxAgentStartRequest, LoopxAgentTurnMetadata, LoopxAgentTurnStatus, LoopxCliBuildTurnResult,
    LoopxCliGoalSnapshot, LoopxCliRunDecision, LoopxCliSettleTurnResult, LoopxCliSettlementStatus,
    LoopxCliUserGate,
};
use crate::policy::{project_host_task_from_goal, spec_project_host_task_from_goal};
use crate::store::LoopxTaskRuntimeRecord;
use crate::text::{copy_opt_string, push_decimal, push_str, str_eq};
use crate::types::{
    LoopxCliGoalState, LoopxCurrentTodo, LoopxEventKind, LoopxPhase, LoopxSettlementSummary,
    LoopxTaskSnapshot, LoopxTaskState,
};

verus! {

/// `n + 1`, saturating.
pub open spec fn next_revision(n: u64) -> u64 {
    if n == u64::MAX {
        u64::MAX
    } else {
        (n + 1) as u64
    }
}

// ---------------------------------------------------------------------------
// Settlement.
// ---------------------------------------------------------------------------

/// How a settled turn is applied.
#[derive(Debug, Clone, Copy, PartialEq, Eq, Structural)]
pub struct LoopxSettlementPlan {
    /// One corrective turn re-submits the pending writebacks.
    pub compensate_durable_writeback: bool,
    pub final_state: LoopxTaskState,
    pub phase: LoopxPhase,
    /// The agent session continues into the goal's next turn.
    pub keep_agent_session: bool,
}

/// The plan of a settlement: a healthy turn without validated durable
/// progress gets one corrective turn (unless one is already pending);
/// otherwise the settlement and the post-settlement Goal decide the state. A
/// completed turn whose task continues keeps its agent session.
pub open spec fn spec_settlement_plan(
    agent_status: LoopxAgentTurnStatus,
    settlement_status: LoopxCliSettlementStatus,
    compensation_pending: bool,
    post_settlement_decision: Option<LoopxCliRunDecision>,
) -> LoopxSettlementPlan {
    let compensate = agent_status != LoopxAgentTurnStatus::Failed && settlement_status
        == LoopxCliSettlementStatus::NoDurableProgress && !compensation_pending;
    let final_state = if compensate {
        LoopxTaskState::Queued
    } else {
        spec_state_after_settlement(agent_status, settlement_status, post_settlement_decision)
    };
    LoopxSettlementPlan {
        compensate_durable_writeback: compensate,
        final_state,
        phase: spec_phase_after_settlement(final_state),
        keep_agent_session: agent_status == LoopxAgentTurnStatus::Completed && (final_state
            == LoopxTaskState::Queued || final_state == LoopxTaskState::WaitingForUser),
    }
}

pub fn plan_settlement(
    agent_status: LoopxAgentTurnStatus,
    settlement_status: LoopxCliSettlementStatus,
    compensation_pending: bool,
    post_settlement_goal: Option<&LoopxCliGoalSnapshot>,
) -> (res: LoopxSettlementPlan)
    ensures
        res == spec_settlement_plan(
            agent_status,
            settlement_status,
            compensation_pending,
            match post_settlement_goal {
                Some(g) => Some(g.run_decision),
                None => None,
            },
        ),
{
    let compensate = agent_status != LoopxAgentTurnStatus::Failed && settlement_status
        == LoopxCliSettlementStatus::NoDurableProgress && !compensation_pending;
    let final_state = if compensate {
        LoopxTaskState::Queued
    } else {
        task_state_after_settlement(agent_status, settlement_status, post_settlement_goal)
    };
    LoopxSettlementPlan {
        compensate_durable_writeback: compensate,
        final_state,
        phase: phase_after_settlement(final_state),
        keep_agent_session: agent_status == LoopxAgentTurnStatus::Completed && (final_state
            == LoopxTaskState::Queued || final_state == LoopxTaskState::WaitingForUser),
    }
}

/// The pending user gate of a Goal, when there is one.
pub open spec fn gate_of(goal: Option<LoopxCliGoalSnapshot>) -> Option<LoopxCliUserGate> {
    match goal {
        Some(g) => g.pending_user_gate,
        None => None,
    }
}

/// What a settlement does to the task and its runtime record.
pub open spec fn settled(
    old_task: LoopxTaskSnapshot,
    new_task: LoopxTaskSnapshot,
    old_runtime: LoopxTaskRuntimeRecord,
    new_runtime: LoopxTaskRuntimeRecord,
    settlement: LoopxCliSettleTurnResult,
    plan: LoopxSettlementPlan,
    agent_status: LoopxAgentTurnStatus,
    failure_summary: Option<Seq<char>>,
    post_settlement_goal: Option<LoopxCliGoalSnapshot>,
    now_ms: i64,
) -> bool {
    let gate = gate_of(post_settlement_goal);
    &&& new_task.state == plan.final_state
    &&& new_task.phase == plan.phase
    &&& (if plan.final_state == LoopxTaskState::RecoveryRequired {
        new_task.recovery_reason matches Some(r) && r@ == "settlement_unverified"@
    } else {
        new_task.recovery_reason is None
    })
    &&& new_task.goal_state == Some(
        match post_settlement_goal {
            Some(g) => g.state,
            None => if settlement.status == LoopxCliSettlementStatus::GoalCompleted {
                LoopxCliGoalState::Completed
            } else {
                LoopxCliGoalState::Active
            },
        },
    )
    &&& new_task.revision == next_revision(old_task.revision)
    &&& new_task.current_turn_id is None
    &&& new_task.pending_gate_id == (match gate {
        Some(g) => Some(g.gate_id),
        None => None,
    })
    &&& new_task.pending_gate_message == (match gate {
        Some(g) => Some(g.message),
        None => None,
    })
    &&& new_task.pending_gate_action_kind == (match gate {
        Some(g) => g.action_kind,
        None => None,
    })
    &&& new_task.deadline_at is None
    &&& (if agent_status == LoopxAgentTurnStatus::Failed {
        new_task.error matches Some(e) && e@ == (match failure_summary {
            Some(f) => f,
            None => "Agent turn failed"@,
        })
    } else {
        new_task.error is None
    })
    &&& new_task.settlement == LoopxSettlementSummary {
        turn_id: Some(settlement.turn_id),
        receipt_id: Some(settlement.receipt_id),
        durable_revision: Some(settlement.after_revision),
        settled_at: Some(now_ms),
    }
    &&& new_task == LoopxTaskSnapshot {
        state: new_task.state,
        phase: new_task.phase,
        recovery_reason: new_task.recovery_reason,
        goal_state: new_task.goal_state,
        revision: new_task.revision,
        current_turn_id: None,
        pending_gate_id: new_task.pending_gate_id,
        pending_gate_message: new_task.pending_gate_message,
        pending_gate_action_kind: new_task.pending_gate_action_kind,
        deadline_at: None,
        error: new_task.error,
        settlement: new_task.settlement,
        ..old_task
    }
    &&& new_runtime.session_id == (if plan.keep_agent_session {
        old_runtime.session_id
    } else {
        None
    })
    &&& new_runtime.agent_turn_id is None
    &&& new_runtime.durable_compensation_pending == (if settlement.status
        == LoopxCliSettlementStatus::Settled || settlement.status
        == LoopxCliSettlementStatus::AlreadySettled || settlement.status
        == LoopxCliSettlementStatus::GoalCompleted {
        false
    } else if plan.compensate_durable_writeback {
        true
    } else {
        old_runtime.durable_compensation_pending
    })
    &&& (if plan.compensate_durable_writeback {
        new_runtime.pending_host_note matches Some(n) && n@ == LOOPX_DURABLE_COMPENSATION_NOTE@
    } else {
        new_runtime.pending_host_note == old_runtime.pending_host_note
    })
    &&& new_runtime.expected_durable_revision == Some(
        match post_settlement_goal {
            Some(g) => g.durable_revision,
            None => settlement.after_revision,
        },
    )
    &&& new_runtime == LoopxTaskRuntimeRecord {
        session_id: new_runtime.session_id,
        agent_turn_id: None,
        durable_compensation_pending: new_runtime.durable_compensation_pending,
        pending_host_note: new_runtime.pending_host_note,
        expected_durable_revision: new_runtime.expected_durable_revision,
        ..old_runtime
    }
}

fn copy_gate_fields(gate: Option<&LoopxCliUserGate>) -> (res: (
    Option<String>,
    Option<String>,
    Option<String>,
))
    ensures
        res.0 == (match gate {
            Some(g) => Some(g.gate_id),
            None => None,
        }),
        res.1 == (match gate {
            Some(g) => Some(g.message),
            None => None,
        }),
        res.2 == (match gate {
            Some(g) => g.action_kind,
            None => None,
        }),
{
    match gate {
        Some(g) => (Some(g.gate_id.clone()), Some(g.message.clone()), copy_opt_string(&g.action_kind)),
        None => (None, None, None),
    }
}

/// Applies a settlement to the task and its runtime record.
pub fn apply_settlement_to_task(
    task: &mut LoopxTaskSnapshot,
    runtime: &mut LoopxTaskRuntimeRecord,
    settlement: &LoopxCliSettleTurnResult,
    plan: &LoopxSettlementPlan,
    agent_status: LoopxAgentTurnStatus,
    failure_summary: Option<&str>,
    post_settlement_goal: Option<&LoopxCliGoalSnapshot>,
    now_ms: i64,
)
    ensures
        settled(
            *old(task),
            *final(task),
            *old(runtime),
            *final(runtime),
            *settlement,
            *plan,
            agent_status,
            opt_str(failure_summary),
            match post_settlement_goal {
                Some(g) => Some(*g),
                None => None,
            },
            now_ms,
        ),
{
    task.state = plan.final_state;
    task.phase = plan.phase;
    task.recovery_reason = if plan.final_state == LoopxTaskState::RecoveryRequired {
        let mut r = String::new();
        push_str(&mut r, "settlement_unverified");
        Some(r)
    } else {
        None
    };
    task.goal_state = Some(
        match post_settlement_goal {
            Some(g) => g.state,
            None => match settlement.status {
                LoopxCliSettlementStatus::GoalCompleted => LoopxCliGoalState::Completed,
                _ => LoopxCliGoalState::Active,
            },
        },
    );
    task.revision = task.revision.saturating_add(1);
    task.current_turn_id = None;
    let gate = match post_settlement_goal {
        Some(g) => g.pending_user_gate.as_ref(),
        None => None,
    };
    let (gate_id, gate_message, gate_kind) = copy_gate_fields(gate);
    task.pending_gate_id = gate_id;
    task.pending_gate_message = gate_message;
    task.pending_gate_action_kind = gate_kind;
    task.deadline_at = None;
    task.error = if agent_status == LoopxAgentTurnStatus::Failed {
        let mut e = String::new();
        match failure_summary {
            Some(f) => push_str(&mut e, f),
            None => push_str(&mut e, "Agent turn failed"),
        }
        Some(e)
    } else {
        None
    };
    task.settlement = LoopxSettlementSummary {
        turn_id: Some(settlement.turn_id.clone()),
        receipt_id: Some(settlement.receipt_id.clone()),
        durable_revision: Some(settlement.after_revision.clone()),
        settled_at: Some(now_ms),
    };
    if !plan.keep_agent_session {
        runtime.session_id = None;
    }
    runtime.agent_turn_id = None;
    if plan.compensate_durable_writeback {
        runtime.durable_compensation_pending = true;
        let mut note = String::new();
        push_str(&mut note, LOOPX_DURABLE_COMPENSATION_NOTE);
        runtime.pending_host_note = Some(note);
    }
    match settlement.status {
        LoopxCliSettlementStatus::Settled | LoopxCliSettlementStatus::AlreadySettled
        | LoopxCliSettlementStatus::GoalCompleted => {
            runtime.durable_compensation_pending = false;
        },
        _ => {},
    }
    runtime.expected_durable_revision = Some(
        match post_settlement_goal {
            Some(g) => g.durable_revision.clone(),
            None => settlement.after_revision.clone(),
        },
    );
}

/// What the host does after applying a settlement.
#[derive(Debug, Clone, Copy, PartialEq, Eq, Structural)]
pub enum LoopxSettlementFollowUp {
    /// Record the failure (and pause the repository when the failure blocks it).
    ReportFailure { pause_repository: bool },
    /// The Goal waits on an owner action outside the host.
    ParkOwnerAction,
    /// Surface the projected gate; a read-only gate is answered automatically first.
    ProjectGate { auto_approve_read_only: bool },
    /// Record the settlement and continue or yield the repository lane.
    RecordAndContinue,
}

/// The follow-up of a settlement.
pub open spec fn spec_settlement_follow_up(
    agent_status: LoopxAgentTurnStatus,
    final_state: LoopxTaskState,
    gate: Option<LoopxCliUserGate>,
    blocks_repository: bool,
) -> LoopxSettlementFollowUp {
    if agent_status == LoopxAgentTurnStatus::Failed {
        LoopxSettlementFollowUp::ReportFailure { pause_repository: blocks_repository }
    } else if final_state == LoopxTaskState::WaitingForUser {
        match gate {
            None => LoopxSettlementFollowUp::ParkOwnerAction,
            Some(g) => LoopxSettlementFollowUp::ProjectGate {
                auto_approve_read_only: spec_read_only_gate(opt_string(g.action_kind)),
            },
        }
    } else {
        LoopxSettlementFollowUp::RecordAndContinue
    }
}

pub fn settlement_follow_up(
    agent_status: LoopxAgentTurnStatus,
    final_state: LoopxTaskState,
    post_settlement_goal: Option<&LoopxCliGoalSnapshot>,
    blocks_repository: bool,
) -> (res: LoopxSettlementFollowUp)
    ensures
        res == spec_settlement_follow_up(
            agent_status,
            final_state,
            gate_of(
                match post_settlement_goal {
                    Some(g) => Some(*g),
                    None => None,
                },
            ),
            blocks_repository,
        ),
{
    if agent_status == LoopxAgentTurnStatus::Failed {
        return LoopxSettlementFollowUp::ReportFailure { pause_repository: blocks_repository };
    }
    if final_state == LoopxTaskState::WaitingForUser {
        let gate = match post_settlement_goal {
            Some(g) => g.pending_user_gate.as_ref(),
            None => None,
        };
        return match gate {
            None => LoopxSettlementFollowUp::ParkOwnerAction,
            Some(g) => {
                let kind = match &g.action_kind {
                    Some(k) => Some(k.as_str()),
                    None => None,
                };
                LoopxSettlementFollowUp::ProjectGate {
                    auto_approve_read_only: is_read_only_user_gate(kind),
                }
            },
        };
    }
    LoopxSettlementFollowUp::RecordAndContinue
}

/// The event that records a settlement that neither failed nor waits for the owner.
pub open spec fn spec_settlement_event(
    compensate: bool,
    final_state: LoopxTaskState,
    settlement_status: LoopxCliSettlementStatus,
) -> (LoopxEventKind, Seq<char>, bool) {
    if compensate {
        (
            LoopxEventKind::StateChanged,
            "LoopX durable writeback was not validated; scheduling one corrective turn to re-submit pending artifacts via the CLI write boundary"@,
            true,
        )
    } else if final_state == LoopxTaskState::Completed {
        (LoopxEventKind::SettlementRecorded, "LoopX goal completed"@, false)
    } else if final_state == LoopxTaskState::RecoveryRequired {
        (
            LoopxEventKind::StateChanged,
            if settlement_status == LoopxCliSettlementStatus::RetryRequired {
                "LoopX writeback validated but the quota spend settlement is missing; resume retries the turn with the current quota contract"@
            } else {
                "LoopX turn requires recovery after settlement"@
            },
            true,
        )
    } else {
        (LoopxEventKind::SettlementRecorded, "LoopX turn settlement recorded"@, false)
    }
}

pub fn settlement_event(plan: &LoopxSettlementPlan, settlement_status: LoopxCliSettlementStatus) -> (res:
    (LoopxEventKind, &'static str, bool))
    ensures
        (res.0, res.1@, res.2) == spec_settlement_event(
            plan.compensate_durable_writeback,
            plan.final_state,
            settlement_status,
        ),
{
    if plan.compensate_durable_writeback {
        (
            LoopxEventKind::StateChanged,
            "LoopX durable writeback was not validated; scheduling one corrective turn to re-submit pending artifacts via the CLI write boundary",
            true,
        )
    } else if plan.final_state == LoopxTaskState::Completed {
        (LoopxEventKind::SettlementRecorded, "LoopX goal completed", false)
    } else if plan.final_state == LoopxTaskState::RecoveryRequired {
        if settlement_status == LoopxCliSettlementStatus::RetryRequired {
            (
                LoopxEventKind::StateChanged,
                "LoopX writeback validated but the quota spend settlement is missing; resume retries the turn with the current quota contract",
                true,
            )
        } else {
            (LoopxEventKind::StateChanged, "LoopX turn requires recovery after settlement", true)
        }
    } else {
        (LoopxEventKind::SettlementRecorded, "LoopX turn settlement recorded", false)
    }
}

/// Whether the settlement is the false-negative `RetryRequired` of a
/// completed turn that the Goal projection resolved: its missing quota
/// receipt is recorded as an event.
pub fn settlement_receipt_missing(
    agent_status: LoopxAgentTurnStatus,
    settlement_status: LoopxCliSettlementStatus,
    has_post_settlement_goal: bool,
) -> (res: bool)
    ensures
        res == (agent_status == LoopxAgentTurnStatus::Completed && settlement_status
            == LoopxCliSettlementStatus::RetryRequired && has_post_settlement_goal),
{
    agent_status == LoopxAgentTurnStatus::Completed && settlement_status
        == LoopxCliSettlementStatus::RetryRequired && has_post_settlement_goal
}

/// One corrective turn per episode: a healthy turn without validated durable
/// progress schedules a corrective turn and arms the one-shot flag; a second
/// such settlement while the flag is armed parks the task in recovery.
pub proof fn lemma_durable_compensation_is_one_shot(
    first_status: LoopxAgentTurnStatus,
    second_status: LoopxAgentTurnStatus,
    old_task: LoopxTaskSnapshot,
    new_task: LoopxTaskSnapshot,
    old_runtime: LoopxTaskRuntimeRecord,
    new_runtime: LoopxTaskRuntimeRecord,
    settlement: LoopxCliSettleTurnResult,
    failure_summary: Option<Seq<char>>,
    now_ms: i64,
)
    requires
        first_status != LoopxAgentTurnStatus::Failed,
        !old_runtime.durable_compensation_pending,
        settlement.status == LoopxCliSettlementStatus::NoDurableProgress,
        settled(
            old_task,
            new_task,
            old_runtime,
            new_runtime,
            settlement,
            spec_settlement_plan(first_status, settlement.status, false, None),
            first_status,
            failure_summary,
            None,
            now_ms,
        ),
    ensures
        spec_settlement_plan(first_status, settlement.status, false, None).compensate_durable_writeback,
        new_task.state == LoopxTaskState::Queued,
        new_runtime.durable_compensation_pending,
        !spec_settlement_plan(
            second_status,
            LoopxCliSettlementStatus::NoDurableProgress,
            new_runtime.durable_compensation_pending,
            None,
        ).compensate_durable_writeback,
        spec_settlement_plan(
            second_status,
            LoopxCliSettlementStatus::NoDurableProgress,
            new_runtime.durable_compensation_pending,
            None,
        ).final_state == LoopxTaskState::RecoveryRequired,
{
}

// ---------------------------------------------------------------------------
// Driving a turn.
// ---------------------------------------------------------------------------

/// The step the host takes after inspecting a task's Goal.
#[derive(Debug, Clone, Copy, PartialEq, Eq, Structural)]
pub enum LoopxDriveStep {
    /// Mirror the Goal's terminal state (`archived` tells which message).
    CompleteGoal { archived: bool },
    /// Requeue after the cadence delay.
    Wait { delay_ms: u64 },
    /// The frontier waits on the owner.
    WaitingForUser,
    /// LoopX reported a failed goal.
    FailGoal,
    /// Already parked with `plan_exhausted`: nothing to do.
    AlreadyParked,
    /// Park with `plan_exhausted`.
    ParkPlanExhausted,
    /// The task waits in recovery for the owner.
    StayInRecovery,
    /// Build and start the next turn (`replan` for an autonomous replan turn).
    BuildTurn { replan: bool },
}

/// Whether the envelope selected a todo.
pub open spec fn has_selected_todo(goal: LoopxCliGoalSnapshot) -> bool {
    goal.selected_todo matches Some(t) && t.todo_id@.len() > 0
}

/// Whether the envelope carries a replan obligation the host may drive.
pub open spec fn has_replan_obligation(goal: LoopxCliGoalSnapshot) -> bool {
    goal.pending_replan_obligation_id matches Some(o) && crate::text::trim(o@).len() > 0
}

/// The step for an inspected Goal: waits, user gates, terminal decisions,
/// and for `RunNow` the plan-exhausted frontier (driven as a replan turn when
/// the envelope carries an obligation), the user-gated fallback without agent
/// work, and tasks waiting in recovery.
pub open spec fn spec_drive_step(task: LoopxTaskSnapshot, goal: LoopxCliGoalSnapshot) -> LoopxDriveStep {
    match goal.run_decision {
        LoopxCliRunDecision::Wait => if goal.state == LoopxCliGoalState::Archived {
            LoopxDriveStep::CompleteGoal { archived: true }
        } else {
            LoopxDriveStep::Wait {
                delay_ms: crate::host::spec_wait_delay(opt_string(goal.scheduler_cadence)),
            }
        },
        LoopxCliRunDecision::WaitingForUser => LoopxDriveStep::WaitingForUser,
        LoopxCliRunDecision::Complete => LoopxDriveStep::CompleteGoal { archived: false },
        LoopxCliRunDecision::Failed => LoopxDriveStep::FailGoal,
        LoopxCliRunDecision::RunNow => {
            let contradiction = goal.open_todo_count == 0 && goal.waiting_user_todo_count == 0
                && !has_selected_todo(goal);
            if contradiction && !has_replan_obligation(goal) {
                if task.state == LoopxTaskState::RecoveryRequired && (task.recovery_reason matches Some(
                    r,
                ) && r@ == LOOPX_PLAN_EXHAUSTED_REASON@) {
                    LoopxDriveStep::AlreadyParked
                } else {
                    LoopxDriveStep::ParkPlanExhausted
                }
            } else if goal.selected_todo is None && goal.pending_replan_obligation_id is None
                && goal.waiting_user_todo_count > 0 {
                LoopxDriveStep::WaitingForUser
            } else if task.state == LoopxTaskState::RecoveryRequired {
                LoopxDriveStep::StayInRecovery
            } else {
                LoopxDriveStep::BuildTurn { replan: contradiction }
            }
        },
    }
}

pub fn plan_drive_step(task: &LoopxTaskSnapshot, inspected: &LoopxCliGoalSnapshot) -> (res:
    LoopxDriveStep)
    ensures
        res == spec_drive_step(*task, *inspected),
{
    match inspected.run_decision {
        LoopxCliRunDecision::Wait => {
            if inspected.state == LoopxCliGoalState::Archived {
                LoopxDriveStep::CompleteGoal { archived: true }
            } else {
                LoopxDriveStep::Wait { delay_ms: crate::host::wait_requeue_delay_ms(inspected) }
            }
        },
        LoopxCliRunDecision::WaitingForUser => LoopxDriveStep::WaitingForUser,
        LoopxCliRunDecision::Complete => LoopxDriveStep::CompleteGoal { archived: false },
        LoopxCliRunDecision::Failed => LoopxDriveStep::FailGoal,
        LoopxCliRunDecision::RunNow => {
            let selected = match &inspected.selected_todo {
                Some(t) => crate::text::chars_of(t.todo_id.as_str()).len() > 0,
                None => false,
            };
            let contradiction = crate::host::run_now_is_frontier_contradiction(
                inspected.open_todo_count,
                inspected.waiting_user_todo_count,
                selected,
            );
            if contradiction {
                let obligation = match &inspected.pending_replan_obligation_id {
                    Some(o) => Some(o.as_str()),
                    None => None,
                };
                let frontier = crate::host::todoless_run_now_frontier(obligation);
                if frontier == crate::host::TodolessRunNowFrontier::Park {
                    let already = task.state == LoopxTaskState::RecoveryRequired && match &task.recovery_reason {
                        Some(r) => str_eq(r.as_str(), LOOPX_PLAN_EXHAUSTED_REASON),
                        None => false,
                    };
                    return if already {
                        LoopxDriveStep::AlreadyParked
                    } else {
                        LoopxDriveStep::ParkPlanExhausted
                    };
                }
            }
            if inspected.selected_todo.is_none() && inspected.pending_replan_obligation_id.is_none()
                && inspected.waiting_user_todo_count > 0 {
                return LoopxDriveStep::WaitingForUser;
            }
            if task.state == LoopxTaskState::RecoveryRequired {
                return LoopxDriveStep::StayInRecovery;
            }
            LoopxDriveStep::BuildTurn { replan: contradiction }
        },
    }
}

/// Requeue delay after a retryable conflict while building a turn.
pub const TURN_CONFLICT_RETRY_MS: u64 = 5000;

/// The path of the pinned skill document seeded into a worktree.
pub open spec fn pinned_reference_path(workspace: Seq<char>) -> Seq<char> {
    workspace + "\\.loopx\\pinned-loopx-skill.md"@
}

/// The agent start request of a built turn: the composed instruction (a
/// kept session continues the conversation), the task's worktree, model
/// (`auto` when unset), scopes and goal metadata.
pub open spec fn agent_request_holds(
    task: LoopxTaskSnapshot,
    runtime: LoopxTaskRuntimeRecord,
    turn: LoopxCliBuildTurnResult,
    host_note: Option<Seq<char>>,
    req: LoopxAgentStartRequest,
) -> bool {
    &&& req.operation_id@ == "agent-"@ + task.task_id@ + "-"@ + crate::text::decimal(
        task.generation as nat,
    )
    &&& req.task_id == task.task_id
    &&& req.generation == task.generation
    &&& req.worktree_path@ == (match task.workspace_path {
        Some(w) => w@,
        None => Seq::empty(),
    })
    &&& req.instruction@ == spec_turn_instruction(
        turn.agent_instruction@,
        host_note,
        match task.workspace_path {
            Some(w) => Some(pinned_reference_path(w@)),
            None => None,
        },
        runtime.session_id is Some,
    )
    &&& req.model_id@ == (match task.model_id {
        Some(m) => m@,
        None => "auto"@,
    })
    &&& req.granted_scopes@ == task.granted_scopes@
    &&& req.reuse_session_id == runtime.session_id
    &&& req.metadata.goal_id@ == (match task.goal_id {
        Some(g) => g@,
        None => Seq::empty(),
    })
    &&& req.metadata.loopx_turn_id == turn.turn_id
    &&& req.metadata.item == task.identity.item
    &&& req.metadata.attempt == task.identity.attempt
}

pub fn agent_start_request(
    task: &LoopxTaskSnapshot,
    runtime: &LoopxTaskRuntimeRecord,
    turn: &LoopxCliBuildTurnResult,
    host_note: Option<&str>,
) -> (res: LoopxAgentStartRequest)
    ensures
        agent_request_holds(*task, *runtime, *turn, opt_str(host_note), res),
{
    let mut operation_id = String::new();
    push_str(&mut operation_id, "agent-");
    push_str(&mut operation_id, task.task_id.as_str());
    push_str(&mut operation_id, "-");
    push_decimal(&mut operation_id, task.generation);
    let path: Option<String> = match &task.workspace_path {
        Some(w) => {
            let mut p = w.clone();
            push_str(&mut p, "\\.loopx\\pinned-loopx-skill.md");
            Some(p)
        },
        None => None,
    };
    let path_ref = match &path {
        Some(p) => Some(p.as_str()),
        None => None,
    };
    let instruction = compose_agent_turn_instruction(
        turn.agent_instruction.clone(),
        host_note,
        path_ref,
        runtime.session_id.is_some(),
    );
    let worktree_path = match &task.workspace_path {
        Some(w) => w.clone(),
        None => String::new(),
    };
    let model_id = match &task.model_id {
        Some(m) => m.clone(),
        None => {
            let mut m = String::new();
            push_str(&mut m, "auto");
            m
        },
    };
    let goal_id = match &task.goal_id {
        Some(g) => g.clone(),
        None => String::new(),
    };
    LoopxAgentStartRequest {
        operation_id,
        task_id: task.task_id.clone(),
        generation: task.generation,
        worktree_path,
        instruction,
        model_id,
        granted_scopes: crate::types::copy_scopes(&task.granted_scopes),
        metadata: LoopxAgentTurnMetadata {
            goal_id,
            loopx_turn_id: turn.turn_id.clone(),
            item: task.identity.item.copy(),
            attempt: task.identity.attempt,
        },
        reuse_session_id: copy_opt_string(&runtime.session_id),
    }
}

// ---------------------------------------------------------------------------
// Task transitions.
// ---------------------------------------------------------------------------

/// The task with its pending gate cleared unless it waits for the owner.
pub open spec fn gate_kept_for(state: LoopxTaskState, old_task: LoopxTaskSnapshot, new_task: LoopxTaskSnapshot) -> bool {
    if state == LoopxTaskState::WaitingForUser {
        &&& new_task.pending_gate_id == old_task.pending_gate_id
        &&& new_task.pending_gate_message == old_task.pending_gate_message
        &&& new_task.pending_gate_action_kind == old_task.pending_gate_action_kind
    } else {
        &&& new_task.pending_gate_id is None
        &&& new_task.pending_gate_message is None
        &&& new_task.pending_gate_action_kind is None
    }
}

/// A host transition of the task's current generation: the new state and
/// phase, the pending gate kept only while waiting for the owner, and a new
/// revision. A task of another generation is left alone.
pub fn transition_task_state(
    task: &mut LoopxTaskSnapshot,
    generation: u64,
    state: LoopxTaskState,
    phase: LoopxPhase,
) -> (applied: bool)
    ensures
        applied == (old(task).generation == generation),
        !applied ==> *final(task) == *old(task),
        applied ==> {
            &&& final(task).state == state
            &&& final(task).phase == phase
            &&& gate_kept_for(state, *old(task), *final(task))
            &&& final(task).revision == next_revision(old(task).revision)
            &&& *final(task) == LoopxTaskSnapshot {
                state,
                phase,
                pending_gate_id: final(task).pending_gate_id,
                pending_gate_message: final(task).pending_gate_message,
                pending_gate_action_kind: final(task).pending_gate_action_kind,
                revision: final(task).revision,
                ..*old(task)
            }
        },
{
    if task.generation != generation {
        return false;
    }
    task.state = state;
    task.phase = phase;
    if state != LoopxTaskState::WaitingForUser {
        task.pending_gate_id = None;
        task.pending_gate_message = None;
        task.pending_gate_action_kind = None;
    }
    task.revision = task.revision.saturating_add(1);
    true
}

/// An owner action's transition: the new state and phase, `manual_restore`
/// as the recovery reason of a restored task (none otherwise), the pending
/// gate kept only while waiting, and a new revision.
pub fn transition_action_state(task: &mut LoopxTaskSnapshot, state: LoopxTaskState, phase: LoopxPhase)
    ensures
        final(task).state == state,
        final(task).phase == phase,
        state == LoopxTaskState::RecoveryRequired ==> (final(task).recovery_reason matches Some(r)
            && r@ == "manual_restore"@),
        state != LoopxTaskState::RecoveryRequired ==> final(task).recovery_reason is None,
        gate_kept_for(state, *old(task), *final(task)),
        final(task).revision == next_revision(old(task).revision),
        *final(task) == (LoopxTaskSnapshot {
            state,
            phase,
            recovery_reason: final(task).recovery_reason,
            pending_gate_id: final(task).pending_gate_id,
            pending_gate_message: final(task).pending_gate_message,
            pending_gate_action_kind: final(task).pending_gate_action_kind,
            revision: final(task).revision,
            ..*old(task)
        }),
{
    task.state = state;
    task.phase = phase;
    task.recovery_reason = if state == LoopxTaskState::RecoveryRequired {
        let mut r = String::new();
        push_str(&mut r, "manual_restore");
        Some(r)
    } else {
        None
    };
    if state != LoopxTaskState::WaitingForUser {
        task.pending_gate_id = None;
        task.pending_gate_message = None;
        task.pending_gate_action_kind = None;
    }
    task.revision = task.revision.saturating_add(1);
}

/// A task that never got a workspace, a goal or a turn.
pub open spec fn never_prepared(task: LoopxTaskSnapshot) -> bool {
    task.workspace_path is None && task.goal_id is None && task.current_turn_id is None
}

/// A failed execution: a task that never got anything prepared fails;
/// otherwise it parks in recovery with `execution_failure`.
pub fn fail_task_state(task: &mut LoopxTaskSnapshot, error: String)
    ensures
        final(task).state == (if never_prepared(*old(task)) {
            LoopxTaskState::Failed
        } else {
            LoopxTaskState::RecoveryRequired
        }),
        final(task).phase == (if never_prepared(*old(task)) {
            LoopxPhase::Finished
        } else {
            LoopxPhase::Recovering
        }),
        final(task).pending_gate_id is None,
        final(task).pending_gate_message is None,
        final(task).pending_gate_action_kind is None,
        final(task).error == Some(error),
        final(task).recovery_reason matches Some(r) && r@ == "execution_failure"@,
        final(task).deadline_at is None,
        final(task).revision == next_revision(old(task).revision),
        *final(task) == (LoopxTaskSnapshot {
            state: final(task).state,
            phase: final(task).phase,
            pending_gate_id: None,
            pending_gate_message: None,
            pending_gate_action_kind: None,
            error: final(task).error,
            recovery_reason: final(task).recovery_reason,
            deadline_at: None,
            revision: final(task).revision,
            ..*old(task)
        }),
{
    let never = task.workspace_path.is_none() && task.goal_id.is_none() && task.current_turn_id.is_none();
    task.state = if never {
        LoopxTaskState::Failed
    } else {
        LoopxTaskState::RecoveryRequired
    };
    task.phase = if never {
        LoopxPhase::Finished
    } else {
        LoopxPhase::Recovering
    };
    task.pending_gate_id = None;
    task.pending_gate_message = None;
    task.pending_gate_action_kind = None;
    task.error = Some(error);
    let mut r = String::new();
    push_str(&mut r, "execution_failure");
    task.recovery_reason = Some(r);
    task.deadline_at = None;
    task.revision = task.revision.saturating_add(1);
}

/// Parks a task whose Goal is still active after its plan ran dry, with the
/// stable `plan_exhausted` reason.
pub fn park_plan_exhausted_state(task: &mut LoopxTaskSnapshot)
    ensures
        final(task).state == LoopxTaskState::RecoveryRequired,
        final(task).phase == LoopxPhase::Recovering,
        final(task).recovery_reason matches Some(r) && r@ == LOOPX_PLAN_EXHAUSTED_REASON@,
        final(task).error matches Some(e) && e@ == LOOPX_PLAN_EXHAUSTED_MESSAGE@,
        final(task).pending_gate_id is None,
        final(task).pending_gate_message is None,
        final(task).pending_gate_action_kind is None,
        final(task).deadline_at is None,
        final(task).revision == next_revision(old(task).revision),
        *final(task) == (LoopxTaskSnapshot {
            state: LoopxTaskState::RecoveryRequired,
            phase: LoopxPhase::Recovering,
            recovery_reason: final(task).recovery_reason,
            error: final(task).error,
            pending_gate_id: None,
            pending_gate_message: None,
            pending_gate_action_kind: None,
            deadline_at: None,
            revision: final(task).revision,
            ..*old(task)
        }),
{
    task.state = LoopxTaskState::RecoveryRequired;
    task.phase = LoopxPhase::Recovering;
    let mut r = String::new();
    push_str(&mut r, LOOPX_PLAN_EXHAUSTED_REASON);
    task.recovery_reason = Some(r);
    let mut e = String::new();
    push_str(&mut e, LOOPX_PLAN_EXHAUSTED_MESSAGE);
    task.error = Some(e);
    task.pending_gate_id = None;
    task.pending_gate_message = None;
    task.pending_gate_action_kind = None;
    task.deadline_at = None;
    task.revision = task.revision.saturating_add(1);
}

/// Binds the prepared worktree to the task's current generation.
pub fn bind_workspace_state(
    task: &mut LoopxTaskSnapshot,
    runtime: &mut LoopxTaskRuntimeRecord,
    generation: u64,
    worktree_path: String,
    registry_path: String,
)
    ensures
        old(task).generation != generation ==> *final(task) == *old(task) && *final(runtime)
            == *old(runtime),
        old(task).generation == generation ==> {
            &&& *final(task) == LoopxTaskSnapshot {
                workspace_path: Some(worktree_path),
                phase: LoopxPhase::CreatingGoal,
                revision: next_revision(old(task).revision),
                ..*old(task)
            }
            &&& *final(runtime) == LoopxTaskRuntimeRecord { registry_path, ..*old(runtime) }
        },
{
    if task.generation != generation {
        return;
    }
    task.workspace_path = Some(worktree_path);
    task.phase = LoopxPhase::CreatingGoal;
    task.revision = task.revision.saturating_add(1);
    runtime.registry_path = registry_path;
}

/// Binds the created Goal: the task is queued for inspection of the Goal.
pub fn bind_goal_state(
    task: &mut LoopxTaskSnapshot,
    runtime: &mut LoopxTaskRuntimeRecord,
    generation: u64,
    goal_id: String,
    durable_revision: String,
)
    ensures
        old(task).generation != generation ==> *final(task) == *old(task) && *final(runtime)
            == *old(runtime),
        old(task).generation == generation ==> {
            &&& *final(task) == LoopxTaskSnapshot {
                goal_id: Some(goal_id),
                goal_state: Some(LoopxCliGoalState::Active),
                state: LoopxTaskState::Queued,
                phase: LoopxPhase::InspectingGoal,
                revision: next_revision(old(task).revision),
                ..*old(task)
            }
            &&& *final(runtime) == LoopxTaskRuntimeRecord {
                expected_durable_revision: Some(durable_revision),
                ..*old(runtime)
            }
        },
{
    if task.generation != generation {
        return;
    }
    task.goal_id = Some(goal_id);
    task.goal_state = Some(LoopxCliGoalState::Active);
    task.state = LoopxTaskState::Queued;
    task.phase = LoopxPhase::InspectingGoal;
    task.revision = task.revision.saturating_add(1);
    runtime.expected_durable_revision = Some(durable_revision);
}

/// Records the Goal's lifecycle state when it changed; returns whether it did.
pub fn record_goal_state_change(task: &mut LoopxTaskSnapshot, generation: u64, goal_state: LoopxCliGoalState) -> (changed:
    bool)
    ensures
        changed == (old(task).goal_state != Some(goal_state) && old(task).generation == generation),
        !changed ==> *final(task) == *old(task),
        changed ==> *final(task) == (LoopxTaskSnapshot {
            goal_state: Some(goal_state),
            revision: next_revision(old(task).revision),
            ..*old(task)
        }),
{
    let same = match task.goal_state {
        Some(g) => g == goal_state,
        None => false,
    };
    if same || task.generation != generation {
        return false;
    }
    task.goal_state = Some(goal_state);
    task.revision = task.revision.saturating_add(1);
    true
}

/// Two todo projections with the same texts.
pub open spec fn same_todo(a: Option<LoopxCurrentTodo>, b: Option<LoopxCurrentTodo>) -> bool {
    match (a, b) {
        (None, None) => true,
        (Some(x), Some(y)) => {
            &&& x.todo_id@ == y.todo_id@
            &&& x.task_class@ == y.task_class@
            &&& x.action_kind@ == y.action_kind@
            &&& x.target_key@ == y.target_key@
            &&& x.claimed_by@ == y.claimed_by@
            &&& opt_string(x.next_due_at) == opt_string(y.next_due_at)
            &&& x.recommended_action@ == y.recommended_action@
        },
        _ => false,
    }
}

/// Records the frontier todo projection when it changed; returns whether it did.
pub fn record_current_todo_state(
    task: &mut LoopxTaskSnapshot,
    generation: u64,
    todo: Option<LoopxCurrentTodo>,
) -> (changed: bool)
    ensures
        changed == (old(task).generation == generation && !same_todo(old(task).current_todo, todo)),
        !changed ==> *final(task) == *old(task),
        changed ==> *final(task) == (LoopxTaskSnapshot {
            current_todo: todo,
            revision: next_revision(old(task).revision),
            ..*old(task)
        }),
{
    if task.generation != generation {
        return false;
    }
    let same = match (&task.current_todo, &todo) {
        (None, None) => true,
        (Some(a), Some(b)) => str_eq(a.todo_id.as_str(), b.todo_id.as_str()) && str_eq(
            a.task_class.as_str(),
            b.task_class.as_str(),
        ) && str_eq(a.action_kind.as_str(), b.action_kind.as_str()) && str_eq(
            a.target_key.as_str(),
            b.target_key.as_str(),
        ) && str_eq(a.claimed_by.as_str(), b.claimed_by.as_str()) && match (
            &a.next_due_at,
            &b.next_due_at,
        ) {
            (None, None) => true,
            (Some(x), Some(y)) => str_eq(x.as_str(), y.as_str()),
            _ => false,
        } && str_eq(a.recommended_action.as_str(), b.recommended_action.as_str()),
        _ => false,
    };
    if same {
        return false;
    }
    task.current_todo = todo;
    task.revision = task.revision.saturating_add(1);
    true
}

/// Binds a built turn: the task starts its agent, the runtime records the
/// turn's settlement token and durable revision.
pub fn bind_turn_state(
    task: &mut LoopxTaskSnapshot,
    runtime: &mut LoopxTaskRuntimeRecord,
    generation: u64,
    turn: &LoopxCliBuildTurnResult,
)
    ensures
        old(task).generation != generation ==> *final(task) == *old(task) && *final(runtime)
            == *old(runtime),
        old(task).generation == generation ==> {
            &&& *final(task) == LoopxTaskSnapshot {
                phase: LoopxPhase::StartingAgent,
                deadline_at: turn.deadline_at,
                current_turn_id: Some(turn.turn_id),
                revision: next_revision(old(task).revision),
                ..*old(task)
            }
            &&& *final(runtime) == LoopxTaskRuntimeRecord {
                loopx_turn_id: Some(turn.turn_id),
                settlement_token: Some(turn.settlement_token),
                expected_durable_revision: Some(turn.durable_revision),
                ..*old(runtime)
            }
        },
{
    if task.generation != generation {
        return;
    }
    task.phase = LoopxPhase::StartingAgent;
    task.deadline_at = turn.deadline_at;
    task.current_turn_id = Some(turn.turn_id.clone());
    task.revision = task.revision.saturating_add(1);
    runtime.loopx_turn_id = Some(turn.turn_id.clone());
    runtime.settlement_token = Some(turn.settlement_token.clone());
    runtime.expected_durable_revision = Some(turn.durable_revision.clone());
}

/// A phase change of the task's current generation, with a new revision; a
/// task of another generation is left alone.
pub fn update_task_phase_state(task: &mut LoopxTaskSnapshot, generation: u64, phase: LoopxPhase) -> (applied: bool)
    ensures
        applied == (old(task).generation == generation),
        !applied ==> *final(task) == *old(task),
        applied ==> *final(task) == (LoopxTaskSnapshot {
            phase,
            revision: next_revision(old(task).revision),
            ..*old(task)
        }),
{
    if task.generation != generation {
        return false;
    }
    task.phase = phase;
    task.revision = task.revision.saturating_add(1);
    true
}

/// Forgets the Agent session of the task's current generation, so that a
/// later turn cannot reuse it; a task of another generation keeps its record.
pub fn forget_agent_session_state(task: &LoopxTaskSnapshot, runtime: &mut LoopxTaskRuntimeRecord, generation: u64)
    ensures
        task.generation != generation ==> *final(runtime) == *old(runtime),
        task.generation == generation ==> *final(runtime) == (LoopxTaskRuntimeRecord {
            session_id: None,
            ..*old(runtime)
        }),
{
    if task.generation == generation {
        runtime.session_id = None;
    }
}

/// Binds a started agent run: the task is running its agent turn.
pub fn bind_agent_run_state(
    task: &mut LoopxTaskSnapshot,
    runtime: &mut LoopxTaskRuntimeRecord,
    session_id: String,
    turn_id: String,
    now_ms: i64,
)
    ensures
        *final(task) == (LoopxTaskSnapshot {
            state: LoopxTaskState::Running,
            phase: LoopxPhase::AgentRunning,
            current_turn_id: Some(turn_id),
            last_output_at: Some(now_ms),
            revision: next_revision(old(task).revision),
            ..*old(task)
        }),
        *final(runtime) == (LoopxTaskRuntimeRecord {
            session_id: Some(session_id),
            agent_turn_id: Some(turn_id),
            ..*old(runtime)
        }),
{
    task.state = LoopxTaskState::Running;
    task.phase = LoopxPhase::AgentRunning;
    task.current_turn_id = Some(turn_id.clone());
    task.last_output_at = Some(now_ms);
    task.revision = task.revision.saturating_add(1);
    runtime.session_id = Some(session_id);
    runtime.agent_turn_id = Some(turn_id);
}

/// Projects a user gate onto the task's current generation: it waits for
/// the owner's answer to that gate.
pub fn project_user_gate_state(
    task: &mut LoopxTaskSnapshot,
    runtime: &mut LoopxTaskRuntimeRecord,
    generation: u64,
    gate: &LoopxCliUserGate,
    durable_revision: String,
)
    ensures
        old(task).generation != generation ==> *final(task) == *old(task) && *final(runtime)
            == *old(runtime),
        old(task).generation == generation ==> {
            &&& *final(task) == LoopxTaskSnapshot {
                state: LoopxTaskState::WaitingForUser,
                phase: LoopxPhase::WaitingForApproval,
                pending_gate_id: Some(gate.gate_id),
                pending_gate_message: Some(gate.message),
                pending_gate_action_kind: gate.action_kind,
                revision: next_revision(old(task).revision),
                ..*old(task)
            }
            &&& *final(runtime) == LoopxTaskRuntimeRecord {
                expected_durable_revision: Some(durable_revision),
                ..*old(runtime)
            }
        },
{
    if task.generation != generation {
        return;
    }
    task.state = LoopxTaskState::WaitingForUser;
    task.phase = LoopxPhase::WaitingForApproval;
    task.pending_gate_id = Some(gate.gate_id.clone());
    task.pending_gate_message = Some(gate.message.clone());
    task.pending_gate_action_kind = copy_opt_string(&gate.action_kind);
    task.revision = task.revision.saturating_add(1);
    runtime.expected_durable_revision = Some(durable_revision);
}

/// Unbinds a goal whose workspace directory is gone, so the prepare flow
/// re-adds the worktree and reconnects the same goal.
pub fn unbind_missing_workspace_state(
    task: &mut LoopxTaskSnapshot,
    runtime: &mut LoopxTaskRuntimeRecord,
    generation: u64,
)
    ensures
        old(task).generation != generation ==> *final(task) == *old(task) && *final(runtime)
            == *old(runtime),
        old(task).generation == generation ==> {
            &&& *final(task) == LoopxTaskSnapshot {
                goal_id: None,
                goal_state: None,
                pending_gate_id: None,
                pending_gate_message: None,
                pending_gate_action_kind: None,
                current_turn_id: None,
                current_tool: None,
                current_todo: None,
                settlement: LoopxSettlementSummary {
                    turn_id: None,
                    receipt_id: None,
                    durable_revision: None,
                    settled_at: None,
                },
                revision: next_revision(old(task).revision),
                ..*old(task)
            }
            &&& *final(runtime) == LoopxTaskRuntimeRecord {
                expected_durable_revision: None,
                loopx_turn_id: None,
                settlement_token: None,
                session_id: None,
                agent_turn_id: None,
                ..*old(runtime)
            }
        },
{
    if task.generation != generation {
        return;
    }
    task.goal_id = None;
    task.goal_state = None;
    task.pending_gate_id = None;
    task.pending_gate_message = None;
    task.pending_gate_action_kind = None;
    task.current_turn_id = None;
    task.current_tool = None;
    task.current_todo = None;
    task.settlement = LoopxSettlementSummary {
        turn_id: None,
        receipt_id: None,
        durable_revision: None,
        settled_at: None,
    };
    task.revision = task.revision.saturating_add(1);
    runtime.expected_durable_revision = None;
    runtime.loopx_turn_id = None;
    runtime.settlement_token = None;
    runtime.session_id = None;
    runtime.agent_turn_id = None;
}

// ---------------------------------------------------------------------------
// Goal projection.
// ---------------------------------------------------------------------------

/// The pending gate a projection leaves on the task: the task's own while it
/// waits on an unanswered local gate, the Goal's otherwise.
pub open spec fn projected_gate(
    task: LoopxTaskSnapshot,
    goal: LoopxCliGoalSnapshot,
) -> (Option<Seq<char>>, Option<Seq<char>>, Option<Seq<char>>) {
    if spec_preserve_local_gate(task, goal) {
        (
            opt_string(task.pending_gate_id),
            opt_string(task.pending_gate_message),
            opt_string(task.pending_gate_action_kind),
        )
    } else {
        match goal.pending_user_gate {
            Some(g) => (Some(g.gate_id@), Some(g.message@), opt_string(g.action_kind)),
            None => (None, None, None),
        }
    }
}

/// Whether applying the Goal projection would change nothing.
pub open spec fn spec_projection_unchanged(task: LoopxTaskSnapshot, goal: LoopxCliGoalSnapshot) -> bool {
    let proj = spec_project_host_task_from_goal(task.state, task.phase, goal.state);
    let gate = projected_gate(task, goal);
    &&& task.goal_state == Some(goal.state)
    &&& task.state == proj.state
    &&& task.phase == proj.phase
    &&& opt_string(task.pending_gate_id) == gate.0
    &&& opt_string(task.pending_gate_message) == gate.1
    &&& opt_string(task.pending_gate_action_kind) == gate.2
}

fn opt_string_eq(a: &Option<String>, b: Option<&str>) -> (res: bool)
    ensures
        res == (opt_string(*a) == opt_str(b)),
{
    match (a, b) {
        (None, None) => true,
        (Some(x), Some(y)) => str_eq(x.as_str(), y),
        _ => false,
    }
}

fn as_opt_str(a: &Option<String>) -> (res: Option<&str>)
    ensures
        opt_str(res) == opt_string(*a),
{
    match a {
        Some(s) => Some(s.as_str()),
        None => None,
    }
}

pub fn goal_projection_unchanged(task: &LoopxTaskSnapshot, goal: &LoopxCliGoalSnapshot) -> (res: bool)
    ensures
        res == spec_projection_unchanged(*task, *goal),
{
    let proj = project_host_task_from_goal(task.state, task.phase, goal.state);
    let preserve = preserve_unanswered_local_gate(task, goal);
    let (gate_id, gate_message, gate_kind): (Option<&str>, Option<&str>, Option<&str>) = if preserve {
        (
            as_opt_str(&task.pending_gate_id),
            as_opt_str(&task.pending_gate_message),
            as_opt_str(&task.pending_gate_action_kind),
        )
    } else {
        match &goal.pending_user_gate {
            Some(g) => (Some(g.gate_id.as_str()), Some(g.message.as_str()), as_opt_str(&g.action_kind)),
            None => (None, None, None),
        }
    };
    let same_goal_state = match task.goal_state {
        Some(s) => s == goal.state,
        None => false,
    };
    same_goal_state && task.state == proj.state && task.phase == proj.phase && opt_string_eq(
        &task.pending_gate_id,
        gate_id,
    ) && opt_string_eq(&task.pending_gate_message, gate_message) && opt_string_eq(
        &task.pending_gate_action_kind,
        gate_kind,
    )
}

/// What applying the Goal projection does to the task of the expected
/// generation: the projected state and phase; the Goal's gate unless an
/// unanswered local gate is preserved; the todo cleared on completion; the
/// error cleared unless the task needs recovery or failed; turn fields
/// cleared in terminal states; a new revision and the Goal's durable revision.
pub open spec fn projected(
    old_task: LoopxTaskSnapshot,
    new_task: LoopxTaskSnapshot,
    old_runtime: LoopxTaskRuntimeRecord,
    new_runtime: LoopxTaskRuntimeRecord,
    goal: LoopxCliGoalSnapshot,
) -> bool {
    let proj = spec_project_host_task_from_goal(old_task.state, old_task.phase, goal.state);
    let preserve = spec_preserve_local_gate(old_task, goal);
    let terminal = proj.state.spec_is_terminal();
    &&& new_task.goal_state == Some(goal.state)
    &&& new_task.state == proj.state
    &&& new_task.phase == proj.phase
    &&& new_task.current_todo == (if proj.state == LoopxTaskState::Completed {
        None
    } else {
        old_task.current_todo
    })
    &&& new_task.error == (if proj.state == LoopxTaskState::RecoveryRequired || proj.state
        == LoopxTaskState::Failed {
        old_task.error
    } else {
        None
    })
    &&& (if preserve {
        &&& new_task.pending_gate_id == old_task.pending_gate_id
        &&& new_task.pending_gate_message == old_task.pending_gate_message
        &&& new_task.pending_gate_action_kind == old_task.pending_gate_action_kind
    } else {
        &&& new_task.pending_gate_id == (match goal.pending_user_gate {
            Some(g) => Some(g.gate_id),
            None => None,
        })
        &&& new_task.pending_gate_message == (match goal.pending_user_gate {
            Some(g) => Some(g.message),
            None => None,
        })
        &&& new_task.pending_gate_action_kind == (match goal.pending_user_gate {
            Some(g) => g.action_kind,
            None => None,
        })
    })
    &&& new_task.revision == next_revision(old_task.revision)
    &&& new_task.current_turn_id == (if terminal {
        None
    } else {
        old_task.current_turn_id
    })
    &&& new_task.current_tool == (if terminal {
        None
    } else {
        old_task.current_tool
    })
    &&& new_task.deadline_at == (if terminal {
        None
    } else {
        old_task.deadline_at
    })
    &&& new_task.retry_at == (if terminal {
        None
    } else {
        old_task.retry_at
    })
    &&& new_task == LoopxTaskSnapshot {
        goal_state: new_task.goal_state,
        state: new_task.state,
        phase: new_task.phase,
        current_todo: new_task.current_todo,
        error: new_task.error,
        pending_gate_id: new_task.pending_gate_id,
        pending_gate_message: new_task.pending_gate_message,
        pending_gate_action_kind: new_task.pending_gate_action_kind,
        revision: new_task.revision,
        current_turn_id: new_task.current_turn_id,
        current_tool: new_task.current_tool,
        deadline_at: new_task.deadline_at,
        retry_at: new_task.retry_at,
        ..old_task
    }
    &&& new_runtime == LoopxTaskRuntimeRecord {
        expected_durable_revision: Some(goal.durable_revision),
        ..old_runtime
    }
}

pub fn apply_goal_projection_state(
    task: &mut LoopxTaskSnapshot,
    runtime: &mut LoopxTaskRuntimeRecord,
    expected_generation: u64,
    goal: &LoopxCliGoalSnapshot,
)
    ensures
        old(task).generation != expected_generation ==> *final(task) == *old(task)
            && *final(runtime) == *old(runtime),
        old(task).generation == expected_generation ==> projected(
            *old(task),
            *final(task),
            *old(runtime),
            *final(runtime),
            *goal,
        ),
{
    if task.generation != expected_generation {
        return;
    }
    let preserve = preserve_unanswered_local_gate(task, goal);
    let current = project_host_task_from_goal(task.state, task.phase, goal.state);
    task.goal_state = Some(goal.state);
    task.state = current.state;
    task.phase = current.phase;
    if current.state == LoopxTaskState::Completed {
        task.current_todo = None;
    }
    if !(current.state == LoopxTaskState::RecoveryRequired || current.state == LoopxTaskState::Failed) {
        task.error = None;
    }
    if !preserve {
        let (gate_id, gate_message, gate_kind) = copy_gate_fields(goal.pending_user_gate.as_ref());
        task.pending_gate_id = gate_id;
        task.pending_gate_message = gate_message;
        task.pending_gate_action_kind = gate_kind;
    }
    task.revision = task.revision.saturating_add(1);
    runtime.expected_durable_revision = Some(goal.durable_revision.clone());
    if task.state.is_terminal() {
        task.current_turn_id = None;
        task.current_tool = None;
        task.deadline_at = None;
        task.retry_at = None;
    }
}

/// Reconciliation never answers a gate: a task waiting on an unanswered
/// local gate, while the Goal is active and projects no gate, keeps its
/// state, phase and gate.
pub proof fn lemma_projection_keeps_unanswered_gate(
    old_task: LoopxTaskSnapshot,
    new_task: LoopxTaskSnapshot,
    old_runtime: LoopxTaskRuntimeRecord,
    new_runtime: LoopxTaskRuntimeRecord,
    goal: LoopxCliGoalSnapshot,
)
    requires
        old_task.state == LoopxTaskState::WaitingForUser,
        old_task.pending_gate_id is Some,
        goal.pending_user_gate is None,
        goal.state == LoopxCliGoalState::Active,
        projected(old_task, new_task, old_runtime, new_runtime, goal),
    ensures
        new_task.state == LoopxTaskState::WaitingForUser,
        new_task.phase == old_task.phase,
        new_task.pending_gate_id == old_task.pending_gate_id,
        new_task.pending_gate_message == old_task.pending_gate_message,
        new_task.pending_gate_action_kind == old_task.pending_gate_action_kind,
{
}

/// The Goal reconciliation throttle.
pub const GOAL_RECONCILE_TTL_MS: i64 = 30000;

/// Whether a task's Goal projection is refreshed: a bound goal and
/// workspace, no in-flight or final host work, passive states only when
/// forced (or waiting without a gate), and the reconciliation throttle
/// elapsed (or forced, or no projection yet), for a task whose runtime
/// record has its registry.
pub open spec fn spec_reconcile_candidate(
    task: LoopxTaskSnapshot,
    runtime: Option<LoopxTaskRuntimeRecord>,
    force: bool,
    now_ms: i64,
) -> bool {
    let s = task.state;
    &&& task.goal_id matches Some(g) && g@.len() > 0
    &&& task.workspace_path matches Some(w) && w@.len() > 0
    &&& !(s == LoopxTaskState::Preparing || s == LoopxTaskState::Running || s
        == LoopxTaskState::Cancelling || s == LoopxTaskState::Aborted || s
        == LoopxTaskState::Archived)
    &&& (force || (s == LoopxTaskState::WaitingForUser && task.pending_gate_id is None) || !(s
        == LoopxTaskState::WaitingForUser || s == LoopxTaskState::Completed || s
        == LoopxTaskState::Stopped || s == LoopxTaskState::Failed || s
        == LoopxTaskState::RecoveryRequired))
    &&& (force || task.goal_state is None || elapsed_ms(task.updated_at, now_ms)
        >= GOAL_RECONCILE_TTL_MS)
    &&& runtime matches Some(r) && r.registry_path@.len() > 0 && (force || task.goal_state is None
        || match r.last_goal_reconcile_at_ms {
        Some(at) => elapsed_ms(at, now_ms) >= GOAL_RECONCILE_TTL_MS,
        None => true,
    })
}

/// `now - since`, saturating at the bounds of `i64`.
pub open spec fn elapsed_ms(since: i64, now: i64) -> int {
    let d = now - since;
    if d > i64::MAX {
        i64::MAX as int
    } else if d < i64::MIN {
        i64::MIN as int
    } else {
        d
    }
}

fn elapsed_at_least(since: i64, now: i64, limit: i64) -> (res: bool)
    ensures
        res == (elapsed_ms(since, now) >= limit),
{
    let d: i128 = (now as i128) - (since as i128);
    let clamped: i128 = if d > 9223372036854775807i128 {
        9223372036854775807i128
    } else if d < -9223372036854775808i128 {
        -9223372036854775808i128
    } else {
        d
    };
    clamped >= limit as i128
}

pub fn is_reconcile_candidate(
    task: &LoopxTaskSnapshot,
    runtime: Option<&LoopxTaskRuntimeRecord>,
    force: bool,
    now_ms: i64,
) -> (res: bool)
    ensures
        res == spec_reconcile_candidate(
            *task,
            match runtime {
                Some(r) => Some(*r),
                None => None,
            },
            force,
            now_ms,
        ),
{
    let has_goal = match &task.goal_id {
        Some(g) => crate::text::chars_of(g.as_str()).len() > 0,
        None => false,
    };
    let has_workspace = match &task.workspace_path {
        Some(w) => crate::text::chars_of(w.as_str()).len() > 0,
        None => false,
    };
    let s = task.state;
    let active_or_final = s == LoopxTaskState::Preparing || s == LoopxTaskState::Running || s
        == LoopxTaskState::Cancelling || s == LoopxTaskState::Aborted || s
        == LoopxTaskState::Archived;
    let passive = s == LoopxTaskState::WaitingForUser || s == LoopxTaskState::Completed || s
        == LoopxTaskState::Stopped || s == LoopxTaskState::Failed || s
        == LoopxTaskState::RecoveryRequired;
    let state_ok = force || (s == LoopxTaskState::WaitingForUser && task.pending_gate_id.is_none())
        || !passive;
    let fresh_ok = force || task.goal_state.is_none() || elapsed_at_least(
        task.updated_at,
        now_ms,
        GOAL_RECONCILE_TTL_MS,
    );
    if !(has_goal && has_workspace && !active_or_final && state_ok && fresh_ok) {
        return false;
    }
    match runtime {
        None => false,
        Some(r) => {
            let throttle_ok = force || task.goal_state.is_none() || match r.last_goal_reconcile_at_ms {
                Some(at) => elapsed_at_least(at, now_ms, GOAL_RECONCILE_TTL_MS),
                None => true,
            };
            throttle_ok && crate::text::chars_of(r.registry_path.as_str()).len() > 0
        },
    }
}


/// A turn is driven only for a runnable Goal of a task that is not awaiting
/// recovery: a task in recovery is never given an agent turn by the drive
/// loop, whatever the Goal reports; the owner decides through the recovery
/// action. For a runnable Goal with work to do (a selected todo) such a task
/// stays in recovery.
pub proof fn lemma_recovering_tasks_get_no_turn(task: LoopxTaskSnapshot, goal: LoopxCliGoalSnapshot)
    ensures
        spec_drive_step(task, goal) is BuildTurn ==> goal.run_decision == LoopxCliRunDecision::RunNow
            && task.state != LoopxTaskState::RecoveryRequired,
        task.state == LoopxTaskState::RecoveryRequired && goal.run_decision == LoopxCliRunDecision::RunNow
            && has_selected_todo(goal) ==> spec_drive_step(task, goal) == LoopxDriveStep::StayInRecovery,
        task.state != LoopxTaskState::RecoveryRequired && goal.run_decision == LoopxCliRunDecision::RunNow
            && has_selected_todo(goal) ==> spec_drive_step(task, goal) == (LoopxDriveStep::BuildTurn {
            replan: false,
        }),
{
}

/// The Goal's run decision governs the drive step: a failed Goal fails the
/// task, a completed Goal completes it, a Goal waiting on the user routes to
/// the waiting frontier, and a waiting Goal requeues the task unless it was
/// archived, which completes it.
pub proof fn lemma_drive_step_follows_run_decision(task: LoopxTaskSnapshot, goal: LoopxCliGoalSnapshot)
    ensures
        goal.run_decision == LoopxCliRunDecision::Failed ==> spec_drive_step(task, goal)
            == LoopxDriveStep::FailGoal,
        goal.run_decision == LoopxCliRunDecision::Complete ==> spec_drive_step(task, goal) == (
        LoopxDriveStep::CompleteGoal { archived: false }),
        goal.run_decision == LoopxCliRunDecision::WaitingForUser ==> spec_drive_step(task, goal)
            == LoopxDriveStep::WaitingForUser,
        goal.run_decision == LoopxCliRunDecision::Wait && goal.state == LoopxCliGoalState::Archived
            ==> spec_drive_step(task, goal) == (LoopxDriveStep::CompleteGoal { archived: true }),
        goal.run_decision == LoopxCliRunDecision::Wait && goal.state != LoopxCliGoalState::Archived
            ==> spec_drive_step(task, goal) is Wait,
        spec_drive_step(task, goal) is StayInRecovery || spec_drive_step(task, goal) is AlreadyParked
            ==> task.state == LoopxTaskState::RecoveryRequired,
{
}
} // verus!
