//! Host-side rules of the LoopX controller: the agent turn instruction,
//! settlement follow-ups, gate classification, goal ids, environment facts and
//! the bounds on what the host keeps.

use vstd::prelude::*;

use crate::ports::{
    LoopxAgentTurnStatus, LoopxCliGoalSnapshot, LoopxCliRunDecision, LoopxCliSettlementStatus,
    LoopxGithubAuthProbe, LoopxNodeRuntimeFact,
};
use crate::text::{
    chars_of, contains, contains_exec, decimal, ends_with, ends_with_exec, lower, lower_chars,
    push_decimal, push_str, starts_with, starts_with_exec, str_eq, string_from_chars, trim,
    trim_chars,
};
use crate::types::{
    LoopxCliGoalState, LoopxEnvironmentFact, LoopxEnvironmentFactStatus,
    LoopxEnvironmentRemediationAction, LoopxItemKind, LoopxPhase, LoopxTaskIdentity,
    LoopxTaskSnapshot, LoopxTaskState,
};

verus! {

/// Environment boundary appended to every LoopX agent turn instruction: the
/// pinned LoopX CLI provided by the host is the only authoritative source for
/// LoopX behavior, commands, flags and schemas.
pub const LOOPX_AGENT_ENVIRONMENT_BOUNDARY_NOTE: &'static str = "\n\n---\n[BitFun environment boundary] The LoopX runtime on this machine is the CLI binary provided by the BitFun host at a pinned version; it is the only authoritative source for LoopX behavior, commands, flags, and schemas. Consult `loopx --help`, the help of the exact subcommand, or artifacts inside the goal workspace instead. Do not read, grep, or follow any LoopX source checkout on this machine (for example any directory containing `loopx/pyproject.toml`, a `loopx/capabilities/` tree, or a similar source layout): such trees may be a different version than the pinned runtime and are not documentation. Do not load, read, or follow any `loopx` or `loopx-*` entries from your skill catalog or from user-level skill directories (`~/.codex/skills`, `~/.agents/skills`): other LoopX installations of a different version may have placed them there, and the authoritative LoopX workflow documents for this \
    task are ONLY the pinned files under this worktree's `.loopx/` directory that this instruction names - when a LoopX document tells you to load another `loopx-*` skill, read the matching seeded `.loopx/` file instead of resolving the skill name through the catalog. Never install, update, self-update, or repair the LoopX installation (for example `loopx update`, `loopx self-repair` install flows, `scripts/install-local.sh`, or `scripts/install-windows.ps1`): the BitFun host owns the pinned binary, and installation repair is a host concern, never a task action. GitHub EXTERNAL WRITES are owner-gated: do NOT run `git push` to a remote, `gh pr create`, `gh issue comment`, `gh pr merge/close`, or any other GitHub write unless this turn's contract explicitly carries that approval. LoopX plans external writes behind a user gate (`requires_user_gate_before_external_write`); a todo's text (for example \"open a PR\") is a plan description, NOT an authorization. Prepare the branch and local validation, record the publish recommendation in your report, and stop - the owner approves publication from the host UI. GitHub reads stay allowed, but use the `gh` CLI for ALL GitHub data (issues, PRs, comments, releases): direct WebFetch calls to github.com / api.github.com are rejected with HTTP 403 (observed repeatedly). If a file path you assumed does not exist, do not retry the same path; re-derive it from CLI help output or goal-workspace artifacts.";

/// Minimal host facts for the closing ceremony of a turn.
pub const LOOPX_CLOSING_CEREMONY_NOTE: &'static str = "\n\n---\n[BitFun host facts - closing ceremony]\n\
- Closing-ceremony semantics (refresh-state / todo / quota / vision packet\n\
  schemas and ordering) are authoritative in `.loopx/pinned-loopx-skill.md`;\n\
  when to read that document is governed only by the pointer section above.\n\
- On a TYPED refusal, apply exactly the parameter the CLI error names and retry ONCE;\n\
  do not retry the same argv, do not reorder steps, and report a blocker after two ordered attempts.\n\
- The runtime is project-local (`<worktree>/.loopx/runtime`); never write to `~/.codex/loopx`.";

/// One-shot host note appended to the corrective turn instruction after a
/// settlement without validated durable progress.
pub const LOOPX_DURABLE_COMPENSATION_NOTE: &'static str = "The previous turn finished, but LoopX settlement reported no validated durable progress. Re-submit the pending vision and resolution artifacts through the LoopX CLI write boundary (`loopx refresh-state`) so they are recorded inside the goal workspace; do not write these artifacts to paths outside the workspace such as the system temp directory. If the previous turn modified product source files under the worktree but did not commit them, commit those product changes to the task branch with a descriptive message before ending the turn (leave `.loopx`/`.codex` bookkeeping out of the commit). When the writeback receipts are confirmed, end the turn so settlement can validate them.";

/// `recovery_reason` for a Goal that is still active after its plan ran dry.
pub const LOOPX_PLAN_EXHAUSTED_REASON: &'static str = "plan_exhausted";

/// Owner-facing message persisted on a task whose plan is exhausted.
pub const LOOPX_PLAN_EXHAUSTED_MESSAGE: &'static str = "LoopX goal is still active but its plan is exhausted: no open todo, no waiting user decision, and no selected action remain. BitFun does not fabricate a terminal Goal transition, so the task parks for an owner decision; the worktree, evidence, and any commits are preserved. Resume after the goal gains a new todo or gate (for example after an upstream PR merge), or finish the delivery manually from the task branch.";

/// The agent a goal is bound to unless the task names another.
pub const DEFAULT_AGENT_ID: &'static str = "bitfun-agent";

/// Reference pointer of a continued session: title, lead-in before the path,
/// and the text after it.
pub const REFERENCES_LOADED_TITLE: &'static str = "\n\n---\n[Pinned LoopX references - already loaded]\n";

pub const REFERENCES_LOADED_LEAD: &'static str = "This conversation continues an earlier turn of the same goal; the \
pinned LoopX skill document you already read from `";

pub const REFERENCES_LOADED_TAIL: &'static str = "` - and its sibling documents seeded under the same `.loopx/` \
directory - remain the authoritative LoopX workflow references for this host. \
Reuse them from your conversation context; re-read a file only if this \
conversation was compacted and its content is no longer present.\n";

/// Reference pointer of a fresh session.
pub const REFERENCES_READ_TITLE: &'static str = "\n\n---\n[Pinned LoopX references - read exactly once]\n";

pub const REFERENCES_READ_LEAD: &'static str = "Read `";

pub const REFERENCES_READ_TAIL: &'static str = "` ONCE before acting - it is the authoritative LoopX skill document \
(refresh-state / todo / quota / vision packet schemas and ordering). Use it from your \
conversation context afterwards; re-read only if this conversation was compacted. \
A separate CLI help file (`.loopx/pinned-loopx-cli-help.md`) exists ONLY for verifying a \
specific flag/argument when needed - do not read it up front. \
Sibling skill documents of the same pinned revision are seeded alongside it: \
`.loopx/loopx-doc-registry.md`, `.loopx/loopx-pr-program.md`, \
`.loopx/loopx-pr-review.md`, and `.loopx/loopx-change-quality.md`; when a skill \
document tells you to load another `loopx-*` skill, read the matching seeded file - \
never resolve loopx skill names through your skill catalog or user-level skill \
directories (they may hold a different LoopX version).\n\
- This host runs the `generic-cli / outer_controller / isolated-headless` runtime profile. \
Any `codex_app` scheduler/ACK fields the skill document mentions are CONCEPTUAL ONLY for this \
host; your actual scheduler hint comes from the packet you received - apply it as-is. \
- `.loopx/agent-onboard-pack.json` (fresh per goal) holds your agent-type's canonical \
doctor/bootstrap/quota/recheck command templates - prefer those forms over re-deriving them.\n";

/// Header of the one-shot host note.
pub const HOST_NOTE_HEADER: &'static str = "\n\n---\n[BitFun host note] ";

/// The view of an optional string slice.
pub open spec fn opt_str(o: Option<&str>) -> Option<Seq<char>> {
    match o {
        Some(s) => Some(s@),
        None => None,
    }
}

/// The view of an optional string.
pub open spec fn opt_string(o: Option<String>) -> Option<Seq<char>> {
    match o {
        Some(s) => Some(s@),
        None => None,
    }
}

/// The final agent turn instruction: the CLI's instruction, the environment
/// boundary, the pointer to the pinned references (asking for one read in a
/// fresh session, reuse in a continued one), the closing-ceremony facts, and
/// the one-shot host note last.
pub open spec fn spec_turn_instruction(
    instruction: Seq<char>,
    host_note: Option<Seq<char>>,
    pinned_reference_path: Option<Seq<char>>,
    session_continuation: bool,
) -> Seq<char> {
    let pointer = match pinned_reference_path {
        Some(p) => if session_continuation {
            REFERENCES_LOADED_TITLE@ + REFERENCES_LOADED_LEAD@ + p + REFERENCES_LOADED_TAIL@
        } else {
            REFERENCES_READ_TITLE@ + REFERENCES_READ_LEAD@ + p + REFERENCES_READ_TAIL@
        },
        None => Seq::empty(),
    };
    let note = match host_note {
        Some(n) => HOST_NOTE_HEADER@ + n,
        None => Seq::empty(),
    };
    instruction + LOOPX_AGENT_ENVIRONMENT_BOUNDARY_NOTE@ + pointer + LOOPX_CLOSING_CEREMONY_NOTE@
        + note
}

/// Composes the final agent turn instruction.
pub fn compose_agent_turn_instruction(
    instruction: String,
    host_note: Option<&str>,
    pinned_reference_path: Option<&str>,
    session_continuation: bool,
) -> (res: String)
    ensures
        res@ == spec_turn_instruction(
            instruction@,
            opt_str(host_note),
            opt_str(pinned_reference_path),
            session_continuation,
        ),
{
    let mut composed = instruction;
    push_str(&mut composed, LOOPX_AGENT_ENVIRONMENT_BOUNDARY_NOTE);
    if let Some(reference_path) = pinned_reference_path {
        if session_continuation {
            push_str(&mut composed, REFERENCES_LOADED_TITLE);
            push_str(&mut composed, REFERENCES_LOADED_LEAD);
            push_str(&mut composed, reference_path);
            push_str(&mut composed, REFERENCES_LOADED_TAIL);
        } else {
            push_str(&mut composed, REFERENCES_READ_TITLE);
            push_str(&mut composed, REFERENCES_READ_LEAD);
            push_str(&mut composed, reference_path);
            push_str(&mut composed, REFERENCES_READ_TAIL);
        }
    }
    push_str(&mut composed, LOOPX_CLOSING_CEREMONY_NOTE);
    if let Some(note) = host_note {
        push_str(&mut composed, HOST_NOTE_HEADER);
        push_str(&mut composed, note);
    }
    composed
}

/// Process lifecycle messages that are not persisted as task events.
pub fn is_normal_process_lifecycle_message(message: &str) -> (res: bool)
    ensures
        res == (message@ == "Starting LoopX process"@ || message@
            == "LoopX process exited successfully"@),
{
    str_eq(message, "Starting LoopX process") || str_eq(message, "LoopX process exited successfully")
}

/// Whether the task is bound to a goal (a non-blank goal id).
pub open spec fn spec_has_bound_goal(task: LoopxTaskSnapshot) -> bool {
    task.goal_id matches Some(g) && trim(g@).len() > 0
}

pub fn task_has_bound_goal(task: &LoopxTaskSnapshot) -> (res: bool)
    ensures
        res == spec_has_bound_goal(*task),
{
    match &task.goal_id {
        Some(g) => !crate::text::str_is_blank(g.as_str()),
        None => false,
    }
}

/// The bound workspace directory is gone: the task has a workspace path and
/// the directory does not exist.
pub fn bound_workspace_missing(task: &LoopxTaskSnapshot, workspace_exists: bool) -> (res: bool)
    ensures
        res == (task.workspace_path is Some && !workspace_exists),
{
    task.workspace_path.is_some() && !workspace_exists
}

/// Repository resume candidacy, as the controller applies it.
pub fn is_repository_recovery_candidate(task: &LoopxTaskSnapshot, repository_id: &str) -> (res: bool)
    ensures
        res == crate::summary::spec_recovery_candidate(
            *task,
            repository_id@,
            crate::summary::spec_resolves_upstream(
                crate::summary::opt_string_view(task.last_agent_summary),
            ),
        ),
{
    crate::summary::decide_repository_recovery_candidate(task, repository_id)
}

/// Whether a settlement is followed by a re-inspection of the durable Goal:
/// settled turns that did not fail, and `RetryRequired` only after a
/// completed turn.
pub open spec fn spec_inspects_goal(
    agent_status: LoopxAgentTurnStatus,
    settlement_status: LoopxCliSettlementStatus,
) -> bool {
    match settlement_status {
        LoopxCliSettlementStatus::Settled | LoopxCliSettlementStatus::AlreadySettled => agent_status
            != LoopxAgentTurnStatus::Failed,
        LoopxCliSettlementStatus::RetryRequired => agent_status == LoopxAgentTurnStatus::Completed,
        _ => false,
    }
}

pub fn inspects_goal_after_settlement(
    agent_status: LoopxAgentTurnStatus,
    settlement_status: LoopxCliSettlementStatus,
) -> (res: bool)
    ensures
        res == spec_inspects_goal(agent_status, settlement_status),
{
    match settlement_status {
        LoopxCliSettlementStatus::Settled | LoopxCliSettlementStatus::AlreadySettled => agent_status
            != LoopxAgentTurnStatus::Failed,
        LoopxCliSettlementStatus::RetryRequired => agent_status == LoopxAgentTurnStatus::Completed,
        LoopxCliSettlementStatus::NoDurableProgress | LoopxCliSettlementStatus::GoalCompleted => false,
    }
}

/// The task state after a settlement: a failed turn requires recovery; a
/// post-settlement Goal projection decides when there is one; otherwise the
/// settlement status does.
pub open spec fn spec_state_after_settlement(
    agent_status: LoopxAgentTurnStatus,
    settlement_status: LoopxCliSettlementStatus,
    post_settlement_decision: Option<LoopxCliRunDecision>,
) -> LoopxTaskState {
    if agent_status == LoopxAgentTurnStatus::Failed {
        LoopxTaskState::RecoveryRequired
    } else {
        match post_settlement_decision {
            Some(d) => match d {
                LoopxCliRunDecision::WaitingForUser => LoopxTaskState::WaitingForUser,
                LoopxCliRunDecision::Complete => LoopxTaskState::Completed,
                LoopxCliRunDecision::Failed => LoopxTaskState::RecoveryRequired,
                _ => LoopxTaskState::Queued,
            },
            None => match settlement_status {
                LoopxCliSettlementStatus::GoalCompleted => LoopxTaskState::Completed,
                LoopxCliSettlementStatus::Settled | LoopxCliSettlementStatus::AlreadySettled =>
                    LoopxTaskState::Queued,
                _ => LoopxTaskState::RecoveryRequired,
            },
        }
    }
}

pub fn task_state_after_settlement(
    agent_status: LoopxAgentTurnStatus,
    settlement_status: LoopxCliSettlementStatus,
    post_settlement_goal: Option<&LoopxCliGoalSnapshot>,
) -> (res: LoopxTaskState)
    ensures
        res == spec_state_after_settlement(
            agent_status,
            settlement_status,
            match post_settlement_goal {
                Some(g) => Some(g.run_decision),
                None => None,
            },
        ),
{
    if agent_status == LoopxAgentTurnStatus::Failed {
        return LoopxTaskState::RecoveryRequired;
    }
    if let Some(goal) = post_settlement_goal {
        return match goal.run_decision {
            LoopxCliRunDecision::WaitingForUser => LoopxTaskState::WaitingForUser,
            LoopxCliRunDecision::Complete => LoopxTaskState::Completed,
            LoopxCliRunDecision::Failed => LoopxTaskState::RecoveryRequired,
            LoopxCliRunDecision::RunNow | LoopxCliRunDecision::Wait => LoopxTaskState::Queued,
        };
    }
    match settlement_status {
        LoopxCliSettlementStatus::GoalCompleted => LoopxTaskState::Completed,
        LoopxCliSettlementStatus::Settled | LoopxCliSettlementStatus::AlreadySettled =>
            LoopxTaskState::Queued,
        LoopxCliSettlementStatus::NoDurableProgress | LoopxCliSettlementStatus::RetryRequired =>
            LoopxTaskState::RecoveryRequired,
    }
}

/// A `RunNow` frontier contradicts itself when the envelope asserts there is
/// nothing to do: no open todo, no waiting user todo and no selected todo.
pub fn run_now_is_frontier_contradiction(
    open_todo_count: u32,
    waiting_user_todo_count: u32,
    has_selected_todo: bool,
) -> (res: bool)
    ensures
        res == (open_todo_count == 0 && waiting_user_todo_count == 0 && !has_selected_todo),
{
    open_todo_count == 0 && waiting_user_todo_count == 0 && !has_selected_todo
}

/// What the host does with a todo-less `RunNow` frontier.
#[derive(Debug, Clone, Copy, PartialEq, Eq, Structural)]
pub enum TodolessRunNowFrontier {
    /// Drive one autonomous replan turn bound to the open obligation.
    DriveReplanTurn,
    /// No actionable frontier remains: park with `plan_exhausted`.
    Park,
}

pub fn todoless_run_now_frontier(pending_replan_obligation_id: Option<&str>) -> (res:
    TodolessRunNowFrontier)
    ensures
        res == (if (pending_replan_obligation_id matches Some(o) && trim(o@).len() > 0) {
            TodolessRunNowFrontier::DriveReplanTurn
        } else {
            TodolessRunNowFrontier::Park
        }),
{
    match pending_replan_obligation_id {
        Some(o) => if crate::text::str_is_blank(o) {
            TodolessRunNowFrontier::Park
        } else {
            TodolessRunNowFrontier::DriveReplanTurn
        },
        None => TodolessRunNowFrontier::Park,
    }
}

/// Read-only user gates: public issue/comment metadata access.
pub open spec fn spec_read_only_gate(action_kind: Option<Seq<char>>) -> bool {
    match action_kind {
        None => false,
        Some(k) => {
            let kind = trim(k);
            kind == "approve_github_issue_body_or_comment_read"@ || (starts_with(
                kind,
                "approve_"@,
            ) && ends_with(kind, "_read"@))
        },
    }
}

pub fn is_read_only_user_gate(action_kind: Option<&str>) -> (res: bool)
    ensures
        res == spec_read_only_gate(opt_str(action_kind)),
{
    let kind = match action_kind {
        None => return false,
        Some(k) => {
            let c = chars_of(k);
            trim_chars(&c)
        },
    };
    let exact = chars_of("approve_github_issue_body_or_comment_read");
    let prefix = chars_of("approve_");
    let suffix = chars_of("_read");
    crate::text::seq_eq(&kind, &exact) || (starts_with_exec(&kind, &prefix) && ends_with_exec(
        &kind,
        &suffix,
    ))
}

/// Reuse-existing-PR merge gates, recognized by their action kind or message.
pub open spec fn spec_reuse_merge_gate(action_kind: Option<Seq<char>>, message: Seq<char>) -> bool {
    let kind = lower(
        match action_kind {
            Some(k) => trim(k),
            None => Seq::empty(),
        },
    );
    let msg = lower(message);
    contains(kind, "merge"@) || contains(kind, "reuse"@) || contains(msg, "merge pr #"@)
        || contains(msg, "reuse existing pr"@)
}

pub fn is_reuse_merge_user_gate(action_kind: Option<&str>, message: &str) -> (res: bool)
    ensures
        res == spec_reuse_merge_gate(opt_str(action_kind), message@),
{
    let raw_kind: Vec<char> = match action_kind {
        Some(k) => {
            let c = chars_of(k);
            trim_chars(&c)
        },
        None => Vec::new(),
    };
    proof {
        if action_kind is None {
            assert(raw_kind@ =~= Seq::<char>::empty());
        }
    }
    let kind = lower_chars(&raw_kind);
    let message_chars = chars_of(message);
    let msg = lower_chars(&message_chars);
    let merge = chars_of("merge");
    let reuse = chars_of("reuse");
    let merge_pr = chars_of("merge pr #");
    let reuse_pr = chars_of("reuse existing pr");
    contains_exec(&kind, &merge) || contains_exec(&kind, &reuse) || contains_exec(&msg, &merge_pr)
        || contains_exec(&msg, &reuse_pr)
}

/// The longest prefix of ASCII digits.
pub open spec fn digit_prefix(s: Seq<char>) -> Seq<char>
    decreases s.len(),
{
    if s.len() == 0 || !('0' <= s[0] && s[0] <= '9') {
        Seq::empty()
    } else {
        seq![s[0]] + digit_prefix(s.drop_first())
    }
}

/// The PR label of a reuse-merge gate message: the digits found three
/// characters after the first `pr #` (ignoring ASCII case), or a generic
/// label when there are none.
pub open spec fn spec_pr_label(message: Seq<char>) -> Seq<char> {
    match crate::text::first_occurrence(lower(message), "pr #"@, 0) {
        None => "the referenced PR"@,
        Some(i) => {
            let digits = digit_prefix(message.skip(i + 3));
            if digits.len() == 0 {
                "the referenced PR"@
            } else {
                "PR #"@ + digits
            }
        },
    }
}

pub fn reuse_merge_pr_label(message: &str) -> (res: String)
    ensures
        res@ == spec_pr_label(message@),
{
    let chars = chars_of(message);
    let lowered = lower_chars(&chars);
    let needle = chars_of("pr #");
    let index = match crate::text::find_first(&lowered, &needle, 0) {
        Some(i) => i,
        None => {
            let mut r = String::new();
            push_str(&mut r, "the referenced PR");
            return r;
        },
    };
    proof {
        reveal_strlit("pr #");
        assert(crate::text::first_occurrence(lowered@, needle@, 0) == Some(index as int));
        let k = choose|k: int| crate::text::is_first_occurrence(lowered@, needle@, 0, k);
        assert(crate::text::is_first_occurrence(lowered@, needle@, 0, k));
        assert(k == index as int);
        assert(needle@.len() == 4);
        assert(lowered@.len() == chars@.len());
    }
    assert(index + 4 <= chars.len());
    let start = index + 3;
    let mut j: usize = start;
    assert(chars@.skip(start as int).take(0) =~= Seq::<char>::empty());
    while j < chars.len() && '0' <= chars[j] && chars[j] <= '9'
        invariant
            start <= j <= chars@.len(),
            start <= chars@.len(),
            digit_prefix(chars@.skip(start as int)) == chars@.subrange(start as int, j as int)
                + digit_prefix(chars@.skip(j as int)),
        decreases chars@.len() - j,
    {
        assert(chars@.skip(j as int).drop_first() =~= chars@.skip(j + 1));
        assert(chars@.subrange(start as int, j + 1) =~= chars@.subrange(start as int, j as int)
            + seq![chars@[j as int]]);
        j = j + 1;
    }
    assert(digit_prefix(chars@.skip(j as int)) =~= Seq::<char>::empty());
    assert(chars@.subrange(start as int, j as int) + Seq::<char>::empty() =~= chars@.subrange(
        start as int,
        j as int,
    ));
    let mut r = String::new();
    if j == start {
        push_str(&mut r, "the referenced PR");
    } else {
        push_str(&mut r, "PR #");
        let digits = crate::text::string_from_range(&chars, start, j);
        push_str(&mut r, digits.as_str());
    }
    r
}

/// The phase a settled task shows.
pub open spec fn spec_phase_after_settlement(state: LoopxTaskState) -> LoopxPhase {
    match state {
        LoopxTaskState::Completed => LoopxPhase::Finished,
        LoopxTaskState::RecoveryRequired => LoopxPhase::Recovering,
        LoopxTaskState::WaitingForUser => LoopxPhase::WaitingForApproval,
        _ => LoopxPhase::Queued,
    }
}

pub fn phase_after_settlement(state: LoopxTaskState) -> (res: LoopxPhase)
    ensures
        res == spec_phase_after_settlement(state),
{
    match state {
        LoopxTaskState::Completed => LoopxPhase::Finished,
        LoopxTaskState::RecoveryRequired => LoopxPhase::Recovering,
        LoopxTaskState::WaitingForUser => LoopxPhase::WaitingForApproval,
        _ => LoopxPhase::Queued,
    }
}

/// A settled task requeues itself only when queued and it kept its repository slot.
pub fn should_requeue_after_settlement(final_state: LoopxTaskState, yielded_repository: bool) -> (res:
    bool)
    ensures
        res == (final_state == LoopxTaskState::Queued && !yielded_repository),
{
    final_state == LoopxTaskState::Queued && !yielded_repository
}

/// Depth-first repository lane: a queued task keeps the slot while its Goal
/// is runnable (or its decision is unknown).
pub open spec fn spec_sticky_continue(
    final_state: LoopxTaskState,
    decision: Option<LoopxCliRunDecision>,
) -> bool {
    final_state == LoopxTaskState::Queued && match decision {
        None => true,
        Some(d) => d == LoopxCliRunDecision::RunNow,
    }
}

pub fn sticky_continue_after_settlement(
    final_state: LoopxTaskState,
    post_settlement_run_decision: Option<LoopxCliRunDecision>,
) -> (res: bool)
    ensures
        res == spec_sticky_continue(final_state, post_settlement_run_decision),
{
    if final_state != LoopxTaskState::Queued {
        return false;
    }
    match post_settlement_run_decision {
        None => true,
        Some(decision) => decision == LoopxCliRunDecision::RunNow,
    }
}

/// Requeue delay of a waiting goal when its cadence label is unknown.
pub const WAIT_RESCHEDULE_FALLBACK_MS: u64 = 300000;

/// The requeue delay of a waiting goal, by its scheduler cadence label.
pub open spec fn spec_wait_delay(cadence: Option<Seq<char>>) -> u64 {
    match cadence {
        Some(c) => if c == "active_work"@ {
            180000
        } else if c == "monitor_wait"@ {
            900000
        } else if c == "human_gate"@ {
            1800000
        } else if c == "quiet_wait"@ {
            1800000
        } else if c == "unchanged_noop"@ {
            3600000
        } else if c == "agent_scope_wait"@ {
            600000
        } else {
            WAIT_RESCHEDULE_FALLBACK_MS
        },
        None => WAIT_RESCHEDULE_FALLBACK_MS,
    }
}

pub fn wait_requeue_delay_ms(snapshot: &LoopxCliGoalSnapshot) -> (res: u64)
    ensures
        res == spec_wait_delay(opt_string(snapshot.scheduler_cadence)),
{
    match &snapshot.scheduler_cadence {
        Some(c) => {
            let c = c.as_str();
            if str_eq(c, "active_work") {
                180000
            } else if str_eq(c, "monitor_wait") {
                900000
            } else if str_eq(c, "human_gate") {
                1800000
            } else if str_eq(c, "quiet_wait") {
                1800000
            } else if str_eq(c, "unchanged_noop") {
                3600000
            } else if str_eq(c, "agent_scope_wait") {
                600000
            } else {
                WAIT_RESCHEDULE_FALLBACK_MS
            }
        },
        None => WAIT_RESCHEDULE_FALLBACK_MS,
    }
}

/// The goal id of a task: `bfx-{owner}-{repository}-{issue|pr}-{number}`,
/// with `-{attempt}` for attempts after the first.
pub open spec fn spec_goal_id(identity: LoopxTaskIdentity) -> Seq<char> {
    let item = identity.item;
    let kind = match item.kind {
        LoopxItemKind::Issue => "issue"@,
        LoopxItemKind::PullRequest => "pr"@,
    };
    let suffix = if identity.attempt > 1 {
        "-"@ + decimal(identity.attempt as nat)
    } else {
        Seq::empty()
    };
    "bfx-"@ + item.repository.owner@ + "-"@ + item.repository.repository@ + "-"@ + kind + "-"@
        + decimal(item.number as nat) + suffix
}

pub fn goal_id_for(identity: &LoopxTaskIdentity) -> (res: String)
    ensures
        res@ == spec_goal_id(*identity),
{
    let item = &identity.item;
    let mut res = String::new();
    push_str(&mut res, "bfx-");
    push_str(&mut res, item.repository.owner.as_str());
    push_str(&mut res, "-");
    push_str(&mut res, item.repository.repository.as_str());
    push_str(&mut res, "-");
    match item.kind {
        LoopxItemKind::Issue => push_str(&mut res, "issue"),
        LoopxItemKind::PullRequest => push_str(&mut res, "pr"),
    }
    push_str(&mut res, "-");
    push_decimal(&mut res, item.number);
    if identity.attempt > 1 {
        push_str(&mut res, "-");
        push_decimal(&mut res, identity.attempt as u64);
    }
    res
}

/// An agent summary kept on a task: at most this many characters.
pub const MAX_AGENT_SUMMARY_CHARS: usize = 16000;

/// The summary kept on a task: the first `MAX_AGENT_SUMMARY_CHARS`
/// characters, marked when it was cut.
pub open spec fn spec_bounded_summary(summary: Seq<char>) -> Seq<char> {
    if summary.len() > MAX_AGENT_SUMMARY_CHARS {
        summary.take(MAX_AGENT_SUMMARY_CHARS as int) + "\n\n[Summary truncated by LoopX host]"@
    } else {
        summary
    }
}

pub fn bounded_agent_summary(summary: &str) -> (res: String)
    ensures
        res@ == spec_bounded_summary(summary@),
{
    let chars = chars_of(summary);
    if chars.len() > MAX_AGENT_SUMMARY_CHARS {
        let mut res = crate::text::string_from_range(&chars, 0, MAX_AGENT_SUMMARY_CHARS);
        assert(chars@.subrange(0, MAX_AGENT_SUMMARY_CHARS as int) =~= chars@.take(
            MAX_AGENT_SUMMARY_CHARS as int,
        ));
        push_str(&mut res, "\n\n[Summary truncated by LoopX host]");
        res
    } else {
        let res = string_from_chars(&chars);
        res
    }
}

/// The GitHub auth fact: available when authenticated, degraded when only
/// the rate limit is known, unavailable otherwise.
pub fn github_auth_fact_status(probe: &LoopxGithubAuthProbe) -> (res: LoopxEnvironmentFactStatus)
    ensures
        res == (if probe.authenticated {
            LoopxEnvironmentFactStatus::Available
        } else if probe.rate_limit_remaining is Some {
            LoopxEnvironmentFactStatus::Degraded
        } else {
            LoopxEnvironmentFactStatus::Unavailable
        }),
{
    if probe.authenticated {
        LoopxEnvironmentFactStatus::Available
    } else if probe.rate_limit_remaining.is_some() {
        LoopxEnvironmentFactStatus::Degraded
    } else {
        LoopxEnvironmentFactStatus::Unavailable
    }
}

/// The remediation offered when Node.js is missing.
pub open spec fn node_remediation() -> Seq<char> {
    "Install Node.js from https://nodejs.org (or via your package manager),              then re-check this environment"@
}

/// The Node.js environment fact from the CLI's probe: a missing or too-old
/// Node blocks the environment, with a concrete remediation.
pub fn loopx_node_environment_fact(probe: &LoopxNodeRuntimeFact, checked_at: Option<i64>) -> (res:
    LoopxEnvironmentFact)
    ensures
        res.status == (if probe.available {
            LoopxEnvironmentFactStatus::Available
        } else {
            LoopxEnvironmentFactStatus::Unavailable
        }),
        res.version == probe.version,
        res.detail == probe.detail,
        probe.available ==> res.remediation is None,
        !probe.available ==> (res.remediation matches Some(r) && r@ == node_remediation()),
        res.remediation_action == LoopxEnvironmentRemediationAction::NoRemediation,
        res.checked_at == checked_at,
{
    LoopxEnvironmentFact {
        status: if probe.available {
            LoopxEnvironmentFactStatus::Available
        } else {
            LoopxEnvironmentFactStatus::Unavailable
        },
        version: crate::text::copy_opt_string(&probe.version),
        detail: crate::text::copy_opt_string(&probe.detail),
        remediation: if probe.available {
            None
        } else {
            let mut r = String::new();
            push_str(
                &mut r,
                "Install Node.js from https://nodejs.org (or via your package manager),              then re-check this environment",
            );
            Some(r)
        },
        remediation_action: LoopxEnvironmentRemediationAction::NoRemediation,
        checked_at,
    }
}

/// A fact being checked: nothing known of it yet but the check time.
pub open spec fn spec_checking_fact(checked_at: Option<i64>) -> LoopxEnvironmentFact {
    LoopxEnvironmentFact {
        status: LoopxEnvironmentFactStatus::Checking,
        checked_at,
        ..LoopxEnvironmentFact::spec_unknown()
    }
}

/// A fact being checked.
pub fn checking_environment_fact(checked_at: Option<i64>) -> (res: LoopxEnvironmentFact)
    ensures
        res == spec_checking_fact(checked_at),
{
    LoopxEnvironmentFact {
        status: LoopxEnvironmentFactStatus::Checking,
        version: None,
        detail: None,
        remediation: None,
        remediation_action: LoopxEnvironmentRemediationAction::NoRemediation,
        checked_at,
    }
}

/// An unavailable fact with its detail.
pub fn unavailable_environment_fact(detail: String, checked_at: Option<i64>) -> (res:
    LoopxEnvironmentFact)
    ensures
        res == (LoopxEnvironmentFact {
            status: LoopxEnvironmentFactStatus::Unavailable,
            detail: Some(detail),
            checked_at,
            ..LoopxEnvironmentFact::spec_unknown()
        }),
{
    LoopxEnvironmentFact {
        status: LoopxEnvironmentFactStatus::Unavailable,
        version: None,
        detail: Some(detail),
        remediation: None,
        remediation_action: LoopxEnvironmentRemediationAction::NoRemediation,
        checked_at,
    }
}

/// The remediation offered when LoopX itself is missing.
pub open spec fn install_loopx_remediation() -> Seq<char> {
    "Download the pinned LoopX source from GitHub into BitFun-managed storage"@
}

/// LoopX unavailable: the remediation is installing the pinned source.
pub fn unavailable_loopx_environment_fact(detail: String, checked_at: Option<i64>) -> (res:
    LoopxEnvironmentFact)
    ensures
        res.status == LoopxEnvironmentFactStatus::Unavailable,
        res.version is None,
        res.detail == Some(detail),
        res.remediation matches Some(r) && r@ == install_loopx_remediation(),
        res.remediation_action == LoopxEnvironmentRemediationAction::InstallLoopx,
        res.checked_at == checked_at,
{
    let mut r = String::new();
    push_str(&mut r, "Download the pinned LoopX source from GitHub into BitFun-managed storage");
    LoopxEnvironmentFact {
        status: LoopxEnvironmentFactStatus::Unavailable,
        version: None,
        detail: Some(detail),
        remediation: Some(r),
        remediation_action: LoopxEnvironmentRemediationAction::InstallLoopx,
        checked_at,
    }
}

/// Reconciliation never infers approval from an active Goal: a task waiting
/// on an unanswered local gate keeps it unless the Goal projects a gate or is
/// terminal.
pub open spec fn spec_preserve_local_gate(task: LoopxTaskSnapshot, goal: LoopxCliGoalSnapshot) -> bool {
    task.state == LoopxTaskState::WaitingForUser && task.pending_gate_id is Some
        && goal.pending_user_gate is None && !(goal.state == LoopxCliGoalState::Completed
        || goal.state == LoopxCliGoalState::Failed || goal.state == LoopxCliGoalState::Archived)
}

pub fn preserve_unanswered_local_gate(task: &LoopxTaskSnapshot, goal: &LoopxCliGoalSnapshot) -> (res:
    bool)
    ensures
        res == spec_preserve_local_gate(*task, *goal),
{
    task.state == LoopxTaskState::WaitingForUser && task.pending_gate_id.is_some()
        && goal.pending_user_gate.is_none() && !(goal.state == LoopxCliGoalState::Completed
        || goal.state == LoopxCliGoalState::Failed || goal.state == LoopxCliGoalState::Archived)
}


/// A settled turn completes its task exactly when the turn did not fail and
/// the Goal completed: either the Goal inspected after settlement decides
/// `Complete`, or, with no such Goal, the settlement itself reports the Goal
/// completed. A failed turn always leaves the task for recovery.
pub proof fn lemma_settlement_completes_only_completed_goals(
    agent_status: LoopxAgentTurnStatus,
    settlement_status: LoopxCliSettlementStatus,
    decision: Option<LoopxCliRunDecision>,
)
    ensures
        (spec_state_after_settlement(agent_status, settlement_status, decision)
            == LoopxTaskState::Completed) <==> (agent_status != LoopxAgentTurnStatus::Failed && (
        decision == Some(LoopxCliRunDecision::Complete) || (decision is None && settlement_status
            == LoopxCliSettlementStatus::GoalCompleted))),
        agent_status == LoopxAgentTurnStatus::Failed ==> spec_state_after_settlement(
            agent_status,
            settlement_status,
            decision,
        ) == LoopxTaskState::RecoveryRequired,
        agent_status != LoopxAgentTurnStatus::Failed && decision == Some(
            LoopxCliRunDecision::WaitingForUser,
        ) ==> spec_state_after_settlement(agent_status, settlement_status, decision)
            == LoopxTaskState::WaitingForUser,
        agent_status != LoopxAgentTurnStatus::Failed && decision == Some(LoopxCliRunDecision::Failed)
            ==> spec_state_after_settlement(agent_status, settlement_status, decision)
            == LoopxTaskState::RecoveryRequired,
        agent_status != LoopxAgentTurnStatus::Failed && (decision == Some(LoopxCliRunDecision::RunNow)
            || decision == Some(LoopxCliRunDecision::Wait)) ==> spec_state_after_settlement(
            agent_status,
            settlement_status,
            decision,
        ) == LoopxTaskState::Queued,
        agent_status != LoopxAgentTurnStatus::Failed && decision is None && (settlement_status
            == LoopxCliSettlementStatus::Settled || settlement_status
            == LoopxCliSettlementStatus::AlreadySettled) ==> spec_state_after_settlement(
            agent_status,
            settlement_status,
            decision,
        ) == LoopxTaskState::Queued,
        agent_status != LoopxAgentTurnStatus::Failed && decision is None && (settlement_status
            == LoopxCliSettlementStatus::NoDurableProgress || settlement_status
            == LoopxCliSettlementStatus::RetryRequired) ==> spec_state_after_settlement(
            agent_status,
            settlement_status,
            decision,
        ) == LoopxTaskState::RecoveryRequired,
{
}
} // verus!
