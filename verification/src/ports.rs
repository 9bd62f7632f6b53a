//! Narrow service boundary types for the pinned LoopX CLI adapter and the
//! workspace and Agent hosts.

use vstd::prelude::*;

use crate::types::{
    LoopxCliGoalState, LoopxCurrentTodo, LoopxEventCursor, LoopxIntakeCandidate, LoopxIntakeTarget,
    LoopxIssueKey, LoopxPermissionScope, LoopxRemoteItemState, LoopxRepositoryKey,
    LoopxTurnOutputEvent, LOOPX_CLI_SCHEMA_VERSION, LOOPX_PINNED_VERSION,
};

verus! {

/// LoopX version a handshake requires when none is given.
pub fn default_loopx_version() -> (res: String)
    ensures
        res@ == LOOPX_PINNED_VERSION@,
{
    String::from_str(LOOPX_PINNED_VERSION)
}

/// CLI schema version a handshake requires when none is given.
pub fn default_cli_schema_version() -> (res: u32)
    ensures
        res == LOOPX_CLI_SCHEMA_VERSION,
{
    LOOPX_CLI_SCHEMA_VERSION
}

#[derive(Debug, Clone, Copy, Default, PartialEq, Eq, Structural)]
pub enum LoopxCliErrorKind {
    #[default]
    Backend,
    InvalidInput,
    NotFound,
    VersionMismatch,
    SchemaMismatch,
    Conflict,
    Cancelled,
    Timeout,
    Process,
    Io,
}

#[derive(Debug, Clone, Default, PartialEq, Eq)]
pub struct LoopxCliError {
    pub kind: LoopxCliErrorKind,
    pub message: String,
    pub operation_id: Option<String>,
    pub retryable: bool,
}

#[derive(Debug, Clone, Default, PartialEq, Eq)]
pub struct LoopxCliCallContext {
    pub operation_id: String,
    pub deadline_at: Option<i64>,
}

#[derive(Debug, Clone, Default, PartialEq, Eq)]
pub struct LoopxCliGoalContext {
    pub call: LoopxCliCallContext,
    pub task_id: String,
    pub generation: u64,
    pub worktree_path: String,
    pub registry_path: String,
    /// Execution capabilities exposed by the selected Agent host. These are
    /// observed technical facts, not permission grants.
    pub available_capabilities: Vec<String>,
}

#[derive(Debug, Clone, Copy, Default, PartialEq, Eq, Structural)]
pub enum LoopxCliProgressStage {
    #[default]
    StartingSidecar,
    InstallingRuntime,
    Handshake,
    ResolvingIntake,
    PlanningItem,
    CreatingGoal,
    InspectingGoal,
    BuildingTurn,
    AnsweringGate,
    SettlingTurn,
    Cancelling,
}

#[derive(Debug, Clone, Default, PartialEq, Eq)]
pub struct LoopxCliProgress {
    pub operation_id: String,
    pub task_id: Option<String>,
    pub stage: LoopxCliProgressStage,
    pub message: String,
    pub occurred_at: i64,
}

#[derive(Debug, Clone, Copy, Default, PartialEq, Eq, Structural)]
pub enum LoopxCliSource {
    #[default]
    Unknown,
    Bundled,
    System,
    PythonFallback,
}

#[derive(Debug, Clone, Default, PartialEq, Eq)]
pub struct LoopxCliExecutableIdentity {
    pub source: LoopxCliSource,
    /// Adapter-owned executable identifier; never an argv fragment.
    pub identity: String,
    pub path: Option<String>,
    pub sha256: Option<String>,
}

#[derive(Debug, Clone, PartialEq, Eq)]
pub struct LoopxCliHandshakeRequest {
    pub call: LoopxCliCallContext,
    pub required_loopx_version: String,
    pub required_schema_version: u32,
}

#[derive(Debug, Clone, Default, PartialEq, Eq)]
pub struct LoopxCliManifest {
    pub adapter_version: String,
    pub loopx_version: String,
    pub schema_version: u32,
    pub executable: LoopxCliExecutableIdentity,
    pub capabilities: Vec<String>,
    /// Node.js runtime probe reported by the adapter.
    pub node_runtime: LoopxNodeRuntimeFact,
}

/// Node.js runtime availability reported with the CLI manifest.
#[derive(Debug, Clone, Default, PartialEq, Eq)]
pub struct LoopxNodeRuntimeFact {
    pub available: bool,
    pub version: Option<String>,
    pub detail: Option<String>,
}

#[derive(Debug, Clone, Default, PartialEq, Eq)]
pub struct LoopxCliInstallManagedSourceRequest {
    pub call: LoopxCliCallContext,
}

#[derive(Debug, Clone, Default, PartialEq, Eq)]
pub struct LoopxCliInstallManagedSourceResult {
    pub source_repository: String,
    pub source_tag: String,
    pub source_commit: String,
    pub install_path: String,
    pub loopx_version: String,
}

#[derive(Debug, Clone, Default, PartialEq, Eq)]
pub struct LoopxCliTodoPlan {
    pub role: String,
    pub task_class: String,
    pub action_kind: Option<String>,
    pub text: String,
    /// Stable workflow target key for this todo, when provided.
    pub target_key: Option<String>,
}

#[derive(Debug, Clone, Default, PartialEq, Eq)]
pub struct LoopxCliResolveIntakeRequest {
    pub call: LoopxCliCallContext,
    pub input: String,
    pub target: LoopxIntakeTarget,
}

#[derive(Debug, Clone, Default, PartialEq, Eq)]
pub struct LoopxCliResolveIntakeResult {
    pub target: LoopxIntakeTarget,
    pub repository: LoopxRepositoryKey,
    pub candidates: Vec<LoopxIntakeCandidate>,
    pub truncated: bool,
    pub resolved_at: i64,
}

#[derive(Debug, Clone, Default, PartialEq, Eq)]
pub struct LoopxGithubAuthProbeRequest {
    pub call: LoopxCliCallContext,
}

/// Result of the pre-flight GitHub access probe. The host surfaces this as the
/// `github_auth` environment fact so an auth/rate-limit failure is visible
/// before the user submits an intake, instead of surfacing as a 403 later.
#[derive(Debug, Clone, Default, PartialEq, Eq)]
pub struct LoopxGithubAuthProbe {
    /// Whether an authenticated GitHub identity is available.
    pub authenticated: bool,
    /// Remaining core API rate limit, when the endpoint reports one.
    pub rate_limit_remaining: Option<u64>,
    pub detail: Option<String>,
}

#[derive(Debug, Clone, Default, PartialEq, Eq)]
pub struct LoopxCliPlanItemRequest {
    pub context: LoopxCliGoalContext,
    pub item: LoopxIssueKey,
    /// Public title already resolved by the host intake adapter. The LoopX
    /// process receives this as inline metadata and must not refetch it.
    pub title: String,
    /// Remote item state observed by the host intake adapter. LoopX treats
    /// GitHub as the source of truth, so the workflow plan must receive the
    /// state the adapter actually resolved instead of a fabricated default.
    pub state: LoopxRemoteItemState,
    /// Bounded label names observed by the host intake adapter (capped to
    /// match LoopX's own metadata projection). LoopX intake classification
    /// and code-context routing use these as routing hints.
    pub labels: Vec<String>,
}

#[derive(Debug, Clone, Default, PartialEq, Eq)]
pub struct LoopxCliIntakePlan {
    pub item: LoopxIssueKey,
    pub objective: String,
    pub todos: Vec<LoopxCliTodoPlan>,
}

#[derive(Debug, Clone, Default, PartialEq, Eq)]
pub struct LoopxCliCreateGoalRequest {
    pub context: LoopxCliGoalContext,
    pub goal_id: String,
    pub agent_id: String,
    pub intake: LoopxCliIntakePlan,
    pub granted_scopes: Vec<LoopxPermissionScope>,
}

#[derive(Debug, Clone, Default, PartialEq, Eq)]
pub struct LoopxCliCreateGoalResult {
    pub goal_id: String,
    pub created: bool,
    pub durable_revision: String,
}

#[derive(Debug, Clone, Default, PartialEq, Eq)]
pub struct LoopxCliInspectGoalRequest {
    pub context: LoopxCliGoalContext,
    pub goal_id: String,
    pub agent_id: String,
}

#[derive(Debug, Clone, Copy, Default, PartialEq, Eq, Structural)]
pub enum LoopxCliRunDecision {
    #[default]
    Wait,
    RunNow,
    WaitingForUser,
    Complete,
    Failed,
}

#[derive(Debug, Clone, Default, PartialEq, Eq)]
pub struct LoopxCliUserGate {
    pub gate_id: String,
    pub message: String,
    pub action_kind: Option<String>,
}

#[derive(Debug, Clone, Default, PartialEq, Eq)]
pub struct LoopxCliGoalSnapshot {
    pub goal_id: String,
    pub state: LoopxCliGoalState,
    pub durable_revision: String,
    pub run_decision: LoopxCliRunDecision,
    pub scheduler_hint_ms: Option<u64>,
    pub open_todo_count: u32,
    pub waiting_user_todo_count: u32,
    pub pending_user_gate: Option<LoopxCliUserGate>,
    /// Read-only projection of the frontier todo selected by the same LoopX
    /// envelope. Absent when LoopX did not select a todo; never authoritative.
    pub selected_todo: Option<LoopxCurrentTodo>,
    /// Read-only projection of the autonomous replan obligation the same
    /// envelope carries (`replan_action_packet.obligation_id`). When the
    /// plan runs dry (no open todo, no selected todo) the pinned CLI still
    /// projects `should_run=true` with this obligation and expects the host
    /// to drive one bounded autonomous replan turn bound to it: the agent
    /// writes back a successor todo, a typed terminal outcome, or a concrete
    /// blocker through the replan writeback. Only a todo-less `RunNow`
    /// frontier WITHOUT an open obligation is a host contract contradiction.
    /// Absent when the envelope carries no replan obligation.
    pub pending_replan_obligation_id: Option<String>,
    /// LoopX returned the turn envelope over its compaction budget
    /// (`compaction.within_budget == false`, route `contract_error`): the goal
    /// cannot be planned until its durable state shrinks. The host must not
    /// fail the task for this; it degrades to a loud backoff-and-retry wait.
    pub envelope_over_budget: bool,
    /// Cadence label (`cadence_class`) of the scheduler decision carried by the
    /// same envelope, when LoopX projects one.
    pub scheduler_cadence: Option<String>,
    /// Owner-facing summary of what the goal waits for, when LoopX projects one.
    pub waiting_user_summary: Option<String>,
}

#[derive(Debug, Clone, Default, PartialEq, Eq)]
pub struct LoopxCliBuildTurnRequest {
    pub context: LoopxCliGoalContext,
    pub goal_id: String,
    pub agent_id: String,
    pub expected_durable_revision: String,
}

#[derive(Debug, Clone, Default, PartialEq, Eq)]
pub struct LoopxCliBuildTurnResult {
    pub goal_id: String,
    pub turn_id: String,
    /// Stable custom-runner re-entry instruction derived from the fresh LoopX
    /// TurnEnvelope. It is not a cached LoopX packet or rewritten heartbeat.
    pub agent_instruction: String,
    pub settlement_token: String,
    pub durable_revision: String,
    pub deadline_at: Option<i64>,
}

#[derive(Debug, Clone, Copy, Default, PartialEq, Eq, Structural)]
pub enum LoopxCliGateDecision {
    #[default]
    Approve,
    Reject,
}

#[derive(Debug, Clone, Default, PartialEq, Eq)]
pub struct LoopxCliAnswerGateRequest {
    pub context: LoopxCliGoalContext,
    pub goal_id: String,
    pub agent_id: String,
    pub gate_id: String,
    pub decision: LoopxCliGateDecision,
    pub note: Option<String>,
    pub granted_scope: Option<LoopxPermissionScope>,
}

#[derive(Debug, Clone, Default, PartialEq, Eq)]
pub struct LoopxCliAnswerGateResult {
    pub goal_id: String,
    pub gate_id: String,
    pub applied: bool,
    pub durable_revision: String,
    pub goal_state: LoopxCliGoalState,
}

#[derive(Debug, Clone, Copy, Default, PartialEq, Eq, Structural)]
pub enum LoopxAgentTurnStatus {
    #[default]
    Completed,
    Failed,
    Cancelled,
    Interrupted,
}

#[derive(Debug, Clone, Default, PartialEq, Eq)]
pub struct LoopxCliSettleTurnRequest {
    pub context: LoopxCliGoalContext,
    pub goal_id: String,
    pub agent_id: String,
    pub turn_id: String,
    pub settlement_token: String,
    pub expected_durable_revision: String,
    pub agent_status: LoopxAgentTurnStatus,
}

#[derive(Debug, Clone, Copy, Default, PartialEq, Eq, Structural)]
pub enum LoopxCliSettlementStatus {
    #[default]
    Settled,
    AlreadySettled,
    NoDurableProgress,
    RetryRequired,
    GoalCompleted,
}

#[derive(Debug, Clone, Default, PartialEq, Eq)]
pub struct LoopxCliSettleTurnResult {
    pub goal_id: String,
    pub turn_id: String,
    pub receipt_id: String,
    pub status: LoopxCliSettlementStatus,
    pub before_revision: String,
    pub after_revision: String,
    pub validation_succeeded: bool,
    pub scheduler_hint_ms: Option<u64>,
}

#[derive(Debug, Clone, Default, PartialEq, Eq)]
pub struct LoopxCliCancelRequest {
    pub call: LoopxCliCallContext,
    pub target_operation_id: String,
}

#[derive(Debug, Clone, Default, PartialEq, Eq)]
pub struct LoopxCliCancelResult {
    pub operation_id: String,
    pub target_operation_id: String,
    pub cancelled: bool,
}

#[derive(Debug, Clone, Default, PartialEq, Eq)]
pub struct LoopxCliResetGoalsRequest {
    pub call: LoopxCliCallContext,
    pub goal_ids: Vec<String>,
}

#[derive(Debug, Clone, Default, PartialEq, Eq)]
pub struct LoopxCliResetGoalsResult {
    pub requested_goal_ids: Vec<String>,
    pub retired_goal_ids: Vec<String>,
    pub already_absent_goal_ids: Vec<String>,
    pub archived_goal_ids: Vec<String>,
    pub missing_runtime_goal_ids: Vec<String>,
    pub backup_paths: Vec<String>,
    pub archive_paths: Vec<String>,
}

#[derive(Debug, Clone, Copy, Default, PartialEq, Eq, Structural)]
pub enum LoopxHostPortErrorKind {
    #[default]
    Backend,
    InvalidInput,
    NotFound,
    Unsupported,
    Conflict,
    Cancelled,
    Timeout,
    Io,
}

#[derive(Debug, Clone, Default, PartialEq, Eq)]
pub struct LoopxHostPortError {
    pub kind: LoopxHostPortErrorKind,
    pub message: String,
    pub operation_id: Option<String>,
    pub retryable: bool,
}

#[derive(Debug, Clone, Default, PartialEq, Eq)]
pub struct LoopxWorkspacePrepareRequest {
    pub operation_id: String,
    pub task_id: String,
    pub item: LoopxIssueKey,
}

#[derive(Debug, Clone, Default, PartialEq, Eq)]
pub struct LoopxWorkspaceProbeRequest {
    pub operation_id: String,
    /// When present, also verifies that Git can read the canonical repository.
    pub repository: Option<LoopxRepositoryKey>,
}

#[derive(Debug, Clone, Default, PartialEq, Eq)]
pub struct LoopxWorkspaceProbeResult {
    pub git_version: Option<String>,
    pub workspace_root: String,
    pub repository_verified: bool,
}

#[derive(Debug, Clone, Default, PartialEq, Eq)]
pub struct LoopxWorkspacePrepareResult {
    pub worktree_path: String,
    pub registry_path: String,
    pub reused: bool,
    pub repository_verified: bool,
}

#[derive(Debug, Clone, Default, PartialEq, Eq)]
pub struct LoopxWorkspaceVerifyRequest {
    pub operation_id: String,
    pub task_id: String,
    pub item: LoopxIssueKey,
    pub worktree_path: String,
    pub registry_path: String,
}

#[derive(Debug, Clone, Default, PartialEq, Eq)]
pub struct LoopxWorkspaceVerifyResult {
    pub valid: bool,
    pub repository: Option<LoopxRepositoryKey>,
    pub message: Option<String>,
}

#[derive(Debug, Clone, Default, PartialEq, Eq)]
pub struct LoopxWorkspaceCancelRequest {
    pub operation_id: String,
    pub target_operation_id: String,
    pub task_id: String,
}

#[derive(Debug, Clone, Default, PartialEq, Eq)]
pub struct LoopxWorkspaceCancelResult {
    pub target_operation_id: String,
    pub cancelled: bool,
}

#[derive(Debug, Clone, Default, PartialEq, Eq)]
pub struct LoopxWorkspaceDisposeRequest {
    pub operation_id: String,
    pub task_id: String,
    pub item: LoopxIssueKey,
}

#[derive(Debug, Clone, Default, PartialEq, Eq)]
pub struct LoopxWorkspaceDisposeResult {
    /// The worktree (and, when it was the last reference, the shared bare
    /// repository) was removed from disk.
    pub removed: bool,
}

#[derive(Debug, Clone, Default, PartialEq, Eq)]
pub struct LoopxWorkspaceResetRequest {
    pub operation_id: String,
}

#[derive(Debug, Clone, Default, PartialEq, Eq)]
pub struct LoopxWorkspaceResetResult {
    /// Task worktrees were detached from the active root. Implementations may
    /// reclaim them asynchronously and retain verified bare Git object caches.
    pub removed: bool,
}

#[derive(Debug, Clone, Default, PartialEq, Eq)]
pub struct LoopxAgentTurnMetadata {
    pub goal_id: String,
    pub loopx_turn_id: String,
    pub item: LoopxIssueKey,
    pub attempt: u32,
}

#[derive(Debug, Clone, Default, PartialEq, Eq)]
pub struct LoopxAgentStartRequest {
    pub operation_id: String,
    pub task_id: String,
    pub generation: u64,
    pub worktree_path: String,
    pub instruction: String,
    pub model_id: String,
    pub granted_scopes: Vec<LoopxPermissionScope>,
    pub metadata: LoopxAgentTurnMetadata,
    /// Live Agent session of the same goal to continue, when one is kept.
    pub reuse_session_id: Option<String>,
}

#[derive(Debug, Clone, Default, PartialEq, Eq)]
pub struct LoopxAgentStartResult {
    pub session_id: String,
    pub turn_id: String,
}

#[derive(Debug, Clone, Default, PartialEq, Eq)]
pub struct LoopxAgentProbeRequest {
    pub operation_id: String,
    /// `None`, `auto`, and `primary` all validate the configured primary model.
    pub model_id: Option<String>,
}

#[derive(Debug, Clone, Default, PartialEq, Eq)]
pub struct LoopxAgentProbeResult {
    pub model_id: String,
    pub supports_images: bool,
}

#[derive(Debug, Clone, Default, PartialEq, Eq)]
pub struct LoopxAgentCancelRequest {
    pub operation_id: String,
    pub target_operation_id: String,
    pub task_id: String,
    pub generation: u64,
    pub session_id: String,
    pub turn_id: String,
}

#[derive(Debug, Clone, Default, PartialEq, Eq)]
pub struct LoopxAgentCancelResult {
    pub target_operation_id: String,
    pub cancelled: bool,
}

#[derive(Debug, Clone, Default, PartialEq, Eq)]
pub struct LoopxAgentFinishRequest {
    pub operation_id: String,
    pub task_id: String,
    pub generation: u64,
    pub worktree_path: String,
    pub session_id: String,
    pub turn_id: String,
}

#[derive(Debug, Clone, Default, PartialEq, Eq)]
pub struct LoopxAgentFinishResult {
    pub session_id: String,
    pub discarded: bool,
}

#[derive(Debug, Clone, Default, PartialEq, Eq)]
pub struct LoopxAgentResetRequest {
    pub operation_id: String,
}

#[derive(Debug, Clone, Default, PartialEq, Eq)]
pub struct LoopxAgentResetResult {
    pub removed_runtime_event_logs: u32,
}

#[derive(Debug, Clone, Default, PartialEq, Eq)]
pub struct LoopxAgentOutputSinceRequest {
    pub operation_id: String,
    pub session_id: String,
    pub turn_id: String,
    pub stream_id: Option<String>,
    pub after_cursor: LoopxEventCursor,
    pub limit: Option<u32>,
}

#[derive(Debug, Clone, Default, PartialEq, Eq)]
pub struct LoopxAgentOutputSinceResult {
    pub stream_id: Option<String>,
    pub events: Vec<LoopxTurnOutputEvent>,
    pub next_cursor: LoopxEventCursor,
    pub has_more: bool,
}

impl LoopxCliError {
    pub fn new(kind: LoopxCliErrorKind, message: &str) -> (res: Self)
        ensures
            res.kind == kind,
            res.message@ == message@,
            res.operation_id is None,
            !res.retryable,
    {
        LoopxCliError { kind, message: String::from_str(message), operation_id: None, retryable: false }
    }

    pub fn for_operation(self, operation_id: &str) -> (res: Self)
        ensures
            res.kind == self.kind,
            res.message == self.message,
            res.operation_id matches Some(id) && id@ == operation_id@,
            res.retryable == self.retryable,
    {
        let mut this = self;
        this.operation_id = Some(String::from_str(operation_id));
        this
    }

    pub fn retryable(self, retryable: bool) -> (res: Self)
        ensures
            res.kind == self.kind,
            res.message == self.message,
            res.operation_id == self.operation_id,
            res.retryable == retryable,
    {
        let mut this = self;
        this.retryable = retryable;
        this
    }
}

impl Default for LoopxCliHandshakeRequest {
    fn default() -> (res: Self)
        ensures
            res.call.operation_id@ == Seq::<char>::empty(),
            res.call.deadline_at is None,
            res.required_loopx_version@ == LOOPX_PINNED_VERSION@,
            res.required_schema_version == LOOPX_CLI_SCHEMA_VERSION,
    {
        LoopxCliHandshakeRequest {
            call: LoopxCliCallContext { operation_id: String::new(), deadline_at: None },
            required_loopx_version: default_loopx_version(),
            required_schema_version: default_cli_schema_version(),
        }
    }
}

/// Synchronous projection hook; the host persists and broadcasts events.
pub trait LoopxCliProgressSink {
    fn report(&self, progress: LoopxCliProgress);
}

impl LoopxHostPortError {
    pub fn new(kind: LoopxHostPortErrorKind, message: &str) -> (res: Self)
        ensures
            res.kind == kind,
            res.message@ == message@,
            res.operation_id is None,
            !res.retryable,
    {
        LoopxHostPortError {
            kind,
            message: String::from_str(message),
            operation_id: None,
            retryable: false,
        }
    }
}


/// `Debug` of the kind.
pub open spec fn loopxclierrorkind_name(kind: LoopxCliErrorKind) -> Seq<char> {
    match kind {
            LoopxCliErrorKind::Backend => "Backend"@,
            LoopxCliErrorKind::InvalidInput => "InvalidInput"@,
            LoopxCliErrorKind::NotFound => "NotFound"@,
            LoopxCliErrorKind::VersionMismatch => "VersionMismatch"@,
            LoopxCliErrorKind::SchemaMismatch => "SchemaMismatch"@,
            LoopxCliErrorKind::Conflict => "Conflict"@,
            LoopxCliErrorKind::Cancelled => "Cancelled"@,
            LoopxCliErrorKind::Timeout => "Timeout"@,
            LoopxCliErrorKind::Process => "Process"@,
            LoopxCliErrorKind::Io => "Io"@,
    }
}

impl LoopxCliError {
    /// The error's text: its kind, a colon and its message.
    pub open spec fn spec_text(self) -> Seq<char> {
        loopxclierrorkind_name(self.kind) + ": "@ + self.message@
    }

    /// The error's text: its kind, a colon and its message.
    pub fn to_string(&self) -> (res: String)
        ensures
            res@ == loopxclierrorkind_name(self.kind) + ": "@ + self.message@,
    {
        let name: &str = match self.kind {
            LoopxCliErrorKind::Backend => "Backend",
            LoopxCliErrorKind::InvalidInput => "InvalidInput",
            LoopxCliErrorKind::NotFound => "NotFound",
            LoopxCliErrorKind::VersionMismatch => "VersionMismatch",
            LoopxCliErrorKind::SchemaMismatch => "SchemaMismatch",
            LoopxCliErrorKind::Conflict => "Conflict",
            LoopxCliErrorKind::Cancelled => "Cancelled",
            LoopxCliErrorKind::Timeout => "Timeout",
            LoopxCliErrorKind::Process => "Process",
            LoopxCliErrorKind::Io => "Io",
        };
        let mut res = String::new();
        crate::text::push_str(&mut res, name);
        crate::text::push_str(&mut res, ": ");
        crate::text::push_str(&mut res, self.message.as_str());
        res
    }
}

/// `Debug` of the kind.
pub open spec fn loopxhostporterrorkind_name(kind: LoopxHostPortErrorKind) -> Seq<char> {
    match kind {
            LoopxHostPortErrorKind::Backend => "Backend"@,
            LoopxHostPortErrorKind::InvalidInput => "InvalidInput"@,
            LoopxHostPortErrorKind::NotFound => "NotFound"@,
            LoopxHostPortErrorKind::Unsupported => "Unsupported"@,
            LoopxHostPortErrorKind::Conflict => "Conflict"@,
            LoopxHostPortErrorKind::Cancelled => "Cancelled"@,
            LoopxHostPortErrorKind::Timeout => "Timeout"@,
            LoopxHostPortErrorKind::Io => "Io"@,
    }
}

impl LoopxHostPortError {
    /// The error's text: its kind, a colon and its message.
    pub open spec fn spec_text(self) -> Seq<char> {
        loopxhostporterrorkind_name(self.kind) + ": "@ + self.message@
    }

    /// The error's text: its kind, a colon and its message.
    pub fn to_string(&self) -> (res: String)
        ensures
            res@ == loopxhostporterrorkind_name(self.kind) + ": "@ + self.message@,
    {
        let name: &str = match self.kind {
            LoopxHostPortErrorKind::Backend => "Backend",
            LoopxHostPortErrorKind::InvalidInput => "InvalidInput",
            LoopxHostPortErrorKind::NotFound => "NotFound",
            LoopxHostPortErrorKind::Unsupported => "Unsupported",
            LoopxHostPortErrorKind::Conflict => "Conflict",
            LoopxHostPortErrorKind::Cancelled => "Cancelled",
            LoopxHostPortErrorKind::Timeout => "Timeout",
            LoopxHostPortErrorKind::Io => "Io",
        };
        let mut res = String::new();
        crate::text::push_str(&mut res, name);
        crate::text::push_str(&mut res, ": ");
        crate::text::push_str(&mut res, self.message.as_str());
        res
    }
}

} // verus!
