//! The domain vocabulary that the storage layer persists: statuses, kinds and
//! the records that travel between the review inbox, the operation ledger and
//! the audit trail.
use vstd::prelude::*;

verus! {

/// `serde_json::Value`, a JSON document the records carry through without
/// reading it; nothing inside it is visible here.
#[verifier::external_type_specification]
#[verifier::external_body]
pub struct ExJsonValue(serde_json::Value);

/// `Value::clone`, used by the derived `Clone` impls of the records that
/// carry a JSON document through. Nothing is claimed of the copy.
pub assume_specification[ <serde_json::Value as Clone>::clone ](v: &serde_json::Value) -> (r:
    serde_json::Value);

/// Lifecycle of a confirmed action in the operation ledger.
#[derive(Debug, Clone, Copy, PartialEq, Eq, Structural)]
pub enum ActionStatus {
    Proposed,
    Confirmed,
    Executing,
    Succeeded,
    Failed,
    Cancelled,
}

#[derive(Debug, Clone, Copy, PartialEq, Eq, Structural)]
pub enum ActorKind {
    User,
    Bot,
    App,
    Service,
}

#[derive(Debug, Clone, Copy, PartialEq, Eq, Structural)]
pub enum ScopeBoundary {
    Tenant,
    User,
    Admin,
    Bot,
    Service,
}

#[derive(Debug, Clone, Copy, PartialEq, Eq, Structural)]
pub enum TokenGrantState {
    Valid,
    NeedsRefresh,
    Expired,
    Revoked,
    ReauthRequired,
}

#[derive(Debug, Clone, Copy, PartialEq, Eq, Structural)]
pub enum TenantStatus {
    Active,
    Suspended,
}

#[derive(Debug, Clone, Copy, PartialEq, Eq, Structural)]
pub enum WorkspaceUserStatus {
    Active,
    Disabled,
}

#[derive(Debug, Clone, Copy, PartialEq, Eq, Structural)]
pub enum AuditActorKind {
    User,
    Bot,
    App,
    System,
    Service,
}

#[derive(Debug, Clone, Copy, PartialEq, Eq, Structural)]
pub enum AuditEventType {
    ProposedActionDecisionRecorded,
    ConfirmedActionRecorded,
    DryRunExecuted,
    ExecutionDenied,
    ExecutionSucceeded,
    ExecutionFailed,
}

#[derive(Debug, Clone, Copy, PartialEq, Eq, Structural)]
pub enum DeviceEntryPoint {
    MacOs,
    Ios,
    Web,
    Lark,
}

#[derive(Debug, Clone, Copy, PartialEq, Eq, Structural)]
pub enum SessionState {
    Active,
    Revoked,
    Expired,
}

#[derive(Debug, Clone, Copy, PartialEq, Eq, Structural)]
pub enum EvidenceSourceKind {
    OkrProgress,
    LarkMinutes,
    LarkDoc,
    LarkTask,
    LarkCalendar,
    LarkIm,
    ManualReviewNote,
    AuditEvent,
}

#[derive(Debug, Clone, Copy, PartialEq, Eq, Structural)]
pub enum EvidenceVisibilityScope {
    Tenant,
    Team,
    User,
}

#[derive(Debug, Clone, Copy, PartialEq, Eq, Structural)]
pub enum ProposedActionStatus {
    Draft,
    Published,
    Superseded,
    Withdrawn,
}

#[derive(Debug, Clone, PartialEq, Eq)]
pub enum ProposedActionKind {
    CreateKrProgress,
    UpdateKrProgress,
    DeleteKrProgressDryRun,
    Custom(String),
}

#[derive(Debug, Clone, Copy, PartialEq, Eq, Structural)]
pub enum RiskSeverity {
    Low,
    Medium,
    High,
    Critical,
}

/// What a user decided about a proposed action. An edited payload is
/// carried through untouched.
#[derive(Debug, Clone, PartialEq)]
pub enum ProposedActionDecision {
    Confirm,
    EditThenConfirm { edited_payload: serde_json::Value },
    Reject,
}

impl ProposedActionDecision {
    /// Confirm and edit-then-confirm lead to a confirmed action; reject does not.
    pub open spec fn spec_requires_action(self) -> bool {
        !(self is Reject)
    }
}

/// The decision as it is stored: which branch was taken, without the payload.
#[derive(Debug, Clone, Copy, PartialEq, Eq, Structural)]
pub enum StoredProposedActionDecisionKind {
    Confirm,
    EditThenConfirm,
    Reject,
}

#[derive(Debug, Clone, Copy, PartialEq, Eq, Structural)]
pub enum ReviewInboxItemStatus {
    Open,
    Confirmed,
    Rejected,
    Executing,
    Succeeded,
    Failed,
    Withdrawn,
}

#[derive(Debug, Clone, Copy, PartialEq, Eq, Structural)]
pub enum SchedulerJobKind {
    TokenRefreshSweep,
}

#[derive(Debug, Clone, Copy, PartialEq, Eq, Structural)]
pub enum SchedulerJobStatus {
    Pending,
    Running,
}

#[derive(Debug, Clone, Copy, PartialEq, Eq, Structural)]
pub enum StoredReviewInboxLedgerStage {
    ConfirmedAction,
    OperationLedger,
    PlatformAdapter,
    AuditEvent,
}

#[derive(Debug, Clone, Copy, PartialEq, Eq, Structural)]
pub enum StoredReviewInboxLedgerStatus {
    Pending,
    Success,
    Error,
}

/// The id of a tenant.
#[derive(Debug, Clone, PartialEq, Eq)]
pub struct TenantId(pub String);

/// The id of a stored token grant.
#[derive(Debug, Clone, PartialEq, Eq)]
pub struct TokenGrantId(pub String);

/// An action that a person confirmed and that the ledger may execute once.
#[derive(Debug, Clone)]
pub struct ConfirmedAction {
    pub action_id: String,
    pub tenant_id: String,
    pub actor_user_id: String,
    pub idempotency_key: String,
    pub status: ActionStatus,
    pub confirmed_at_ms: Option<u64>,
}

/// One row of the operation ledger.
#[derive(Debug, Clone, PartialEq, Eq)]
pub struct OperationRecord {
    pub operation_id: String,
    pub tenant_id: String,
    pub action_id: String,
    pub idempotency_key: String,
    pub status: ActionStatus,
    pub last_error: Option<String>,
}

/// What submitting a confirmed action to the ledger found.
#[derive(Debug, Clone, PartialEq, Eq)]
pub enum SubmitResult {
    Created(OperationRecord),
    Existing(OperationRecord),
}

/// Why a ledger operation could not complete.
#[derive(Debug, Clone, PartialEq, Eq)]
pub enum LedgerError {
    RepositoryFailure(String),
    InvalidTransition { from: ActionStatus, to: ActionStatus },
    UnknownIdempotencyKey(String),
}

#[derive(Debug, Clone)]
pub struct AuditActor {
    pub kind: AuditActorKind,
    pub actor_id: String,
    pub display_name: Option<String>,
}

#[derive(Debug, Clone)]
pub struct AuditScope {
    pub tenant_id: String,
    pub workspace_id: Option<String>,
}

#[derive(Debug, Clone)]
pub struct AuditTarget {
    pub resource_type: String,
    pub resource_id: String,
    pub action_type: String,
}

/// Who did what to which resource, shared by the events of one trace.
#[derive(Debug, Clone)]
pub struct AuditSubject {
    pub actor: AuditActor,
    pub scope: AuditScope,
    pub target: AuditTarget,
}

/// A redacted before/after summary attached to an audit event.
#[derive(Debug, Clone)]
pub struct AuditStateSummary {
    pub summary: String,
    pub reference_ids: Vec<String>,
    pub content_hash: Option<String>,
}

/// An append-only audit event. Summaries and execution results are JSON
/// documents that the storage layer only carries.
#[derive(Debug, Clone)]
pub struct AuditEvent {
    pub event_id: String,
    pub trace_id: String,
    pub sequence: u64,
    pub occurred_at_ms: u64,
    pub event_type: AuditEventType,
    pub actor: AuditActor,
    pub scope: AuditScope,
    pub target: AuditTarget,
    pub before: Option<serde_json::Value>,
    pub after: Option<serde_json::Value>,
    pub execution: Option<serde_json::Value>,
}

/// A review inbox row as the domain sees it; times are in milliseconds.
#[derive(Debug, Clone)]
pub struct ReviewInboxItem {
    pub id: String,
    pub tenant_id: String,
    pub user_id: String,
    pub proposed_action_id: String,
    pub proposed_action_version: u64,
    pub risk_score: u32,
    pub priority: u32,
    pub status: ReviewInboxItemStatus,
    pub sort_key: i64,
    pub sync_cursor: u64,
    pub updated_at_ms: u64,
    pub ledger_status: Option<String>,
    pub operation_id: Option<String>,
}

} // verus!
