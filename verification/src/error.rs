//! Errors of the Postgres repositories and their redacted, stable reasons.
use vstd::prelude::*;

use crate::domain::{ActionStatus, ActorKind, LedgerError};
use crate::text::{push_str, string_of};

verus! {

/// `sqlx::Error`, the database driver's error, carried through opaquely.
#[verifier::external_type_specification]
#[verifier::external_body]
pub struct ExSqlxError(sqlx::Error);

/// `serde_json::Error`, a JSON encoding or decoding error, carried through
/// opaquely.
#[verifier::external_type_specification]
#[verifier::external_body]
pub struct ExJsonError(serde_json::Error);

/// The token refresh bridge refused to turn a refresh outcome into a command.
#[derive(Debug, Clone, Copy, PartialEq, Eq, Structural)]
pub struct TokenRefreshBridgeError;

/// Every way a Postgres repository call can fail. Variants that carry raw
/// text keep it for diagnostics; [`postgres_repository_safe_error_reason`]
/// never repeats it.
#[derive(Debug)]
pub enum PostgresRepositoryError {
    Sqlx(sqlx::Error),
    UnknownActionStatus(String),
    UnknownAuditActorKind(String),
    UnknownAuditEventType(String),
    UnknownExecutionStatus(String),
    UnknownDeviceEntryPoint(String),
    UnknownDeviceSessionState(String),
    UnknownTokenGrantState(String),
    UnknownTenantStatus(String),
    UnknownWorkspaceUserStatus(String),
    UnknownIdentityActorKind(String),
    UnknownScopeBoundary(String),
    UnknownEvidenceSourceKind(String),
    UnknownEvidenceVisibilityScope(String),
    UnknownProposedActionStatus(String),
    UnknownProposedActionKind(String),
    UnknownRiskSeverity(String),
    UnknownProposedActionDecision(String),
    UnknownReviewInboxLedgerStage(String),
    UnknownReviewInboxLedgerStatus(String),
    UnknownReviewInboxItemStatus(String),
    UnknownSchedulerJobKind(String),
    UnknownSchedulerJobStatus(String),
    UnsafeSchedulerJobErrorCode,
    UnsafeAuditOutboxPayload,
    ActionNotConfirmed(ActionStatus),
    TenantMismatch {
        field: &'static str,
        expected: String,
        actual: String,
    },
    LarkIdentityActorExternalBindingConflict {
        tenant_id: String,
        actor_kind: ActorKind,
        actor_external_id: String,
    },
    NegativeInteger { field: &'static str, value: i64 },
    Json(serde_json::Error),
    TokenRefreshDecisionBridge(TokenRefreshBridgeError),
    InvalidOperationStatusTransition { from: ActionStatus, to: ActionStatus },
    InvalidExecutionQueueRow { field: &'static str, reason: &'static str },
    UnknownOperationIdempotencyKey(String),
    TokenRefreshPlanMismatch {
        field: &'static str,
        expected: String,
        actual: String,
    },
    ReviewDecisionRequestMismatch {
        field: &'static str,
        expected: String,
        actual: String,
    },
    MissingConfirmedActionForDecision,
    MissingConfirmedAtForDecision,
    MissingOperationIdForDecision,
    UnexpectedConfirmedActionForDecision,
    UnexpectedOperationIdForDecision,
}

pub type PgRepositoryResult<T> = Result<T, PostgresRepositoryError>;

/// The stable, redacted reason for each error variant.
pub open spec fn safe_error_reason(error: PostgresRepositoryError) -> Seq<char> {
    match error {
        PostgresRepositoryError::Sqlx(_) => "postgres_query_failed"@,
        PostgresRepositoryError::UnknownActionStatus(_) => "unknown_action_status"@,
        PostgresRepositoryError::UnknownAuditActorKind(_) => "unknown_audit_actor_kind"@,
        PostgresRepositoryError::UnknownAuditEventType(_) => "unknown_audit_event_type"@,
        PostgresRepositoryError::UnknownExecutionStatus(_) => "unknown_execution_status"@,
        PostgresRepositoryError::UnknownDeviceEntryPoint(_) => "unknown_device_entry_point"@,
        PostgresRepositoryError::UnknownDeviceSessionState(_) => "unknown_device_session_state"@,
        PostgresRepositoryError::UnknownTokenGrantState(_) => "unknown_token_grant_state"@,
        PostgresRepositoryError::UnknownTenantStatus(_) => "unknown_tenant_status"@,
        PostgresRepositoryError::UnknownWorkspaceUserStatus(_) => "unknown_workspace_user_status"@,
        PostgresRepositoryError::UnknownIdentityActorKind(_) => "unknown_identity_actor_kind"@,
        PostgresRepositoryError::UnknownScopeBoundary(_) => "unknown_scope_boundary"@,
        PostgresRepositoryError::UnknownEvidenceSourceKind(_) => "unknown_evidence_source_kind"@,
        PostgresRepositoryError::UnknownEvidenceVisibilityScope(_) => "unknown_evidence_visibility_scope"@,
        PostgresRepositoryError::UnknownProposedActionStatus(_) => "unknown_proposed_action_status"@,
        PostgresRepositoryError::UnknownProposedActionKind(_) => "unknown_proposed_action_kind"@,
        PostgresRepositoryError::UnknownRiskSeverity(_) => "unknown_risk_severity"@,
        PostgresRepositoryError::UnknownProposedActionDecision(_) => "unknown_proposed_action_decision"@,
        PostgresRepositoryError::UnknownReviewInboxLedgerStage(_) => "unknown_review_inbox_ledger_stage"@,
        PostgresRepositoryError::UnknownReviewInboxLedgerStatus(_) => "unknown_review_inbox_ledger_status"@,
        PostgresRepositoryError::UnknownReviewInboxItemStatus(_) => "unknown_review_inbox_item_status"@,
        PostgresRepositoryError::UnknownSchedulerJobKind(_) => "unknown_scheduler_job_kind"@,
        PostgresRepositoryError::UnknownSchedulerJobStatus(_) => "unknown_scheduler_job_status"@,
        PostgresRepositoryError::UnsafeSchedulerJobErrorCode => "unsafe_scheduler_job_error_code"@,
        PostgresRepositoryError::UnsafeAuditOutboxPayload => "unsafe_audit_outbox_payload"@,
        PostgresRepositoryError::ActionNotConfirmed(_) => "action_not_confirmed"@,
        PostgresRepositoryError::TenantMismatch { .. } => "tenant_mismatch"@,
        PostgresRepositoryError::LarkIdentityActorExternalBindingConflict { .. } => "lark_identity_actor_external_binding_conflict"@,
        PostgresRepositoryError::NegativeInteger { .. } => "negative_integer"@,
        PostgresRepositoryError::Json(_) => "invalid_json_payload"@,
        PostgresRepositoryError::TokenRefreshDecisionBridge(_) => "token_refresh_decision_bridge_failed"@,
        PostgresRepositoryError::InvalidOperationStatusTransition { .. } => "invalid_operation_status_transition"@,
        PostgresRepositoryError::InvalidExecutionQueueRow { .. } => "invalid_execution_queue_row"@,
        PostgresRepositoryError::UnknownOperationIdempotencyKey(_) => "unknown_operation_idempotency_key"@,
        PostgresRepositoryError::TokenRefreshPlanMismatch { .. } => "token_refresh_plan_mismatch"@,
        PostgresRepositoryError::ReviewDecisionRequestMismatch { .. } => "review_decision_request_mismatch"@,
        PostgresRepositoryError::MissingConfirmedActionForDecision => "missing_confirmed_action_for_decision"@,
        PostgresRepositoryError::MissingConfirmedAtForDecision => "missing_confirmed_at_for_decision"@,
        PostgresRepositoryError::MissingOperationIdForDecision => "missing_operation_id_for_decision"@,
        PostgresRepositoryError::UnexpectedConfirmedActionForDecision => "unexpected_confirmed_action_for_decision"@,
        PostgresRepositoryError::UnexpectedOperationIdForDecision => "unexpected_operation_id_for_decision"@,
    }
}

/// A reason code for `error` that never echoes the text the error carries.
pub fn postgres_repository_safe_error_reason(error: &PostgresRepositoryError) -> (r: &'static str)
    ensures
        r@ == safe_error_reason(*error),
{
    match error {
        PostgresRepositoryError::Sqlx(_) => "postgres_query_failed",
        PostgresRepositoryError::UnknownActionStatus(_) => "unknown_action_status",
        PostgresRepositoryError::UnknownAuditActorKind(_) => "unknown_audit_actor_kind",
        PostgresRepositoryError::UnknownAuditEventType(_) => "unknown_audit_event_type",
        PostgresRepositoryError::UnknownExecutionStatus(_) => "unknown_execution_status",
        PostgresRepositoryError::UnknownDeviceEntryPoint(_) => "unknown_device_entry_point",
        PostgresRepositoryError::UnknownDeviceSessionState(_) => "unknown_device_session_state",
        PostgresRepositoryError::UnknownTokenGrantState(_) => "unknown_token_grant_state",
        PostgresRepositoryError::UnknownTenantStatus(_) => "unknown_tenant_status",
        PostgresRepositoryError::UnknownWorkspaceUserStatus(_) => "unknown_workspace_user_status",
        PostgresRepositoryError::UnknownIdentityActorKind(_) => "unknown_identity_actor_kind",
        PostgresRepositoryError::UnknownScopeBoundary(_) => "unknown_scope_boundary",
        PostgresRepositoryError::UnknownEvidenceSourceKind(_) => "unknown_evidence_source_kind",
        PostgresRepositoryError::UnknownEvidenceVisibilityScope(_) => "unknown_evidence_visibility_scope",
        PostgresRepositoryError::UnknownProposedActionStatus(_) => "unknown_proposed_action_status",
        PostgresRepositoryError::UnknownProposedActionKind(_) => "unknown_proposed_action_kind",
        PostgresRepositoryError::UnknownRiskSeverity(_) => "unknown_risk_severity",
        PostgresRepositoryError::UnknownProposedActionDecision(_) => "unknown_proposed_action_decision",
        PostgresRepositoryError::UnknownReviewInboxLedgerStage(_) => "unknown_review_inbox_ledger_stage",
        PostgresRepositoryError::UnknownReviewInboxLedgerStatus(_) => "unknown_review_inbox_ledger_status",
        PostgresRepositoryError::UnknownReviewInboxItemStatus(_) => "unknown_review_inbox_item_status",
        PostgresRepositoryError::UnknownSchedulerJobKind(_) => "unknown_scheduler_job_kind",
        PostgresRepositoryError::UnknownSchedulerJobStatus(_) => "unknown_scheduler_job_status",
        PostgresRepositoryError::UnsafeSchedulerJobErrorCode => "unsafe_scheduler_job_error_code",
        PostgresRepositoryError::UnsafeAuditOutboxPayload => "unsafe_audit_outbox_payload",
        PostgresRepositoryError::ActionNotConfirmed(_) => "action_not_confirmed",
        PostgresRepositoryError::TenantMismatch { .. } => "tenant_mismatch",
        PostgresRepositoryError::LarkIdentityActorExternalBindingConflict { .. } => "lark_identity_actor_external_binding_conflict",
        PostgresRepositoryError::NegativeInteger { .. } => "negative_integer",
        PostgresRepositoryError::Json(_) => "invalid_json_payload",
        PostgresRepositoryError::TokenRefreshDecisionBridge(_) => "token_refresh_decision_bridge_failed",
        PostgresRepositoryError::InvalidOperationStatusTransition { .. } => "invalid_operation_status_transition",
        PostgresRepositoryError::InvalidExecutionQueueRow { .. } => "invalid_execution_queue_row",
        PostgresRepositoryError::UnknownOperationIdempotencyKey(_) => "unknown_operation_idempotency_key",
        PostgresRepositoryError::TokenRefreshPlanMismatch { .. } => "token_refresh_plan_mismatch",
        PostgresRepositoryError::ReviewDecisionRequestMismatch { .. } => "review_decision_request_mismatch",
        PostgresRepositoryError::MissingConfirmedActionForDecision => "missing_confirmed_action_for_decision",
        PostgresRepositoryError::MissingConfirmedAtForDecision => "missing_confirmed_at_for_decision",
        PostgresRepositoryError::MissingOperationIdForDecision => "missing_operation_id_for_decision",
        PostgresRepositoryError::UnexpectedConfirmedActionForDecision => "unexpected_confirmed_action_for_decision",
        PostgresRepositoryError::UnexpectedOperationIdForDecision => "unexpected_operation_id_for_decision",
    }
}

/// `"{prefix}: {reason}"`: internal stage context followed by the safe reason.
pub fn postgres_repository_safe_error(prefix: &str, error: &PostgresRepositoryError) -> (r: String)
    ensures
        r@ == prefix@ + ": "@ + safe_error_reason(*error),
{
    let mut out = string_of(prefix);
    push_str(&mut out, ": ");
    push_str(&mut out, postgres_repository_safe_error_reason(error));
    out
}

/// A ledger failure that carries only the safe reason of `error`.
pub fn ledger_repository_failure(error: &PostgresRepositoryError) -> (r: LedgerError)
    ensures
        r matches LedgerError::RepositoryFailure(reason) && reason@ == safe_error_reason(*error),
{
    LedgerError::RepositoryFailure(string_of(postgres_repository_safe_error_reason(error)))
}

/// A ledger failure for a driver error, again carrying only the safe reason.
pub fn sqlx_ledger_repository_failure(error: sqlx::Error) -> (r: LedgerError)
    ensures
        r matches LedgerError::RepositoryFailure(reason) && reason@ == "postgres_query_failed"@,
{
    let error = PostgresRepositoryError::Sqlx(error);
    ledger_repository_failure(&error)
}

} // verus!
