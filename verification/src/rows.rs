//! Decoding rows read from Postgres. Each `*Row` holds a row's columns as
//! the driver returns them; each decoder checks signed integers and stored
//! texts and reports the first column that is out of range or unknown.
use vstd::prelude::*;

use crate::codec::{
    action_status_from_db, action_status_from_db_text, actor_kind_from_db_text,
    audit_actor_kind_from_db, audit_actor_kind_from_db_text, audit_event_type_from_db,
    audit_event_type_from_db_text, device_entry_point_from_db, device_entry_point_from_db_text,
    device_session_state_from_db, device_session_state_from_db_text, evidence_source_kind_from_db,
    evidence_source_kind_from_db_text, evidence_visibility_scope_from_db,
    evidence_visibility_scope_from_db_text, proposed_action_status_from_db,
    proposed_action_status_from_db_text, review_inbox_item_status_from_db,
    review_inbox_item_status_from_db_text, review_inbox_ledger_stage_from_db,
    review_inbox_ledger_stage_from_db_text, review_inbox_ledger_status_from_db,
    review_inbox_ledger_status_from_db_text, risk_severity_from_db, risk_severity_from_db_text,
    tenant_status_from_db, tenant_status_from_db_text, workspace_user_status_from_db,
    workspace_user_status_from_db_text,
    identity_actor_kind_from_db, proposed_action_decision_kind_from_db,
    proposed_action_decision_kind_from_db_text, proposed_action_kind_from_db,
    scheduler_job_kind_from_db, scheduler_job_kind_from_db_text, scheduler_job_status_from_db,
    scheduler_job_status_from_db_text, scope_boundary_from_db, scope_boundary_from_db_text,
    token_grant_state_from_db, token_grant_state_from_db_text,
};
use crate::domain::{
    ActionStatus, ActorKind, AuditActor, AuditActorKind, AuditEvent, AuditEventType, AuditScope,
    AuditTarget, ConfirmedAction, DeviceEntryPoint, EvidenceSourceKind, EvidenceVisibilityScope,
    OperationRecord, ProposedActionKind, ProposedActionStatus, ReviewInboxItemStatus,
    RiskSeverity, SessionState, StoredProposedActionDecisionKind, StoredReviewInboxLedgerStage,
    StoredReviewInboxLedgerStatus, TenantId, TenantStatus, TokenGrantId, TokenGrantState,
    WorkspaceUserStatus,
};
use crate::error::{PgRepositoryResult, PostgresRepositoryError};
use crate::scheduler::StoredSchedulerJob;
use crate::token_grant::EncryptedTokenGrantRecord;

verus! {

/// `error` reports that column `field` held the negative `value`.
pub open spec fn negative_reported(error: PostgresRepositoryError, field: Seq<char>, value: i64) -> bool {
    error matches PostgresRepositoryError::NegativeInteger { field: f, value: v } && f@ == field && v
        == value
}

/// A signed column that must not be negative, as an unsigned number.
pub fn non_negative_i64_to_u64(value: i64, field: &'static str) -> (r: PgRepositoryResult<u64>)
    ensures
        match r {
            Ok(v) => value >= 0 && v == value,
            Err(error) => value < 0 && negative_reported(error, field@, value),
        },
{
    if value < 0 {
        Err(PostgresRepositoryError::NegativeInteger { field, value })
    } else {
        Ok(value as u64)
    }
}

pub open spec fn optional_negative(value: Option<i64>) -> bool {
    value matches Some(v) && v < 0
}

pub open spec fn optional_unsigned(value: Option<i64>) -> Option<u64> {
    match value {
        Some(v) => Some(v as u64),
        None => None,
    }
}

/// A nullable signed column that must not be negative.
pub fn optional_non_negative_i64_to_u64(value: Option<i64>, field: &'static str) -> (r:
    PgRepositoryResult<Option<u64>>)
    ensures
        match r {
            Ok(v) => !optional_negative(value) && v == optional_unsigned(value),
            Err(error) => optional_negative(value) && negative_reported(error, field@, value->0),
        },
{
    match value {
        Some(v) => {
            let u = non_negative_i64_to_u64(v, field)?;
            Ok(Some(u))
        },
        None => Ok(None),
    }
}

/// An operation ledger row.
#[derive(Debug, Clone)]
pub struct OperationRecordRow {
    pub operation_id: String,
    pub tenant_id: String,
    pub action_id: String,
    pub idempotency_key: String,
    pub status: String,
    pub last_error: Option<String>,
}

pub fn operation_record_from_row(row: &OperationRecordRow) -> (r: PgRepositoryResult<OperationRecord>)
    ensures
        match r {
            Ok(record) => action_status_from_db_text(row.status@) == Some(record.status)
                && record.operation_id == row.operation_id && record.tenant_id == row.tenant_id
                && record.action_id == row.action_id && record.idempotency_key
                == row.idempotency_key && record.last_error == row.last_error,
            Err(error) => action_status_from_db_text(row.status@) is None && (
            error matches PostgresRepositoryError::UnknownActionStatus(raw) && raw@ == row.status@),
        },
{
    let status = action_status_from_db(row.status.as_str())?;
    Ok(
        OperationRecord {
            operation_id: row.operation_id.clone(),
            tenant_id: row.tenant_id.clone(),
            action_id: row.action_id.clone(),
            idempotency_key: row.idempotency_key.clone(),
            status,
            last_error: row.last_error.clone(),
        },
    )
}

/// How a confirmed action reached the execution queue.
#[derive(Debug, Clone, Copy, PartialEq, Eq, Structural)]
pub enum ConfirmedExecutionDecision {
    Confirm,
    EditThenConfirm,
}

/// A confirmed action ready to execute, with the payload to execute: the
/// suggested payload when confirmed as is, the edited one otherwise.
#[derive(Debug, Clone)]
pub struct ConfirmedExecutionRequest {
    pub confirmed_action: ConfirmedAction,
    pub proposed_action_id: String,
    pub proposed_action_version: u64,
    pub action_kind: ProposedActionKind,
    pub target_user_id: Option<String>,
    pub owner_user_id: Option<String>,
    pub evidence_ids: Vec<String>,
    pub effective_payload: serde_json::Value,
    pub decision: ConfirmedExecutionDecision,
}

#[derive(Debug, Clone)]
pub struct StoredPendingConfirmedAction {
    pub request: ConfirmedExecutionRequest,
    pub operation: OperationRecord,
}

/// A row of the execution queue: the confirmed action, its proposed action
/// and decision, and its ledger operation.
#[derive(Debug, Clone)]
pub struct PendingConfirmedActionRow {
    pub action_id: String,
    pub tenant_id: String,
    pub actor_user_id: String,
    pub idempotency_key: String,
    pub action_status: String,
    pub confirmed_at_ms: Option<i64>,
    pub proposed_action_id: String,
    pub proposed_action_version: i64,
    pub proposed_action_kind: String,
    pub proposed_action_custom_kind: Option<String>,
    pub proposed_action_decision: String,
    pub suggested_payload: serde_json::Value,
    pub edited_payload: Option<serde_json::Value>,
    pub target_user_id: Option<String>,
    pub owner_user_id: Option<String>,
    pub evidence_ids: Vec<String>,
    pub operation: OperationRecordRow,
}

pub open spec fn proposed_kind_known(kind: Seq<char>) -> bool {
    kind == "create_kr_progress"@ || kind == "update_kr_progress"@ || kind
        == "delete_kr_progress_dry_run"@ || kind == "custom"@
}

/// A queue row that decodes to an executable action.
pub open spec fn pending_row_valid(row: PendingConfirmedActionRow) -> bool {
    &&& !optional_negative(row.confirmed_at_ms)
    &&& proposed_action_decision_kind_from_db_text(row.proposed_action_decision@) matches Some(d)
        && (d == StoredProposedActionDecisionKind::Confirm || (d
        == StoredProposedActionDecisionKind::EditThenConfirm && row.edited_payload is Some))
    &&& row.proposed_action_version >= 0
    &&& action_status_from_db_text(row.action_status@) is Some
    &&& proposed_kind_known(row.proposed_action_kind@)
    &&& action_status_from_db_text(row.operation.status@) is Some
}

/// The first reason a queue row cannot be executed, as a predicate on the
/// error that reports it; `false` when the row is executable.
pub open spec fn pending_row_error(row: PendingConfirmedActionRow, error: PostgresRepositoryError) -> bool {
    if optional_negative(row.confirmed_at_ms) {
        negative_reported(error, "confirmed_at_ms"@, row.confirmed_at_ms->0)
    } else if proposed_action_decision_kind_from_db_text(row.proposed_action_decision@) is None {
        error matches PostgresRepositoryError::UnknownProposedActionDecision(raw) && raw@
            == row.proposed_action_decision@
    } else if proposed_action_decision_kind_from_db_text(row.proposed_action_decision@) == Some(
        StoredProposedActionDecisionKind::EditThenConfirm,
    ) && row.edited_payload is None {
        error matches PostgresRepositoryError::InvalidExecutionQueueRow { field, reason } && field@
            == "edited_payload"@ && reason@ == "edit_then_confirm requires edited payload"@
    } else if proposed_action_decision_kind_from_db_text(row.proposed_action_decision@) == Some(
        StoredProposedActionDecisionKind::Reject,
    ) {
        error matches PostgresRepositoryError::InvalidExecutionQueueRow { field, reason } && field@
            == "decision"@ && reason@ == "reject decisions are not executable"@
    } else if row.proposed_action_version < 0 {
        negative_reported(error, "proposed_action_version"@, row.proposed_action_version)
    } else if action_status_from_db_text(row.action_status@) is None {
        error matches PostgresRepositoryError::UnknownActionStatus(raw) && raw@ == row.action_status@
    } else if !proposed_kind_known(row.proposed_action_kind@) {
        error matches PostgresRepositoryError::UnknownProposedActionKind(raw) && raw@
            == row.proposed_action_kind@
    } else if action_status_from_db_text(row.operation.status@) is None {
        error matches PostgresRepositoryError::UnknownActionStatus(raw) && raw@
            == row.operation.status@
    } else {
        false
    }
}

/// `pending` holds the decoded queue row: the payload it executes is the
/// suggested one when confirmed as is, the edited one otherwise.
pub open spec fn pending_action_decoded(row: PendingConfirmedActionRow, pending: StoredPendingConfirmedAction) -> bool {
    &&& pending.request.confirmed_action.confirmed_at_ms == optional_unsigned(row.confirmed_at_ms)
    &&& action_status_from_db_text(row.action_status@) == Some(pending.request.confirmed_action.status)
    &&& pending.request.confirmed_action.action_id == row.action_id
    &&& pending.request.confirmed_action.tenant_id == row.tenant_id
    &&& pending.request.confirmed_action.actor_user_id == row.actor_user_id
    &&& pending.request.confirmed_action.idempotency_key == row.idempotency_key
    &&& pending.request.proposed_action_id == row.proposed_action_id
    &&& pending.request.proposed_action_version == row.proposed_action_version
    &&& pending.request.target_user_id == row.target_user_id
    &&& pending.request.owner_user_id == row.owner_user_id
    &&& pending.request.evidence_ids == row.evidence_ids
    &&& proposed_action_decision_kind_from_db_text(row.proposed_action_decision@) == Some(
        StoredProposedActionDecisionKind::Confirm,
    ) ==> pending.request.decision == ConfirmedExecutionDecision::Confirm
        && pending.request.effective_payload == row.suggested_payload
    &&& proposed_action_decision_kind_from_db_text(row.proposed_action_decision@) == Some(
        StoredProposedActionDecisionKind::EditThenConfirm,
    ) ==> pending.request.decision == ConfirmedExecutionDecision::EditThenConfirm
        && Some(pending.request.effective_payload) == row.edited_payload
    &&& proposed_kind_decoded(
        row.proposed_action_kind@,
        row.proposed_action_custom_kind,
        pending.request.action_kind,
    )
    &&& action_status_from_db_text(row.operation.status@) == Some(pending.operation.status)
    &&& pending.operation.operation_id == row.operation.operation_id
    &&& pending.operation.tenant_id == row.operation.tenant_id
    &&& pending.operation.action_id == row.operation.action_id
    &&& pending.operation.idempotency_key == row.operation.idempotency_key
    &&& pending.operation.last_error == row.operation.last_error
}

/// Decodes a queue row. A reject decision is never executable, and an
/// edit-then-confirm decision executes its edited payload.
pub fn pending_confirmed_action_from_row(row: PendingConfirmedActionRow) -> (r: PgRepositoryResult<
    StoredPendingConfirmedAction,
>)
    ensures
        match r {
            Ok(pending) => pending_row_valid(row) && pending_action_decoded(row, pending),
            Err(error) => !pending_row_valid(row) && pending_row_error(row, error),
        },
{
    let PendingConfirmedActionRow {
        action_id,
        tenant_id,
        actor_user_id,
        idempotency_key,
        action_status,
        confirmed_at_ms,
        proposed_action_id,
        proposed_action_version,
        proposed_action_kind,
        proposed_action_custom_kind,
        proposed_action_decision,
        suggested_payload,
        edited_payload,
        target_user_id,
        owner_user_id,
        evidence_ids,
        operation,
    } = row;
    let confirmed_at_ms = optional_non_negative_i64_to_u64(confirmed_at_ms, "confirmed_at_ms")?;
    let decision = proposed_action_decision_kind_from_db(proposed_action_decision.as_str())?;
    let (decision, effective_payload) = match decision {
        StoredProposedActionDecisionKind::Confirm => (
            ConfirmedExecutionDecision::Confirm,
            suggested_payload,
        ),
        StoredProposedActionDecisionKind::EditThenConfirm => match edited_payload {
            Some(payload) => (ConfirmedExecutionDecision::EditThenConfirm, payload),
            None => {
                return Err(
                    PostgresRepositoryError::InvalidExecutionQueueRow {
                        field: "edited_payload",
                        reason: "edit_then_confirm requires edited payload",
                    },
                );
            },
        },
        StoredProposedActionDecisionKind::Reject => {
            return Err(
                PostgresRepositoryError::InvalidExecutionQueueRow {
                    field: "decision",
                    reason: "reject decisions are not executable",
                },
            );
        },
    };
    let proposed_action_version = non_negative_i64_to_u64(
        proposed_action_version,
        "proposed_action_version",
    )?;
    let status = action_status_from_db(action_status.as_str())?;
    let custom_kind: Option<&str> = match &proposed_action_custom_kind {
        Some(name) => Some(name.as_str()),
        None => None,
    };
    let action_kind = proposed_action_kind_from_db(proposed_action_kind.as_str(), custom_kind)?;
    let operation = operation_record_from_row(&operation)?;
    let action = ConfirmedAction {
        action_id,
        tenant_id,
        actor_user_id,
        idempotency_key,
        status,
        confirmed_at_ms,
    };
    Ok(
        StoredPendingConfirmedAction {
            request: ConfirmedExecutionRequest {
                confirmed_action: action,
                proposed_action_id,
                proposed_action_version,
                action_kind,
                target_user_id,
                owner_user_id,
                evidence_ids,
                effective_payload,
                decision,
            },
            operation,
        },
    )
}

/// A scheduler job row.
#[derive(Debug, Clone)]
pub struct SchedulerJobRow {
    pub id: String,
    pub tenant_id: String,
    pub job_kind: String,
    pub status: String,
    pub next_run_at_ms: i64,
    pub lease_id: Option<String>,
    pub lease_until_ms: Option<i64>,
    pub attempt_count: i32,
    pub last_started_at_ms: Option<i64>,
    pub last_finished_at_ms: Option<i64>,
    pub last_safe_error_code: Option<String>,
}

pub open spec fn scheduler_row_valid(row: SchedulerJobRow) -> bool {
    &&& scheduler_job_kind_from_db_text(row.job_kind@) is Some
    &&& scheduler_job_status_from_db_text(row.status@) is Some
    &&& row.next_run_at_ms >= 0
    &&& !optional_negative(row.lease_until_ms)
    &&& row.attempt_count >= 0
    &&& !optional_negative(row.last_started_at_ms)
    &&& !optional_negative(row.last_finished_at_ms)
}

pub open spec fn scheduler_row_error(row: SchedulerJobRow, error: PostgresRepositoryError) -> bool {
    if scheduler_job_kind_from_db_text(row.job_kind@) is None {
        error matches PostgresRepositoryError::UnknownSchedulerJobKind(raw) && raw@ == row.job_kind@
    } else if scheduler_job_status_from_db_text(row.status@) is None {
        error matches PostgresRepositoryError::UnknownSchedulerJobStatus(raw) && raw@ == row.status@
    } else if row.next_run_at_ms < 0 {
        negative_reported(error, "next_run_at_ms"@, row.next_run_at_ms)
    } else if optional_negative(row.lease_until_ms) {
        negative_reported(error, "lease_until_ms"@, row.lease_until_ms->0)
    } else if row.attempt_count < 0 {
        negative_reported(error, "attempt_count"@, row.attempt_count as i64)
    } else if optional_negative(row.last_started_at_ms) {
        negative_reported(error, "last_started_at_ms"@, row.last_started_at_ms->0)
    } else if optional_negative(row.last_finished_at_ms) {
        negative_reported(error, "last_finished_at_ms"@, row.last_finished_at_ms->0)
    } else {
        false
    }
}

pub fn stored_scheduler_job_from_row(row: SchedulerJobRow) -> (r: PgRepositoryResult<
    StoredSchedulerJob,
>)
    ensures
        match r {
            Ok(job) => scheduler_row_valid(row)
                && scheduler_job_kind_from_db_text(row.job_kind@) == Some(job.job_kind)
                && scheduler_job_status_from_db_text(row.status@) == Some(job.status) && job.id
                == row.id && job.tenant_id == row.tenant_id && job.next_run_at_ms
                == row.next_run_at_ms && job.lease_id == row.lease_id && job.lease_until_ms
                == optional_unsigned(row.lease_until_ms) && job.attempt_count == row.attempt_count
                && job.last_started_at_ms == optional_unsigned(row.last_started_at_ms)
                && job.last_finished_at_ms == optional_unsigned(row.last_finished_at_ms)
                && job.last_safe_error_code == row.last_safe_error_code,
            Err(error) => !scheduler_row_valid(row) && scheduler_row_error(row, error),
        },
{
    let job_kind = scheduler_job_kind_from_db(row.job_kind.as_str())?;
    let status = scheduler_job_status_from_db(row.status.as_str())?;
    let next_run_at_ms = non_negative_i64_to_u64(row.next_run_at_ms, "next_run_at_ms")?;
    let lease_until_ms = optional_non_negative_i64_to_u64(row.lease_until_ms, "lease_until_ms")?;
    let attempt_count = non_negative_i64_to_u64(row.attempt_count as i64, "attempt_count")?;
    let last_started_at_ms = optional_non_negative_i64_to_u64(
        row.last_started_at_ms,
        "last_started_at_ms",
    )?;
    let last_finished_at_ms = optional_non_negative_i64_to_u64(
        row.last_finished_at_ms,
        "last_finished_at_ms",
    )?;
    Ok(
        StoredSchedulerJob {
            id: row.id,
            tenant_id: row.tenant_id,
            job_kind,
            status,
            next_run_at_ms,
            lease_id: row.lease_id,
            lease_until_ms,
            attempt_count: attempt_count as u32,
            last_started_at_ms,
            last_finished_at_ms,
            last_safe_error_code: row.last_safe_error_code,
        },
    )
}

/// A token grant row.
#[derive(Clone)]
pub struct TokenGrantRow {
    pub id: String,
    pub tenant_id: String,
    pub identity_id: String,
    pub actor_kind: String,
    pub scope_boundary: String,
    pub scopes: Vec<String>,
    pub state: String,
    pub issued_at_ms: i64,
    pub expires_at_ms: Option<i64>,
    pub refreshed_at_ms: Option<i64>,
    pub revoked_at_ms: Option<i64>,
    pub reauth_required_at_ms: Option<i64>,
    pub last_refresh_error: Option<String>,
    pub encrypted_oauth_grant: Vec<u8>,
    pub oauth_grant_key_id: String,
    pub oauth_grant_fingerprint: String,
    pub revocation_reason: Option<String>,
}

pub open spec fn token_grant_row_valid(row: TokenGrantRow) -> bool {
    &&& actor_kind_from_db_text(row.actor_kind@) is Some
    &&& scope_boundary_from_db_text(row.scope_boundary@) is Some
    &&& token_grant_state_from_db_text(row.state@) is Some
    &&& row.issued_at_ms >= 0
    &&& !optional_negative(row.expires_at_ms)
    &&& !optional_negative(row.refreshed_at_ms)
    &&& !optional_negative(row.revoked_at_ms)
    &&& !optional_negative(row.reauth_required_at_ms)
}

pub open spec fn token_grant_row_error(row: TokenGrantRow, error: PostgresRepositoryError) -> bool {
    if actor_kind_from_db_text(row.actor_kind@) is None {
        error matches PostgresRepositoryError::UnknownIdentityActorKind(raw) && raw@ == row.actor_kind@
    } else if scope_boundary_from_db_text(row.scope_boundary@) is None {
        error matches PostgresRepositoryError::UnknownScopeBoundary(raw) && raw@ == row.scope_boundary@
    } else if token_grant_state_from_db_text(row.state@) is None {
        error matches PostgresRepositoryError::UnknownTokenGrantState(raw) && raw@ == row.state@
    } else if row.issued_at_ms < 0 {
        negative_reported(error, "issued_at_ms"@, row.issued_at_ms)
    } else if optional_negative(row.expires_at_ms) {
        negative_reported(error, "expires_at_ms"@, row.expires_at_ms->0)
    } else if optional_negative(row.refreshed_at_ms) {
        negative_reported(error, "refreshed_at_ms"@, row.refreshed_at_ms->0)
    } else if optional_negative(row.revoked_at_ms) {
        negative_reported(error, "revoked_at_ms"@, row.revoked_at_ms->0)
    } else if optional_negative(row.reauth_required_at_ms) {
        negative_reported(error, "reauth_required_at_ms"@, row.reauth_required_at_ms->0)
    } else {
        false
    }
}

pub fn encrypted_token_grant_from_row(row: TokenGrantRow) -> (r: PgRepositoryResult<
    EncryptedTokenGrantRecord,
>)
    ensures
        match r {
            Ok(grant) => token_grant_row_valid(row)
                && actor_kind_from_db_text(row.actor_kind@) == Some(grant.actor_kind)
                && scope_boundary_from_db_text(row.scope_boundary@) == Some(grant.scope_boundary)
                && token_grant_state_from_db_text(row.state@) == Some(grant.state) && grant.id
                == row.id && grant.tenant_id == row.tenant_id && grant.identity_id
                == row.identity_id && grant.scopes == row.scopes && grant.issued_at_ms
                == row.issued_at_ms && grant.expires_at_ms == optional_unsigned(row.expires_at_ms)
                && grant.refreshed_at_ms == optional_unsigned(row.refreshed_at_ms)
                && grant.revoked_at_ms == optional_unsigned(row.revoked_at_ms)
                && grant.reauth_required_at_ms == optional_unsigned(row.reauth_required_at_ms)
                && grant.last_refresh_error == row.last_refresh_error
                && grant.encrypted_oauth_grant == row.encrypted_oauth_grant
                && grant.oauth_grant_key_id == row.oauth_grant_key_id
                && grant.oauth_grant_fingerprint == row.oauth_grant_fingerprint
                && grant.revocation_reason == row.revocation_reason,
            Err(error) => !token_grant_row_valid(row) && token_grant_row_error(row, error),
        },
{
    let actor_kind = identity_actor_kind_from_db(row.actor_kind.as_str())?;
    let scope_boundary = scope_boundary_from_db(row.scope_boundary.as_str())?;
    let state = token_grant_state_from_db(row.state.as_str())?;
    let issued_at_ms = non_negative_i64_to_u64(row.issued_at_ms, "issued_at_ms")?;
    let expires_at_ms = optional_non_negative_i64_to_u64(row.expires_at_ms, "expires_at_ms")?;
    let refreshed_at_ms = optional_non_negative_i64_to_u64(row.refreshed_at_ms, "refreshed_at_ms")?;
    let revoked_at_ms = optional_non_negative_i64_to_u64(row.revoked_at_ms, "revoked_at_ms")?;
    let reauth_required_at_ms = optional_non_negative_i64_to_u64(
        row.reauth_required_at_ms,
        "reauth_required_at_ms",
    )?;
    Ok(
        EncryptedTokenGrantRecord {
            id: row.id,
            tenant_id: row.tenant_id,
            identity_id: row.identity_id,
            actor_kind,
            scope_boundary,
            scopes: row.scopes,
            state,
            issued_at_ms,
            expires_at_ms,
            refreshed_at_ms,
            revoked_at_ms,
            reauth_required_at_ms,
            last_refresh_error: row.last_refresh_error,
            encrypted_oauth_grant: row.encrypted_oauth_grant,
            oauth_grant_key_id: row.oauth_grant_key_id,
            oauth_grant_fingerprint: row.oauth_grant_fingerprint,
            revocation_reason: row.revocation_reason,
        },
    )
}

/// What a refresh sweep needs to know of a candidate grant.
#[derive(Debug, Clone, PartialEq, Eq)]
pub struct TokenRefreshGrantSnapshot {
    pub grant_id: TokenGrantId,
    pub tenant_id: TenantId,
    pub expected_fingerprint: String,
    pub state: TokenGrantState,
    pub has_refresh_material: bool,
    pub revoked_at_ms: Option<u64>,
    pub reauth_required_at_ms: Option<u64>,
}

/// A refresh candidate row.
#[derive(Debug, Clone)]
pub struct TokenRefreshSnapshotRow {
    pub id: String,
    pub tenant_id: String,
    pub oauth_grant_fingerprint: String,
    pub state: String,
    pub has_refresh_material: bool,
    pub revoked_at_ms: Option<i64>,
    pub reauth_required_at_ms: Option<i64>,
}

pub open spec fn snapshot_row_valid(row: TokenRefreshSnapshotRow) -> bool {
    &&& token_grant_state_from_db_text(row.state@) is Some
    &&& !optional_negative(row.revoked_at_ms)
    &&& !optional_negative(row.reauth_required_at_ms)
}

pub open spec fn snapshot_row_error(row: TokenRefreshSnapshotRow, error: PostgresRepositoryError) -> bool {
    if token_grant_state_from_db_text(row.state@) is None {
        error matches PostgresRepositoryError::UnknownTokenGrantState(raw) && raw@ == row.state@
    } else if optional_negative(row.revoked_at_ms) {
        negative_reported(error, "revoked_at_ms"@, row.revoked_at_ms->0)
    } else if optional_negative(row.reauth_required_at_ms) {
        negative_reported(error, "reauth_required_at_ms"@, row.reauth_required_at_ms->0)
    } else {
        false
    }
}

/// `snapshot` holds the decoded columns of `row`.
pub open spec fn refresh_snapshot_decoded(row: TokenRefreshSnapshotRow, snapshot: TokenRefreshGrantSnapshot) -> bool {
    &&& token_grant_state_from_db_text(row.state@) == Some(snapshot.state)
    &&& snapshot.grant_id.0 == row.id
    &&& snapshot.tenant_id.0 == row.tenant_id
    &&& snapshot.expected_fingerprint == row.oauth_grant_fingerprint
    &&& snapshot.has_refresh_material == row.has_refresh_material
    &&& snapshot.revoked_at_ms == optional_unsigned(row.revoked_at_ms)
    &&& snapshot.reauth_required_at_ms == optional_unsigned(row.reauth_required_at_ms)
}

pub fn token_refresh_snapshot_from_row(row: TokenRefreshSnapshotRow) -> (r: PgRepositoryResult<
    TokenRefreshGrantSnapshot,
>)
    ensures
        match r {
            Ok(snapshot) => snapshot_row_valid(row) && refresh_snapshot_decoded(row, snapshot),
            Err(error) => !snapshot_row_valid(row) && snapshot_row_error(row, error),
        },
{
    let state = token_grant_state_from_db(row.state.as_str())?;
    let revoked_at_ms = optional_non_negative_i64_to_u64(row.revoked_at_ms, "revoked_at_ms")?;
    let reauth_required_at_ms = optional_non_negative_i64_to_u64(
        row.reauth_required_at_ms,
        "reauth_required_at_ms",
    )?;
    Ok(
        TokenRefreshGrantSnapshot {
            grant_id: TokenGrantId(row.id),
            tenant_id: TenantId(row.tenant_id),
            expected_fingerprint: row.oauth_grant_fingerprint,
            state,
            has_refresh_material: row.has_refresh_material,
            revoked_at_ms,
            reauth_required_at_ms,
        },
    )
}

/// A tenant row.
#[derive(Debug, Clone, PartialEq, Eq)]
pub struct StoredTenant {
    pub id: String,
    pub display_name: String,
    pub status: TenantStatus,
}

#[derive(Debug, Clone)]
pub struct TenantRow {
    pub id: String,
    pub display_name: String,
    pub status: String,
}

pub fn stored_tenant_from_row(row: TenantRow) -> (r: PgRepositoryResult<StoredTenant>)
    ensures
        match r {
            Ok(tenant) => tenant_status_from_db_text(row.status@) == Some(tenant.status) && tenant.id
                == row.id && tenant.display_name == row.display_name,
            Err(error) => tenant_status_from_db_text(row.status@) is None && (
            error matches PostgresRepositoryError::UnknownTenantStatus(raw) && raw@ == row.status@),
        },
{
    let status = tenant_status_from_db(row.status.as_str())?;
    Ok(StoredTenant { id: row.id, display_name: row.display_name, status })
}

/// A workspace user row.
#[derive(Debug, Clone, PartialEq, Eq)]
pub struct StoredWorkspaceUser {
    pub id: String,
    pub tenant_id: String,
    pub display_name: String,
    pub status: WorkspaceUserStatus,
}

#[derive(Debug, Clone)]
pub struct WorkspaceUserRow {
    pub id: String,
    pub tenant_id: String,
    pub display_name: String,
    pub status: String,
}

pub fn stored_workspace_user_from_row(row: WorkspaceUserRow) -> (r: PgRepositoryResult<
    StoredWorkspaceUser,
>)
    ensures
        match r {
            Ok(user) => workspace_user_status_from_db_text(row.status@) == Some(user.status) && user.id
                == row.id && user.tenant_id == row.tenant_id && user.display_name
                == row.display_name,
            Err(error) => workspace_user_status_from_db_text(row.status@) is None && (
            error matches PostgresRepositoryError::UnknownWorkspaceUserStatus(raw) && raw@
                == row.status@),
        },
{
    let status = workspace_user_status_from_db(row.status.as_str())?;
    Ok(
        StoredWorkspaceUser {
            id: row.id,
            tenant_id: row.tenant_id,
            display_name: row.display_name,
            status,
        },
    )
}

/// A Feishu identity bound to a tenant.
#[derive(Debug, Clone, PartialEq, Eq)]
pub struct StoredLarkIdentity {
    pub id: String,
    pub tenant_id: String,
    pub actor_kind: ActorKind,
    pub actor_external_id: String,
    pub display_name: Option<String>,
}

#[derive(Debug, Clone)]
pub struct LarkIdentityRow {
    pub id: String,
    pub tenant_id: String,
    pub actor_kind: String,
    pub actor_external_id: String,
    pub display_name: Option<String>,
}

pub fn stored_lark_identity_from_row(row: LarkIdentityRow) -> (r: PgRepositoryResult<
    StoredLarkIdentity,
>)
    ensures
        match r {
            Ok(identity) => actor_kind_from_db_text(row.actor_kind@) == Some(identity.actor_kind)
                && identity.id == row.id && identity.tenant_id == row.tenant_id
                && identity.actor_external_id == row.actor_external_id && identity.display_name
                == row.display_name,
            Err(error) => actor_kind_from_db_text(row.actor_kind@) is None && (
            error matches PostgresRepositoryError::UnknownIdentityActorKind(raw) && raw@
                == row.actor_kind@),
        },
{
    let actor_kind = identity_actor_kind_from_db(row.actor_kind.as_str())?;
    Ok(
        StoredLarkIdentity {
            id: row.id,
            tenant_id: row.tenant_id,
            actor_kind,
            actor_external_id: row.actor_external_id,
            display_name: row.display_name,
        },
    )
}

/// A device session with its sync cursor; times are in milliseconds.
#[derive(Debug, Clone, PartialEq, Eq)]
pub struct StoredDeviceSession {
    pub id: String,
    pub tenant_id: String,
    pub user_id: String,
    pub entry_point: DeviceEntryPoint,
    pub state: SessionState,
    pub sync_stream: String,
    pub sync_cursor_value: u64,
    pub sync_cursor_updated_at_ms: u64,
    pub session_identity_hash: String,
    pub last_seen_at_ms: u64,
    pub revoked_at_ms: Option<u64>,
    pub expired_at_ms: Option<u64>,
}

#[derive(Debug, Clone)]
pub struct DeviceSessionRow {
    pub id: String,
    pub tenant_id: String,
    pub user_id: String,
    pub entry_point: String,
    pub state: String,
    pub sync_stream: String,
    pub sync_cursor_value: i64,
    pub sync_cursor_updated_at_ms: i64,
    pub session_identity_hash: String,
    pub last_seen_at_ms: i64,
    pub revoked_at_ms: Option<i64>,
    pub expired_at_ms: Option<i64>,
}

pub open spec fn device_session_row_valid(row: DeviceSessionRow) -> bool {
    &&& device_entry_point_from_db_text(row.entry_point@) is Some
    &&& device_session_state_from_db_text(row.state@) is Some
    &&& row.sync_cursor_value >= 0
    &&& row.sync_cursor_updated_at_ms >= 0
    &&& row.last_seen_at_ms >= 0
    &&& !optional_negative(row.revoked_at_ms)
    &&& !optional_negative(row.expired_at_ms)
}

pub open spec fn device_session_row_error(row: DeviceSessionRow, error: PostgresRepositoryError) -> bool {
    if device_entry_point_from_db_text(row.entry_point@) is None {
        error matches PostgresRepositoryError::UnknownDeviceEntryPoint(raw) && raw@ == row.entry_point@
    } else if device_session_state_from_db_text(row.state@) is None {
        error matches PostgresRepositoryError::UnknownDeviceSessionState(raw) && raw@ == row.state@
    } else if row.sync_cursor_value < 0 {
        negative_reported(error, "sync_cursor_value"@, row.sync_cursor_value)
    } else if row.sync_cursor_updated_at_ms < 0 {
        negative_reported(error, "sync_cursor_updated_at_ms"@, row.sync_cursor_updated_at_ms)
    } else if row.last_seen_at_ms < 0 {
        negative_reported(error, "last_seen_at_ms"@, row.last_seen_at_ms)
    } else if optional_negative(row.revoked_at_ms) {
        negative_reported(error, "revoked_at_ms"@, row.revoked_at_ms->0)
    } else if optional_negative(row.expired_at_ms) {
        negative_reported(error, "expired_at_ms"@, row.expired_at_ms->0)
    } else {
        false
    }
}

pub fn stored_device_session_from_row(row: DeviceSessionRow) -> (r: PgRepositoryResult<
    StoredDeviceSession,
>)
    ensures
        match r {
            Ok(session) => device_session_row_valid(row)
                && device_entry_point_from_db_text(row.entry_point@) == Some(session.entry_point)
                && device_session_state_from_db_text(row.state@) == Some(session.state)
                && session.id == row.id && session.tenant_id == row.tenant_id && session.user_id
                == row.user_id && session.sync_stream == row.sync_stream
                && session.sync_cursor_value == row.sync_cursor_value
                && session.sync_cursor_updated_at_ms == row.sync_cursor_updated_at_ms
                && session.session_identity_hash == row.session_identity_hash
                && session.last_seen_at_ms == row.last_seen_at_ms && session.revoked_at_ms
                == optional_unsigned(row.revoked_at_ms) && session.expired_at_ms
                == optional_unsigned(row.expired_at_ms),
            Err(error) => !device_session_row_valid(row) && device_session_row_error(row, error),
        },
{
    let entry_point = device_entry_point_from_db(row.entry_point.as_str())?;
    let state = device_session_state_from_db(row.state.as_str())?;
    let sync_cursor_value = non_negative_i64_to_u64(row.sync_cursor_value, "sync_cursor_value")?;
    let sync_cursor_updated_at_ms = non_negative_i64_to_u64(
        row.sync_cursor_updated_at_ms,
        "sync_cursor_updated_at_ms",
    )?;
    let last_seen_at_ms = non_negative_i64_to_u64(row.last_seen_at_ms, "last_seen_at_ms")?;
    let revoked_at_ms = optional_non_negative_i64_to_u64(row.revoked_at_ms, "revoked_at_ms")?;
    let expired_at_ms = optional_non_negative_i64_to_u64(row.expired_at_ms, "expired_at_ms")?;
    Ok(
        StoredDeviceSession {
            id: row.id,
            tenant_id: row.tenant_id,
            user_id: row.user_id,
            entry_point,
            state,
            sync_stream: row.sync_stream,
            sync_cursor_value,
            sync_cursor_updated_at_ms,
            session_identity_hash: row.session_identity_hash,
            last_seen_at_ms,
            revoked_at_ms,
            expired_at_ms,
        },
    )
}

/// A review inbox row as stored; times are in milliseconds.
#[derive(Debug, Clone, PartialEq, Eq)]
pub struct StoredReviewInboxItem {
    pub id: String,
    pub tenant_id: String,
    pub user_id: String,
    pub proposed_action_id: String,
    pub proposed_action_version: u64,
    pub risk_score: u32,
    pub priority: u32,
    pub status: ReviewInboxItemStatus,
    pub sort_key: i64,
    pub sync_cursor_value: u64,
    pub updated_at_ms: u64,
    pub ledger_status: Option<ActionStatus>,
    pub operation_id: Option<String>,
}

#[derive(Debug, Clone)]
pub struct ReviewInboxItemRow {
    pub id: String,
    pub tenant_id: String,
    pub user_id: String,
    pub proposed_action_id: String,
    pub proposed_action_version: i64,
    pub risk_score: i32,
    pub priority: i32,
    pub status: String,
    pub sort_key: i64,
    pub sync_cursor_value: i64,
    pub updated_at_ms: i64,
    pub ledger_status: Option<String>,
    pub operation_id: Option<String>,
}

pub open spec fn ledger_status_decodes(ledger_status: Option<String>) -> bool {
    match ledger_status {
        Some(text) => action_status_from_db_text(text@) is Some,
        None => true,
    }
}

pub open spec fn review_inbox_item_row_valid(row: ReviewInboxItemRow) -> bool {
    &&& row.proposed_action_version >= 0
    &&& row.risk_score >= 0
    &&& row.priority >= 0
    &&& review_inbox_item_status_from_db_text(row.status@) is Some
    &&& row.sync_cursor_value >= 0
    &&& row.updated_at_ms >= 0
    &&& ledger_status_decodes(row.ledger_status)
}

pub open spec fn review_inbox_item_row_error(row: ReviewInboxItemRow, error: PostgresRepositoryError) -> bool {
    if row.proposed_action_version < 0 {
        negative_reported(error, "proposed_action_version"@, row.proposed_action_version)
    } else if row.risk_score < 0 {
        negative_reported(error, "risk_score"@, row.risk_score as i64)
    } else if row.priority < 0 {
        negative_reported(error, "priority"@, row.priority as i64)
    } else if review_inbox_item_status_from_db_text(row.status@) is None {
        error matches PostgresRepositoryError::UnknownReviewInboxItemStatus(raw) && raw@ == row.status@
    } else if row.sync_cursor_value < 0 {
        negative_reported(error, "sync_cursor_value"@, row.sync_cursor_value)
    } else if row.updated_at_ms < 0 {
        negative_reported(error, "updated_at_ms"@, row.updated_at_ms)
    } else if !ledger_status_decodes(row.ledger_status) {
        error matches PostgresRepositoryError::UnknownActionStatus(raw) && raw@
            == row.ledger_status->0@
    } else {
        false
    }
}

/// `item` holds the decoded columns of `row`.
pub open spec fn review_inbox_item_decoded(row: ReviewInboxItemRow, item: StoredReviewInboxItem) -> bool {
    &&& review_inbox_item_status_from_db_text(row.status@) == Some(item.status)
    &&& item.id == row.id
    &&& item.tenant_id == row.tenant_id
    &&& item.user_id == row.user_id
    &&& item.proposed_action_id == row.proposed_action_id
    &&& item.proposed_action_version == row.proposed_action_version
    &&& item.risk_score == row.risk_score
    &&& item.priority == row.priority
    &&& item.sort_key == row.sort_key
    &&& item.sync_cursor_value == row.sync_cursor_value
    &&& item.updated_at_ms == row.updated_at_ms
    &&& item.operation_id == row.operation_id
    &&& match row.ledger_status {
        Some(text) => action_status_from_db_text(text@) == item.ledger_status,
        None => item.ledger_status is None,
    }
}

pub fn stored_review_inbox_item_from_row(row: ReviewInboxItemRow) -> (r: PgRepositoryResult<
    StoredReviewInboxItem,
>)
    ensures
        match r {
            Ok(item) => review_inbox_item_row_valid(row) && review_inbox_item_decoded(row, item),
            Err(error) => !review_inbox_item_row_valid(row) && review_inbox_item_row_error(row, error),
        },
{
    let proposed_action_version = non_negative_i64_to_u64(
        row.proposed_action_version,
        "proposed_action_version",
    )?;
    let risk_score = non_negative_i64_to_u64(row.risk_score as i64, "risk_score")?;
    let priority = non_negative_i64_to_u64(row.priority as i64, "priority")?;
    let status = review_inbox_item_status_from_db(row.status.as_str())?;
    let sync_cursor_value = non_negative_i64_to_u64(row.sync_cursor_value, "sync_cursor_value")?;
    let updated_at_ms = non_negative_i64_to_u64(row.updated_at_ms, "updated_at_ms")?;
    let ledger_status = match &row.ledger_status {
        Some(text) => Some(action_status_from_db(text.as_str())?),
        None => None,
    };
    Ok(
        StoredReviewInboxItem {
            id: row.id,
            tenant_id: row.tenant_id,
            user_id: row.user_id,
            proposed_action_id: row.proposed_action_id,
            proposed_action_version,
            risk_score: risk_score as u32,
            priority: priority as u32,
            status,
            sort_key: row.sort_key,
            sync_cursor_value,
            updated_at_ms,
            ledger_status,
            operation_id: row.operation_id,
        },
    )
}

/// A piece of evidence; times are in milliseconds.
#[derive(Debug, Clone, PartialEq, Eq)]
pub struct StoredEvidenceItem {
    pub id: String,
    pub tenant_id: String,
    pub summary: String,
    pub source_kind: EvidenceSourceKind,
    pub source_id: String,
    pub locator: String,
    pub content_hash: String,
    pub visibility_scope: EvidenceVisibilityScope,
    pub observed_at_ms: u64,
    pub recorded_at_ms: u64,
}

#[derive(Debug, Clone)]
pub struct EvidenceItemRow {
    pub id: String,
    pub tenant_id: String,
    pub summary: String,
    pub source_kind: String,
    pub source_id: String,
    pub locator: String,
    pub content_hash: String,
    pub visibility_scope: String,
    pub observed_at_ms: i64,
    pub recorded_at_ms: i64,
}

pub open spec fn evidence_row_valid(row: EvidenceItemRow) -> bool {
    &&& evidence_source_kind_from_db_text(row.source_kind@) is Some
    &&& evidence_visibility_scope_from_db_text(row.visibility_scope@) is Some
    &&& row.observed_at_ms >= 0
    &&& row.recorded_at_ms >= 0
}

pub open spec fn evidence_row_error(row: EvidenceItemRow, error: PostgresRepositoryError) -> bool {
    if evidence_source_kind_from_db_text(row.source_kind@) is None {
        error matches PostgresRepositoryError::UnknownEvidenceSourceKind(raw) && raw@ == row.source_kind@
    } else if evidence_visibility_scope_from_db_text(row.visibility_scope@) is None {
        error matches PostgresRepositoryError::UnknownEvidenceVisibilityScope(raw) && raw@
            == row.visibility_scope@
    } else if row.observed_at_ms < 0 {
        negative_reported(error, "observed_at_ms"@, row.observed_at_ms)
    } else if row.recorded_at_ms < 0 {
        negative_reported(error, "recorded_at_ms"@, row.recorded_at_ms)
    } else {
        false
    }
}

/// `item` holds the decoded columns of `row`.
pub open spec fn evidence_item_decoded(row: EvidenceItemRow, item: StoredEvidenceItem) -> bool {
    &&& evidence_source_kind_from_db_text(row.source_kind@) == Some(item.source_kind)
    &&& evidence_visibility_scope_from_db_text(row.visibility_scope@) == Some(item.visibility_scope)
    &&& item.id == row.id
    &&& item.tenant_id == row.tenant_id
    &&& item.summary == row.summary
    &&& item.source_id == row.source_id
    &&& item.locator == row.locator
    &&& item.content_hash == row.content_hash
    &&& item.observed_at_ms == row.observed_at_ms
    &&& item.recorded_at_ms == row.recorded_at_ms
}

pub fn stored_evidence_item_from_row(row: EvidenceItemRow) -> (r: PgRepositoryResult<
    StoredEvidenceItem,
>)
    ensures
        match r {
            Ok(item) => evidence_row_valid(row) && evidence_item_decoded(row, item),
            Err(error) => !evidence_row_valid(row) && evidence_row_error(row, error),
        },
{
    let source_kind = evidence_source_kind_from_db(row.source_kind.as_str())?;
    let visibility_scope = evidence_visibility_scope_from_db(row.visibility_scope.as_str())?;
    let observed_at_ms = non_negative_i64_to_u64(row.observed_at_ms, "observed_at_ms")?;
    let recorded_at_ms = non_negative_i64_to_u64(row.recorded_at_ms, "recorded_at_ms")?;
    Ok(
        StoredEvidenceItem {
            id: row.id,
            tenant_id: row.tenant_id,
            summary: row.summary,
            source_kind,
            source_id: row.source_id,
            locator: row.locator,
            content_hash: row.content_hash,
            visibility_scope,
            observed_at_ms,
            recorded_at_ms,
        },
    )
}

/// Evidence shown with a review inbox item.
#[derive(Debug, Clone, PartialEq, Eq)]
pub struct StoredReviewInboxEvidence {
    pub review_item_id: String,
    pub item: StoredEvidenceItem,
}

pub fn stored_review_inbox_evidence_from_row(review_item_id: String, row: EvidenceItemRow) -> (r:
    PgRepositoryResult<StoredReviewInboxEvidence>)
    ensures
        match r {
            Ok(evidence) => evidence.review_item_id == review_item_id && evidence_row_valid(row)
                && evidence_item_decoded(row, evidence.item),
            Err(error) => !evidence_row_valid(row) && evidence_row_error(row, error),
        },
{
    let item = stored_evidence_item_from_row(row)?;
    Ok(StoredReviewInboxEvidence { review_item_id, item })
}

/// The decision already recorded for a proposed action.
#[derive(Debug, Clone, PartialEq, Eq)]
pub struct StoredReviewInboxActionDecision {
    pub id: String,
    pub actor_user_id: String,
    pub decision: StoredProposedActionDecisionKind,
    pub confirmed_action_id: Option<String>,
    pub decided_at_ms: u64,
}

/// The decision columns of a proposed action row; all null when undecided.
#[derive(Debug, Clone)]
pub struct ActionDecisionColumns {
    pub decision_id: Option<String>,
    pub actor_user_id: String,
    pub decision: String,
    pub confirmed_action_id: Option<String>,
    pub decided_at_ms: i64,
}

pub open spec fn decision_columns_valid(columns: ActionDecisionColumns) -> bool {
    columns.decision_id is Some ==> (proposed_action_decision_kind_from_db_text(columns.decision@)
        is Some && columns.decided_at_ms >= 0)
}

pub open spec fn decision_columns_error(columns: ActionDecisionColumns, error: PostgresRepositoryError) -> bool {
    if columns.decision_id is None {
        false
    } else if proposed_action_decision_kind_from_db_text(columns.decision@) is None {
        error matches PostgresRepositoryError::UnknownProposedActionDecision(raw) && raw@
            == columns.decision@
    } else if columns.decided_at_ms < 0 {
        negative_reported(error, "decided_at_ms"@, columns.decided_at_ms)
    } else {
        false
    }
}

/// `decision` is what the decision columns hold: nothing when undecided.
pub open spec fn action_decision_decoded(
    columns: ActionDecisionColumns,
    decision: Option<StoredReviewInboxActionDecision>,
) -> bool {
    match decision {
        None => columns.decision_id is None,
        Some(d) => {
            &&& columns.decision_id == Some(d.id)
            &&& proposed_action_decision_kind_from_db_text(columns.decision@) == Some(d.decision)
            &&& d.actor_user_id == columns.actor_user_id
            &&& d.confirmed_action_id == columns.confirmed_action_id
            &&& d.decided_at_ms == columns.decided_at_ms
        },
    }
}

pub fn stored_review_inbox_action_decision_from_row(columns: ActionDecisionColumns) -> (r:
    PgRepositoryResult<Option<StoredReviewInboxActionDecision>>)
    ensures
        match r {
            Ok(None) => columns.decision_id is None,
            Ok(Some(decision)) => decision_columns_valid(columns) && action_decision_decoded(
                columns,
                Some(decision),
            ),
            Err(error) => !decision_columns_valid(columns) && decision_columns_error(columns, error),
        },
{
    let id = match columns.decision_id {
        Some(id) => id,
        None => {
            return Ok(None);
        },
    };
    let decision = proposed_action_decision_kind_from_db(columns.decision.as_str())?;
    let decided_at_ms = non_negative_i64_to_u64(columns.decided_at_ms, "decided_at_ms")?;
    Ok(
        Some(
            StoredReviewInboxActionDecision {
                id,
                actor_user_id: columns.actor_user_id,
                decision,
                confirmed_action_id: columns.confirmed_action_id,
                decided_at_ms,
            },
        ),
    )
}

/// A proposed action shown in the review inbox.
#[derive(Debug, Clone)]
pub struct StoredReviewInboxAction {
    pub review_item_id: String,
    pub id: String,
    pub tenant_id: String,
    pub actor_user_id: String,
    pub target_user_id: Option<String>,
    pub owner_user_id: Option<String>,
    pub version: u64,
    pub status: ProposedActionStatus,
    pub kind: ProposedActionKind,
    pub risk_severity: RiskSeverity,
    pub evidence_ids: Vec<String>,
    pub suggested_payload: serde_json::Value,
    pub decision: Option<StoredReviewInboxActionDecision>,
}

#[derive(Debug, Clone)]
pub struct ReviewInboxActionRow {
    pub review_item_id: String,
    pub id: String,
    pub tenant_id: String,
    pub actor_user_id: String,
    pub target_user_id: Option<String>,
    pub owner_user_id: Option<String>,
    pub version: i64,
    pub status: String,
    pub kind: String,
    pub custom_kind: Option<String>,
    pub risk_severity: String,
    pub evidence_ids: Vec<String>,
    pub suggested_payload: serde_json::Value,
    pub decision: ActionDecisionColumns,
}

pub open spec fn review_action_row_valid(row: ReviewInboxActionRow) -> bool {
    &&& row.version >= 0
    &&& proposed_action_status_from_db_text(row.status@) is Some
    &&& proposed_kind_known(row.kind@)
    &&& risk_severity_from_db_text(row.risk_severity@) is Some
    &&& decision_columns_valid(row.decision)
}

pub open spec fn review_action_row_error(row: ReviewInboxActionRow, error: PostgresRepositoryError) -> bool {
    if row.version < 0 {
        negative_reported(error, "version"@, row.version)
    } else if proposed_action_status_from_db_text(row.status@) is None {
        error matches PostgresRepositoryError::UnknownProposedActionStatus(raw) && raw@ == row.status@
    } else if !proposed_kind_known(row.kind@) {
        error matches PostgresRepositoryError::UnknownProposedActionKind(raw) && raw@ == row.kind@
    } else if risk_severity_from_db_text(row.risk_severity@) is None {
        error matches PostgresRepositoryError::UnknownRiskSeverity(raw) && raw@ == row.risk_severity@
    } else {
        decision_columns_error(row.decision, error)
    }
}

/// The kind stored as `kind`, with `custom_kind` naming a custom kind; a
/// custom kind without a name gets the empty name.
pub open spec fn proposed_kind_decoded(
    kind: Seq<char>,
    custom_kind: Option<String>,
    value: ProposedActionKind,
) -> bool {
    match value {
        ProposedActionKind::CreateKrProgress => kind == "create_kr_progress"@,
        ProposedActionKind::UpdateKrProgress => kind == "update_kr_progress"@,
        ProposedActionKind::DeleteKrProgressDryRun => kind == "delete_kr_progress_dry_run"@,
        ProposedActionKind::Custom(name) => kind == "custom"@ && name@ == match custom_kind {
            Some(n) => n@,
            None => Seq::<char>::empty(),
        },
    }
}

/// `action` holds the decoded columns of `row`.
pub open spec fn review_action_decoded(row: ReviewInboxActionRow, action: StoredReviewInboxAction) -> bool {
    &&& proposed_action_status_from_db_text(row.status@) == Some(action.status)
    &&& risk_severity_from_db_text(row.risk_severity@) == Some(action.risk_severity)
    &&& proposed_kind_decoded(row.kind@, row.custom_kind, action.kind)
    &&& action_decision_decoded(row.decision, action.decision)
    &&& action.review_item_id == row.review_item_id
    &&& action.id == row.id
    &&& action.tenant_id == row.tenant_id
    &&& action.actor_user_id == row.actor_user_id
    &&& action.target_user_id == row.target_user_id
    &&& action.owner_user_id == row.owner_user_id
    &&& action.version == row.version
    &&& action.evidence_ids == row.evidence_ids
    &&& action.suggested_payload == row.suggested_payload
}

pub fn stored_review_inbox_action_from_row(row: ReviewInboxActionRow) -> (r: PgRepositoryResult<
    StoredReviewInboxAction,
>)
    ensures
        match r {
            Ok(action) => review_action_row_valid(row) && review_action_decoded(row, action),
            Err(error) => !review_action_row_valid(row) && review_action_row_error(row, error),
        },
{
    let version = non_negative_i64_to_u64(row.version, "version")?;
    let status = proposed_action_status_from_db(row.status.as_str())?;
    let custom_kind: Option<&str> = match &row.custom_kind {
        Some(name) => Some(name.as_str()),
        None => None,
    };
    let kind = proposed_action_kind_from_db(row.kind.as_str(), custom_kind)?;
    let risk_severity = risk_severity_from_db(row.risk_severity.as_str())?;
    let decision = stored_review_inbox_action_decision_from_row(row.decision)?;
    Ok(
        StoredReviewInboxAction {
            review_item_id: row.review_item_id,
            id: row.id,
            tenant_id: row.tenant_id,
            actor_user_id: row.actor_user_id,
            target_user_id: row.target_user_id,
            owner_user_id: row.owner_user_id,
            version,
            status,
            kind,
            risk_severity,
            evidence_ids: row.evidence_ids,
            suggested_payload: row.suggested_payload,
            decision,
        },
    )
}

/// One step of an action's path through confirmation, ledger, adapter and
/// audit, as the inbox timeline shows it.
#[derive(Debug, Clone, PartialEq, Eq)]
pub struct StoredReviewInboxLedgerEvent {
    pub id: String,
    pub action_id: String,
    pub stage: StoredReviewInboxLedgerStage,
    pub stage_status: StoredReviewInboxLedgerStatus,
    pub timestamp_ms: u64,
    pub message: Option<String>,
    pub idempotency_key: Option<String>,
}

#[derive(Debug, Clone)]
pub struct ReviewInboxLedgerEventRow {
    pub id: String,
    pub action_id: String,
    pub stage: String,
    pub stage_status: String,
    pub timestamp_ms: i64,
    pub message: Option<String>,
    pub idempotency_key: Option<String>,
}

pub open spec fn ledger_event_row_valid(row: ReviewInboxLedgerEventRow) -> bool {
    &&& review_inbox_ledger_stage_from_db_text(row.stage@) is Some
    &&& review_inbox_ledger_status_from_db_text(row.stage_status@) is Some
    &&& row.timestamp_ms >= 0
}

pub open spec fn ledger_event_row_error(row: ReviewInboxLedgerEventRow, error: PostgresRepositoryError) -> bool {
    if review_inbox_ledger_stage_from_db_text(row.stage@) is None {
        error matches PostgresRepositoryError::UnknownReviewInboxLedgerStage(raw) && raw@ == row.stage@
    } else if review_inbox_ledger_status_from_db_text(row.stage_status@) is None {
        error matches PostgresRepositoryError::UnknownReviewInboxLedgerStatus(raw) && raw@
            == row.stage_status@
    } else if row.timestamp_ms < 0 {
        negative_reported(error, "timestamp_ms"@, row.timestamp_ms)
    } else {
        false
    }
}

/// `event` holds the decoded columns of `row`.
pub open spec fn ledger_event_decoded(row: ReviewInboxLedgerEventRow, event: StoredReviewInboxLedgerEvent) -> bool {
    &&& review_inbox_ledger_stage_from_db_text(row.stage@) == Some(event.stage)
    &&& review_inbox_ledger_status_from_db_text(row.stage_status@) == Some(event.stage_status)
    &&& event.id == row.id
    &&& event.action_id == row.action_id
    &&& event.timestamp_ms == row.timestamp_ms
    &&& event.message == row.message
    &&& event.idempotency_key == row.idempotency_key
}

pub fn stored_review_inbox_ledger_event_from_row(row: ReviewInboxLedgerEventRow) -> (r:
    PgRepositoryResult<StoredReviewInboxLedgerEvent>)
    ensures
        match r {
            Ok(event) => ledger_event_row_valid(row) && ledger_event_decoded(row, event),
            Err(error) => !ledger_event_row_valid(row) && ledger_event_row_error(row, error),
        },
{
    let stage = review_inbox_ledger_stage_from_db(row.stage.as_str())?;
    let stage_status = review_inbox_ledger_status_from_db(row.stage_status.as_str())?;
    let timestamp_ms = non_negative_i64_to_u64(row.timestamp_ms, "timestamp_ms")?;
    Ok(
        StoredReviewInboxLedgerEvent {
            id: row.id,
            action_id: row.action_id,
            stage,
            stage_status,
            timestamp_ms,
            message: row.message,
            idempotency_key: row.idempotency_key,
        },
    )
}

/// An audit event row.
#[derive(Debug, Clone)]
pub struct AuditEventRow {
    pub event_id: String,
    pub trace_id: String,
    pub sequence: i64,
    pub occurred_at_ms: i64,
    pub tenant_id: String,
    pub actor_kind: String,
    pub actor_id: String,
    pub actor_display_name: Option<String>,
    pub target_resource_type: String,
    pub target_resource_id: String,
    pub target_action_type: String,
    pub event_type: String,
    pub before_summary: Option<serde_json::Value>,
    pub after_summary: Option<serde_json::Value>,
    pub execution_result: Option<serde_json::Value>,
}

pub open spec fn audit_event_row_valid(row: AuditEventRow) -> bool {
    &&& row.sequence >= 0
    &&& row.occurred_at_ms >= 0
    &&& audit_event_type_from_db_text(row.event_type@) is Some
    &&& audit_actor_kind_from_db_text(row.actor_kind@) is Some
}

pub open spec fn audit_event_row_error(row: AuditEventRow, error: PostgresRepositoryError) -> bool {
    if row.sequence < 0 {
        negative_reported(error, "sequence"@, row.sequence)
    } else if row.occurred_at_ms < 0 {
        negative_reported(error, "occurred_at_ms"@, row.occurred_at_ms)
    } else if audit_event_type_from_db_text(row.event_type@) is None {
        error matches PostgresRepositoryError::UnknownAuditEventType(raw) && raw@ == row.event_type@
    } else if audit_actor_kind_from_db_text(row.actor_kind@) is None {
        error matches PostgresRepositoryError::UnknownAuditActorKind(raw) && raw@ == row.actor_kind@
    } else {
        false
    }
}

/// `event` holds the decoded columns of `row`; the workspace is not stored.
pub open spec fn audit_event_decoded(row: AuditEventRow, event: AuditEvent) -> bool {
    &&& audit_event_type_from_db_text(row.event_type@) == Some(event.event_type)
    &&& audit_actor_kind_from_db_text(row.actor_kind@) == Some(event.actor.kind)
    &&& event.event_id == row.event_id
    &&& event.trace_id == row.trace_id
    &&& event.sequence == row.sequence
    &&& event.occurred_at_ms == row.occurred_at_ms
    &&& event.actor.actor_id == row.actor_id
    &&& event.actor.display_name == row.actor_display_name
    &&& event.scope.tenant_id == row.tenant_id
    &&& event.scope.workspace_id is None
    &&& event.target.resource_type == row.target_resource_type
    &&& event.target.resource_id == row.target_resource_id
    &&& event.target.action_type == row.target_action_type
    &&& event.before == row.before_summary
    &&& event.after == row.after_summary
    &&& event.execution == row.execution_result
}

/// Decodes an audit event; the workspace is not stored and reads back empty.
pub fn audit_event_from_row(row: AuditEventRow) -> (r: PgRepositoryResult<AuditEvent>)
    ensures
        match r {
            Ok(event) => audit_event_row_valid(row) && audit_event_decoded(row, event),
            Err(error) => !audit_event_row_valid(row) && audit_event_row_error(row, error),
        },
{
    let sequence = non_negative_i64_to_u64(row.sequence, "sequence")?;
    let occurred_at_ms = non_negative_i64_to_u64(row.occurred_at_ms, "occurred_at_ms")?;
    let event_type = audit_event_type_from_db(row.event_type.as_str())?;
    let actor_kind = audit_actor_kind_from_db(row.actor_kind.as_str())?;
    Ok(
        AuditEvent {
            event_id: row.event_id,
            trace_id: row.trace_id,
            sequence,
            occurred_at_ms,
            event_type,
            actor: AuditActor {
                kind: actor_kind,
                actor_id: row.actor_id,
                display_name: row.actor_display_name,
            },
            scope: AuditScope { tenant_id: row.tenant_id, workspace_id: None },
            target: AuditTarget {
                resource_type: row.target_resource_type,
                resource_id: row.target_resource_id,
                action_type: row.target_action_type,
            },
            before: row.before_summary,
            after: row.after_summary,
            execution: row.execution_result,
        },
    )
}

/// Decodes execution queue rows in order, stopping at the first row that does not decode.
pub fn pending_confirmed_actions_from_rows(rows: Vec<PendingConfirmedActionRow>) -> (r: PgRepositoryResult<Vec<StoredPendingConfirmedAction>>)
    ensures
        match r {
            Ok(decoded) => decoded@.len() == rows@.len() && forall|i: int|
                0 <= i < rows@.len() ==> pending_row_valid(#[trigger] rows@[i]) && pending_action_decoded(
                    rows@[i],
                    decoded@[i],
                ),
            Err(error) => exists|k: int|
                0 <= k < rows@.len() && (forall|i: int| 0 <= i < k ==> pending_row_valid(#[trigger] rows@[i]))
                    && #[trigger] pending_row_error(rows@[k], error) && !pending_row_valid(rows@[k]),
        },
{
    let ghost all = rows@;
    let mut decoded: Vec<StoredPendingConfirmedAction> = Vec::new();
    for row in it: rows.into_iter()
        invariant
            it.seq() == all,
            decoded@.len() == it.index(),
            forall|i: int|
                0 <= i < it.index() ==> pending_row_valid(#[trigger] all[i]) && pending_action_decoded(
                    all[i],
                    decoded@[i],
                ),
    {
        let ghost index = it.index() as int;
        match pending_confirmed_action_from_row(row) {
            Ok(value) => {
                decoded.push(value);
            },
            Err(error) => {
                proof {
                    assert(pending_row_error(all[index], error));
                }
                return Err(error);
            },
        }
    }
    Ok(decoded)
}

/// Decodes audit event rows in order, stopping at the first row that does not decode.
pub fn audit_events_from_rows(rows: Vec<AuditEventRow>) -> (r: PgRepositoryResult<Vec<AuditEvent>>)
    ensures
        match r {
            Ok(decoded) => decoded@.len() == rows@.len() && forall|i: int|
                0 <= i < rows@.len() ==> audit_event_row_valid(#[trigger] rows@[i]) && audit_event_decoded(
                    rows@[i],
                    decoded@[i],
                ),
            Err(error) => exists|k: int|
                0 <= k < rows@.len() && (forall|i: int| 0 <= i < k ==> audit_event_row_valid(#[trigger] rows@[i]))
                    && #[trigger] audit_event_row_error(rows@[k], error) && !audit_event_row_valid(rows@[k]),
        },
{
    let ghost all = rows@;
    let mut decoded: Vec<AuditEvent> = Vec::new();
    for row in it: rows.into_iter()
        invariant
            it.seq() == all,
            decoded@.len() == it.index(),
            forall|i: int|
                0 <= i < it.index() ==> audit_event_row_valid(#[trigger] all[i]) && audit_event_decoded(
                    all[i],
                    decoded@[i],
                ),
    {
        let ghost index = it.index() as int;
        match audit_event_from_row(row) {
            Ok(value) => {
                decoded.push(value);
            },
            Err(error) => {
                proof {
                    assert(audit_event_row_error(all[index], error));
                }
                return Err(error);
            },
        }
    }
    Ok(decoded)
}

/// Decodes refresh candidate rows in order, stopping at the first row that does not decode.
pub fn token_refresh_snapshots_from_rows(rows: Vec<TokenRefreshSnapshotRow>) -> (r: PgRepositoryResult<Vec<TokenRefreshGrantSnapshot>>)
    ensures
        match r {
            Ok(decoded) => decoded@.len() == rows@.len() && forall|i: int|
                0 <= i < rows@.len() ==> snapshot_row_valid(#[trigger] rows@[i]) && refresh_snapshot_decoded(
                    rows@[i],
                    decoded@[i],
                ),
            Err(error) => exists|k: int|
                0 <= k < rows@.len() && (forall|i: int| 0 <= i < k ==> snapshot_row_valid(#[trigger] rows@[i]))
                    && #[trigger] snapshot_row_error(rows@[k], error) && !snapshot_row_valid(rows@[k]),
        },
{
    let ghost all = rows@;
    let mut decoded: Vec<TokenRefreshGrantSnapshot> = Vec::new();
    for row in it: rows.into_iter()
        invariant
            it.seq() == all,
            decoded@.len() == it.index(),
            forall|i: int|
                0 <= i < it.index() ==> snapshot_row_valid(#[trigger] all[i]) && refresh_snapshot_decoded(
                    all[i],
                    decoded@[i],
                ),
    {
        let ghost index = it.index() as int;
        match token_refresh_snapshot_from_row(row) {
            Ok(value) => {
                decoded.push(value);
            },
            Err(error) => {
                proof {
                    assert(snapshot_row_error(all[index], error));
                }
                return Err(error);
            },
        }
    }
    Ok(decoded)
}

} // verus!
