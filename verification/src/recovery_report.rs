//! The tenant recovery report: the failed outbox rows and parked token
//! grants an operator may act on, decoded from their rows.
use vstd::prelude::*;

use crate::audit_outbox_payload::{payload_acceptable, safe_payload_of, AuditPayloadJson};
use crate::codec::{
    actor_kind_from_db_text, identity_actor_kind_from_db, scope_boundary_from_db,
    scope_boundary_from_db_text, token_grant_state_from_db, token_grant_state_from_db_text,
};
use crate::error::{PgRepositoryResult, PostgresRepositoryError};
use crate::recovery::{
    failed_outbox_recovery_item, outbox_requeue_recommended, parked_grant_recommendation,
    parked_token_grant_recovery_item, FailedAuditOutboxRecoveryItem, OperationalRecoveryAction,
    ParkedTokenGrantRecoveryItem,
};
use crate::redaction::sanitized_refresh_error;
use crate::rows::{
    negative_reported, non_negative_i64_to_u64, optional_negative, optional_non_negative_i64_to_u64,
    optional_unsigned,
};
use crate::text::string_of;

verus! {

/// What a tenant's operators can recover.
#[derive(Debug, Clone)]
pub struct PostgresOperationalRecoveryReport {
    pub tenant_id: String,
    pub failed_audit_outbox: Vec<FailedAuditOutboxRecoveryItem>,
    pub parked_token_grants: Vec<ParkedTokenGrantRecoveryItem>,
}

/// A failed outbox row.
#[derive(Debug, Clone)]
pub struct FailedOutboxRecoveryRow {
    pub id: i64,
    pub tenant_id: String,
    pub stream: String,
    pub aggregate_id: String,
    pub attempt_count: i32,
    pub created_at_ms: i64,
    pub payload: AuditPayloadJson,
}

pub open spec fn failed_outbox_row_valid(row: FailedOutboxRecoveryRow) -> bool {
    row.created_at_ms >= 0
}

pub open spec fn failed_outbox_row_error(row: FailedOutboxRecoveryRow, error: PostgresRepositoryError) -> bool {
    row.created_at_ms < 0 && negative_reported(error, "created_at_ms"@, row.created_at_ms)
}

/// `item` is the recovery view of `row`.
pub open spec fn failed_outbox_decoded(row: FailedOutboxRecoveryRow, item: FailedAuditOutboxRecoveryItem) -> bool {
    &&& item.id == row.id
    &&& item.tenant_id == row.tenant_id
    &&& item.stream == row.stream
    &&& item.aggregate_id == row.aggregate_id
    &&& item.attempt_count == row.attempt_count
    &&& item.created_at_ms == row.created_at_ms
    &&& item.payload_safe == payload_acceptable(row.payload)
    &&& item.payload is Some == item.payload_safe
    &&& item.payload matches Some(safe) ==> (row.payload matches AuditPayloadJson::Object(entries)
        && safe_payload_of(safe, entries@))
    &&& item.recommended_action == if outbox_requeue_recommended(item.payload_safe, row.stream@) {
        OperationalRecoveryAction::RequeueFailedAuditOutbox
    } else {
        OperationalRecoveryAction::InspectFailedAuditOutbox
    }
}

pub fn failed_outbox_recovery_item_from_row(row: FailedOutboxRecoveryRow) -> (r: PgRepositoryResult<
    FailedAuditOutboxRecoveryItem,
>)
    ensures
        match r {
            Ok(item) => failed_outbox_row_valid(row) && failed_outbox_decoded(row, item),
            Err(error) => !failed_outbox_row_valid(row) && failed_outbox_row_error(row, error),
        },
{
    let created_at_ms = non_negative_i64_to_u64(row.created_at_ms, "created_at_ms")?;
    let FailedOutboxRecoveryRow { id, tenant_id, stream, aggregate_id, attempt_count, payload, .. } = row;
    Ok(failed_outbox_recovery_item(id, tenant_id, stream, aggregate_id, &payload, attempt_count, created_at_ms))
}

/// A parked token grant row.
#[derive(Debug, Clone)]
pub struct ParkedGrantRecoveryRow {
    pub id: String,
    pub tenant_id: String,
    pub identity_id: String,
    pub actor_kind: String,
    pub scope_boundary: String,
    pub state: String,
    pub last_refresh_error: Option<String>,
    pub refreshed_at_ms: Option<i64>,
    pub reauth_required_at_ms: Option<i64>,
    pub updated_at_ms: i64,
}

pub open spec fn parked_grant_row_valid(row: ParkedGrantRecoveryRow) -> bool {
    &&& token_grant_state_from_db_text(row.state@) is Some
    &&& actor_kind_from_db_text(row.actor_kind@) is Some
    &&& scope_boundary_from_db_text(row.scope_boundary@) is Some
    &&& !optional_negative(row.refreshed_at_ms)
    &&& !optional_negative(row.reauth_required_at_ms)
    &&& row.updated_at_ms >= 0
}

pub open spec fn parked_grant_row_error(row: ParkedGrantRecoveryRow, error: PostgresRepositoryError) -> bool {
    if token_grant_state_from_db_text(row.state@) is None {
        error matches PostgresRepositoryError::UnknownTokenGrantState(raw) && raw@ == row.state@
    } else if actor_kind_from_db_text(row.actor_kind@) is None {
        error matches PostgresRepositoryError::UnknownIdentityActorKind(raw) && raw@ == row.actor_kind@
    } else if scope_boundary_from_db_text(row.scope_boundary@) is None {
        error matches PostgresRepositoryError::UnknownScopeBoundary(raw) && raw@ == row.scope_boundary@
    } else if optional_negative(row.refreshed_at_ms) {
        negative_reported(error, "refreshed_at_ms"@, row.refreshed_at_ms->0)
    } else if optional_negative(row.reauth_required_at_ms) {
        negative_reported(error, "reauth_required_at_ms"@, row.reauth_required_at_ms->0)
    } else if row.updated_at_ms < 0 {
        negative_reported(error, "updated_at_ms"@, row.updated_at_ms)
    } else {
        false
    }
}

/// `item` is the recovery view of `row`, its stored reason redacted again.
pub open spec fn parked_grant_decoded(row: ParkedGrantRecoveryRow, item: ParkedTokenGrantRecoveryItem) -> bool {
    &&& token_grant_state_from_db_text(row.state@) == Some(item.state)
    &&& actor_kind_from_db_text(row.actor_kind@) == Some(item.actor_kind)
    &&& scope_boundary_from_db_text(row.scope_boundary@) == Some(item.scope_boundary)
    &&& item.grant_id == row.id
    &&& item.tenant_id == row.tenant_id
    &&& item.identity_id == row.identity_id
    &&& item.refreshed_at_ms == optional_unsigned(row.refreshed_at_ms)
    &&& item.reauth_required_at_ms == optional_unsigned(row.reauth_required_at_ms)
    &&& item.updated_at_ms == row.updated_at_ms
    &&& item.safe_error is Some == row.last_refresh_error is Some
    &&& item.safe_error is Some ==> item.safe_error->0@ == sanitized_refresh_error(
        row.last_refresh_error->0@,
    )
    &&& item.recommended_action == parked_grant_recommendation(item.state)
}

pub fn parked_token_grant_recovery_item_from_row(row: ParkedGrantRecoveryRow) -> (r:
    PgRepositoryResult<ParkedTokenGrantRecoveryItem>)
    ensures
        match r {
            Ok(item) => parked_grant_row_valid(row) && parked_grant_decoded(row, item),
            Err(error) => !parked_grant_row_valid(row) && parked_grant_row_error(row, error),
        },
{
    let state = token_grant_state_from_db(row.state.as_str())?;
    let actor_kind = identity_actor_kind_from_db(row.actor_kind.as_str())?;
    let scope_boundary = scope_boundary_from_db(row.scope_boundary.as_str())?;
    let refreshed_at_ms = optional_non_negative_i64_to_u64(row.refreshed_at_ms, "refreshed_at_ms")?;
    let reauth_required_at_ms = optional_non_negative_i64_to_u64(
        row.reauth_required_at_ms,
        "reauth_required_at_ms",
    )?;
    let updated_at_ms = non_negative_i64_to_u64(row.updated_at_ms, "updated_at_ms")?;
    Ok(
        parked_token_grant_recovery_item(
            row.id,
            row.tenant_id,
            row.identity_id,
            actor_kind,
            scope_boundary,
            state,
            row.last_refresh_error,
            refreshed_at_ms,
            reauth_required_at_ms,
            updated_at_ms,
        ),
    )
}

/// The report a zero limit answers without reading any row.
pub fn empty_recovery_report(tenant_id: &str) -> (r: PostgresOperationalRecoveryReport)
    ensures
        r.tenant_id@ == tenant_id@,
        r.failed_audit_outbox@.len() == 0,
        r.parked_token_grants@.len() == 0,
{
    PostgresOperationalRecoveryReport {
        tenant_id: string_of(tenant_id),
        failed_audit_outbox: Vec::new(),
        parked_token_grants: Vec::new(),
    }
}

/// Decodes failed outbox rows in order, stopping at the first row that does not decode.
pub fn failed_outbox_recovery_items_from_rows(rows: Vec<FailedOutboxRecoveryRow>) -> (r: PgRepositoryResult<Vec<FailedAuditOutboxRecoveryItem>>)
    ensures
        match r {
            Ok(decoded) => decoded@.len() == rows@.len() && forall|i: int|
                0 <= i < rows@.len() ==> failed_outbox_row_valid(#[trigger] rows@[i]) && failed_outbox_decoded(
                    rows@[i],
                    decoded@[i],
                ),
            Err(error) => exists|k: int|
                0 <= k < rows@.len() && (forall|i: int| 0 <= i < k ==> failed_outbox_row_valid(#[trigger] rows@[i]))
                    && #[trigger] failed_outbox_row_error(rows@[k], error) && !failed_outbox_row_valid(rows@[k]),
        },
{
    let ghost all = rows@;
    let mut decoded: Vec<FailedAuditOutboxRecoveryItem> = Vec::new();
    for row in it: rows.into_iter()
        invariant
            it.seq() == all,
            decoded@.len() == it.index(),
            forall|i: int|
                0 <= i < it.index() ==> failed_outbox_row_valid(#[trigger] all[i]) && failed_outbox_decoded(
                    all[i],
                    decoded@[i],
                ),
    {
        let ghost index = it.index() as int;
        match failed_outbox_recovery_item_from_row(row) {
            Ok(value) => {
                decoded.push(value);
            },
            Err(error) => {
                proof {
                    assert(failed_outbox_row_error(all[index], error));
                }
                return Err(error);
            },
        }
    }
    Ok(decoded)
}

/// Decodes parked grant rows in order, stopping at the first row that does not decode.
pub fn parked_token_grant_recovery_items_from_rows(rows: Vec<ParkedGrantRecoveryRow>) -> (r: PgRepositoryResult<Vec<ParkedTokenGrantRecoveryItem>>)
    ensures
        match r {
            Ok(decoded) => decoded@.len() == rows@.len() && forall|i: int|
                0 <= i < rows@.len() ==> parked_grant_row_valid(#[trigger] rows@[i]) && parked_grant_decoded(
                    rows@[i],
                    decoded@[i],
                ),
            Err(error) => exists|k: int|
                0 <= k < rows@.len() && (forall|i: int| 0 <= i < k ==> parked_grant_row_valid(#[trigger] rows@[i]))
                    && #[trigger] parked_grant_row_error(rows@[k], error) && !parked_grant_row_valid(rows@[k]),
        },
{
    let ghost all = rows@;
    let mut decoded: Vec<ParkedTokenGrantRecoveryItem> = Vec::new();
    for row in it: rows.into_iter()
        invariant
            it.seq() == all,
            decoded@.len() == it.index(),
            forall|i: int|
                0 <= i < it.index() ==> parked_grant_row_valid(#[trigger] all[i]) && parked_grant_decoded(
                    all[i],
                    decoded@[i],
                ),
    {
        let ghost index = it.index() as int;
        match parked_token_grant_recovery_item_from_row(row) {
            Ok(value) => {
                decoded.push(value);
            },
            Err(error) => {
                proof {
                    assert(parked_grant_row_error(all[index], error));
                }
                return Err(error);
            },
        }
    }
    Ok(decoded)
}

} // verus!
