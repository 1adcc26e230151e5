use oar_core::domain::{ActionStatus, ActorKind, ScopeBoundary, TokenGrantState};
use oar_core::error::PostgresRepositoryError;
use oar_core::rows::{
    encrypted_token_grant_from_row, non_negative_i64_to_u64, operation_record_from_row,
    optional_non_negative_i64_to_u64, pending_confirmed_action_from_row,
    stored_scheduler_job_from_row, ConfirmedExecutionDecision, OperationRecordRow,
    PendingConfirmedActionRow, SchedulerJobRow, TokenGrantRow,
};

fn operation_row(status: &str) -> OperationRecordRow {
    OperationRecordRow {
        operation_id: "op_1".to_string(),
        tenant_id: "tenant_1".to_string(),
        action_id: "ca_1".to_string(),
        idempotency_key: "idem_1".to_string(),
        status: status.to_string(),
        last_error: Some("timeout".to_string()),
    }
}

fn pending_row(decision: &str, edited: Option<serde_json::Value>) -> PendingConfirmedActionRow {
    PendingConfirmedActionRow {
        action_id: "ca_1".to_string(),
        tenant_id: "tenant_1".to_string(),
        actor_user_id: "user_1".to_string(),
        idempotency_key: "idem_1".to_string(),
        action_status: "confirmed".to_string(),
        confirmed_at_ms: Some(12),
        proposed_action_id: "pa_1".to_string(),
        proposed_action_version: 3,
        proposed_action_kind: "update_kr_progress".to_string(),
        proposed_action_custom_kind: None,
        proposed_action_decision: decision.to_string(),
        suggested_payload: serde_json::Value::String("suggested".to_string()),
        edited_payload: edited,
        target_user_id: Some("user_2".to_string()),
        owner_user_id: None,
        evidence_ids: vec!["ev_1".to_string()],
        operation: operation_row("confirmed"),
    }
}

#[test]
fn non_negative_columns_convert_and_negative_ones_are_named() {
    assert_eq!(non_negative_i64_to_u64(5, "sequence").expect("value"), 5);
    assert!(matches!(
        non_negative_i64_to_u64(-5, "sequence"),
        Err(PostgresRepositoryError::NegativeInteger { field: "sequence", value: -5 })
    ));
    assert_eq!(
        optional_non_negative_i64_to_u64(None, "expires_at_ms").expect("value"),
        None
    );
    assert_eq!(
        optional_non_negative_i64_to_u64(Some(0), "expires_at_ms").expect("value"),
        Some(0)
    );
    assert!(matches!(
        optional_non_negative_i64_to_u64(Some(-1), "expires_at_ms"),
        Err(PostgresRepositoryError::NegativeInteger { field: "expires_at_ms", value: -1 })
    ));
}

#[test]
fn operation_row_decodes_its_status() {
    let record = operation_record_from_row(&operation_row("executing")).expect("record");
    assert_eq!(record.status, ActionStatus::Executing);
    assert_eq!(record.operation_id, "op_1");
    assert_eq!(record.last_error.as_deref(), Some("timeout"));
    assert!(matches!(
        operation_record_from_row(&operation_row("running")),
        Err(PostgresRepositoryError::UnknownActionStatus(raw)) if raw == "running"
    ));
}

#[test]
fn confirmed_row_executes_the_suggested_payload() {
    let pending = pending_confirmed_action_from_row(pending_row("confirm", None)).expect("pending");
    assert_eq!(pending.request.decision, ConfirmedExecutionDecision::Confirm);
    assert_eq!(
        pending.request.effective_payload,
        serde_json::Value::String("suggested".to_string())
    );
    assert_eq!(pending.request.confirmed_action.confirmed_at_ms, Some(12));
    assert_eq!(pending.request.proposed_action_version, 3);
    assert_eq!(pending.operation.status, ActionStatus::Confirmed);
}

#[test]
fn edited_row_executes_the_edited_payload() {
    let edited = serde_json::Value::String("edited".to_string());
    let pending = pending_confirmed_action_from_row(pending_row(
        "edit_then_confirm",
        Some(edited.clone()),
    ))
    .expect("pending");
    assert_eq!(
        pending.request.decision,
        ConfirmedExecutionDecision::EditThenConfirm
    );
    assert_eq!(pending.request.effective_payload, edited);
}

#[test]
fn unexecutable_queue_rows_are_refused() {
    assert!(matches!(
        pending_confirmed_action_from_row(pending_row("edit_then_confirm", None)),
        Err(PostgresRepositoryError::InvalidExecutionQueueRow {
            field: "edited_payload",
            reason: "edit_then_confirm requires edited payload",
        })
    ));
    assert!(matches!(
        pending_confirmed_action_from_row(pending_row("reject", None)),
        Err(PostgresRepositoryError::InvalidExecutionQueueRow {
            field: "decision",
            reason: "reject decisions are not executable",
        })
    ));
    assert!(matches!(
        pending_confirmed_action_from_row(pending_row("approve", None)),
        Err(PostgresRepositoryError::UnknownProposedActionDecision(raw)) if raw == "approve"
    ));
    let mut negative = pending_row("confirm", None);
    negative.confirmed_at_ms = Some(-1);
    assert!(matches!(
        pending_confirmed_action_from_row(negative),
        Err(PostgresRepositoryError::NegativeInteger { field: "confirmed_at_ms", value: -1 })
    ));
}

#[test]
fn scheduler_row_rejects_negative_counters() {
    let row = SchedulerJobRow {
        id: "job_1".to_string(),
        tenant_id: "tenant_1".to_string(),
        job_kind: "token_refresh_sweep".to_string(),
        status: "pending".to_string(),
        next_run_at_ms: 100,
        lease_id: None,
        lease_until_ms: None,
        attempt_count: 0,
        last_started_at_ms: None,
        last_finished_at_ms: Some(50),
        last_safe_error_code: None,
    };
    let job = stored_scheduler_job_from_row(row.clone()).expect("job");
    assert_eq!(job.next_run_at_ms, 100);
    assert_eq!(job.last_finished_at_ms, Some(50));
    let mut negative = row;
    negative.attempt_count = -2;
    assert!(matches!(
        stored_scheduler_job_from_row(negative),
        Err(PostgresRepositoryError::NegativeInteger { field: "attempt_count", value: -2 })
    ));
}

#[test]
fn token_grant_row_decodes_its_enums() {
    let row = TokenGrantRow {
        id: "grant_1".to_string(),
        tenant_id: "tenant_1".to_string(),
        identity_id: "identity_1".to_string(),
        actor_kind: "user".to_string(),
        scope_boundary: "tenant".to_string(),
        scopes: vec!["okr:read".to_string()],
        state: "needs_refresh".to_string(),
        issued_at_ms: 1,
        expires_at_ms: Some(2),
        refreshed_at_ms: None,
        revoked_at_ms: None,
        reauth_required_at_ms: None,
        last_refresh_error: None,
        encrypted_oauth_grant: vec![1, 2],
        oauth_grant_key_id: "key".to_string(),
        oauth_grant_fingerprint: "fp".to_string(),
        revocation_reason: None,
    };
    let grant = encrypted_token_grant_from_row(row.clone()).expect("grant");
    assert_eq!(grant.actor_kind, ActorKind::User);
    assert_eq!(grant.scope_boundary, ScopeBoundary::Tenant);
    assert_eq!(grant.state, TokenGrantState::NeedsRefresh);
    assert_eq!(grant.expires_at_ms, Some(2));
    let mut unknown = row;
    unknown.state = "paused".to_string();
    assert!(matches!(
        encrypted_token_grant_from_row(unknown),
        Err(PostgresRepositoryError::UnknownTokenGrantState(raw)) if raw == "paused"
    ));
}
