use oar_core::domain::{
    ActionStatus, ActorKind, AuditActor, AuditActorKind, AuditEvent, AuditEventType, AuditScope,
    AuditTarget, ConfirmedAction, DeviceEntryPoint, ProposedActionDecision, ProposedActionKind,
    ReviewInboxItem, ReviewInboxItemStatus, SessionState, TenantStatus, WorkspaceUserStatus,
};
use oar_core::error::PostgresRepositoryError;
use oar_core::redaction::redacted_tenant_mismatch;
use oar_core::review_decision::decision_submission;
use oar_core::review_inbox::stored_review_inbox_actions_from_rows;
use oar_core::rows::{
    stored_device_session_from_row, stored_lark_identity_from_row, stored_tenant_from_row,
    stored_workspace_user_from_row, ActionDecisionColumns, DeviceSessionRow, LarkIdentityRow,
    ReviewInboxActionRow, TenantRow, WorkspaceUserRow,
};
use oar_core::validation::{
    AuditOutboxEnvelope, InsertProposedActionDecisionRequest, PostgresReviewDecisionRecorderRequest,
};

#[test]
fn identity_rows_decode_their_statuses() {
    let tenant = stored_tenant_from_row(TenantRow {
        id: "tenant_1".to_string(),
        display_name: "Acme".to_string(),
        status: "suspended".to_string(),
    })
    .expect("tenant");
    assert_eq!(tenant.status, TenantStatus::Suspended);
    let user = stored_workspace_user_from_row(WorkspaceUserRow {
        id: "user_1".to_string(),
        tenant_id: "tenant_1".to_string(),
        display_name: "Ada".to_string(),
        status: "disabled".to_string(),
    })
    .expect("user");
    assert_eq!(user.status, WorkspaceUserStatus::Disabled);
    let identity = stored_lark_identity_from_row(LarkIdentityRow {
        id: "identity_1".to_string(),
        tenant_id: "tenant_1".to_string(),
        actor_kind: "app".to_string(),
        actor_external_id: "cli_1".to_string(),
        display_name: None,
    })
    .expect("identity");
    assert_eq!(identity.actor_kind, ActorKind::App);
    assert!(matches!(
        stored_lark_identity_from_row(LarkIdentityRow {
            id: "identity_1".to_string(),
            tenant_id: "tenant_1".to_string(),
            actor_kind: "human".to_string(),
            actor_external_id: "ou_1".to_string(),
            display_name: None,
        }),
        Err(PostgresRepositoryError::UnknownIdentityActorKind(raw)) if raw == "human"
    ));
}

fn session_row(entry_point: &str, revoked_at_ms: Option<i64>) -> DeviceSessionRow {
    DeviceSessionRow {
        id: "session_1".to_string(),
        tenant_id: "tenant_1".to_string(),
        user_id: "user_1".to_string(),
        entry_point: entry_point.to_string(),
        state: "revoked".to_string(),
        sync_stream: "review_inbox".to_string(),
        sync_cursor_value: 12,
        sync_cursor_updated_at_ms: 100,
        session_identity_hash: "hash".to_string(),
        last_seen_at_ms: 90,
        revoked_at_ms,
        expired_at_ms: None,
    }
}

#[test]
fn device_session_row_decodes_or_names_its_bad_column() {
    let session = stored_device_session_from_row(session_row("ios", Some(120))).expect("session");
    assert_eq!(session.entry_point, DeviceEntryPoint::Ios);
    assert_eq!(session.state, SessionState::Revoked);
    assert_eq!(session.revoked_at_ms, Some(120));
    assert_eq!(session.sync_cursor_value, 12);
    assert!(matches!(
        stored_device_session_from_row(session_row("android", None)),
        Err(PostgresRepositoryError::UnknownDeviceEntryPoint(raw)) if raw == "android"
    ));
    assert!(matches!(
        stored_device_session_from_row(session_row("web", Some(-3))),
        Err(PostgresRepositoryError::NegativeInteger { field: "revoked_at_ms", value: -3 })
    ));
}

#[test]
fn mismatched_tenant_is_never_named() {
    match redacted_tenant_mismatch("tenant_1") {
        PostgresRepositoryError::TenantMismatch {
            field,
            expected,
            actual,
        } => {
            assert_eq!(field, "tenant_id");
            assert_eq!(expected, "tenant_1");
            assert_eq!(actual, "<redacted>");
        }
        other => panic!("unexpected {other:?}"),
    }
}

fn action_row(kind: &str, custom_kind: Option<&str>, decision_id: Option<&str>) -> ReviewInboxActionRow {
    ReviewInboxActionRow {
        review_item_id: "inbox_1".to_string(),
        id: "pa_1".to_string(),
        tenant_id: "tenant_1".to_string(),
        actor_user_id: "user_1".to_string(),
        target_user_id: None,
        owner_user_id: Some("user_2".to_string()),
        version: 2,
        status: "published".to_string(),
        kind: kind.to_string(),
        custom_kind: custom_kind.map(|name| name.to_string()),
        risk_severity: "high".to_string(),
        evidence_ids: vec!["ev_1".to_string()],
        suggested_payload: serde_json::Value::Null,
        decision: ActionDecisionColumns {
            decision_id: decision_id.map(|id| id.to_string()),
            actor_user_id: "user_1".to_string(),
            decision: "reject".to_string(),
            confirmed_action_id: None,
            decided_at_ms: 30,
        },
    }
}

#[test]
fn inbox_actions_decode_kind_and_decision() {
    let actions = stored_review_inbox_actions_from_rows(vec![
        action_row("custom", Some("ping_owner"), None),
        action_row("update_kr_progress", None, Some("decision_1")),
    ])
    .expect("actions");
    assert_eq!(actions[0].kind, ProposedActionKind::Custom("ping_owner".to_string()));
    assert!(actions[0].decision.is_none());
    let decision = actions[1].decision.clone().expect("decided");
    assert_eq!(decision.id, "decision_1");
    assert_eq!(decision.decided_at_ms, 30);
    assert!(matches!(
        stored_review_inbox_actions_from_rows(vec![action_row("archive", None, None)]),
        Err(PostgresRepositoryError::UnknownProposedActionKind(raw)) if raw == "archive"
    ));
}

#[test]
fn only_complete_confirmations_are_submitted() {
    let confirm = ProposedActionDecision::Confirm;
    let event = AuditEvent {
        event_id: "e".to_string(),
        trace_id: "t".to_string(),
        sequence: 1,
        occurred_at_ms: 1,
        event_type: AuditEventType::ConfirmedActionRecorded,
        actor: AuditActor {
            kind: AuditActorKind::User,
            actor_id: "user_1".to_string(),
            display_name: None,
        },
        scope: AuditScope {
            tenant_id: "tenant_1".to_string(),
            workspace_id: None,
        },
        target: AuditTarget {
            resource_type: "proposed_action".to_string(),
            resource_id: "pa_1".to_string(),
            action_type: "confirm".to_string(),
        },
        before: None,
        after: None,
        execution: None,
    };
    let outbox = AuditOutboxEnvelope {
        tenant_id: "tenant_1".to_string(),
        stream: "audit-events".to_string(),
        aggregate_id: "t".to_string(),
        payload: serde_json::Value::Null,
        next_attempt_at_ms: 1,
    };
    let item = ReviewInboxItem {
        id: "inbox_1".to_string(),
        tenant_id: "tenant_1".to_string(),
        user_id: "user_1".to_string(),
        proposed_action_id: "pa_1".to_string(),
        proposed_action_version: 1,
        risk_score: 1,
        priority: 1,
        status: ReviewInboxItemStatus::Confirmed,
        sort_key: 1,
        sync_cursor: 2,
        updated_at_ms: 1,
        ledger_status: None,
        operation_id: None,
    };
    let action = ConfirmedAction {
        action_id: "ca_1".to_string(),
        tenant_id: "tenant_1".to_string(),
        actor_user_id: "user_1".to_string(),
        idempotency_key: "idem".to_string(),
        status: ActionStatus::Confirmed,
        confirmed_at_ms: Some(1),
    };
    let request = PostgresReviewDecisionRecorderRequest {
        decision: InsertProposedActionDecisionRequest {
            id: "d",
            tenant_id: "tenant_1",
            proposed_action_id: "pa_1",
            proposed_action_version: 1,
            actor_user_id: "user_1",
            decision: &confirm,
            confirmed_action_id: Some("ca_1"),
            decided_at_ms: 1,
        },
        inbox_item: &item,
        expected_sync_cursor_value: 1,
        event: &event,
        outbox: &outbox,
        confirmed_action: Some(&action),
        confirmed_at_ms: Some(9),
        operation_id: Some("op_1"),
    };
    let (submitted, at, operation_id) = decision_submission(&request).expect("submission");
    assert_eq!(submitted.action_id, "ca_1");
    assert_eq!(at, 9);
    assert_eq!(operation_id, "op_1");
    let without_time = PostgresReviewDecisionRecorderRequest {
        confirmed_at_ms: None,
        ..request
    };
    assert!(decision_submission(&without_time).is_none());
}
