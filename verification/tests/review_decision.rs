use oar_core::domain::{
    ActionStatus, AuditActor, AuditActorKind, AuditEvent, AuditEventType, AuditScope,
    AuditTarget, ConfirmedAction, ProposedActionDecision, ReviewInboxItem, ReviewInboxItemStatus,
};
use oar_core::error::PostgresRepositoryError;
use oar_core::review_decision_flow::{start_decision_recording, DecisionStage};
use oar_core::validation::{
    review_inbox_item_status_debug_name, validate_recorder_tenant,
    validate_review_decision_request, validate_review_decision_tenant_binding,
    AuditOutboxEnvelope, InsertProposedActionDecisionRequest,
    PostgresReviewDecisionRecorderRequest,
};

fn event(tenant: &str, actor: &str) -> AuditEvent {
    AuditEvent {
        event_id: "trace_1-evt-1".to_string(),
        trace_id: "trace_1".to_string(),
        sequence: 1,
        occurred_at_ms: 10,
        event_type: AuditEventType::ProposedActionDecisionRecorded,
        actor: AuditActor {
            kind: AuditActorKind::User,
            actor_id: actor.to_string(),
            display_name: None,
        },
        scope: AuditScope {
            tenant_id: tenant.to_string(),
            workspace_id: None,
        },
        target: AuditTarget {
            resource_type: "proposed_action".to_string(),
            resource_id: "pa_1".to_string(),
            action_type: "update_kr_progress".to_string(),
        },
        before: None,
        after: None,
        execution: None,
    }
}

fn outbox(tenant: &str) -> AuditOutboxEnvelope {
    AuditOutboxEnvelope {
        tenant_id: tenant.to_string(),
        stream: "audit-events".to_string(),
        aggregate_id: "trace_1".to_string(),
        payload: serde_json::Value::Null,
        next_attempt_at_ms: 10,
    }
}

fn item(status: ReviewInboxItemStatus, operation_id: Option<&str>) -> ReviewInboxItem {
    ReviewInboxItem {
        id: "inbox_1".to_string(),
        tenant_id: "tenant_1".to_string(),
        user_id: "user_1".to_string(),
        proposed_action_id: "pa_1".to_string(),
        proposed_action_version: 2,
        risk_score: 10,
        priority: 1,
        status,
        sort_key: 5,
        sync_cursor: 8,
        updated_at_ms: 10,
        ledger_status: operation_id.map(|_| "confirmed".to_string()),
        operation_id: operation_id.map(|id| id.to_string()),
    }
}

fn action() -> ConfirmedAction {
    ConfirmedAction {
        action_id: "ca_1".to_string(),
        tenant_id: "tenant_1".to_string(),
        actor_user_id: "user_1".to_string(),
        idempotency_key: "idem_1".to_string(),
        status: ActionStatus::Confirmed,
        confirmed_at_ms: Some(10),
    }
}

fn decision<'a>(
    decision: &'a ProposedActionDecision,
    confirmed_action_id: Option<&'a str>,
) -> InsertProposedActionDecisionRequest<'a> {
    InsertProposedActionDecisionRequest {
        id: "decision_1",
        tenant_id: "tenant_1",
        proposed_action_id: "pa_1",
        proposed_action_version: 2,
        actor_user_id: "user_1",
        decision,
        confirmed_action_id,
        decided_at_ms: 10,
    }
}

#[test]
fn confirm_decision_with_matching_rows_is_accepted() {
    let confirm = ProposedActionDecision::Confirm;
    let event = event("tenant_1", "user_1");
    let outbox = outbox("tenant_1");
    let item = item(ReviewInboxItemStatus::Confirmed, Some("op_1"));
    let action = action();
    let request = PostgresReviewDecisionRecorderRequest {
        decision: decision(&confirm, Some("ca_1")),
        inbox_item: &item,
        expected_sync_cursor_value: 7,
        event: &event,
        outbox: &outbox,
        confirmed_action: Some(&action),
        confirmed_at_ms: Some(10),
        operation_id: Some("op_1"),
    };
    assert!(validate_review_decision_request(&request).is_ok());
}

#[test]
fn reject_decision_without_confirmation_is_accepted() {
    let reject = ProposedActionDecision::Reject;
    let event = event("tenant_1", "user_1");
    let outbox = outbox("tenant_1");
    let item = item(ReviewInboxItemStatus::Rejected, None);
    let request = PostgresReviewDecisionRecorderRequest {
        decision: decision(&reject, None),
        inbox_item: &item,
        expected_sync_cursor_value: 7,
        event: &event,
        outbox: &outbox,
        confirmed_action: None,
        confirmed_at_ms: None,
        operation_id: None,
    };
    assert!(validate_review_decision_request(&request).is_ok());
}

#[test]
fn decision_for_another_tenant_names_the_event_scope() {
    let reject = ProposedActionDecision::Reject;
    let event = event("tenant_2", "user_1");
    let outbox = outbox("tenant_1");
    let item = item(ReviewInboxItemStatus::Rejected, None);
    let request = PostgresReviewDecisionRecorderRequest {
        decision: decision(&reject, None),
        inbox_item: &item,
        expected_sync_cursor_value: 7,
        event: &event,
        outbox: &outbox,
        confirmed_action: None,
        confirmed_at_ms: None,
        operation_id: None,
    };
    match validate_review_decision_request(&request) {
        Err(PostgresRepositoryError::TenantMismatch {
            field,
            expected,
            actual,
        }) => {
            assert_eq!(field, "event.scope.tenant_id");
            assert_eq!(expected, "tenant_1");
            assert_eq!(actual, "tenant_2");
        }
        other => panic!("unexpected {other:?}"),
    }
}

#[test]
fn stale_sync_cursor_is_reported_with_both_values() {
    let reject = ProposedActionDecision::Reject;
    let event = event("tenant_1", "user_1");
    let outbox = outbox("tenant_1");
    let item = item(ReviewInboxItemStatus::Rejected, None);
    let request = PostgresReviewDecisionRecorderRequest {
        decision: decision(&reject, None),
        inbox_item: &item,
        expected_sync_cursor_value: 8,
        event: &event,
        outbox: &outbox,
        confirmed_action: None,
        confirmed_at_ms: None,
        operation_id: None,
    };
    match validate_review_decision_request(&request) {
        Err(PostgresRepositoryError::ReviewDecisionRequestMismatch {
            field,
            expected,
            actual,
        }) => {
            assert_eq!(field, "inbox_item.sync_cursor");
            assert_eq!(expected, ">8");
            assert_eq!(actual, "8");
        }
        other => panic!("unexpected {other:?}"),
    }
}

#[test]
fn confirm_decision_on_open_item_names_the_status() {
    let confirm = ProposedActionDecision::Confirm;
    let event = event("tenant_1", "user_1");
    let outbox = outbox("tenant_1");
    let item = item(ReviewInboxItemStatus::Open, Some("op_1"));
    let action = action();
    let request = PostgresReviewDecisionRecorderRequest {
        decision: decision(&confirm, Some("ca_1")),
        inbox_item: &item,
        expected_sync_cursor_value: 7,
        event: &event,
        outbox: &outbox,
        confirmed_action: Some(&action),
        confirmed_at_ms: Some(10),
        operation_id: Some("op_1"),
    };
    match validate_review_decision_request(&request) {
        Err(PostgresRepositoryError::ReviewDecisionRequestMismatch {
            field,
            expected,
            actual,
        }) => {
            assert_eq!(field, "inbox_item.status");
            assert_eq!(expected, "confirmed");
            assert_eq!(actual, "Open");
        }
        other => panic!("unexpected {other:?}"),
    }
}

#[test]
fn confirm_decision_without_operation_is_refused() {
    let confirm = ProposedActionDecision::Confirm;
    let event = event("tenant_1", "user_1");
    let outbox = outbox("tenant_1");
    let item = item(ReviewInboxItemStatus::Confirmed, Some("op_1"));
    let action = action();
    let without_action = PostgresReviewDecisionRecorderRequest {
        decision: decision(&confirm, Some("ca_1")),
        inbox_item: &item,
        expected_sync_cursor_value: 7,
        event: &event,
        outbox: &outbox,
        confirmed_action: None,
        confirmed_at_ms: Some(10),
        operation_id: Some("op_1"),
    };
    assert!(matches!(
        validate_review_decision_request(&without_action),
        Err(PostgresRepositoryError::MissingConfirmedActionForDecision)
    ));
    let without_operation = PostgresReviewDecisionRecorderRequest {
        confirmed_action: Some(&action),
        operation_id: None,
        ..without_action
    };
    assert!(matches!(
        validate_review_decision_request(&without_operation),
        Err(PostgresRepositoryError::MissingOperationIdForDecision)
    ));
    let without_time = PostgresReviewDecisionRecorderRequest {
        operation_id: Some("op_1"),
        confirmed_at_ms: None,
        ..without_operation
    };
    assert!(matches!(
        validate_review_decision_request(&without_time),
        Err(PostgresRepositoryError::MissingConfirmedAtForDecision)
    ));
    let wrong_operation = PostgresReviewDecisionRecorderRequest {
        confirmed_at_ms: Some(10),
        operation_id: Some("op_2"),
        ..without_time
    };
    match validate_review_decision_request(&wrong_operation) {
        Err(PostgresRepositoryError::ReviewDecisionRequestMismatch { field, .. }) => {
            assert_eq!(field, "inbox_item.operation_id")
        }
        other => panic!("unexpected {other:?}"),
    }
}

#[test]
fn reject_decision_with_confirmation_is_refused() {
    let reject = ProposedActionDecision::Reject;
    let event = event("tenant_1", "user_1");
    let outbox = outbox("tenant_1");
    let item = item(ReviewInboxItemStatus::Rejected, None);
    let action = action();
    let request = PostgresReviewDecisionRecorderRequest {
        decision: decision(&reject, None),
        inbox_item: &item,
        expected_sync_cursor_value: 7,
        event: &event,
        outbox: &outbox,
        confirmed_action: Some(&action),
        confirmed_at_ms: None,
        operation_id: None,
    };
    assert!(matches!(
        validate_review_decision_request(&request),
        Err(PostgresRepositoryError::UnexpectedConfirmedActionForDecision)
    ));
    let with_operation = PostgresReviewDecisionRecorderRequest {
        confirmed_action: None,
        operation_id: Some("op_1"),
        ..request
    };
    assert!(matches!(
        validate_review_decision_request(&with_operation),
        Err(PostgresRepositoryError::UnexpectedOperationIdForDecision)
    ));
}

#[test]
fn recorder_tenant_check_names_the_outbox() {
    let event = event("tenant_1", "user_1");
    let foreign = outbox("tenant_9");
    match validate_recorder_tenant("tenant_1", &event, &foreign) {
        Err(PostgresRepositoryError::TenantMismatch { field, actual, .. }) => {
            assert_eq!(field, "outbox.tenant_id");
            assert_eq!(actual, "tenant_9");
        }
        other => panic!("unexpected {other:?}"),
    }
    assert!(validate_recorder_tenant("tenant_1", &event, &outbox("tenant_1")).is_ok());
}

#[test]
fn tenant_binding_reports_expected_and_actual() {
    assert!(validate_review_decision_tenant_binding("inbox_item.user_id", "u", "u").is_ok());
    match validate_review_decision_tenant_binding("inbox_item.user_id", "u", "v") {
        Err(PostgresRepositoryError::ReviewDecisionRequestMismatch {
            field,
            expected,
            actual,
        }) => {
            assert_eq!(field, "inbox_item.user_id");
            assert_eq!(expected, "u");
            assert_eq!(actual, "v");
        }
        other => panic!("unexpected {other:?}"),
    }
    assert_eq!(
        review_inbox_item_status_debug_name(&ReviewInboxItemStatus::Withdrawn),
        "Withdrawn"
    );
}

#[test]
fn decision_recording_starts_from_the_request() {
    let confirm = ProposedActionDecision::Confirm;
    let reject = ProposedActionDecision::Reject;
    let event = event("tenant_1", "user_1");
    let outbox = outbox("tenant_1");
    let item = item(ReviewInboxItemStatus::Confirmed, Some("op_1"));
    let action = action();
    let confirming = PostgresReviewDecisionRecorderRequest {
        decision: decision(&confirm, Some("ca_1")),
        inbox_item: &item,
        expected_sync_cursor_value: 7,
        event: &event,
        outbox: &outbox,
        confirmed_action: Some(&action),
        confirmed_at_ms: Some(10),
        operation_id: Some("op_1"),
    };
    let recording = start_decision_recording(&confirming).unwrap();
    assert_eq!(recording.stage, DecisionStage::Inserting);
    assert!(recording.submits_action);
    assert_eq!(recording.expected_sync_cursor_value, 7);
    assert!(recording.operation.is_none());
    assert!(recording.inbox_item_id.is_none());

    let rejected_item = self::item(ReviewInboxItemStatus::Rejected, None);
    let rejecting = PostgresReviewDecisionRecorderRequest {
        decision: decision(&reject, None),
        inbox_item: &rejected_item,
        confirmed_action: None,
        confirmed_at_ms: None,
        operation_id: None,
        ..confirming
    };
    assert!(!start_decision_recording(&rejecting).unwrap().submits_action);

    let other_outbox = self::outbox("tenant_2");
    let invalid = PostgresReviewDecisionRecorderRequest {
        outbox: &other_outbox,
        ..confirming
    };
    match start_decision_recording(&invalid) {
        Err(PostgresRepositoryError::TenantMismatch { field, actual, .. }) => {
            assert_eq!(field, "outbox.tenant_id");
            assert_eq!(actual, "tenant_2");
        }
        Err(other) => panic!("unexpected {other:?}"),
        Ok(_) => panic!("an invalid request started a recording"),
    }
}
