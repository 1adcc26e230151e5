use oar_core::audit_outbox_payload::{AuditPayloadEntry, AuditPayloadField, AuditPayloadJson};
use oar_core::domain::{
    ActionStatus, ActorKind, AuditActorKind, AuditEventType, ConfirmedAction, OperationRecord,
    ScopeBoundary, SubmitResult, TokenGrantState,
};
use oar_core::recovery::{
    audit_event_type_debug_name, failed_outbox_recovery_item, is_recovery_terminal_or_inflight,
    outbox_reference_id, parked_token_grant_recovery_item, recovery_audit_subject,
    recovery_dry_run_after_summary, recovery_failure_code_and_message, recovery_outbox_payload,
    recovery_reread_summary, recovery_submission_short_circuits, recovery_submit_result_parts,
    recovery_succeeded_summary, requeue_dry_run_outcome, requeue_precheck_failure,
    resume_dry_run_outcome, OperationalRecoveryAction, OperationalRecoveryExecutionTarget,
    OperationalRecoveryKindTag, RecoveryDryRunOutcome, RecoveryFailure,
};

fn text(key: &str, value: &str) -> AuditPayloadEntry {
    AuditPayloadEntry {
        key: key.to_string(),
        value: AuditPayloadField::Text(value.to_string()),
    }
}

#[test]
fn duplicate_recovery_of_a_started_operation_short_circuits() {
    for status in [
        ActionStatus::Executing,
        ActionStatus::Succeeded,
        ActionStatus::Failed,
        ActionStatus::Cancelled,
    ] {
        assert!(is_recovery_terminal_or_inflight(status));
        assert!(recovery_submission_short_circuits(true, status));
        assert!(!recovery_submission_short_circuits(false, status));
    }
    assert!(!is_recovery_terminal_or_inflight(ActionStatus::Confirmed));
    assert!(!recovery_submission_short_circuits(true, ActionStatus::Confirmed));
    let record = OperationRecord {
        operation_id: "op_1".to_string(),
        tenant_id: "tenant_1".to_string(),
        action_id: "ca_1".to_string(),
        idempotency_key: "idem_1".to_string(),
        status: ActionStatus::Succeeded,
        last_error: None,
    };
    assert_eq!(
        recovery_submit_result_parts(SubmitResult::Existing(record.clone())),
        (record, true)
    );
}

#[test]
fn failed_outbox_with_safe_payload_is_offered_for_requeue() {
    let payload = AuditPayloadJson::Object(vec![text("trace_id", "trace_1")]);
    let item = failed_outbox_recovery_item(
        7,
        "tenant_1".to_string(),
        "audit-events".to_string(),
        "trace_1".to_string(),
        &payload,
        3,
        1_000,
    );
    assert!(item.payload_safe);
    assert_eq!(
        item.payload.expect("safe").trace_id.as_deref(),
        Some("trace_1")
    );
    assert_eq!(
        item.recommended_action,
        OperationalRecoveryAction::RequeueFailedAuditOutbox
    );
    assert_eq!(item.id, 7);
    assert_eq!(item.attempt_count, 3);
}

#[test]
fn failed_outbox_with_unsafe_payload_or_other_stream_is_only_inspected() {
    let unsafe_payload = AuditPayloadJson::Object(vec![text("trace_id", "bearer abc")]);
    let item = failed_outbox_recovery_item(
        7,
        "tenant_1".to_string(),
        "audit-events".to_string(),
        "trace_1".to_string(),
        &unsafe_payload,
        3,
        1_000,
    );
    assert!(!item.payload_safe);
    assert!(item.payload.is_none());
    assert_eq!(
        item.recommended_action,
        OperationalRecoveryAction::InspectFailedAuditOutbox
    );
    let safe_payload = AuditPayloadJson::Object(vec![text("trace_id", "trace_1")]);
    let other_stream = failed_outbox_recovery_item(
        8,
        "tenant_1".to_string(),
        "maintenance".to_string(),
        "trace_1".to_string(),
        &safe_payload,
        1,
        1_000,
    );
    assert!(other_stream.payload_safe);
    assert_eq!(
        other_stream.recommended_action,
        OperationalRecoveryAction::InspectFailedAuditOutbox
    );
}

#[test]
fn parked_grant_reason_is_redacted_again() {
    let item = parked_token_grant_recovery_item(
        "grant_1".to_string(),
        "tenant_1".to_string(),
        "identity_1".to_string(),
        ActorKind::User,
        ScopeBoundary::User,
        TokenGrantState::ReauthRequired,
        Some("refresh_token=abc rejected".to_string()),
        Some(5),
        Some(6),
        7,
    );
    assert_eq!(item.safe_error.as_deref(), Some("<redacted refresh error>"));
    assert_eq!(
        item.recommended_action,
        OperationalRecoveryAction::AskUserToReauthorize
    );
    let config = parked_token_grant_recovery_item(
        "grant_2".to_string(),
        "tenant_1".to_string(),
        "identity_1".to_string(),
        ActorKind::User,
        ScopeBoundary::User,
        TokenGrantState::NeedsRefresh,
        Some("  app\tconfig missing ".to_string()),
        None,
        None,
        7,
    );
    assert_eq!(config.safe_error.as_deref(), Some("app config missing"));
    assert_eq!(
        config.recommended_action,
        OperationalRecoveryAction::FixFeishuRefreshConfigThenResume
    );
}

#[test]
fn requeue_dry_run_names_the_outbox_row() {
    assert_eq!(outbox_reference_id(42), "audit_outbox:42");
    assert_eq!(outbox_reference_id(-3), "audit_outbox:-3");
    assert_eq!(
        requeue_dry_run_outcome(42, true, true),
        RecoveryDryRunOutcome::Eligible("audit_outbox:42".to_string())
    );
    assert_eq!(
        requeue_dry_run_outcome(42, true, false),
        RecoveryDryRunOutcome::UnsafePayload("audit_outbox:42".to_string())
    );
    assert_eq!(
        requeue_dry_run_outcome(42, false, true),
        RecoveryDryRunOutcome::Missing
    );
    assert_eq!(
        requeue_precheck_failure(false, false),
        Some(RecoveryFailure::NoEligibleOutbox)
    );
    assert_eq!(
        requeue_precheck_failure(true, false),
        Some(RecoveryFailure::UnsafeOutboxPayload)
    );
    assert_eq!(requeue_precheck_failure(true, true), None);
    assert_eq!(
        resume_dry_run_outcome(Some("grant_1".to_string())),
        RecoveryDryRunOutcome::Eligible("grant_1".to_string())
    );
    assert_eq!(resume_dry_run_outcome(None), RecoveryDryRunOutcome::Missing);
}

#[test]
fn recovery_failures_have_stable_codes() {
    assert_eq!(
        recovery_failure_code_and_message(RecoveryFailure::NoEligibleGrant),
        (
            "operational_recovery_no_eligible_grant",
            "no eligible paused auth refresh grant matched the confirmed recovery request"
        )
    );
    assert_eq!(
        recovery_failure_code_and_message(RecoveryFailure::OutboxConflict).0,
        "operational_recovery_outbox_conflict"
    );
}

#[test]
fn recovery_audit_trail_speaks_of_the_confirming_user() {
    let action = ConfirmedAction {
        action_id: "ca_1".to_string(),
        tenant_id: "tenant_1".to_string(),
        actor_user_id: "user_1".to_string(),
        idempotency_key: "idem_1".to_string(),
        status: ActionStatus::Confirmed,
        confirmed_at_ms: Some(1),
    };
    let subject = recovery_audit_subject(&action, "requeue_failed_audit_outbox");
    assert_eq!(subject.actor.kind, AuditActorKind::User);
    assert_eq!(subject.actor.actor_id, "user_1");
    assert_eq!(subject.scope.tenant_id, "tenant_1");
    assert_eq!(subject.target.resource_type, "operational_recovery");
    assert_eq!(subject.target.resource_id, "ca_1");
    assert_eq!(subject.target.action_type, "requeue_failed_audit_outbox");
}

#[test]
fn recovery_summaries_match_the_outcome() {
    let targets = vec!["audit_outbox:7".to_string()];
    let eligible = recovery_dry_run_after_summary(
        OperationalRecoveryKindTag::RequeueFailedAuditOutbox,
        RecoveryDryRunOutcome::Eligible("audit_outbox:7".to_string()),
        targets.clone(),
    );
    assert_eq!(
        eligible.summary,
        "failed audit outbox is eligible for recovery requeue"
    );
    assert_eq!(eligible.reference_ids, vec!["audit_outbox:7".to_string()]);
    let missing = recovery_dry_run_after_summary(
        OperationalRecoveryKindTag::ResumePausedAuthRefresh,
        RecoveryDryRunOutcome::Missing,
        vec!["grant_1".to_string()],
    );
    assert_eq!(
        missing.summary,
        "no eligible paused auth refresh grant matched the recovery request"
    );
    assert_eq!(missing.reference_ids, vec!["grant_1".to_string()]);
    let reread = recovery_reread_summary(targets);
    assert_eq!(
        reread.summary,
        "operational recovery request re-read live state before write"
    );
    let success = recovery_succeeded_summary(&OperationalRecoveryExecutionTarget::AuditOutboxRequeue {
        outbox_id: 7,
    });
    assert_eq!(
        success.execution_key,
        "operational-recovery:requeue-failed-audit-outbox:7"
    );
    assert_eq!(success.after.reference_ids, vec!["audit_outbox:7".to_string()]);
    let resumed = recovery_succeeded_summary(&OperationalRecoveryExecutionTarget::TokenGrantRefresh {
        grant_id: "grant_1".to_string(),
    });
    assert_eq!(
        resumed.execution_key,
        "operational-recovery:resume-paused-auth-refresh:grant_1"
    );
    assert_eq!(resumed.before.reference_ids, vec!["grant_1".to_string()]);
}

#[test]
fn recovery_outbox_payload_routes_the_event() {
    assert_eq!(
        audit_event_type_debug_name(AuditEventType::DryRunExecuted),
        "DryRunExecuted"
    );
    let payload = recovery_outbox_payload("trace_1-evt-2", "trace_1", AuditEventType::ExecutionSucceeded);
    assert_eq!(
        payload,
        AuditPayloadJson::Object(vec![
            text("event_id", "trace_1-evt-2"),
            text("trace_id", "trace_1"),
            text("event_type", "ExecutionSucceeded"),
            text("kind", "operational_recovery"),
        ])
    );
    assert!(oar_core::audit_outbox_payload::validate_audit_outbox_payload(&payload).is_ok());
}
