use oar_core::codec::{
    action_status_from_db, action_status_to_db, actor_kind_to_db, audit_actor_kind_from_db,
    audit_actor_kind_to_db, audit_event_type_from_db, audit_event_type_to_db,
    device_entry_point_from_db, device_entry_point_to_db, device_session_state_from_db,
    device_session_state_to_db, evidence_source_kind_from_db, evidence_source_kind_to_db,
    evidence_visibility_scope_from_db, evidence_visibility_scope_to_db,
    identity_actor_kind_from_db, proposed_action_decision_kind_from_db,
    proposed_action_decision_from_db, proposed_action_decision_to_db, proposed_action_kind_from_db, proposed_action_kind_to_db,
    proposed_action_status_from_db, proposed_action_status_to_db,
    review_inbox_item_status_from_db, review_inbox_item_status_to_db,
    review_inbox_ledger_stage_from_db, review_inbox_ledger_status_from_db,
    risk_severity_from_db, risk_severity_to_db, scheduler_job_kind_from_db,
    scheduler_job_kind_to_db, scheduler_job_status_from_db, scope_boundary_from_db,
    scope_boundary_to_db, tenant_status_from_db, tenant_status_to_db, token_grant_state_from_db,
    token_grant_state_to_db, workspace_user_status_from_db, workspace_user_status_to_db,
};
use oar_core::domain::{
    ActionStatus, ActorKind, AuditActorKind, AuditEventType, DeviceEntryPoint,
    EvidenceSourceKind, EvidenceVisibilityScope, ProposedActionDecision, ProposedActionKind,
    ProposedActionStatus, ReviewInboxItemStatus, RiskSeverity, SchedulerJobKind,
    SchedulerJobStatus, ScopeBoundary, SessionState, StoredProposedActionDecisionKind,
    StoredReviewInboxLedgerStage, StoredReviewInboxLedgerStatus, TenantStatus, TokenGrantState,
    WorkspaceUserStatus,
};
use oar_core::error::PostgresRepositoryError;

#[test]
fn evidence_source_kind_codec_round_trips_extended_lark_sources() {
    for (kind, db_value) in [
        (EvidenceSourceKind::LarkTask, "lark_task"),
        (EvidenceSourceKind::LarkCalendar, "lark_calendar"),
        (EvidenceSourceKind::LarkIm, "lark_im"),
    ] {
        assert_eq!(evidence_source_kind_to_db(&kind), db_value);
        assert_eq!(evidence_source_kind_from_db(db_value).expect("kind"), kind);
    }
}

#[test]
fn action_status_codec_round_trips_every_status() {
    for (status, text) in [
        (ActionStatus::Proposed, "proposed"),
        (ActionStatus::Confirmed, "confirmed"),
        (ActionStatus::Executing, "executing"),
        (ActionStatus::Succeeded, "succeeded"),
        (ActionStatus::Failed, "failed"),
        (ActionStatus::Cancelled, "cancelled"),
    ] {
        assert_eq!(action_status_to_db(&status), text);
        assert_eq!(action_status_from_db(text).expect("status"), status);
    }
}

#[test]
fn unknown_action_status_reports_the_raw_text() {
    match action_status_from_db("Executing") {
        Err(PostgresRepositoryError::UnknownActionStatus(raw)) => assert_eq!(raw, "Executing"),
        other => panic!("unexpected {other:?}"),
    }
}

#[test]
fn identity_and_grant_codecs_round_trip() {
    for (kind, text) in [
        (ActorKind::User, "user"),
        (ActorKind::Bot, "bot"),
        (ActorKind::App, "app"),
        (ActorKind::Service, "service"),
    ] {
        assert_eq!(actor_kind_to_db(&kind), text);
        assert_eq!(identity_actor_kind_from_db(text).expect("kind"), kind);
    }
    for (scope, text) in [
        (ScopeBoundary::Tenant, "tenant"),
        (ScopeBoundary::User, "user"),
        (ScopeBoundary::Admin, "admin"),
        (ScopeBoundary::Bot, "bot"),
        (ScopeBoundary::Service, "service"),
    ] {
        assert_eq!(scope_boundary_to_db(&scope), text);
        assert_eq!(scope_boundary_from_db(text).expect("scope"), scope);
    }
    for (state, text) in [
        (TokenGrantState::Valid, "valid"),
        (TokenGrantState::NeedsRefresh, "needs_refresh"),
        (TokenGrantState::Expired, "expired"),
        (TokenGrantState::Revoked, "revoked"),
        (TokenGrantState::ReauthRequired, "reauth_required"),
    ] {
        assert_eq!(token_grant_state_to_db(&state), text);
        assert_eq!(token_grant_state_from_db(text).expect("state"), state);
    }
    for (status, text) in [
        (TenantStatus::Active, "active"),
        (TenantStatus::Suspended, "suspended"),
    ] {
        assert_eq!(tenant_status_to_db(&status), text);
        assert_eq!(tenant_status_from_db(text).expect("status"), status);
    }
    for (status, text) in [
        (WorkspaceUserStatus::Active, "active"),
        (WorkspaceUserStatus::Disabled, "disabled"),
    ] {
        assert_eq!(workspace_user_status_to_db(&status), text);
        assert_eq!(workspace_user_status_from_db(text).expect("status"), status);
    }
}

#[test]
fn identity_codecs_report_unknown_values() {
    assert!(matches!(
        identity_actor_kind_from_db("robot"),
        Err(PostgresRepositoryError::UnknownIdentityActorKind(raw)) if raw == "robot"
    ));
    assert!(matches!(
        scope_boundary_from_db(""),
        Err(PostgresRepositoryError::UnknownScopeBoundary(raw)) if raw.is_empty()
    ));
    assert!(matches!(
        token_grant_state_from_db("valid "),
        Err(PostgresRepositoryError::UnknownTokenGrantState(raw)) if raw == "valid "
    ));
    assert!(matches!(
        tenant_status_from_db("raw tenant status with password"),
        Err(PostgresRepositoryError::UnknownTenantStatus(_))
    ));
    assert!(matches!(
        workspace_user_status_from_db("suspended"),
        Err(PostgresRepositoryError::UnknownWorkspaceUserStatus(_))
    ));
}

#[test]
fn audit_and_session_codecs_round_trip() {
    for (kind, text) in [
        (AuditActorKind::User, "user"),
        (AuditActorKind::Bot, "bot"),
        (AuditActorKind::App, "app"),
        (AuditActorKind::System, "system"),
        (AuditActorKind::Service, "service"),
    ] {
        assert_eq!(audit_actor_kind_to_db(&kind), text);
        assert_eq!(audit_actor_kind_from_db(text).expect("kind"), kind);
    }
    for (event_type, text) in [
        (
            AuditEventType::ProposedActionDecisionRecorded,
            "proposed_action_decision_recorded",
        ),
        (AuditEventType::ConfirmedActionRecorded, "confirmed_action_recorded"),
        (AuditEventType::DryRunExecuted, "dry_run_executed"),
        (AuditEventType::ExecutionDenied, "execution_denied"),
        (AuditEventType::ExecutionSucceeded, "execution_succeeded"),
        (AuditEventType::ExecutionFailed, "execution_failed"),
    ] {
        assert_eq!(audit_event_type_to_db(&event_type), text);
        assert_eq!(audit_event_type_from_db(text).expect("type"), event_type);
    }
    for (entry, text) in [
        (DeviceEntryPoint::MacOs, "macos"),
        (DeviceEntryPoint::Ios, "ios"),
        (DeviceEntryPoint::Web, "web"),
        (DeviceEntryPoint::Lark, "lark"),
    ] {
        assert_eq!(device_entry_point_to_db(&entry), text);
        assert_eq!(device_entry_point_from_db(text).expect("entry"), entry);
    }
    for (state, text) in [
        (SessionState::Active, "active"),
        (SessionState::Revoked, "revoked"),
        (SessionState::Expired, "expired"),
    ] {
        assert_eq!(device_session_state_to_db(&state), text);
        assert_eq!(device_session_state_from_db(text).expect("state"), state);
    }
    assert!(matches!(
        audit_event_type_from_db("execution_started"),
        Err(PostgresRepositoryError::UnknownAuditEventType(_))
    ));
    assert!(matches!(
        audit_actor_kind_from_db("admin"),
        Err(PostgresRepositoryError::UnknownAuditActorKind(_))
    ));
    assert!(matches!(
        device_entry_point_from_db("android"),
        Err(PostgresRepositoryError::UnknownDeviceEntryPoint(_))
    ));
    assert!(matches!(
        device_session_state_from_db("paused"),
        Err(PostgresRepositoryError::UnknownDeviceSessionState(_))
    ));
}

#[test]
fn review_and_evidence_codecs_round_trip() {
    for (kind, text) in [
        (EvidenceSourceKind::OkrProgress, "okr_progress"),
        (EvidenceSourceKind::LarkMinutes, "lark_minutes"),
        (EvidenceSourceKind::LarkDoc, "lark_doc"),
        (EvidenceSourceKind::ManualReviewNote, "manual_review_note"),
        (EvidenceSourceKind::AuditEvent, "audit_event"),
    ] {
        assert_eq!(evidence_source_kind_to_db(&kind), text);
        assert_eq!(evidence_source_kind_from_db(text).expect("kind"), kind);
    }
    for (scope, text) in [
        (EvidenceVisibilityScope::Tenant, "tenant"),
        (EvidenceVisibilityScope::Team, "team"),
        (EvidenceVisibilityScope::User, "user"),
    ] {
        assert_eq!(evidence_visibility_scope_to_db(&scope), text);
        assert_eq!(evidence_visibility_scope_from_db(text).expect("scope"), scope);
    }
    for (status, text) in [
        (ProposedActionStatus::Draft, "draft"),
        (ProposedActionStatus::Published, "published"),
        (ProposedActionStatus::Superseded, "superseded"),
        (ProposedActionStatus::Withdrawn, "withdrawn"),
    ] {
        assert_eq!(proposed_action_status_to_db(&status), text);
        assert_eq!(proposed_action_status_from_db(text).expect("status"), status);
    }
    for (severity, text) in [
        (RiskSeverity::Low, "low"),
        (RiskSeverity::Medium, "medium"),
        (RiskSeverity::High, "high"),
        (RiskSeverity::Critical, "critical"),
    ] {
        assert_eq!(risk_severity_to_db(&severity), text);
        assert_eq!(risk_severity_from_db(text).expect("severity"), severity);
    }
    for (status, text) in [
        (ReviewInboxItemStatus::Open, "open"),
        (ReviewInboxItemStatus::Confirmed, "confirmed"),
        (ReviewInboxItemStatus::Rejected, "rejected"),
        (ReviewInboxItemStatus::Executing, "executing"),
        (ReviewInboxItemStatus::Succeeded, "succeeded"),
        (ReviewInboxItemStatus::Failed, "failed"),
        (ReviewInboxItemStatus::Withdrawn, "withdrawn"),
    ] {
        assert_eq!(review_inbox_item_status_to_db(&status), text);
        assert_eq!(review_inbox_item_status_from_db(text).expect("status"), status);
    }
    assert!(matches!(
        evidence_source_kind_from_db("lark_wiki"),
        Err(PostgresRepositoryError::UnknownEvidenceSourceKind(_))
    ));
    assert!(matches!(
        evidence_visibility_scope_from_db("org"),
        Err(PostgresRepositoryError::UnknownEvidenceVisibilityScope(_))
    ));
    assert!(matches!(
        proposed_action_status_from_db("archived"),
        Err(PostgresRepositoryError::UnknownProposedActionStatus(_))
    ));
    assert!(matches!(
        risk_severity_from_db("severe"),
        Err(PostgresRepositoryError::UnknownRiskSeverity(_))
    ));
    assert!(matches!(
        review_inbox_item_status_from_db("closed"),
        Err(PostgresRepositoryError::UnknownReviewInboxItemStatus(_))
    ));
}

#[test]
fn ledger_projection_and_scheduler_codecs_decode_stored_text() {
    assert_eq!(
        review_inbox_ledger_stage_from_db("platform_adapter").expect("stage"),
        StoredReviewInboxLedgerStage::PlatformAdapter
    );
    assert_eq!(
        review_inbox_ledger_status_from_db("ok").expect("status"),
        StoredReviewInboxLedgerStatus::Success
    );
    assert_eq!(
        review_inbox_ledger_status_from_db("error").expect("status"),
        StoredReviewInboxLedgerStatus::Error
    );
    assert!(matches!(
        review_inbox_ledger_status_from_db("success"),
        Err(PostgresRepositoryError::UnknownReviewInboxLedgerStatus(_))
    ));
    assert!(matches!(
        review_inbox_ledger_stage_from_db("adapter"),
        Err(PostgresRepositoryError::UnknownReviewInboxLedgerStage(_))
    ));
    assert_eq!(scheduler_job_kind_to_db(&SchedulerJobKind::TokenRefreshSweep), "token_refresh_sweep");
    assert_eq!(
        scheduler_job_kind_from_db("token_refresh_sweep").expect("kind"),
        SchedulerJobKind::TokenRefreshSweep
    );
    assert!(matches!(
        scheduler_job_kind_from_db("cleanup"),
        Err(PostgresRepositoryError::UnknownSchedulerJobKind(_))
    ));
    assert_eq!(
        scheduler_job_status_from_db("running").expect("status"),
        SchedulerJobStatus::Running
    );
    assert!(matches!(
        scheduler_job_status_from_db("done"),
        Err(PostgresRepositoryError::UnknownSchedulerJobStatus(_))
    ));
    assert_eq!(
        proposed_action_decision_kind_from_db("edit_then_confirm").expect("decision"),
        StoredProposedActionDecisionKind::EditThenConfirm
    );
    assert!(matches!(
        proposed_action_decision_kind_from_db("approve"),
        Err(PostgresRepositoryError::UnknownProposedActionDecision(_))
    ));
}

#[test]
fn proposed_action_kind_codec_keeps_custom_names() {
    let custom = ProposedActionKind::Custom("sync_weekly_goals".to_string());
    assert_eq!(
        proposed_action_kind_to_db(&custom),
        ("custom", Some("sync_weekly_goals"))
    );
    assert_eq!(
        proposed_action_kind_to_db(&ProposedActionKind::UpdateKrProgress),
        ("update_kr_progress", None)
    );
    assert_eq!(
        proposed_action_kind_from_db("custom", Some("sync_weekly_goals")).expect("kind"),
        custom
    );
    assert_eq!(
        proposed_action_kind_from_db("custom", None).expect("kind"),
        ProposedActionKind::Custom(String::new())
    );
    assert_eq!(
        proposed_action_kind_from_db("delete_kr_progress_dry_run", Some("ignored")).expect("kind"),
        ProposedActionKind::DeleteKrProgressDryRun
    );
    assert!(matches!(
        proposed_action_kind_from_db("Custom", Some("x")),
        Err(PostgresRepositoryError::UnknownProposedActionKind(raw)) if raw == "Custom"
    ));
}

#[test]
fn proposed_action_decision_codec_carries_edited_payload() {
    let payload = serde_json::Value::Bool(true);
    let edit = ProposedActionDecision::EditThenConfirm {
        edited_payload: payload.clone(),
    };
    assert_eq!(
        proposed_action_decision_to_db(&edit),
        ("edit_then_confirm", Some(&payload))
    );
    assert_eq!(
        proposed_action_decision_to_db(&ProposedActionDecision::Confirm),
        ("confirm", None)
    );
    assert_eq!(
        proposed_action_decision_to_db(&ProposedActionDecision::Reject),
        ("reject", None)
    );
}

#[test]
fn proposed_action_decision_decodes_with_stored_payload() {
    assert_eq!(
        proposed_action_decision_from_db("confirm", None).unwrap(),
        ProposedActionDecision::Confirm
    );
    assert_eq!(
        proposed_action_decision_from_db("reject", None).unwrap(),
        ProposedActionDecision::Reject
    );
    assert_eq!(
        proposed_action_decision_from_db(
            "edit_then_confirm",
            Some(serde_json::Value::String("edited".to_string()))
        )
        .unwrap(),
        ProposedActionDecision::EditThenConfirm {
            edited_payload: serde_json::Value::String("edited".to_string())
        }
    );
    assert_eq!(
        proposed_action_decision_from_db("edit_then_confirm", None).unwrap(),
        ProposedActionDecision::EditThenConfirm {
            edited_payload: serde_json::Value::Null
        }
    );
    match proposed_action_decision_from_db("approve", None) {
        Err(oar_core::error::PostgresRepositoryError::UnknownProposedActionDecision(raw)) => {
            assert_eq!(raw, "approve")
        }
        other => panic!("unexpected {:?}", other),
    }
}
