use oar_core::auth_lifecycle::{
    logout_grant_revoke_audit_event, logout_grant_revoke_audit_events, logout_revokes_grants,
    PostgresAuthLogoutRevokeRequest,
};
use oar_core::domain::{AuditActorKind, AuditEventType};
use oar_core::repositories::{
    PostgresExecutionUnitOfWork, PostgresOarUserRepository, PostgresReviewDecisionUnitOfWork,
};

fn request() -> PostgresAuthLogoutRevokeRequest<'static> {
    PostgresAuthLogoutRevokeRequest {
        tenant_id: "tenant_1",
        user_id: "user_1",
        session_id: "session_1",
        occurred_at_ms: 1_700,
        revocation_reason: "logout",
        grant_id_hint: None,
        audit_trace_id: "trace_logout",
        audit_action_type: "auth_logout_revoke",
    }
}

#[test]
fn revoked_grant_is_audited_as_a_successful_execution() {
    let record = logout_grant_revoke_audit_event(&request(), "grant_7", 12);
    assert_eq!(record.event_id, "trace_logout-evt-12");
    assert_eq!(record.trace_id, "trace_logout");
    assert_eq!(record.sequence, 12);
    assert_eq!(record.occurred_at_ms, 1_700);
    assert_eq!(record.event_type, AuditEventType::ExecutionSucceeded);
    assert_eq!(record.subject.actor.kind, AuditActorKind::User);
    assert_eq!(record.subject.actor.actor_id, "user_1");
    assert_eq!(record.subject.scope.tenant_id, "tenant_1");
    assert_eq!(record.subject.target.resource_type, "token_grant");
    assert_eq!(record.subject.target.resource_id, "grant_7");
    assert_eq!(record.subject.target.action_type, "auth_logout_revoke");
    assert_eq!(record.execution_key, "token-grant-revoke:grant_7");
    assert_eq!(
        record.before.summary,
        "Local Feishu token grant was active before last-device logout revoke."
    );
    assert_eq!(
        record.after.summary,
        "Local Feishu token grant was revoked after the last active OAR device signed out."
    );
}

#[test]
fn revoked_grants_are_numbered_from_one_in_order() {
    let ids = vec!["grant_a".to_string(), "grant_b".to_string(), "grant_c".to_string()];
    let records = logout_grant_revoke_audit_events(&request(), &ids);
    assert_eq!(records.len(), 3);
    for (index, record) in records.iter().enumerate() {
        assert_eq!(record.sequence, (index + 1) as u64);
        assert_eq!(record.subject.target.resource_id, ids[index]);
        assert_eq!(record.event_id, format!("trace_logout-evt-{}", index + 1));
    }
    assert!(logout_grant_revoke_audit_events(&request(), &Vec::new()).is_empty());
}

#[test]
fn repository_handles_keep_their_pool() {
    let review = PostgresReviewDecisionUnitOfWork::new(41_u32);
    assert_eq!(*review.pool(), 41);
    let execution = PostgresExecutionUnitOfWork::new("pool".to_string());
    assert_eq!(execution.pool(), "pool");
    let users = PostgresOarUserRepository::new(vec![1, 2]);
    assert_eq!(users.pool(), &vec![1, 2]);
}

#[test]
fn only_the_last_device_logout_revokes_grants() {
    assert!(logout_revokes_grants(0));
    assert!(!logout_revokes_grants(1));
    assert!(!logout_revokes_grants(3));
}
