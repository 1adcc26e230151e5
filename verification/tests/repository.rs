use oar_core::audit_outbox_payload::{AuditPayloadEntry, AuditPayloadField, AuditPayloadJson};
use oar_core::audit_repository::validate_audit_outbox_payload;
use oar_core::domain::{ActorKind, ScopeBoundary, TokenGrantState};
use oar_core::error::PostgresRepositoryError;
use oar_core::redaction::{
    ensure_scheduler_safe_error_code, sanitize_refresh_error_for_storage,
    MAX_REFRESH_ERROR_CHARS, REDACTED_REFRESH_ERROR,
};
use oar_core::token_grant::{EncryptedTokenGrantRecord, RotateEncryptedGrantRequest};

fn text(key: &str, value: &str) -> AuditPayloadEntry {
    AuditPayloadEntry {
        key: key.to_string(),
        value: AuditPayloadField::Text(value.to_string()),
    }
}

fn number(key: &str, value: u64) -> AuditPayloadEntry {
    AuditPayloadEntry {
        key: key.to_string(),
        value: AuditPayloadField::Unsigned(value),
    }
}

#[test]
fn refresh_error_sanitizer_redacts_token_like_payloads() {
    assert_eq!(
        sanitize_refresh_error_for_storage(
            "invalid_grant: refresh_token=rt_fake Authorization: Bearer at_fake"
        ),
        REDACTED_REFRESH_ERROR
    );
    assert_eq!(
        sanitize_refresh_error_for_storage("client_secret leaked in oauth response"),
        REDACTED_REFRESH_ERROR
    );
}

#[test]
fn refresh_error_sanitizer_trims_controls_and_truncates() {
    let noisy = format!(
        "  transient\nfailure\t{}  ",
        "x".repeat(MAX_REFRESH_ERROR_CHARS)
    );
    let sanitized = sanitize_refresh_error_for_storage(&noisy);

    assert!(!sanitized.contains('\n'));
    assert_eq!(sanitized.chars().count(), MAX_REFRESH_ERROR_CHARS);
    assert!(sanitized.starts_with("transient failure"));
}

#[test]
fn encrypted_token_grant_record_debug_redacts_sensitive_material() {
    let record = EncryptedTokenGrantRecord {
        id: "grant_1".to_string(),
        tenant_id: "tenant_1".to_string(),
        identity_id: "identity_1".to_string(),
        actor_kind: ActorKind::User,
        scope_boundary: ScopeBoundary::Tenant,
        scopes: vec!["okr:read".to_string()],
        state: TokenGrantState::Valid,
        issued_at_ms: 1,
        expires_at_ms: Some(2),
        refreshed_at_ms: Some(3),
        revoked_at_ms: None,
        reauth_required_at_ms: None,
        last_refresh_error: None,
        encrypted_oauth_grant: vec![1, 2, 3, 4],
        oauth_grant_key_id: "key_sensitive".to_string(),
        oauth_grant_fingerprint: "fp_sensitive".to_string(),
        revocation_reason: None,
    };

    let debug = record.redacted_debug();
    assert!(!debug.contains("key_sensitive"));
    assert!(!debug.contains("fp_sensitive"));
    assert!(!debug.contains("[1, 2, 3, 4]"));
    assert!(debug.contains("bytes=4"));
    assert!(debug.contains("[REDACTED]"));
}

#[test]
fn rotate_encrypted_grant_request_debug_redacts_sensitive_material() {
    let bytes = [9_u8, 8_u8, 7_u8];
    let request = RotateEncryptedGrantRequest {
        tenant_id: "tenant_1",
        id: "grant_1",
        expected_fingerprint: "fp_expected_sensitive",
        expires_at_ms: Some(42),
        refreshed_at_ms: 88,
        encrypted_oauth_grant: &bytes,
        oauth_grant_key_id: "key_sensitive",
        oauth_grant_fingerprint: "fp_new_sensitive",
    };

    let debug = request.redacted_debug();
    assert!(!debug.contains("fp_expected_sensitive"));
    assert!(!debug.contains("key_sensitive"));
    assert!(!debug.contains("fp_new_sensitive"));
    assert!(!debug.contains("[9, 8, 7]"));
    assert!(debug.contains("bytes=3"));
    assert!(debug.contains("[REDACTED]"));
}

#[test]
fn scheduler_safe_error_code_rejects_token_like_markers() {
    assert!(ensure_scheduler_safe_error_code("transient_timeout").is_ok());
    assert!(matches!(
        ensure_scheduler_safe_error_code("refresh_token leaked"),
        Err(PostgresRepositoryError::UnsafeSchedulerJobErrorCode)
    ));
    assert!(matches!(
        ensure_scheduler_safe_error_code("fingerprint_mismatch"),
        Err(PostgresRepositoryError::UnsafeSchedulerJobErrorCode)
    ));
}

#[test]
fn audit_outbox_payload_validator_accepts_minimal_safe_shapes() {
    assert!(validate_audit_outbox_payload(&AuditPayloadJson::Object(vec![text(
        "trace_id", "trace_1"
    )]))
    .is_ok());
    assert!(validate_audit_outbox_payload(&AuditPayloadJson::Object(vec![
        text("event_id", "evt_1"),
        text("trace_id", "trace_1"),
        number("sequence", 1),
        text("tenant_id", "tenant_1"),
    ]))
    .is_ok());
    assert!(validate_audit_outbox_payload(&AuditPayloadJson::Object(vec![text(
        "kind",
        "update_kr_progress"
    )]))
    .is_ok());
    assert!(validate_audit_outbox_payload(&AuditPayloadJson::Object(vec![
        text("trace_id", "trace_token_refresh_sweep_success"),
        text("kind", "token_refresh_sweep"),
    ]))
    .is_ok());
}

#[test]
fn audit_outbox_payload_validator_rejects_non_object_payload() {
    assert!(matches!(
        validate_audit_outbox_payload(&AuditPayloadJson::NotObject),
        Err(PostgresRepositoryError::UnsafeAuditOutboxPayload)
    ));
}

#[test]
fn audit_outbox_payload_validator_rejects_sensitive_markers_recursively() {
    assert!(matches!(
        validate_audit_outbox_payload(&AuditPayloadJson::Object(vec![
            text("trace_id", "trace_sensitive"),
            text("event_type", "Authorization: Bearer abc123"),
        ])),
        Err(PostgresRepositoryError::UnsafeAuditOutboxPayload)
    ));
    assert!(matches!(
        validate_audit_outbox_payload(&AuditPayloadJson::Object(vec![text(
            "trace_id",
            "token=abc123"
        )])),
        Err(PostgresRepositoryError::UnsafeAuditOutboxPayload)
    ));
    assert!(matches!(
        validate_audit_outbox_payload(&AuditPayloadJson::Object(vec![
            text("trace_id", "trace_sensitive"),
            text("event_type", "encrypted blob"),
        ])),
        Err(PostgresRepositoryError::UnsafeAuditOutboxPayload)
    ));
}

#[test]
fn audit_outbox_payload_validator_rejects_unknown_or_nested_payload() {
    assert!(matches!(
        validate_audit_outbox_payload(&AuditPayloadJson::Object(vec![
            text("trace_id", "trace_1"),
            text("meta", "weekly"),
        ])),
        Err(PostgresRepositoryError::UnsafeAuditOutboxPayload)
    ));
    assert!(matches!(
        validate_audit_outbox_payload(&AuditPayloadJson::Object(vec![
            text("trace_id", "trace_1"),
            AuditPayloadEntry {
                key: "kind".to_string(),
                value: AuditPayloadField::Other,
            },
        ])),
        Err(PostgresRepositoryError::UnsafeAuditOutboxPayload)
    ));
}
