use oar_core::domain::{ActionStatus, LedgerError};
use oar_core::error::{
    ledger_repository_failure, postgres_repository_safe_error,
    postgres_repository_safe_error_reason, sqlx_ledger_repository_failure,
    PostgresRepositoryError,
};

#[test]
fn postgres_repository_safe_error_reason_does_not_echo_raw_error_text() {
    let error =
        PostgresRepositoryError::UnknownTenantStatus("raw tenant status with password".to_string());

    let safe = postgres_repository_safe_error_reason(&error);

    assert_eq!(safe, "unknown_tenant_status");
    assert!(!safe.contains("password"));
    assert!(!safe.contains("raw tenant status"));
}

#[test]
fn postgres_repository_safe_error_reason_does_not_echo_raw_sqlx_text() {
    let error = PostgresRepositoryError::Sqlx(sqlx::Error::Protocol(
        "database detail with password".to_string(),
    ));

    let safe = postgres_repository_safe_error_reason(&error);

    assert_eq!(safe, "postgres_query_failed");
    assert!(!safe.contains("password"));
    assert!(!safe.contains("database detail"));
}

#[test]
fn postgres_repository_safe_error_prefixes_internal_stage_context() {
    let error =
        PostgresRepositoryError::UnknownTenantStatus("raw tenant status with password".to_string());

    assert_eq!(
        postgres_repository_safe_error("tenant_maintenance_stage_failed", &error),
        "tenant_maintenance_stage_failed: unknown_tenant_status"
    );
}

#[test]
fn postgres_repository_safe_error_reason_handles_invalid_execution_queue_rows() {
    let error = PostgresRepositoryError::InvalidExecutionQueueRow {
        field: "edited_payload",
        reason: "raw corrupted row detail",
    };

    assert_eq!(
        postgres_repository_safe_error_reason(&error),
        "invalid_execution_queue_row"
    );
}

#[test]
fn ledger_repository_failure_redacts_raw_repository_text() {
    let error =
        PostgresRepositoryError::UnknownTenantStatus("raw tenant status with password".to_string());

    let mapped = ledger_repository_failure(&error);

    assert_eq!(
        mapped,
        LedgerError::RepositoryFailure("unknown_tenant_status".to_string())
    );
}

#[test]
fn sqlx_ledger_repository_failure_redacts_raw_sqlx_text() {
    let mapped = sqlx_ledger_repository_failure(sqlx::Error::Protocol(
        "database detail with password".to_string(),
    ));

    assert_eq!(
        mapped,
        LedgerError::RepositoryFailure("postgres_query_failed".to_string())
    );
}

#[test]
fn safe_error_reason_names_each_structured_failure() {
    let cases: Vec<(PostgresRepositoryError, &str)> = vec![
        (
            PostgresRepositoryError::UnsafeSchedulerJobErrorCode,
            "unsafe_scheduler_job_error_code",
        ),
        (
            PostgresRepositoryError::UnsafeAuditOutboxPayload,
            "unsafe_audit_outbox_payload",
        ),
        (
            PostgresRepositoryError::ActionNotConfirmed(ActionStatus::Proposed),
            "action_not_confirmed",
        ),
        (
            PostgresRepositoryError::TenantMismatch {
                field: "tenant_id",
                expected: "tenant_a".to_string(),
                actual: "tenant_b".to_string(),
            },
            "tenant_mismatch",
        ),
        (
            PostgresRepositoryError::NegativeInteger {
                field: "attempt_count",
                value: -1,
            },
            "negative_integer",
        ),
        (
            PostgresRepositoryError::UnknownOperationIdempotencyKey("key".to_string()),
            "unknown_operation_idempotency_key",
        ),
        (
            PostgresRepositoryError::MissingOperationIdForDecision,
            "missing_operation_id_for_decision",
        ),
    ];
    for (error, reason) in cases {
        assert_eq!(postgres_repository_safe_error_reason(&error), reason);
    }
}

#[test]
fn safe_reasons_tell_variants_apart_and_ignore_payloads() {
    let first = PostgresRepositoryError::UnknownTenantStatus("a".to_string());
    let second = PostgresRepositoryError::UnknownTenantStatus("b password".to_string());
    let other = PostgresRepositoryError::UnknownWorkspaceUserStatus("a".to_string());
    assert_eq!(
        postgres_repository_safe_error_reason(&first),
        postgres_repository_safe_error_reason(&second)
    );
    assert_ne!(
        postgres_repository_safe_error_reason(&first),
        postgres_repository_safe_error_reason(&other)
    );
    for error in [first, other, PostgresRepositoryError::MissingOperationIdForDecision] {
        let reason = postgres_repository_safe_error_reason(&error);
        assert!(!reason.is_empty());
        assert!(reason.chars().all(|c| c.is_ascii_lowercase() || c == '_'));
    }
}
