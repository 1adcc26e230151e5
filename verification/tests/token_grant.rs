use oar_core::domain::{ActorKind, ScopeBoundary, TenantId, TokenGrantId, TokenGrantState};
use oar_core::error::PostgresRepositoryError;
use oar_core::token_grant::{
    sweep_audit_sequence, sweep_page, sweep_plan, sweep_query_limit, token_grant_write_for_command,
    token_refresh_apply_result_from_record, validate_token_refresh_plan, EncryptedGrantBlob,
    EncryptedTokenGrantRecord, TokenGrantWrite, TokenRefreshCommandKind, TokenRefreshPlanReport,
    TokenRefreshPlannedCommand, TokenRefreshRepositoryCommand,
};

fn needs_refresh(error: &str) -> TokenRefreshRepositoryCommand {
    TokenRefreshRepositoryCommand::MarkNeedsRefresh {
        grant_id: TokenGrantId("grant_1".to_string()),
        tenant_id: TenantId("tenant_1".to_string()),
        expected_fingerprint: "fp_1".to_string(),
        refreshed_at_ms: 10,
        safe_error: error.to_string(),
    }
}

#[test]
fn refresh_plan_must_describe_its_command() {
    let planned = TokenRefreshPlannedCommand {
        command: needs_refresh("timeout"),
        report: TokenRefreshPlanReport {
            command_kind: TokenRefreshCommandKind::MarkNeedsRefresh,
            tenant_id: TenantId("tenant_1".to_string()),
            grant_id: TokenGrantId("grant_1".to_string()),
        },
    };
    assert!(validate_token_refresh_plan(&planned).is_ok());

    let mut wrong_kind = planned.clone();
    wrong_kind.report.command_kind = TokenRefreshCommandKind::RotateGrantCas;
    match validate_token_refresh_plan(&wrong_kind) {
        Err(PostgresRepositoryError::TokenRefreshPlanMismatch {
            field,
            expected,
            actual,
        }) => {
            assert_eq!(field, "command_kind");
            assert_eq!(expected, "MarkNeedsRefresh");
            assert_eq!(actual, "RotateGrantCas");
        }
        other => panic!("unexpected {other:?}"),
    }

    let mut wrong_grant = planned;
    wrong_grant.report.grant_id = TokenGrantId("grant_2".to_string());
    match validate_token_refresh_plan(&wrong_grant) {
        Err(PostgresRepositoryError::TokenRefreshPlanMismatch {
            field,
            expected,
            actual,
        }) => {
            assert_eq!(field, "grant_id");
            assert_eq!(expected, "grant_1");
            assert_eq!(actual, "grant_2");
        }
        other => panic!("unexpected {other:?}"),
    }
}

#[test]
fn failure_commands_store_sanitized_reasons() {
    assert_eq!(
        token_grant_write_for_command(needs_refresh("bearer abc")),
        TokenGrantWrite::MarkRefreshFailed {
            tenant_id: "tenant_1".to_string(),
            id: "grant_1".to_string(),
            expected_fingerprint: "fp_1".to_string(),
            refreshed_at_ms: 10,
            reason: "<redacted refresh error>".to_string(),
        }
    );
    let reauth = TokenRefreshRepositoryCommand::MarkReauthRequired {
        grant_id: TokenGrantId("grant_1".to_string()),
        tenant_id: TenantId("tenant_1".to_string()),
        expected_fingerprint: "fp_1".to_string(),
        reauth_required_at_ms: 20,
        safe_error: " invalid_grant\n".to_string(),
    };
    assert_eq!(
        token_grant_write_for_command(reauth),
        TokenGrantWrite::MarkReauthRequired {
            tenant_id: "tenant_1".to_string(),
            id: "grant_1".to_string(),
            expected_fingerprint: "fp_1".to_string(),
            reauth_required_at_ms: 20,
            reason: "invalid_grant".to_string(),
        }
    );
}

#[test]
fn rotation_command_rotates_the_grant() {
    let command = TokenRefreshRepositoryCommand::RotateGrantCas {
        grant_id: TokenGrantId("grant_1".to_string()),
        tenant_id: TenantId("tenant_1".to_string()),
        expected_fingerprint: "fp_old".to_string(),
        expires_at_ms: Some(99),
        refreshed_at_ms: 50,
        encrypted_grant_blob: EncryptedGrantBlob(vec![7, 7]),
        grant_key_id: "key_2".to_string(),
        new_fingerprint: "fp_new".to_string(),
    };
    assert_eq!(command.kind(), TokenRefreshCommandKind::RotateGrantCas);
    assert_eq!(command.tenant_id(), &TenantId("tenant_1".to_string()));
    assert_eq!(command.grant_id(), &TokenGrantId("grant_1".to_string()));
    assert_eq!(
        token_grant_write_for_command(command),
        TokenGrantWrite::Rotate {
            tenant_id: "tenant_1".to_string(),
            id: "grant_1".to_string(),
            expected_fingerprint: "fp_old".to_string(),
            expires_at_ms: Some(99),
            refreshed_at_ms: 50,
            encrypted_oauth_grant: vec![7, 7],
            oauth_grant_key_id: "key_2".to_string(),
            oauth_grant_fingerprint: "fp_new".to_string(),
        }
    );
}

#[test]
fn sweep_pages_one_past_the_limit() {
    assert_eq!(sweep_query_limit(10), 11);
    assert_eq!(sweep_query_limit(u32::MAX), u32::MAX);
    assert_eq!(sweep_page(vec![1, 2, 3], 2), (vec![1, 2], true));
    assert_eq!(sweep_page(vec![1, 2], 2), (vec![1, 2], false));
    assert_eq!(sweep_page(Vec::<u8>::new(), 0), (vec![], false));
    assert_eq!(sweep_audit_sequence(4, 3), 7);
}

#[test]
fn apply_result_reports_the_stored_grant() {
    let record = EncryptedTokenGrantRecord {
        id: "grant_1".to_string(),
        tenant_id: "tenant_1".to_string(),
        identity_id: "identity_1".to_string(),
        actor_kind: ActorKind::Bot,
        scope_boundary: ScopeBoundary::Bot,
        scopes: vec![],
        state: TokenGrantState::Valid,
        issued_at_ms: 1,
        expires_at_ms: None,
        refreshed_at_ms: None,
        revoked_at_ms: None,
        reauth_required_at_ms: None,
        last_refresh_error: None,
        encrypted_oauth_grant: vec![],
        oauth_grant_key_id: "key".to_string(),
        oauth_grant_fingerprint: "fp_9".to_string(),
        revocation_reason: None,
    };
    let result = token_refresh_apply_result_from_record(record);
    assert_eq!(result.grant_id, TokenGrantId("grant_1".to_string()));
    assert_eq!(result.tenant_id, TenantId("tenant_1".to_string()));
    assert_eq!(result.state, TokenGrantState::Valid);
    assert_eq!(result.fingerprint, "fp_9");
}

#[test]
fn grant_rendering_lists_public_fields() {
    let record = EncryptedTokenGrantRecord {
        id: "grant_1".to_string(),
        tenant_id: "tenant_1".to_string(),
        identity_id: "identity_1".to_string(),
        actor_kind: ActorKind::User,
        scope_boundary: ScopeBoundary::Tenant,
        scopes: vec!["okr:read".to_string(), "okr:write".to_string()],
        state: TokenGrantState::Valid,
        issued_at_ms: 1,
        expires_at_ms: Some(2),
        refreshed_at_ms: None,
        revoked_at_ms: None,
        reauth_required_at_ms: None,
        last_refresh_error: None,
        encrypted_oauth_grant: vec![1, 2, 3, 4],
        oauth_grant_key_id: "key_sensitive".to_string(),
        oauth_grant_fingerprint: "fp_sensitive".to_string(),
        revocation_reason: None,
    };
    let debug = record.redacted_debug();
    assert!(debug.contains("id: \"grant_1\""));
    assert!(debug.contains("scopes: [\"okr:read\", \"okr:write\"]"));
    assert!(debug.contains("expires_at_ms: Some(2)"));
    assert!(debug.contains("refreshed_at_ms: None"));
}

#[test]
fn sweep_plan_numbers_the_attempted_candidates() {
    assert_eq!(
        sweep_plan(vec!["a", "b", "c"], 2, 40),
        (vec!["a", "b"], vec![40, 41], true)
    );
    assert_eq!(sweep_plan(vec!["a"], 3, 7), (vec!["a"], vec![7], false));
    assert_eq!(
        sweep_plan(vec!["a", "b"], 0, 7),
        (Vec::<&str>::new(), Vec::<u64>::new(), false)
    );
}
