//! Stored OAuth token grants: their redacted rendering, and the write each
//! planned refresh command turns into.
use vstd::prelude::*;

use crate::codec::{
    actor_kind_db_text, actor_kind_to_db, scope_boundary_db_text, scope_boundary_to_db,
    token_grant_state_db_text, token_grant_state_to_db,
};
use crate::domain::{ActorKind, ScopeBoundary, TenantId, TokenGrantId, TokenGrantState};
use crate::error::{PgRepositoryResult, PostgresRepositoryError};
use crate::redaction::{sanitize_refresh_error_for_storage, sanitized_refresh_error};
use crate::text::{decimal, push_decimal, push_str, string_of};

verus! {

/// A stored grant. The encrypted grant, its key id and its fingerprint are
/// secrets: [`EncryptedTokenGrantRecord::redacted_debug`] shows none of them.
#[derive(Clone)]
pub struct EncryptedTokenGrantRecord {
    pub id: String,
    pub tenant_id: String,
    pub identity_id: String,
    pub actor_kind: ActorKind,
    pub scope_boundary: ScopeBoundary,
    pub scopes: Vec<String>,
    pub state: TokenGrantState,
    pub issued_at_ms: u64,
    pub expires_at_ms: Option<u64>,
    pub refreshed_at_ms: Option<u64>,
    pub revoked_at_ms: Option<u64>,
    pub reauth_required_at_ms: Option<u64>,
    pub last_refresh_error: Option<String>,
    pub encrypted_oauth_grant: Vec<u8>,
    pub oauth_grant_key_id: String,
    pub oauth_grant_fingerprint: String,
    pub revocation_reason: Option<String>,
}

/// A compare-and-swap rotation of a grant's encrypted material.
#[derive(Clone, Copy)]
pub struct RotateEncryptedGrantRequest<'a> {
    pub tenant_id: &'a str,
    pub id: &'a str,
    pub expected_fingerprint: &'a str,
    pub expires_at_ms: Option<u64>,
    pub refreshed_at_ms: u64,
    pub encrypted_oauth_grant: &'a [u8],
    pub oauth_grant_key_id: &'a str,
    pub oauth_grant_fingerprint: &'a str,
}

pub open spec fn quoted(s: Seq<char>) -> Seq<char> {
    "\""@ + s + "\""@
}

pub open spec fn optional_number_text(value: Option<u64>) -> Seq<char> {
    match value {
        Some(n) => "Some("@ + decimal(n as nat) + ")"@,
        None => "None"@,
    }
}

pub open spec fn optional_text(value: Option<String>) -> Seq<char> {
    match value {
        Some(s) => "Some("@ + quoted(s@) + ")"@,
        None => "None"@,
    }
}

/// The quoted items of `items`, separated by `, `.
pub open spec fn joined_quoted(items: Seq<String>) -> Seq<char>
    decreases items.len(),
{
    if items.len() == 0 {
        Seq::empty()
    } else if items.len() == 1 {
        quoted(items[0]@)
    } else {
        joined_quoted(items.drop_last()) + ", "@ + quoted(items.last()@)
    }
}

pub open spec fn redacted_bytes_text(len: nat) -> Seq<char> {
    "bytes="@ + decimal(len)
}

/// The rendering of a grant: every field but the secrets, which show as
/// `[REDACTED]`, and the encrypted grant, which shows only its length.
pub open spec fn grant_record_text(r: EncryptedTokenGrantRecord) -> Seq<char> {
    "EncryptedTokenGrantRecord { id: "@ + quoted(r.id@) + ", tenant_id: "@ + quoted(r.tenant_id@)
        + ", identity_id: "@ + quoted(r.identity_id@) + ", actor_kind: "@ + actor_kind_db_text(
        r.actor_kind,
    ) + ", scope_boundary: "@ + scope_boundary_db_text(r.scope_boundary) + ", scopes: ["@
        + joined_quoted(r.scopes@) + "], state: "@ + token_grant_state_db_text(r.state)
        + ", issued_at_ms: "@ + decimal(r.issued_at_ms as nat) + ", expires_at_ms: "@
        + optional_number_text(r.expires_at_ms) + ", refreshed_at_ms: "@ + optional_number_text(
        r.refreshed_at_ms,
    ) + ", revoked_at_ms: "@ + optional_number_text(r.revoked_at_ms)
        + ", reauth_required_at_ms: "@ + optional_number_text(r.reauth_required_at_ms)
        + ", last_refresh_error: "@ + optional_text(r.last_refresh_error)
        + ", encrypted_oauth_grant: "@ + redacted_bytes_text(r.encrypted_oauth_grant@.len())
        + ", oauth_grant_key_id: [REDACTED], oauth_grant_fingerprint: [REDACTED], revocation_reason: "@
        + optional_text(r.revocation_reason) + " }"@
}

/// The rendering of a rotation request: its target and timing, with every
/// fingerprint and key id shown as `[REDACTED]` and the new encrypted grant
/// shown only by its length.
pub open spec fn rotate_request_text(r: RotateEncryptedGrantRequest) -> Seq<char> {
    "RotateEncryptedGrantRequest { tenant_id: "@ + quoted(r.tenant_id@) + ", id: "@ + quoted(r.id@)
        + ", expected_fingerprint: [REDACTED], expires_at_ms: "@ + optional_number_text(
        r.expires_at_ms,
    ) + ", refreshed_at_ms: "@ + decimal(r.refreshed_at_ms as nat)
        + ", encrypted_oauth_grant: "@ + redacted_bytes_text(r.encrypted_oauth_grant@.len())
        + ", oauth_grant_key_id: [REDACTED], oauth_grant_fingerprint: [REDACTED] }"@
}

fn push_quoted(out: &mut String, s: &str)
    ensures
        final(out)@ == old(out)@ + quoted(s@),
{
    push_str(out, "\"");
    push_str(out, s);
    push_str(out, "\"");
    proof {
        assert(old(out)@ + "\""@ + s@ + "\""@ =~= old(out)@ + quoted(s@));
    }
}

fn push_optional_number(out: &mut String, value: Option<u64>)
    ensures
        final(out)@ == old(out)@ + optional_number_text(value),
{
    match value {
        Some(n) => {
            push_str(out, "Some(");
            push_decimal(out, n);
            push_str(out, ")");
            proof {
                assert(old(out)@ + "Some("@ + decimal(n as nat) + ")"@ =~= old(out)@
                    + optional_number_text(value));
            }
        },
        None => {
            push_str(out, "None");
        },
    }
}

fn push_optional_text(out: &mut String, value: &Option<String>)
    ensures
        final(out)@ == old(out)@ + optional_text(*value),
{
    match value {
        Some(s) => {
            push_str(out, "Some(");
            push_quoted(out, s.as_str());
            push_str(out, ")");
            proof {
                assert(old(out)@ + "Some("@ + quoted(s@) + ")"@ =~= old(out)@ + optional_text(
                    *value,
                ));
            }
        },
        None => {
            push_str(out, "None");
        },
    }
}

fn push_joined_quoted(out: &mut String, items: &Vec<String>)
    ensures
        final(out)@ == old(out)@ + joined_quoted(items@),
{
    let ghost start = out@;
    let mut i: usize = 0;
    proof {
        assert(items@.take(0) =~= Seq::<String>::empty());
        assert(start + joined_quoted(items@.take(0)) =~= start);
    }
    while i < items.len()
        invariant
            i <= items@.len(),
            out@ == start + joined_quoted(items@.take(i as int)),
        decreases items@.len() - i,
    {
        proof {
            assert(items@.take(i + 1).drop_last() =~= items@.take(i as int));
            assert(items@.take(i + 1).last() == items@[i as int]);
        }
        if i > 0 {
            push_str(out, ", ");
        }
        push_quoted(out, items[i].as_str());
        proof {
            if i == 0 {
                assert(items@.take(1).len() == 1);
                assert(start + quoted(items@[0]@) =~= start + joined_quoted(items@.take(1)));
            } else {
                assert(start + joined_quoted(items@.take(i as int)) + ", "@ + quoted(
                    items@[i as int]@,
                ) =~= start + joined_quoted(items@.take(i + 1)));
            }
        }
        i = i + 1;
    }
    proof {
        assert(items@.take(items@.len() as int) =~= items@);
    }
}

impl EncryptedTokenGrantRecord {
    /// A rendering for logs and diagnostics that leaves out every secret.
    pub fn redacted_debug(&self) -> (r: String)
        ensures
            r@ == grant_record_text(*self),
    {
        let mut out = string_of("EncryptedTokenGrantRecord { id: ");
        push_quoted(&mut out, self.id.as_str());
        push_str(&mut out, ", tenant_id: ");
        push_quoted(&mut out, self.tenant_id.as_str());
        push_str(&mut out, ", identity_id: ");
        push_quoted(&mut out, self.identity_id.as_str());
        push_str(&mut out, ", actor_kind: ");
        push_str(&mut out, actor_kind_to_db(&self.actor_kind));
        push_str(&mut out, ", scope_boundary: ");
        push_str(&mut out, scope_boundary_to_db(&self.scope_boundary));
        push_str(&mut out, ", scopes: [");
        push_joined_quoted(&mut out, &self.scopes);
        push_str(&mut out, "], state: ");
        push_str(&mut out, token_grant_state_to_db(&self.state));
        push_str(&mut out, ", issued_at_ms: ");
        push_decimal(&mut out, self.issued_at_ms);
        push_str(&mut out, ", expires_at_ms: ");
        push_optional_number(&mut out, self.expires_at_ms);
        push_str(&mut out, ", refreshed_at_ms: ");
        push_optional_number(&mut out, self.refreshed_at_ms);
        push_str(&mut out, ", revoked_at_ms: ");
        push_optional_number(&mut out, self.revoked_at_ms);
        push_str(&mut out, ", reauth_required_at_ms: ");
        push_optional_number(&mut out, self.reauth_required_at_ms);
        push_str(&mut out, ", last_refresh_error: ");
        push_optional_text(&mut out, &self.last_refresh_error);
        push_str(&mut out, ", encrypted_oauth_grant: ");
        push_str(&mut out, "bytes=");
        push_decimal(&mut out, self.encrypted_oauth_grant.len() as u64);
        push_str(
            &mut out,
            ", oauth_grant_key_id: [REDACTED], oauth_grant_fingerprint: [REDACTED], revocation_reason: ",
        );
        push_optional_text(&mut out, &self.revocation_reason);
        push_str(&mut out, " }");
        proof {
            assert(out@ =~= grant_record_text(*self));
        }
        out
    }
}

impl<'a> RotateEncryptedGrantRequest<'a> {
    /// A rendering for logs and diagnostics that leaves out every secret.
    pub fn redacted_debug(&self) -> (r: String)
        ensures
            r@ == rotate_request_text(*self),
    {
        let mut out = string_of("RotateEncryptedGrantRequest { tenant_id: ");
        push_quoted(&mut out, self.tenant_id);
        push_str(&mut out, ", id: ");
        push_quoted(&mut out, self.id);
        push_str(&mut out, ", expected_fingerprint: [REDACTED], expires_at_ms: ");
        push_optional_number(&mut out, self.expires_at_ms);
        push_str(&mut out, ", refreshed_at_ms: ");
        push_decimal(&mut out, self.refreshed_at_ms);
        push_str(&mut out, ", encrypted_oauth_grant: ");
        push_str(&mut out, "bytes=");
        push_decimal(&mut out, self.encrypted_oauth_grant.len() as u64);
        push_str(&mut out, ", oauth_grant_key_id: [REDACTED], oauth_grant_fingerprint: [REDACTED] }");
        proof {
            assert(out@ =~= rotate_request_text(*self));
        }
        out
    }
}

/// Two grants that differ only in their secrets, with encrypted grants of the
/// same length, render the same: the rendering cannot leak a secret.
pub proof fn lemma_grant_rendering_hides_secrets(
    a: EncryptedTokenGrantRecord,
    b: EncryptedTokenGrantRecord,
)
    requires
        a.id == b.id,
        a.tenant_id == b.tenant_id,
        a.identity_id == b.identity_id,
        a.actor_kind == b.actor_kind,
        a.scope_boundary == b.scope_boundary,
        a.scopes@ == b.scopes@,
        a.state == b.state,
        a.issued_at_ms == b.issued_at_ms,
        a.expires_at_ms == b.expires_at_ms,
        a.refreshed_at_ms == b.refreshed_at_ms,
        a.revoked_at_ms == b.revoked_at_ms,
        a.reauth_required_at_ms == b.reauth_required_at_ms,
        a.last_refresh_error == b.last_refresh_error,
        a.revocation_reason == b.revocation_reason,
        a.encrypted_oauth_grant@.len() == b.encrypted_oauth_grant@.len(),
    ensures
        grant_record_text(a) == grant_record_text(b),
{
}

/// Two rotation requests for the same grant and timing render the same,
/// whatever their fingerprints, key ids and same-length encrypted grants.
pub proof fn lemma_rotate_rendering_hides_secrets(
    a: RotateEncryptedGrantRequest,
    b: RotateEncryptedGrantRequest,
)
    requires
        a.tenant_id@ == b.tenant_id@,
        a.id@ == b.id@,
        a.expires_at_ms == b.expires_at_ms,
        a.refreshed_at_ms == b.refreshed_at_ms,
        a.encrypted_oauth_grant@.len() == b.encrypted_oauth_grant@.len(),
    ensures
        rotate_request_text(a) == rotate_request_text(b),
{
}

/// The state of a grant after a refresh command applied.
#[derive(Debug, Clone, PartialEq, Eq)]
pub struct TokenRefreshApplyResult {
    pub grant_id: TokenGrantId,
    pub tenant_id: TenantId,
    pub state: TokenGrantState,
    pub fingerprint: String,
}

pub fn token_refresh_apply_result_from_record(record: EncryptedTokenGrantRecord) -> (r:
    TokenRefreshApplyResult)
    ensures
        r.grant_id.0 == record.id,
        r.tenant_id.0 == record.tenant_id,
        r.state == record.state,
        r.fingerprint == record.oauth_grant_fingerprint,
{
    TokenRefreshApplyResult {
        grant_id: TokenGrantId(record.id),
        tenant_id: TenantId(record.tenant_id),
        state: record.state,
        fingerprint: record.oauth_grant_fingerprint,
    }
}

/// New encrypted grant material.
#[derive(Debug, Clone, PartialEq, Eq)]
pub struct EncryptedGrantBlob(pub Vec<u8>);

/// What a refresh decided to write to its grant, guarded by the fingerprint
/// it read.
#[derive(Debug, Clone, PartialEq, Eq)]
pub enum TokenRefreshRepositoryCommand {
    RotateGrantCas {
        grant_id: TokenGrantId,
        tenant_id: TenantId,
        expected_fingerprint: String,
        expires_at_ms: Option<u64>,
        refreshed_at_ms: u64,
        encrypted_grant_blob: EncryptedGrantBlob,
        grant_key_id: String,
        new_fingerprint: String,
    },
    MarkNeedsRefresh {
        grant_id: TokenGrantId,
        tenant_id: TenantId,
        expected_fingerprint: String,
        refreshed_at_ms: u64,
        safe_error: String,
    },
    MarkReauthRequired {
        grant_id: TokenGrantId,
        tenant_id: TenantId,
        expected_fingerprint: String,
        reauth_required_at_ms: u64,
        safe_error: String,
    },
    MarkConfigRequired {
        grant_id: TokenGrantId,
        tenant_id: TenantId,
        expected_fingerprint: String,
        refreshed_at_ms: u64,
        safe_error: String,
    },
}

/// Which command a plan holds.
#[derive(Debug, Clone, Copy, PartialEq, Eq, Structural)]
pub enum TokenRefreshCommandKind {
    RotateGrantCas,
    MarkNeedsRefresh,
    MarkReauthRequired,
    MarkConfigRequired,
}

pub open spec fn command_kind_of(command: TokenRefreshRepositoryCommand) -> TokenRefreshCommandKind {
    match command {
        TokenRefreshRepositoryCommand::RotateGrantCas { .. } => TokenRefreshCommandKind::RotateGrantCas,
        TokenRefreshRepositoryCommand::MarkNeedsRefresh { .. } => TokenRefreshCommandKind::MarkNeedsRefresh,
        TokenRefreshRepositoryCommand::MarkReauthRequired { .. } => TokenRefreshCommandKind::MarkReauthRequired,
        TokenRefreshRepositoryCommand::MarkConfigRequired { .. } => TokenRefreshCommandKind::MarkConfigRequired,
    }
}

pub open spec fn command_tenant(command: TokenRefreshRepositoryCommand) -> TenantId {
    match command {
        TokenRefreshRepositoryCommand::RotateGrantCas { tenant_id, .. } => tenant_id,
        TokenRefreshRepositoryCommand::MarkNeedsRefresh { tenant_id, .. } => tenant_id,
        TokenRefreshRepositoryCommand::MarkReauthRequired { tenant_id, .. } => tenant_id,
        TokenRefreshRepositoryCommand::MarkConfigRequired { tenant_id, .. } => tenant_id,
    }
}

pub open spec fn command_grant(command: TokenRefreshRepositoryCommand) -> TokenGrantId {
    match command {
        TokenRefreshRepositoryCommand::RotateGrantCas { grant_id, .. } => grant_id,
        TokenRefreshRepositoryCommand::MarkNeedsRefresh { grant_id, .. } => grant_id,
        TokenRefreshRepositoryCommand::MarkReauthRequired { grant_id, .. } => grant_id,
        TokenRefreshRepositoryCommand::MarkConfigRequired { grant_id, .. } => grant_id,
    }
}

impl TokenRefreshRepositoryCommand {
    pub fn kind(&self) -> (r: TokenRefreshCommandKind)
        ensures
            r == command_kind_of(*self),
    {
        match self {
            TokenRefreshRepositoryCommand::RotateGrantCas { .. } => TokenRefreshCommandKind::RotateGrantCas,
            TokenRefreshRepositoryCommand::MarkNeedsRefresh { .. } => TokenRefreshCommandKind::MarkNeedsRefresh,
            TokenRefreshRepositoryCommand::MarkReauthRequired { .. } => TokenRefreshCommandKind::MarkReauthRequired,
            TokenRefreshRepositoryCommand::MarkConfigRequired { .. } => TokenRefreshCommandKind::MarkConfigRequired,
        }
    }

    pub fn tenant_id(&self) -> (r: &TenantId)
        ensures
            *r == command_tenant(*self),
    {
        match self {
            TokenRefreshRepositoryCommand::RotateGrantCas { tenant_id, .. } => tenant_id,
            TokenRefreshRepositoryCommand::MarkNeedsRefresh { tenant_id, .. } => tenant_id,
            TokenRefreshRepositoryCommand::MarkReauthRequired { tenant_id, .. } => tenant_id,
            TokenRefreshRepositoryCommand::MarkConfigRequired { tenant_id, .. } => tenant_id,
        }
    }

    pub fn grant_id(&self) -> (r: &TokenGrantId)
        ensures
            *r == command_grant(*self),
    {
        match self {
            TokenRefreshRepositoryCommand::RotateGrantCas { grant_id, .. } => grant_id,
            TokenRefreshRepositoryCommand::MarkNeedsRefresh { grant_id, .. } => grant_id,
            TokenRefreshRepositoryCommand::MarkReauthRequired { grant_id, .. } => grant_id,
            TokenRefreshRepositoryCommand::MarkConfigRequired { grant_id, .. } => grant_id,
        }
    }
}

/// What a plan says it will report, checked against its command.
#[derive(Debug, Clone, PartialEq, Eq)]
pub struct TokenRefreshPlanReport {
    pub command_kind: TokenRefreshCommandKind,
    pub tenant_id: TenantId,
    pub grant_id: TokenGrantId,
}

/// A refresh command together with the report it promises.
#[derive(Debug, Clone, PartialEq, Eq)]
pub struct TokenRefreshPlannedCommand {
    pub command: TokenRefreshRepositoryCommand,
    pub report: TokenRefreshPlanReport,
}

pub open spec fn command_kind_debug_text(kind: TokenRefreshCommandKind) -> Seq<char> {
    match kind {
        TokenRefreshCommandKind::RotateGrantCas => "RotateGrantCas"@,
        TokenRefreshCommandKind::MarkNeedsRefresh => "MarkNeedsRefresh"@,
        TokenRefreshCommandKind::MarkReauthRequired => "MarkReauthRequired"@,
        TokenRefreshCommandKind::MarkConfigRequired => "MarkConfigRequired"@,
    }
}

fn command_kind_debug_name(kind: TokenRefreshCommandKind) -> (r: &'static str)
    ensures
        r@ == command_kind_debug_text(kind),
{
    match kind {
        TokenRefreshCommandKind::RotateGrantCas => "RotateGrantCas",
        TokenRefreshCommandKind::MarkNeedsRefresh => "MarkNeedsRefresh",
        TokenRefreshCommandKind::MarkReauthRequired => "MarkReauthRequired",
        TokenRefreshCommandKind::MarkConfigRequired => "MarkConfigRequired",
    }
}

fn plan_mismatch(field: &'static str, expected: String, actual: String) -> (r:
    PostgresRepositoryError)
    ensures
        r matches PostgresRepositoryError::TokenRefreshPlanMismatch { field: f, expected: e, actual: a } && f == field && e == expected && a == actual,
{
    PostgresRepositoryError::TokenRefreshPlanMismatch { field, expected, actual }
}

/// A plan whose report describes a different command, tenant or grant than
/// the command it carries is refused, naming the first field that differs.
pub fn validate_token_refresh_plan(planned: &TokenRefreshPlannedCommand) -> (r: PgRepositoryResult<()>)
    ensures
        r is Ok <==> (planned.report.command_kind == command_kind_of(planned.command)
            && planned.report.tenant_id.0@ == command_tenant(planned.command).0@
            && planned.report.grant_id.0@ == command_grant(planned.command).0@),
        r matches Err(error) ==> if planned.report.command_kind != command_kind_of(planned.command) {
            error matches PostgresRepositoryError::TokenRefreshPlanMismatch { field, expected, actual }
                && field@ == "command_kind"@ && expected@ == command_kind_debug_text(command_kind_of(planned.command))
                && actual@ == command_kind_debug_text(planned.report.command_kind)
        } else if planned.report.tenant_id.0@ != command_tenant(planned.command).0@ {
            error matches PostgresRepositoryError::TokenRefreshPlanMismatch { field, expected, actual }
                && field@ == "tenant_id"@ && expected@ == command_tenant(planned.command).0@
                && actual@ == planned.report.tenant_id.0@
        } else {
            error matches PostgresRepositoryError::TokenRefreshPlanMismatch { field, expected, actual }
                && field@ == "grant_id"@ && expected@ == command_grant(planned.command).0@
                && actual@ == planned.report.grant_id.0@
        },
{
    let expected_command_kind = planned.command.kind();
    if planned.report.command_kind != expected_command_kind {
        return Err(
            plan_mismatch(
                "command_kind",
                string_of(command_kind_debug_name(expected_command_kind)),
                string_of(command_kind_debug_name(planned.report.command_kind)),
            ),
        );
    }
    let tenant_id = planned.command.tenant_id();
    if planned.report.tenant_id.0 != tenant_id.0 {
        return Err(plan_mismatch("tenant_id", tenant_id.0.clone(), planned.report.tenant_id.0.clone()));
    }
    let grant_id = planned.command.grant_id();
    if planned.report.grant_id.0 != grant_id.0 {
        return Err(plan_mismatch("grant_id", grant_id.0.clone(), planned.report.grant_id.0.clone()));
    }
    Ok(())
}

/// The grant write a refresh command performs. Failure reasons are always
/// sanitized before they are stored.
#[derive(Debug, Clone, PartialEq, Eq)]
pub enum TokenGrantWrite {
    Rotate {
        tenant_id: String,
        id: String,
        expected_fingerprint: String,
        expires_at_ms: Option<u64>,
        refreshed_at_ms: u64,
        encrypted_oauth_grant: Vec<u8>,
        oauth_grant_key_id: String,
        oauth_grant_fingerprint: String,
    },
    MarkRefreshFailed {
        tenant_id: String,
        id: String,
        expected_fingerprint: String,
        refreshed_at_ms: u64,
        reason: String,
    },
    MarkReauthRequired {
        tenant_id: String,
        id: String,
        expected_fingerprint: String,
        reauth_required_at_ms: u64,
        reason: String,
    },
}

/// Rotations rotate; needs-refresh and config-required both record a failed
/// refresh; reauth-required parks the grant for its user.
pub fn token_grant_write_for_command(command: TokenRefreshRepositoryCommand) -> (r: TokenGrantWrite)
    ensures
        match command {
            TokenRefreshRepositoryCommand::RotateGrantCas { grant_id, tenant_id, expected_fingerprint, expires_at_ms, refreshed_at_ms, encrypted_grant_blob, grant_key_id, new_fingerprint } =>
                r == (TokenGrantWrite::Rotate {
                    tenant_id: tenant_id.0,
                    id: grant_id.0,
                    expected_fingerprint,
                    expires_at_ms,
                    refreshed_at_ms,
                    encrypted_oauth_grant: encrypted_grant_blob.0,
                    oauth_grant_key_id: grant_key_id,
                    oauth_grant_fingerprint: new_fingerprint,
                }),
            TokenRefreshRepositoryCommand::MarkNeedsRefresh { grant_id, tenant_id, expected_fingerprint, refreshed_at_ms, safe_error } =>
                r matches TokenGrantWrite::MarkRefreshFailed { tenant_id: t, id, expected_fingerprint: f, refreshed_at_ms: at, reason }
                && t == tenant_id.0 && id == grant_id.0 && f == expected_fingerprint && at == refreshed_at_ms
                && reason@ == sanitized_refresh_error(safe_error@),
            TokenRefreshRepositoryCommand::MarkReauthRequired { grant_id, tenant_id, expected_fingerprint, reauth_required_at_ms, safe_error } =>
                r matches TokenGrantWrite::MarkReauthRequired { tenant_id: t, id, expected_fingerprint: f, reauth_required_at_ms: at, reason }
                && t == tenant_id.0 && id == grant_id.0 && f == expected_fingerprint && at == reauth_required_at_ms
                && reason@ == sanitized_refresh_error(safe_error@),
            TokenRefreshRepositoryCommand::MarkConfigRequired { grant_id, tenant_id, expected_fingerprint, refreshed_at_ms, safe_error } =>
                r matches TokenGrantWrite::MarkRefreshFailed { tenant_id: t, id, expected_fingerprint: f, refreshed_at_ms: at, reason }
                && t == tenant_id.0 && id == grant_id.0 && f == expected_fingerprint && at == refreshed_at_ms
                && reason@ == sanitized_refresh_error(safe_error@),
        },
{
    match command {
        TokenRefreshRepositoryCommand::RotateGrantCas { grant_id, tenant_id, expected_fingerprint, expires_at_ms, refreshed_at_ms, encrypted_grant_blob, grant_key_id, new_fingerprint } =>
            TokenGrantWrite::Rotate {
                tenant_id: tenant_id.0,
                id: grant_id.0,
                expected_fingerprint,
                expires_at_ms,
                refreshed_at_ms,
                encrypted_oauth_grant: encrypted_grant_blob.0,
                oauth_grant_key_id: grant_key_id,
                oauth_grant_fingerprint: new_fingerprint,
            },
        TokenRefreshRepositoryCommand::MarkNeedsRefresh { grant_id, tenant_id, expected_fingerprint, refreshed_at_ms, safe_error } =>
            TokenGrantWrite::MarkRefreshFailed {
                tenant_id: tenant_id.0,
                id: grant_id.0,
                expected_fingerprint,
                refreshed_at_ms,
                reason: sanitize_refresh_error_for_storage(safe_error.as_str()),
            },
        TokenRefreshRepositoryCommand::MarkReauthRequired { grant_id, tenant_id, expected_fingerprint, reauth_required_at_ms, safe_error } =>
            TokenGrantWrite::MarkReauthRequired {
                tenant_id: tenant_id.0,
                id: grant_id.0,
                expected_fingerprint,
                reauth_required_at_ms,
                reason: sanitize_refresh_error_for_storage(safe_error.as_str()),
            },
        TokenRefreshRepositoryCommand::MarkConfigRequired { grant_id, tenant_id, expected_fingerprint, refreshed_at_ms, safe_error } =>
            TokenGrantWrite::MarkRefreshFailed {
                tenant_id: tenant_id.0,
                id: grant_id.0,
                expected_fingerprint,
                refreshed_at_ms,
                reason: sanitize_refresh_error_for_storage(safe_error.as_str()),
            },
    }
}

/// How many candidates a sweep asks for: one more than its limit, so that
/// it can tell whether more remain.
pub fn sweep_query_limit(limit: u32) -> (r: u32)
    ensures
        r == if limit == u32::MAX { u32::MAX as int } else { limit + 1 },
{
    limit.saturating_add(1)
}

/// The candidates a sweep attempts (at most `limit`, in order), and whether
/// more were found than it attempts.
pub fn sweep_page<T>(candidates: Vec<T>, limit: u32) -> (r: (Vec<T>, bool))
    ensures
        r.1 == (candidates@.len() > limit),
        r.0@ == if r.1 { candidates@.take(limit as int) } else { candidates@ },
{
    let mut candidates = candidates;
    let has_more = candidates.len() > limit as usize;
    if has_more {
        candidates.truncate(limit as usize);
    }
    (candidates, has_more)
}

/// The audit sequence of the sweep's `index`-th grant.
pub fn sweep_audit_sequence(start: u64, index: usize) -> (r: u64)
    requires
        start + index <= u64::MAX,
    ensures
        r == start + index,
{
    start + index as u64
}

/// The plan of one sweep: a zero limit attempts nothing and finds nothing
/// more; otherwise the sweep attempts the first `limit` candidates in order,
/// numbering their audit events from `audit_sequence_start` up, and reports
/// whether more candidates were found than it attempts.
pub fn sweep_plan<T>(candidates: Vec<T>, limit: u32, audit_sequence_start: u64) -> (r: (Vec<T>, Vec<u64>, bool))
    requires
        limit > 0 ==> audit_sequence_start + (if candidates@.len() > limit { limit as int } else {
            candidates@.len() as int
        }) <= u64::MAX + 1,
    ensures
        r.2 == (limit > 0 && candidates@.len() > limit),
        limit == 0 ==> r.0@.len() == 0,
        limit > 0 ==> r.0@ == if r.2 { candidates@.take(limit as int) } else { candidates@ },
        r.1@.len() == r.0@.len(),
        forall|i: int| 0 <= i < r.1@.len() ==> #[trigger] r.1@[i] == audit_sequence_start + i,
{
    if limit == 0 {
        return (Vec::new(), Vec::new(), false);
    }
    let (page, has_more) = sweep_page(candidates, limit);
    let mut sequences: Vec<u64> = Vec::new();
    let mut index: usize = 0;
    while index < page.len()
        invariant
            index <= page@.len(),
            audit_sequence_start + page@.len() <= u64::MAX + 1,
            sequences@.len() == index,
            forall|i: int| 0 <= i < index ==> #[trigger] sequences@[i] == audit_sequence_start + i,
        decreases page@.len() - index,
    {
        sequences.push(sweep_audit_sequence(audit_sequence_start, index));
        index = index + 1;
    }
    (page, sequences, has_more)
}

} // verus!
