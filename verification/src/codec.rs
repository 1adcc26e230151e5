//! The text each domain enum is stored as, and the way back. Every decoder
//! accepts exactly the texts its encoder writes and reports any other text as
//! an unknown value of that column.
use vstd::prelude::*;

use crate::domain::{ActionStatus, ActorKind, AuditActorKind, AuditEventType, DeviceEntryPoint, EvidenceSourceKind, EvidenceVisibilityScope, ProposedActionStatus, ReviewInboxItemStatus, RiskSeverity, SchedulerJobKind, SchedulerJobStatus, ScopeBoundary, SessionState, StoredProposedActionDecisionKind, StoredReviewInboxLedgerStage, StoredReviewInboxLedgerStatus, TenantStatus, TokenGrantState, WorkspaceUserStatus, ProposedActionDecision, ProposedActionKind};
use crate::error::{PgRepositoryResult, PostgresRepositoryError};
use crate::text::{str_equals, string_of};

verus! {

/// The stored text of each `ActionStatus`.
pub open spec fn action_status_db_text(value: ActionStatus) -> Seq<char> {
    match value {
        ActionStatus::Proposed => "proposed"@,
        ActionStatus::Confirmed => "confirmed"@,
        ActionStatus::Executing => "executing"@,
        ActionStatus::Succeeded => "succeeded"@,
        ActionStatus::Failed => "failed"@,
        ActionStatus::Cancelled => "cancelled"@,
    }
}

/// The `ActionStatus` stored as `text`, if any.
pub open spec fn action_status_from_db_text(text: Seq<char>) -> Option<ActionStatus> {
    if text == "proposed"@ {
        Some(ActionStatus::Proposed)
    } else if text == "confirmed"@ {
        Some(ActionStatus::Confirmed)
    } else if text == "executing"@ {
        Some(ActionStatus::Executing)
    } else if text == "succeeded"@ {
        Some(ActionStatus::Succeeded)
    } else if text == "failed"@ {
        Some(ActionStatus::Failed)
    } else if text == "cancelled"@ {
        Some(ActionStatus::Cancelled)
    } else {
        None
    }
}

pub fn action_status_to_db(value: &ActionStatus) -> (r: &'static str)
    ensures
        r@ == action_status_db_text(*value),
{
    match value {
        ActionStatus::Proposed => "proposed",
        ActionStatus::Confirmed => "confirmed",
        ActionStatus::Executing => "executing",
        ActionStatus::Succeeded => "succeeded",
        ActionStatus::Failed => "failed",
        ActionStatus::Cancelled => "cancelled",
    }
}

pub fn action_status_from_db(value: &str) -> (r: PgRepositoryResult<ActionStatus>)
    ensures
        match r {
            Ok(decoded) => action_status_from_db_text(value@) == Some(decoded),
            Err(error) => action_status_from_db_text(value@) is None && (error matches PostgresRepositoryError::UnknownActionStatus(raw) && raw@ == value@),
        },
{
    if str_equals(value, "proposed") {
        return Ok(ActionStatus::Proposed);
    }
    if str_equals(value, "confirmed") {
        return Ok(ActionStatus::Confirmed);
    }
    if str_equals(value, "executing") {
        return Ok(ActionStatus::Executing);
    }
    if str_equals(value, "succeeded") {
        return Ok(ActionStatus::Succeeded);
    }
    if str_equals(value, "failed") {
        return Ok(ActionStatus::Failed);
    }
    if str_equals(value, "cancelled") {
        return Ok(ActionStatus::Cancelled);
    }
    Err(PostgresRepositoryError::UnknownActionStatus(string_of(value)))
}

/// Decoding the stored text of a `ActionStatus` gives it back, and a text decodes
/// to a value only when it is that value's stored text.
pub proof fn lemma_action_status_codec_round_trip(value: ActionStatus, text: Seq<char>)
    ensures
        action_status_from_db_text(action_status_db_text(value)) == Some(value),
        action_status_from_db_text(text) == Some(value) ==> action_status_db_text(value) == text,
{
    reveal_strlit("proposed");
    reveal_strlit("confirmed");
    reveal_strlit("executing");
    reveal_strlit("succeeded");
    reveal_strlit("failed");
    reveal_strlit("cancelled");
    assert("proposed"@.len() != "confirmed"@.len());
    assert("proposed"@.len() != "executing"@.len());
    assert("proposed"@.len() != "succeeded"@.len());
    assert("proposed"@.len() != "failed"@.len());
    assert("proposed"@.len() != "cancelled"@.len());
    assert("confirmed"@[0] != "executing"@[0]);
    assert("confirmed"@[0] != "succeeded"@[0]);
    assert("confirmed"@.len() != "failed"@.len());
    assert("confirmed"@[1] != "cancelled"@[1]);
    assert("executing"@[0] != "succeeded"@[0]);
    assert("executing"@.len() != "failed"@.len());
    assert("executing"@[0] != "cancelled"@[0]);
    assert("succeeded"@.len() != "failed"@.len());
    assert("succeeded"@[0] != "cancelled"@[0]);
    assert("failed"@.len() != "cancelled"@.len());
}

/// The stored text of each `ActorKind`.
pub open spec fn actor_kind_db_text(value: ActorKind) -> Seq<char> {
    match value {
        ActorKind::User => "user"@,
        ActorKind::Bot => "bot"@,
        ActorKind::App => "app"@,
        ActorKind::Service => "service"@,
    }
}

/// The `ActorKind` stored as `text`, if any.
pub open spec fn actor_kind_from_db_text(text: Seq<char>) -> Option<ActorKind> {
    if text == "user"@ {
        Some(ActorKind::User)
    } else if text == "bot"@ {
        Some(ActorKind::Bot)
    } else if text == "app"@ {
        Some(ActorKind::App)
    } else if text == "service"@ {
        Some(ActorKind::Service)
    } else {
        None
    }
}

pub fn actor_kind_to_db(value: &ActorKind) -> (r: &'static str)
    ensures
        r@ == actor_kind_db_text(*value),
{
    match value {
        ActorKind::User => "user",
        ActorKind::Bot => "bot",
        ActorKind::App => "app",
        ActorKind::Service => "service",
    }
}

pub fn identity_actor_kind_from_db(value: &str) -> (r: PgRepositoryResult<ActorKind>)
    ensures
        match r {
            Ok(decoded) => actor_kind_from_db_text(value@) == Some(decoded),
            Err(error) => actor_kind_from_db_text(value@) is None && (error matches PostgresRepositoryError::UnknownIdentityActorKind(raw) && raw@ == value@),
        },
{
    if str_equals(value, "user") {
        return Ok(ActorKind::User);
    }
    if str_equals(value, "bot") {
        return Ok(ActorKind::Bot);
    }
    if str_equals(value, "app") {
        return Ok(ActorKind::App);
    }
    if str_equals(value, "service") {
        return Ok(ActorKind::Service);
    }
    Err(PostgresRepositoryError::UnknownIdentityActorKind(string_of(value)))
}

/// Decoding the stored text of a `ActorKind` gives it back, and a text decodes
/// to a value only when it is that value's stored text.
pub proof fn lemma_actor_kind_codec_round_trip(value: ActorKind, text: Seq<char>)
    ensures
        actor_kind_from_db_text(actor_kind_db_text(value)) == Some(value),
        actor_kind_from_db_text(text) == Some(value) ==> actor_kind_db_text(value) == text,
{
    reveal_strlit("user");
    reveal_strlit("bot");
    reveal_strlit("app");
    reveal_strlit("service");
    assert("user"@.len() != "bot"@.len());
    assert("user"@.len() != "app"@.len());
    assert("user"@.len() != "service"@.len());
    assert("bot"@[0] != "app"@[0]);
    assert("bot"@.len() != "service"@.len());
    assert("app"@.len() != "service"@.len());
}

/// The stored text of each `ScopeBoundary`.
pub open spec fn scope_boundary_db_text(value: ScopeBoundary) -> Seq<char> {
    match value {
        ScopeBoundary::Tenant => "tenant"@,
        ScopeBoundary::User => "user"@,
        ScopeBoundary::Admin => "admin"@,
        ScopeBoundary::Bot => "bot"@,
        ScopeBoundary::Service => "service"@,
    }
}

/// The `ScopeBoundary` stored as `text`, if any.
pub open spec fn scope_boundary_from_db_text(text: Seq<char>) -> Option<ScopeBoundary> {
    if text == "tenant"@ {
        Some(ScopeBoundary::Tenant)
    } else if text == "user"@ {
        Some(ScopeBoundary::User)
    } else if text == "admin"@ {
        Some(ScopeBoundary::Admin)
    } else if text == "bot"@ {
        Some(ScopeBoundary::Bot)
    } else if text == "service"@ {
        Some(ScopeBoundary::Service)
    } else {
        None
    }
}

pub fn scope_boundary_to_db(value: &ScopeBoundary) -> (r: &'static str)
    ensures
        r@ == scope_boundary_db_text(*value),
{
    match value {
        ScopeBoundary::Tenant => "tenant",
        ScopeBoundary::User => "user",
        ScopeBoundary::Admin => "admin",
        ScopeBoundary::Bot => "bot",
        ScopeBoundary::Service => "service",
    }
}

pub fn scope_boundary_from_db(value: &str) -> (r: PgRepositoryResult<ScopeBoundary>)
    ensures
        match r {
            Ok(decoded) => scope_boundary_from_db_text(value@) == Some(decoded),
            Err(error) => scope_boundary_from_db_text(value@) is None && (error matches PostgresRepositoryError::UnknownScopeBoundary(raw) && raw@ == value@),
        },
{
    if str_equals(value, "tenant") {
        return Ok(ScopeBoundary::Tenant);
    }
    if str_equals(value, "user") {
        return Ok(ScopeBoundary::User);
    }
    if str_equals(value, "admin") {
        return Ok(ScopeBoundary::Admin);
    }
    if str_equals(value, "bot") {
        return Ok(ScopeBoundary::Bot);
    }
    if str_equals(value, "service") {
        return Ok(ScopeBoundary::Service);
    }
    Err(PostgresRepositoryError::UnknownScopeBoundary(string_of(value)))
}

/// Decoding the stored text of a `ScopeBoundary` gives it back, and a text decodes
/// to a value only when it is that value's stored text.
pub proof fn lemma_scope_boundary_codec_round_trip(value: ScopeBoundary, text: Seq<char>)
    ensures
        scope_boundary_from_db_text(scope_boundary_db_text(value)) == Some(value),
        scope_boundary_from_db_text(text) == Some(value) ==> scope_boundary_db_text(value) == text,
{
    reveal_strlit("tenant");
    reveal_strlit("user");
    reveal_strlit("admin");
    reveal_strlit("bot");
    reveal_strlit("service");
    assert("tenant"@.len() != "user"@.len());
    assert("tenant"@.len() != "admin"@.len());
    assert("tenant"@.len() != "bot"@.len());
    assert("tenant"@.len() != "service"@.len());
    assert("user"@.len() != "admin"@.len());
    assert("user"@.len() != "bot"@.len());
    assert("user"@.len() != "service"@.len());
    assert("admin"@.len() != "bot"@.len());
    assert("admin"@.len() != "service"@.len());
    assert("bot"@.len() != "service"@.len());
}

/// The stored text of each `TokenGrantState`.
pub open spec fn token_grant_state_db_text(value: TokenGrantState) -> Seq<char> {
    match value {
        TokenGrantState::Valid => "valid"@,
        TokenGrantState::NeedsRefresh => "needs_refresh"@,
        TokenGrantState::Expired => "expired"@,
        TokenGrantState::Revoked => "revoked"@,
        TokenGrantState::ReauthRequired => "reauth_required"@,
    }
}

/// The `TokenGrantState` stored as `text`, if any.
pub open spec fn token_grant_state_from_db_text(text: Seq<char>) -> Option<TokenGrantState> {
    if text == "valid"@ {
        Some(TokenGrantState::Valid)
    } else if text == "needs_refresh"@ {
        Some(TokenGrantState::NeedsRefresh)
    } else if text == "expired"@ {
        Some(TokenGrantState::Expired)
    } else if text == "revoked"@ {
        Some(TokenGrantState::Revoked)
    } else if text == "reauth_required"@ {
        Some(TokenGrantState::ReauthRequired)
    } else {
        None
    }
}

pub fn token_grant_state_to_db(value: &TokenGrantState) -> (r: &'static str)
    ensures
        r@ == token_grant_state_db_text(*value),
{
    match value {
        TokenGrantState::Valid => "valid",
        TokenGrantState::NeedsRefresh => "needs_refresh",
        TokenGrantState::Expired => "expired",
        TokenGrantState::Revoked => "revoked",
        TokenGrantState::ReauthRequired => "reauth_required",
    }
}

pub fn token_grant_state_from_db(value: &str) -> (r: PgRepositoryResult<TokenGrantState>)
    ensures
        match r {
            Ok(decoded) => token_grant_state_from_db_text(value@) == Some(decoded),
            Err(error) => token_grant_state_from_db_text(value@) is None && (error matches PostgresRepositoryError::UnknownTokenGrantState(raw) && raw@ == value@),
        },
{
    if str_equals(value, "valid") {
        return Ok(TokenGrantState::Valid);
    }
    if str_equals(value, "needs_refresh") {
        return Ok(TokenGrantState::NeedsRefresh);
    }
    if str_equals(value, "expired") {
        return Ok(TokenGrantState::Expired);
    }
    if str_equals(value, "revoked") {
        return Ok(TokenGrantState::Revoked);
    }
    if str_equals(value, "reauth_required") {
        return Ok(TokenGrantState::ReauthRequired);
    }
    Err(PostgresRepositoryError::UnknownTokenGrantState(string_of(value)))
}

/// Decoding the stored text of a `TokenGrantState` gives it back, and a text decodes
/// to a value only when it is that value's stored text.
pub proof fn lemma_token_grant_state_codec_round_trip(value: TokenGrantState, text: Seq<char>)
    ensures
        token_grant_state_from_db_text(token_grant_state_db_text(value)) == Some(value),
        token_grant_state_from_db_text(text) == Some(value) ==> token_grant_state_db_text(value) == text,
{
    reveal_strlit("valid");
    reveal_strlit("needs_refresh");
    reveal_strlit("expired");
    reveal_strlit("revoked");
    reveal_strlit("reauth_required");
    assert("valid"@.len() != "needs_refresh"@.len());
    assert("valid"@.len() != "expired"@.len());
    assert("valid"@.len() != "revoked"@.len());
    assert("valid"@.len() != "reauth_required"@.len());
    assert("needs_refresh"@.len() != "expired"@.len());
    assert("needs_refresh"@.len() != "revoked"@.len());
    assert("needs_refresh"@.len() != "reauth_required"@.len());
    assert("expired"@[0] != "revoked"@[0]);
    assert("expired"@.len() != "reauth_required"@.len());
    assert("revoked"@.len() != "reauth_required"@.len());
}

/// The stored text of each `TenantStatus`.
pub open spec fn tenant_status_db_text(value: TenantStatus) -> Seq<char> {
    match value {
        TenantStatus::Active => "active"@,
        TenantStatus::Suspended => "suspended"@,
    }
}

/// The `TenantStatus` stored as `text`, if any.
pub open spec fn tenant_status_from_db_text(text: Seq<char>) -> Option<TenantStatus> {
    if text == "active"@ {
        Some(TenantStatus::Active)
    } else if text == "suspended"@ {
        Some(TenantStatus::Suspended)
    } else {
        None
    }
}

pub fn tenant_status_to_db(value: &TenantStatus) -> (r: &'static str)
    ensures
        r@ == tenant_status_db_text(*value),
{
    match value {
        TenantStatus::Active => "active",
        TenantStatus::Suspended => "suspended",
    }
}

pub fn tenant_status_from_db(value: &str) -> (r: PgRepositoryResult<TenantStatus>)
    ensures
        match r {
            Ok(decoded) => tenant_status_from_db_text(value@) == Some(decoded),
            Err(error) => tenant_status_from_db_text(value@) is None && (error matches PostgresRepositoryError::UnknownTenantStatus(raw) && raw@ == value@),
        },
{
    if str_equals(value, "active") {
        return Ok(TenantStatus::Active);
    }
    if str_equals(value, "suspended") {
        return Ok(TenantStatus::Suspended);
    }
    Err(PostgresRepositoryError::UnknownTenantStatus(string_of(value)))
}

/// Decoding the stored text of a `TenantStatus` gives it back, and a text decodes
/// to a value only when it is that value's stored text.
pub proof fn lemma_tenant_status_codec_round_trip(value: TenantStatus, text: Seq<char>)
    ensures
        tenant_status_from_db_text(tenant_status_db_text(value)) == Some(value),
        tenant_status_from_db_text(text) == Some(value) ==> tenant_status_db_text(value) == text,
{
    reveal_strlit("active");
    reveal_strlit("suspended");
    assert("active"@.len() != "suspended"@.len());
}

/// The stored text of each `WorkspaceUserStatus`.
pub open spec fn workspace_user_status_db_text(value: WorkspaceUserStatus) -> Seq<char> {
    match value {
        WorkspaceUserStatus::Active => "active"@,
        WorkspaceUserStatus::Disabled => "disabled"@,
    }
}

/// The `WorkspaceUserStatus` stored as `text`, if any.
pub open spec fn workspace_user_status_from_db_text(text: Seq<char>) -> Option<WorkspaceUserStatus> {
    if text == "active"@ {
        Some(WorkspaceUserStatus::Active)
    } else if text == "disabled"@ {
        Some(WorkspaceUserStatus::Disabled)
    } else {
        None
    }
}

pub fn workspace_user_status_to_db(value: &WorkspaceUserStatus) -> (r: &'static str)
    ensures
        r@ == workspace_user_status_db_text(*value),
{
    match value {
        WorkspaceUserStatus::Active => "active",
        WorkspaceUserStatus::Disabled => "disabled",
    }
}

pub fn workspace_user_status_from_db(value: &str) -> (r: PgRepositoryResult<WorkspaceUserStatus>)
    ensures
        match r {
            Ok(decoded) => workspace_user_status_from_db_text(value@) == Some(decoded),
            Err(error) => workspace_user_status_from_db_text(value@) is None && (error matches PostgresRepositoryError::UnknownWorkspaceUserStatus(raw) && raw@ == value@),
        },
{
    if str_equals(value, "active") {
        return Ok(WorkspaceUserStatus::Active);
    }
    if str_equals(value, "disabled") {
        return Ok(WorkspaceUserStatus::Disabled);
    }
    Err(PostgresRepositoryError::UnknownWorkspaceUserStatus(string_of(value)))
}

/// Decoding the stored text of a `WorkspaceUserStatus` gives it back, and a text decodes
/// to a value only when it is that value's stored text.
pub proof fn lemma_workspace_user_status_codec_round_trip(value: WorkspaceUserStatus, text: Seq<char>)
    ensures
        workspace_user_status_from_db_text(workspace_user_status_db_text(value)) == Some(value),
        workspace_user_status_from_db_text(text) == Some(value) ==> workspace_user_status_db_text(value) == text,
{
    reveal_strlit("active");
    reveal_strlit("disabled");
    assert("active"@.len() != "disabled"@.len());
}

/// The stored text of each `AuditActorKind`.
pub open spec fn audit_actor_kind_db_text(value: AuditActorKind) -> Seq<char> {
    match value {
        AuditActorKind::User => "user"@,
        AuditActorKind::Bot => "bot"@,
        AuditActorKind::App => "app"@,
        AuditActorKind::System => "system"@,
        AuditActorKind::Service => "service"@,
    }
}

/// The `AuditActorKind` stored as `text`, if any.
pub open spec fn audit_actor_kind_from_db_text(text: Seq<char>) -> Option<AuditActorKind> {
    if text == "user"@ {
        Some(AuditActorKind::User)
    } else if text == "bot"@ {
        Some(AuditActorKind::Bot)
    } else if text == "app"@ {
        Some(AuditActorKind::App)
    } else if text == "system"@ {
        Some(AuditActorKind::System)
    } else if text == "service"@ {
        Some(AuditActorKind::Service)
    } else {
        None
    }
}

pub fn audit_actor_kind_to_db(value: &AuditActorKind) -> (r: &'static str)
    ensures
        r@ == audit_actor_kind_db_text(*value),
{
    match value {
        AuditActorKind::User => "user",
        AuditActorKind::Bot => "bot",
        AuditActorKind::App => "app",
        AuditActorKind::System => "system",
        AuditActorKind::Service => "service",
    }
}

pub fn audit_actor_kind_from_db(value: &str) -> (r: PgRepositoryResult<AuditActorKind>)
    ensures
        match r {
            Ok(decoded) => audit_actor_kind_from_db_text(value@) == Some(decoded),
            Err(error) => audit_actor_kind_from_db_text(value@) is None && (error matches PostgresRepositoryError::UnknownAuditActorKind(raw) && raw@ == value@),
        },
{
    if str_equals(value, "user") {
        return Ok(AuditActorKind::User);
    }
    if str_equals(value, "bot") {
        return Ok(AuditActorKind::Bot);
    }
    if str_equals(value, "app") {
        return Ok(AuditActorKind::App);
    }
    if str_equals(value, "system") {
        return Ok(AuditActorKind::System);
    }
    if str_equals(value, "service") {
        return Ok(AuditActorKind::Service);
    }
    Err(PostgresRepositoryError::UnknownAuditActorKind(string_of(value)))
}

/// Decoding the stored text of a `AuditActorKind` gives it back, and a text decodes
/// to a value only when it is that value's stored text.
pub proof fn lemma_audit_actor_kind_codec_round_trip(value: AuditActorKind, text: Seq<char>)
    ensures
        audit_actor_kind_from_db_text(audit_actor_kind_db_text(value)) == Some(value),
        audit_actor_kind_from_db_text(text) == Some(value) ==> audit_actor_kind_db_text(value) == text,
{
    reveal_strlit("user");
    reveal_strlit("bot");
    reveal_strlit("app");
    reveal_strlit("system");
    reveal_strlit("service");
    assert("user"@.len() != "bot"@.len());
    assert("user"@.len() != "app"@.len());
    assert("user"@.len() != "system"@.len());
    assert("user"@.len() != "service"@.len());
    assert("bot"@[0] != "app"@[0]);
    assert("bot"@.len() != "system"@.len());
    assert("bot"@.len() != "service"@.len());
    assert("app"@.len() != "system"@.len());
    assert("app"@.len() != "service"@.len());
    assert("system"@.len() != "service"@.len());
}

/// The stored text of each `AuditEventType`.
pub open spec fn audit_event_type_db_text(value: AuditEventType) -> Seq<char> {
    match value {
        AuditEventType::ProposedActionDecisionRecorded => "proposed_action_decision_recorded"@,
        AuditEventType::ConfirmedActionRecorded => "confirmed_action_recorded"@,
        AuditEventType::DryRunExecuted => "dry_run_executed"@,
        AuditEventType::ExecutionDenied => "execution_denied"@,
        AuditEventType::ExecutionSucceeded => "execution_succeeded"@,
        AuditEventType::ExecutionFailed => "execution_failed"@,
    }
}

/// The `AuditEventType` stored as `text`, if any.
pub open spec fn audit_event_type_from_db_text(text: Seq<char>) -> Option<AuditEventType> {
    if text == "proposed_action_decision_recorded"@ {
        Some(AuditEventType::ProposedActionDecisionRecorded)
    } else if text == "confirmed_action_recorded"@ {
        Some(AuditEventType::ConfirmedActionRecorded)
    } else if text == "dry_run_executed"@ {
        Some(AuditEventType::DryRunExecuted)
    } else if text == "execution_denied"@ {
        Some(AuditEventType::ExecutionDenied)
    } else if text == "execution_succeeded"@ {
        Some(AuditEventType::ExecutionSucceeded)
    } else if text == "execution_failed"@ {
        Some(AuditEventType::ExecutionFailed)
    } else {
        None
    }
}

pub fn audit_event_type_to_db(value: &AuditEventType) -> (r: &'static str)
    ensures
        r@ == audit_event_type_db_text(*value),
{
    match value {
        AuditEventType::ProposedActionDecisionRecorded => "proposed_action_decision_recorded",
        AuditEventType::ConfirmedActionRecorded => "confirmed_action_recorded",
        AuditEventType::DryRunExecuted => "dry_run_executed",
        AuditEventType::ExecutionDenied => "execution_denied",
        AuditEventType::ExecutionSucceeded => "execution_succeeded",
        AuditEventType::ExecutionFailed => "execution_failed",
    }
}

pub fn audit_event_type_from_db(value: &str) -> (r: PgRepositoryResult<AuditEventType>)
    ensures
        match r {
            Ok(decoded) => audit_event_type_from_db_text(value@) == Some(decoded),
            Err(error) => audit_event_type_from_db_text(value@) is None && (error matches PostgresRepositoryError::UnknownAuditEventType(raw) && raw@ == value@),
        },
{
    if str_equals(value, "proposed_action_decision_recorded") {
        return Ok(AuditEventType::ProposedActionDecisionRecorded);
    }
    if str_equals(value, "confirmed_action_recorded") {
        return Ok(AuditEventType::ConfirmedActionRecorded);
    }
    if str_equals(value, "dry_run_executed") {
        return Ok(AuditEventType::DryRunExecuted);
    }
    if str_equals(value, "execution_denied") {
        return Ok(AuditEventType::ExecutionDenied);
    }
    if str_equals(value, "execution_succeeded") {
        return Ok(AuditEventType::ExecutionSucceeded);
    }
    if str_equals(value, "execution_failed") {
        return Ok(AuditEventType::ExecutionFailed);
    }
    Err(PostgresRepositoryError::UnknownAuditEventType(string_of(value)))
}

/// Decoding the stored text of a `AuditEventType` gives it back, and a text decodes
/// to a value only when it is that value's stored text.
pub proof fn lemma_audit_event_type_codec_round_trip(value: AuditEventType, text: Seq<char>)
    ensures
        audit_event_type_from_db_text(audit_event_type_db_text(value)) == Some(value),
        audit_event_type_from_db_text(text) == Some(value) ==> audit_event_type_db_text(value) == text,
{
    reveal_strlit("proposed_action_decision_recorded");
    reveal_strlit("confirmed_action_recorded");
    reveal_strlit("dry_run_executed");
    reveal_strlit("execution_denied");
    reveal_strlit("execution_succeeded");
    reveal_strlit("execution_failed");
    assert("proposed_action_decision_recorded"@.len() != "confirmed_action_recorded"@.len());
    assert("proposed_action_decision_recorded"@.len() != "dry_run_executed"@.len());
    assert("proposed_action_decision_recorded"@.len() != "execution_denied"@.len());
    assert("proposed_action_decision_recorded"@.len() != "execution_succeeded"@.len());
    assert("proposed_action_decision_recorded"@.len() != "execution_failed"@.len());
    assert("confirmed_action_recorded"@.len() != "dry_run_executed"@.len());
    assert("confirmed_action_recorded"@.len() != "execution_denied"@.len());
    assert("confirmed_action_recorded"@.len() != "execution_succeeded"@.len());
    assert("confirmed_action_recorded"@.len() != "execution_failed"@.len());
    assert("dry_run_executed"@[0] != "execution_denied"@[0]);
    assert("dry_run_executed"@.len() != "execution_succeeded"@.len());
    assert("dry_run_executed"@[0] != "execution_failed"@[0]);
    assert("execution_denied"@.len() != "execution_succeeded"@.len());
    assert("execution_denied"@[10] != "execution_failed"@[10]);
    assert("execution_succeeded"@.len() != "execution_failed"@.len());
}

/// The stored text of each `DeviceEntryPoint`.
pub open spec fn device_entry_point_db_text(value: DeviceEntryPoint) -> Seq<char> {
    match value {
        DeviceEntryPoint::MacOs => "macos"@,
        DeviceEntryPoint::Ios => "ios"@,
        DeviceEntryPoint::Web => "web"@,
        DeviceEntryPoint::Lark => "lark"@,
    }
}

/// The `DeviceEntryPoint` stored as `text`, if any.
pub open spec fn device_entry_point_from_db_text(text: Seq<char>) -> Option<DeviceEntryPoint> {
    if text == "macos"@ {
        Some(DeviceEntryPoint::MacOs)
    } else if text == "ios"@ {
        Some(DeviceEntryPoint::Ios)
    } else if text == "web"@ {
        Some(DeviceEntryPoint::Web)
    } else if text == "lark"@ {
        Some(DeviceEntryPoint::Lark)
    } else {
        None
    }
}

pub fn device_entry_point_to_db(value: &DeviceEntryPoint) -> (r: &'static str)
    ensures
        r@ == device_entry_point_db_text(*value),
{
    match value {
        DeviceEntryPoint::MacOs => "macos",
        DeviceEntryPoint::Ios => "ios",
        DeviceEntryPoint::Web => "web",
        DeviceEntryPoint::Lark => "lark",
    }
}

pub fn device_entry_point_from_db(value: &str) -> (r: PgRepositoryResult<DeviceEntryPoint>)
    ensures
        match r {
            Ok(decoded) => device_entry_point_from_db_text(value@) == Some(decoded),
            Err(error) => device_entry_point_from_db_text(value@) is None && (error matches PostgresRepositoryError::UnknownDeviceEntryPoint(raw) && raw@ == value@),
        },
{
    if str_equals(value, "macos") {
        return Ok(DeviceEntryPoint::MacOs);
    }
    if str_equals(value, "ios") {
        return Ok(DeviceEntryPoint::Ios);
    }
    if str_equals(value, "web") {
        return Ok(DeviceEntryPoint::Web);
    }
    if str_equals(value, "lark") {
        return Ok(DeviceEntryPoint::Lark);
    }
    Err(PostgresRepositoryError::UnknownDeviceEntryPoint(string_of(value)))
}

/// Decoding the stored text of a `DeviceEntryPoint` gives it back, and a text decodes
/// to a value only when it is that value's stored text.
pub proof fn lemma_device_entry_point_codec_round_trip(value: DeviceEntryPoint, text: Seq<char>)
    ensures
        device_entry_point_from_db_text(device_entry_point_db_text(value)) == Some(value),
        device_entry_point_from_db_text(text) == Some(value) ==> device_entry_point_db_text(value) == text,
{
    reveal_strlit("macos");
    reveal_strlit("ios");
    reveal_strlit("web");
    reveal_strlit("lark");
    assert("macos"@.len() != "ios"@.len());
    assert("macos"@.len() != "web"@.len());
    assert("macos"@.len() != "lark"@.len());
    assert("ios"@[0] != "web"@[0]);
    assert("ios"@.len() != "lark"@.len());
    assert("web"@.len() != "lark"@.len());
}

/// The stored text of each `SessionState`.
pub open spec fn device_session_state_db_text(value: SessionState) -> Seq<char> {
    match value {
        SessionState::Active => "active"@,
        SessionState::Revoked => "revoked"@,
        SessionState::Expired => "expired"@,
    }
}

/// The `SessionState` stored as `text`, if any.
pub open spec fn device_session_state_from_db_text(text: Seq<char>) -> Option<SessionState> {
    if text == "active"@ {
        Some(SessionState::Active)
    } else if text == "revoked"@ {
        Some(SessionState::Revoked)
    } else if text == "expired"@ {
        Some(SessionState::Expired)
    } else {
        None
    }
}

pub fn device_session_state_to_db(value: &SessionState) -> (r: &'static str)
    ensures
        r@ == device_session_state_db_text(*value),
{
    match value {
        SessionState::Active => "active",
        SessionState::Revoked => "revoked",
        SessionState::Expired => "expired",
    }
}

pub fn device_session_state_from_db(value: &str) -> (r: PgRepositoryResult<SessionState>)
    ensures
        match r {
            Ok(decoded) => device_session_state_from_db_text(value@) == Some(decoded),
            Err(error) => device_session_state_from_db_text(value@) is None && (error matches PostgresRepositoryError::UnknownDeviceSessionState(raw) && raw@ == value@),
        },
{
    if str_equals(value, "active") {
        return Ok(SessionState::Active);
    }
    if str_equals(value, "revoked") {
        return Ok(SessionState::Revoked);
    }
    if str_equals(value, "expired") {
        return Ok(SessionState::Expired);
    }
    Err(PostgresRepositoryError::UnknownDeviceSessionState(string_of(value)))
}

/// Decoding the stored text of a `SessionState` gives it back, and a text decodes
/// to a value only when it is that value's stored text.
pub proof fn lemma_device_session_state_codec_round_trip(value: SessionState, text: Seq<char>)
    ensures
        device_session_state_from_db_text(device_session_state_db_text(value)) == Some(value),
        device_session_state_from_db_text(text) == Some(value) ==> device_session_state_db_text(value) == text,
{
    reveal_strlit("active");
    reveal_strlit("revoked");
    reveal_strlit("expired");
    assert("active"@.len() != "revoked"@.len());
    assert("active"@.len() != "expired"@.len());
    assert("revoked"@[0] != "expired"@[0]);
}

/// The stored text of each `EvidenceSourceKind`.
pub open spec fn evidence_source_kind_db_text(value: EvidenceSourceKind) -> Seq<char> {
    match value {
        EvidenceSourceKind::OkrProgress => "okr_progress"@,
        EvidenceSourceKind::LarkMinutes => "lark_minutes"@,
        EvidenceSourceKind::LarkDoc => "lark_doc"@,
        EvidenceSourceKind::LarkTask => "lark_task"@,
        EvidenceSourceKind::LarkCalendar => "lark_calendar"@,
        EvidenceSourceKind::LarkIm => "lark_im"@,
        EvidenceSourceKind::ManualReviewNote => "manual_review_note"@,
        EvidenceSourceKind::AuditEvent => "audit_event"@,
    }
}

/// The `EvidenceSourceKind` stored as `text`, if any.
pub open spec fn evidence_source_kind_from_db_text(text: Seq<char>) -> Option<EvidenceSourceKind> {
    if text == "okr_progress"@ {
        Some(EvidenceSourceKind::OkrProgress)
    } else if text == "lark_minutes"@ {
        Some(EvidenceSourceKind::LarkMinutes)
    } else if text == "lark_doc"@ {
        Some(EvidenceSourceKind::LarkDoc)
    } else if text == "lark_task"@ {
        Some(EvidenceSourceKind::LarkTask)
    } else if text == "lark_calendar"@ {
        Some(EvidenceSourceKind::LarkCalendar)
    } else if text == "lark_im"@ {
        Some(EvidenceSourceKind::LarkIm)
    } else if text == "manual_review_note"@ {
        Some(EvidenceSourceKind::ManualReviewNote)
    } else if text == "audit_event"@ {
        Some(EvidenceSourceKind::AuditEvent)
    } else {
        None
    }
}

pub fn evidence_source_kind_to_db(value: &EvidenceSourceKind) -> (r: &'static str)
    ensures
        r@ == evidence_source_kind_db_text(*value),
{
    match value {
        EvidenceSourceKind::OkrProgress => "okr_progress",
        EvidenceSourceKind::LarkMinutes => "lark_minutes",
        EvidenceSourceKind::LarkDoc => "lark_doc",
        EvidenceSourceKind::LarkTask => "lark_task",
        EvidenceSourceKind::LarkCalendar => "lark_calendar",
        EvidenceSourceKind::LarkIm => "lark_im",
        EvidenceSourceKind::ManualReviewNote => "manual_review_note",
        EvidenceSourceKind::AuditEvent => "audit_event",
    }
}

pub fn evidence_source_kind_from_db(value: &str) -> (r: PgRepositoryResult<EvidenceSourceKind>)
    ensures
        match r {
            Ok(decoded) => evidence_source_kind_from_db_text(value@) == Some(decoded),
            Err(error) => evidence_source_kind_from_db_text(value@) is None && (error matches PostgresRepositoryError::UnknownEvidenceSourceKind(raw) && raw@ == value@),
        },
{
    if str_equals(value, "okr_progress") {
        return Ok(EvidenceSourceKind::OkrProgress);
    }
    if str_equals(value, "lark_minutes") {
        return Ok(EvidenceSourceKind::LarkMinutes);
    }
    if str_equals(value, "lark_doc") {
        return Ok(EvidenceSourceKind::LarkDoc);
    }
    if str_equals(value, "lark_task") {
        return Ok(EvidenceSourceKind::LarkTask);
    }
    if str_equals(value, "lark_calendar") {
        return Ok(EvidenceSourceKind::LarkCalendar);
    }
    if str_equals(value, "lark_im") {
        return Ok(EvidenceSourceKind::LarkIm);
    }
    if str_equals(value, "manual_review_note") {
        return Ok(EvidenceSourceKind::ManualReviewNote);
    }
    if str_equals(value, "audit_event") {
        return Ok(EvidenceSourceKind::AuditEvent);
    }
    Err(PostgresRepositoryError::UnknownEvidenceSourceKind(string_of(value)))
}

/// Decoding the stored text of a `EvidenceSourceKind` gives it back, and a text decodes
/// to a value only when it is that value's stored text.
pub proof fn lemma_evidence_source_kind_codec_round_trip(value: EvidenceSourceKind, text: Seq<char>)
    ensures
        evidence_source_kind_from_db_text(evidence_source_kind_db_text(value)) == Some(value),
        evidence_source_kind_from_db_text(text) == Some(value) ==> evidence_source_kind_db_text(value) == text,
{
    reveal_strlit("okr_progress");
    reveal_strlit("lark_minutes");
    reveal_strlit("lark_doc");
    reveal_strlit("lark_task");
    reveal_strlit("lark_calendar");
    reveal_strlit("lark_im");
    reveal_strlit("manual_review_note");
    reveal_strlit("audit_event");
    assert("okr_progress"@[0] != "lark_minutes"@[0]);
    assert("okr_progress"@.len() != "lark_doc"@.len());
    assert("okr_progress"@.len() != "lark_task"@.len());
    assert("okr_progress"@.len() != "lark_calendar"@.len());
    assert("okr_progress"@.len() != "lark_im"@.len());
    assert("okr_progress"@.len() != "manual_review_note"@.len());
    assert("okr_progress"@.len() != "audit_event"@.len());
    assert("lark_minutes"@.len() != "lark_doc"@.len());
    assert("lark_minutes"@.len() != "lark_task"@.len());
    assert("lark_minutes"@.len() != "lark_calendar"@.len());
    assert("lark_minutes"@.len() != "lark_im"@.len());
    assert("lark_minutes"@.len() != "manual_review_note"@.len());
    assert("lark_minutes"@.len() != "audit_event"@.len());
    assert("lark_doc"@.len() != "lark_task"@.len());
    assert("lark_doc"@.len() != "lark_calendar"@.len());
    assert("lark_doc"@.len() != "lark_im"@.len());
    assert("lark_doc"@.len() != "manual_review_note"@.len());
    assert("lark_doc"@.len() != "audit_event"@.len());
    assert("lark_task"@.len() != "lark_calendar"@.len());
    assert("lark_task"@.len() != "lark_im"@.len());
    assert("lark_task"@.len() != "manual_review_note"@.len());
    assert("lark_task"@.len() != "audit_event"@.len());
    assert("lark_calendar"@.len() != "lark_im"@.len());
    assert("lark_calendar"@.len() != "manual_review_note"@.len());
    assert("lark_calendar"@.len() != "audit_event"@.len());
    assert("lark_im"@.len() != "manual_review_note"@.len());
    assert("lark_im"@.len() != "audit_event"@.len());
    assert("manual_review_note"@.len() != "audit_event"@.len());
}

/// The stored text of each `EvidenceVisibilityScope`.
pub open spec fn evidence_visibility_scope_db_text(value: EvidenceVisibilityScope) -> Seq<char> {
    match value {
        EvidenceVisibilityScope::Tenant => "tenant"@,
        EvidenceVisibilityScope::Team => "team"@,
        EvidenceVisibilityScope::User => "user"@,
    }
}

/// The `EvidenceVisibilityScope` stored as `text`, if any.
pub open spec fn evidence_visibility_scope_from_db_text(text: Seq<char>) -> Option<EvidenceVisibilityScope> {
    if text == "tenant"@ {
        Some(EvidenceVisibilityScope::Tenant)
    } else if text == "team"@ {
        Some(EvidenceVisibilityScope::Team)
    } else if text == "user"@ {
        Some(EvidenceVisibilityScope::User)
    } else {
        None
    }
}

pub fn evidence_visibility_scope_to_db(value: &EvidenceVisibilityScope) -> (r: &'static str)
    ensures
        r@ == evidence_visibility_scope_db_text(*value),
{
    match value {
        EvidenceVisibilityScope::Tenant => "tenant",
        EvidenceVisibilityScope::Team => "team",
        EvidenceVisibilityScope::User => "user",
    }
}

pub fn evidence_visibility_scope_from_db(value: &str) -> (r: PgRepositoryResult<EvidenceVisibilityScope>)
    ensures
        match r {
            Ok(decoded) => evidence_visibility_scope_from_db_text(value@) == Some(decoded),
            Err(error) => evidence_visibility_scope_from_db_text(value@) is None && (error matches PostgresRepositoryError::UnknownEvidenceVisibilityScope(raw) && raw@ == value@),
        },
{
    if str_equals(value, "tenant") {
        return Ok(EvidenceVisibilityScope::Tenant);
    }
    if str_equals(value, "team") {
        return Ok(EvidenceVisibilityScope::Team);
    }
    if str_equals(value, "user") {
        return Ok(EvidenceVisibilityScope::User);
    }
    Err(PostgresRepositoryError::UnknownEvidenceVisibilityScope(string_of(value)))
}

/// Decoding the stored text of a `EvidenceVisibilityScope` gives it back, and a text decodes
/// to a value only when it is that value's stored text.
pub proof fn lemma_evidence_visibility_scope_codec_round_trip(value: EvidenceVisibilityScope, text: Seq<char>)
    ensures
        evidence_visibility_scope_from_db_text(evidence_visibility_scope_db_text(value)) == Some(value),
        evidence_visibility_scope_from_db_text(text) == Some(value) ==> evidence_visibility_scope_db_text(value) == text,
{
    reveal_strlit("tenant");
    reveal_strlit("team");
    reveal_strlit("user");
    assert("tenant"@.len() != "team"@.len());
    assert("tenant"@.len() != "user"@.len());
    assert("team"@[0] != "user"@[0]);
}

/// The stored text of each `ProposedActionStatus`.
pub open spec fn proposed_action_status_db_text(value: ProposedActionStatus) -> Seq<char> {
    match value {
        ProposedActionStatus::Draft => "draft"@,
        ProposedActionStatus::Published => "published"@,
        ProposedActionStatus::Superseded => "superseded"@,
        ProposedActionStatus::Withdrawn => "withdrawn"@,
    }
}

/// The `ProposedActionStatus` stored as `text`, if any.
pub open spec fn proposed_action_status_from_db_text(text: Seq<char>) -> Option<ProposedActionStatus> {
    if text == "draft"@ {
        Some(ProposedActionStatus::Draft)
    } else if text == "published"@ {
        Some(ProposedActionStatus::Published)
    } else if text == "superseded"@ {
        Some(ProposedActionStatus::Superseded)
    } else if text == "withdrawn"@ {
        Some(ProposedActionStatus::Withdrawn)
    } else {
        None
    }
}

pub fn proposed_action_status_to_db(value: &ProposedActionStatus) -> (r: &'static str)
    ensures
        r@ == proposed_action_status_db_text(*value),
{
    match value {
        ProposedActionStatus::Draft => "draft",
        ProposedActionStatus::Published => "published",
        ProposedActionStatus::Superseded => "superseded",
        ProposedActionStatus::Withdrawn => "withdrawn",
    }
}

pub fn proposed_action_status_from_db(value: &str) -> (r: PgRepositoryResult<ProposedActionStatus>)
    ensures
        match r {
            Ok(decoded) => proposed_action_status_from_db_text(value@) == Some(decoded),
            Err(error) => proposed_action_status_from_db_text(value@) is None && (error matches PostgresRepositoryError::UnknownProposedActionStatus(raw) && raw@ == value@),
        },
{
    if str_equals(value, "draft") {
        return Ok(ProposedActionStatus::Draft);
    }
    if str_equals(value, "published") {
        return Ok(ProposedActionStatus::Published);
    }
    if str_equals(value, "superseded") {
        return Ok(ProposedActionStatus::Superseded);
    }
    if str_equals(value, "withdrawn") {
        return Ok(ProposedActionStatus::Withdrawn);
    }
    Err(PostgresRepositoryError::UnknownProposedActionStatus(string_of(value)))
}

/// Decoding the stored text of a `ProposedActionStatus` gives it back, and a text decodes
/// to a value only when it is that value's stored text.
pub proof fn lemma_proposed_action_status_codec_round_trip(value: ProposedActionStatus, text: Seq<char>)
    ensures
        proposed_action_status_from_db_text(proposed_action_status_db_text(value)) == Some(value),
        proposed_action_status_from_db_text(text) == Some(value) ==> proposed_action_status_db_text(value) == text,
{
    reveal_strlit("draft");
    reveal_strlit("published");
    reveal_strlit("superseded");
    reveal_strlit("withdrawn");
    assert("draft"@.len() != "published"@.len());
    assert("draft"@.len() != "superseded"@.len());
    assert("draft"@.len() != "withdrawn"@.len());
    assert("published"@.len() != "superseded"@.len());
    assert("published"@[0] != "withdrawn"@[0]);
    assert("superseded"@.len() != "withdrawn"@.len());
}

/// The stored text of each `RiskSeverity`.
pub open spec fn risk_severity_db_text(value: RiskSeverity) -> Seq<char> {
    match value {
        RiskSeverity::Low => "low"@,
        RiskSeverity::Medium => "medium"@,
        RiskSeverity::High => "high"@,
        RiskSeverity::Critical => "critical"@,
    }
}

/// The `RiskSeverity` stored as `text`, if any.
pub open spec fn risk_severity_from_db_text(text: Seq<char>) -> Option<RiskSeverity> {
    if text == "low"@ {
        Some(RiskSeverity::Low)
    } else if text == "medium"@ {
        Some(RiskSeverity::Medium)
    } else if text == "high"@ {
        Some(RiskSeverity::High)
    } else if text == "critical"@ {
        Some(RiskSeverity::Critical)
    } else {
        None
    }
}

pub fn risk_severity_to_db(value: &RiskSeverity) -> (r: &'static str)
    ensures
        r@ == risk_severity_db_text(*value),
{
    match value {
        RiskSeverity::Low => "low",
        RiskSeverity::Medium => "medium",
        RiskSeverity::High => "high",
        RiskSeverity::Critical => "critical",
    }
}

pub fn risk_severity_from_db(value: &str) -> (r: PgRepositoryResult<RiskSeverity>)
    ensures
        match r {
            Ok(decoded) => risk_severity_from_db_text(value@) == Some(decoded),
            Err(error) => risk_severity_from_db_text(value@) is None && (error matches PostgresRepositoryError::UnknownRiskSeverity(raw) && raw@ == value@),
        },
{
    if str_equals(value, "low") {
        return Ok(RiskSeverity::Low);
    }
    if str_equals(value, "medium") {
        return Ok(RiskSeverity::Medium);
    }
    if str_equals(value, "high") {
        return Ok(RiskSeverity::High);
    }
    if str_equals(value, "critical") {
        return Ok(RiskSeverity::Critical);
    }
    Err(PostgresRepositoryError::UnknownRiskSeverity(string_of(value)))
}

/// Decoding the stored text of a `RiskSeverity` gives it back, and a text decodes
/// to a value only when it is that value's stored text.
pub proof fn lemma_risk_severity_codec_round_trip(value: RiskSeverity, text: Seq<char>)
    ensures
        risk_severity_from_db_text(risk_severity_db_text(value)) == Some(value),
        risk_severity_from_db_text(text) == Some(value) ==> risk_severity_db_text(value) == text,
{
    reveal_strlit("low");
    reveal_strlit("medium");
    reveal_strlit("high");
    reveal_strlit("critical");
    assert("low"@.len() != "medium"@.len());
    assert("low"@.len() != "high"@.len());
    assert("low"@.len() != "critical"@.len());
    assert("medium"@.len() != "high"@.len());
    assert("medium"@.len() != "critical"@.len());
    assert("high"@.len() != "critical"@.len());
}

/// The stored text of each `ReviewInboxItemStatus`.
pub open spec fn review_inbox_item_status_db_text(value: ReviewInboxItemStatus) -> Seq<char> {
    match value {
        ReviewInboxItemStatus::Open => "open"@,
        ReviewInboxItemStatus::Confirmed => "confirmed"@,
        ReviewInboxItemStatus::Rejected => "rejected"@,
        ReviewInboxItemStatus::Executing => "executing"@,
        ReviewInboxItemStatus::Succeeded => "succeeded"@,
        ReviewInboxItemStatus::Failed => "failed"@,
        ReviewInboxItemStatus::Withdrawn => "withdrawn"@,
    }
}

/// The `ReviewInboxItemStatus` stored as `text`, if any.
pub open spec fn review_inbox_item_status_from_db_text(text: Seq<char>) -> Option<ReviewInboxItemStatus> {
    if text == "open"@ {
        Some(ReviewInboxItemStatus::Open)
    } else if text == "confirmed"@ {
        Some(ReviewInboxItemStatus::Confirmed)
    } else if text == "rejected"@ {
        Some(ReviewInboxItemStatus::Rejected)
    } else if text == "executing"@ {
        Some(ReviewInboxItemStatus::Executing)
    } else if text == "succeeded"@ {
        Some(ReviewInboxItemStatus::Succeeded)
    } else if text == "failed"@ {
        Some(ReviewInboxItemStatus::Failed)
    } else if text == "withdrawn"@ {
        Some(ReviewInboxItemStatus::Withdrawn)
    } else {
        None
    }
}

pub fn review_inbox_item_status_to_db(value: &ReviewInboxItemStatus) -> (r: &'static str)
    ensures
        r@ == review_inbox_item_status_db_text(*value),
{
    match value {
        ReviewInboxItemStatus::Open => "open",
        ReviewInboxItemStatus::Confirmed => "confirmed",
        ReviewInboxItemStatus::Rejected => "rejected",
        ReviewInboxItemStatus::Executing => "executing",
        ReviewInboxItemStatus::Succeeded => "succeeded",
        ReviewInboxItemStatus::Failed => "failed",
        ReviewInboxItemStatus::Withdrawn => "withdrawn",
    }
}

pub fn review_inbox_item_status_from_db(value: &str) -> (r: PgRepositoryResult<ReviewInboxItemStatus>)
    ensures
        match r {
            Ok(decoded) => review_inbox_item_status_from_db_text(value@) == Some(decoded),
            Err(error) => review_inbox_item_status_from_db_text(value@) is None && (error matches PostgresRepositoryError::UnknownReviewInboxItemStatus(raw) && raw@ == value@),
        },
{
    if str_equals(value, "open") {
        return Ok(ReviewInboxItemStatus::Open);
    }
    if str_equals(value, "confirmed") {
        return Ok(ReviewInboxItemStatus::Confirmed);
    }
    if str_equals(value, "rejected") {
        return Ok(ReviewInboxItemStatus::Rejected);
    }
    if str_equals(value, "executing") {
        return Ok(ReviewInboxItemStatus::Executing);
    }
    if str_equals(value, "succeeded") {
        return Ok(ReviewInboxItemStatus::Succeeded);
    }
    if str_equals(value, "failed") {
        return Ok(ReviewInboxItemStatus::Failed);
    }
    if str_equals(value, "withdrawn") {
        return Ok(ReviewInboxItemStatus::Withdrawn);
    }
    Err(PostgresRepositoryError::UnknownReviewInboxItemStatus(string_of(value)))
}

/// Decoding the stored text of a `ReviewInboxItemStatus` gives it back, and a text decodes
/// to a value only when it is that value's stored text.
pub proof fn lemma_review_inbox_item_status_codec_round_trip(value: ReviewInboxItemStatus, text: Seq<char>)
    ensures
        review_inbox_item_status_from_db_text(review_inbox_item_status_db_text(value)) == Some(value),
        review_inbox_item_status_from_db_text(text) == Some(value) ==> review_inbox_item_status_db_text(value) == text,
{
    reveal_strlit("open");
    reveal_strlit("confirmed");
    reveal_strlit("rejected");
    reveal_strlit("executing");
    reveal_strlit("succeeded");
    reveal_strlit("failed");
    reveal_strlit("withdrawn");
    assert("open"@.len() != "confirmed"@.len());
    assert("open"@.len() != "rejected"@.len());
    assert("open"@.len() != "executing"@.len());
    assert("open"@.len() != "succeeded"@.len());
    assert("open"@.len() != "failed"@.len());
    assert("open"@.len() != "withdrawn"@.len());
    assert("confirmed"@.len() != "rejected"@.len());
    assert("confirmed"@[0] != "executing"@[0]);
    assert("confirmed"@[0] != "succeeded"@[0]);
    assert("confirmed"@.len() != "failed"@.len());
    assert("confirmed"@[0] != "withdrawn"@[0]);
    assert("rejected"@.len() != "executing"@.len());
    assert("rejected"@.len() != "succeeded"@.len());
    assert("rejected"@.len() != "failed"@.len());
    assert("rejected"@.len() != "withdrawn"@.len());
    assert("executing"@[0] != "succeeded"@[0]);
    assert("executing"@.len() != "failed"@.len());
    assert("executing"@[0] != "withdrawn"@[0]);
    assert("succeeded"@.len() != "failed"@.len());
    assert("succeeded"@[0] != "withdrawn"@[0]);
    assert("failed"@.len() != "withdrawn"@.len());
}

/// The stored text of each `SchedulerJobKind`.
pub open spec fn scheduler_job_kind_db_text(value: SchedulerJobKind) -> Seq<char> {
    match value {
        SchedulerJobKind::TokenRefreshSweep => "token_refresh_sweep"@,
    }
}

/// The `SchedulerJobKind` stored as `text`, if any.
pub open spec fn scheduler_job_kind_from_db_text(text: Seq<char>) -> Option<SchedulerJobKind> {
    if text == "token_refresh_sweep"@ {
        Some(SchedulerJobKind::TokenRefreshSweep)
    } else {
        None
    }
}

pub fn scheduler_job_kind_to_db(value: &SchedulerJobKind) -> (r: &'static str)
    ensures
        r@ == scheduler_job_kind_db_text(*value),
{
    match value {
        SchedulerJobKind::TokenRefreshSweep => "token_refresh_sweep",
    }
}

pub fn scheduler_job_kind_from_db(value: &str) -> (r: PgRepositoryResult<SchedulerJobKind>)
    ensures
        match r {
            Ok(decoded) => scheduler_job_kind_from_db_text(value@) == Some(decoded),
            Err(error) => scheduler_job_kind_from_db_text(value@) is None && (error matches PostgresRepositoryError::UnknownSchedulerJobKind(raw) && raw@ == value@),
        },
{
    if str_equals(value, "token_refresh_sweep") {
        return Ok(SchedulerJobKind::TokenRefreshSweep);
    }
    Err(PostgresRepositoryError::UnknownSchedulerJobKind(string_of(value)))
}

/// Decoding the stored text of a `SchedulerJobKind` gives it back, and a text decodes
/// to a value only when it is that value's stored text.
pub proof fn lemma_scheduler_job_kind_codec_round_trip(value: SchedulerJobKind, text: Seq<char>)
    ensures
        scheduler_job_kind_from_db_text(scheduler_job_kind_db_text(value)) == Some(value),
        scheduler_job_kind_from_db_text(text) == Some(value) ==> scheduler_job_kind_db_text(value) == text,
{
    reveal_strlit("token_refresh_sweep");

}

/// The stored text of each `SchedulerJobStatus`.
pub open spec fn scheduler_job_status_db_text(value: SchedulerJobStatus) -> Seq<char> {
    match value {
        SchedulerJobStatus::Pending => "pending"@,
        SchedulerJobStatus::Running => "running"@,
    }
}

/// The `SchedulerJobStatus` stored as `text`, if any.
pub open spec fn scheduler_job_status_from_db_text(text: Seq<char>) -> Option<SchedulerJobStatus> {
    if text == "pending"@ {
        Some(SchedulerJobStatus::Pending)
    } else if text == "running"@ {
        Some(SchedulerJobStatus::Running)
    } else {
        None
    }
}

pub fn scheduler_job_status_from_db(value: &str) -> (r: PgRepositoryResult<SchedulerJobStatus>)
    ensures
        match r {
            Ok(decoded) => scheduler_job_status_from_db_text(value@) == Some(decoded),
            Err(error) => scheduler_job_status_from_db_text(value@) is None && (error matches PostgresRepositoryError::UnknownSchedulerJobStatus(raw) && raw@ == value@),
        },
{
    if str_equals(value, "pending") {
        return Ok(SchedulerJobStatus::Pending);
    }
    if str_equals(value, "running") {
        return Ok(SchedulerJobStatus::Running);
    }
    Err(PostgresRepositoryError::UnknownSchedulerJobStatus(string_of(value)))
}

/// Each `SchedulerJobStatus` has exactly one stored text: it decodes to that value, and
/// no other text does.
pub proof fn lemma_scheduler_job_status_stored_text_round_trip(value: SchedulerJobStatus, text: Seq<char>)
    ensures
        scheduler_job_status_from_db_text(scheduler_job_status_db_text(value)) == Some(value),
        scheduler_job_status_from_db_text(text) == Some(value) ==> scheduler_job_status_db_text(value) == text,
{
    reveal_strlit("pending");
    reveal_strlit("running");
    assert("pending"@[0] != "running"@[0]);
}

/// The stored text of each `StoredReviewInboxLedgerStage`.
pub open spec fn review_inbox_ledger_stage_db_text(value: StoredReviewInboxLedgerStage) -> Seq<char> {
    match value {
        StoredReviewInboxLedgerStage::ConfirmedAction => "confirmed_action"@,
        StoredReviewInboxLedgerStage::OperationLedger => "operation_ledger"@,
        StoredReviewInboxLedgerStage::PlatformAdapter => "platform_adapter"@,
        StoredReviewInboxLedgerStage::AuditEvent => "audit_event"@,
    }
}

/// The `StoredReviewInboxLedgerStage` stored as `text`, if any.
pub open spec fn review_inbox_ledger_stage_from_db_text(text: Seq<char>) -> Option<StoredReviewInboxLedgerStage> {
    if text == "confirmed_action"@ {
        Some(StoredReviewInboxLedgerStage::ConfirmedAction)
    } else if text == "operation_ledger"@ {
        Some(StoredReviewInboxLedgerStage::OperationLedger)
    } else if text == "platform_adapter"@ {
        Some(StoredReviewInboxLedgerStage::PlatformAdapter)
    } else if text == "audit_event"@ {
        Some(StoredReviewInboxLedgerStage::AuditEvent)
    } else {
        None
    }
}

pub fn review_inbox_ledger_stage_from_db(value: &str) -> (r: PgRepositoryResult<StoredReviewInboxLedgerStage>)
    ensures
        match r {
            Ok(decoded) => review_inbox_ledger_stage_from_db_text(value@) == Some(decoded),
            Err(error) => review_inbox_ledger_stage_from_db_text(value@) is None && (error matches PostgresRepositoryError::UnknownReviewInboxLedgerStage(raw) && raw@ == value@),
        },
{
    if str_equals(value, "confirmed_action") {
        return Ok(StoredReviewInboxLedgerStage::ConfirmedAction);
    }
    if str_equals(value, "operation_ledger") {
        return Ok(StoredReviewInboxLedgerStage::OperationLedger);
    }
    if str_equals(value, "platform_adapter") {
        return Ok(StoredReviewInboxLedgerStage::PlatformAdapter);
    }
    if str_equals(value, "audit_event") {
        return Ok(StoredReviewInboxLedgerStage::AuditEvent);
    }
    Err(PostgresRepositoryError::UnknownReviewInboxLedgerStage(string_of(value)))
}

/// Each `StoredReviewInboxLedgerStage` has exactly one stored text: it decodes to that value, and
/// no other text does.
pub proof fn lemma_review_inbox_ledger_stage_stored_text_round_trip(value: StoredReviewInboxLedgerStage, text: Seq<char>)
    ensures
        review_inbox_ledger_stage_from_db_text(review_inbox_ledger_stage_db_text(value)) == Some(value),
        review_inbox_ledger_stage_from_db_text(text) == Some(value) ==> review_inbox_ledger_stage_db_text(value) == text,
{
    reveal_strlit("confirmed_action");
    reveal_strlit("operation_ledger");
    reveal_strlit("platform_adapter");
    reveal_strlit("audit_event");
    assert("confirmed_action"@[0] != "operation_ledger"@[0]);
    assert("confirmed_action"@[0] != "platform_adapter"@[0]);
    assert("confirmed_action"@.len() != "audit_event"@.len());
    assert("operation_ledger"@[0] != "platform_adapter"@[0]);
    assert("operation_ledger"@.len() != "audit_event"@.len());
    assert("platform_adapter"@.len() != "audit_event"@.len());
}

/// The stored text of each `StoredReviewInboxLedgerStatus`.
pub open spec fn review_inbox_ledger_status_db_text(value: StoredReviewInboxLedgerStatus) -> Seq<char> {
    match value {
        StoredReviewInboxLedgerStatus::Pending => "pending"@,
        StoredReviewInboxLedgerStatus::Success => "ok"@,
        StoredReviewInboxLedgerStatus::Error => "error"@,
    }
}

/// The `StoredReviewInboxLedgerStatus` stored as `text`, if any.
pub open spec fn review_inbox_ledger_status_from_db_text(text: Seq<char>) -> Option<StoredReviewInboxLedgerStatus> {
    if text == "pending"@ {
        Some(StoredReviewInboxLedgerStatus::Pending)
    } else if text == "ok"@ {
        Some(StoredReviewInboxLedgerStatus::Success)
    } else if text == "error"@ {
        Some(StoredReviewInboxLedgerStatus::Error)
    } else {
        None
    }
}

pub fn review_inbox_ledger_status_from_db(value: &str) -> (r: PgRepositoryResult<StoredReviewInboxLedgerStatus>)
    ensures
        match r {
            Ok(decoded) => review_inbox_ledger_status_from_db_text(value@) == Some(decoded),
            Err(error) => review_inbox_ledger_status_from_db_text(value@) is None && (error matches PostgresRepositoryError::UnknownReviewInboxLedgerStatus(raw) && raw@ == value@),
        },
{
    if str_equals(value, "pending") {
        return Ok(StoredReviewInboxLedgerStatus::Pending);
    }
    if str_equals(value, "ok") {
        return Ok(StoredReviewInboxLedgerStatus::Success);
    }
    if str_equals(value, "error") {
        return Ok(StoredReviewInboxLedgerStatus::Error);
    }
    Err(PostgresRepositoryError::UnknownReviewInboxLedgerStatus(string_of(value)))
}

/// Each `StoredReviewInboxLedgerStatus` has exactly one stored text: it decodes to that value, and
/// no other text does.
pub proof fn lemma_review_inbox_ledger_status_stored_text_round_trip(value: StoredReviewInboxLedgerStatus, text: Seq<char>)
    ensures
        review_inbox_ledger_status_from_db_text(review_inbox_ledger_status_db_text(value)) == Some(value),
        review_inbox_ledger_status_from_db_text(text) == Some(value) ==> review_inbox_ledger_status_db_text(value) == text,
{
    reveal_strlit("pending");
    reveal_strlit("ok");
    reveal_strlit("error");
    assert("pending"@.len() != "ok"@.len());
    assert("pending"@.len() != "error"@.len());
    assert("ok"@.len() != "error"@.len());
}

/// The stored text of each `StoredProposedActionDecisionKind`.
pub open spec fn proposed_action_decision_kind_db_text(value: StoredProposedActionDecisionKind) -> Seq<char> {
    match value {
        StoredProposedActionDecisionKind::Confirm => "confirm"@,
        StoredProposedActionDecisionKind::EditThenConfirm => "edit_then_confirm"@,
        StoredProposedActionDecisionKind::Reject => "reject"@,
    }
}

/// The `StoredProposedActionDecisionKind` stored as `text`, if any.
pub open spec fn proposed_action_decision_kind_from_db_text(text: Seq<char>) -> Option<StoredProposedActionDecisionKind> {
    if text == "confirm"@ {
        Some(StoredProposedActionDecisionKind::Confirm)
    } else if text == "edit_then_confirm"@ {
        Some(StoredProposedActionDecisionKind::EditThenConfirm)
    } else if text == "reject"@ {
        Some(StoredProposedActionDecisionKind::Reject)
    } else {
        None
    }
}

pub fn proposed_action_decision_kind_from_db(value: &str) -> (r: PgRepositoryResult<StoredProposedActionDecisionKind>)
    ensures
        match r {
            Ok(decoded) => proposed_action_decision_kind_from_db_text(value@) == Some(decoded),
            Err(error) => proposed_action_decision_kind_from_db_text(value@) is None && (error matches PostgresRepositoryError::UnknownProposedActionDecision(raw) && raw@ == value@),
        },
{
    if str_equals(value, "confirm") {
        return Ok(StoredProposedActionDecisionKind::Confirm);
    }
    if str_equals(value, "edit_then_confirm") {
        return Ok(StoredProposedActionDecisionKind::EditThenConfirm);
    }
    if str_equals(value, "reject") {
        return Ok(StoredProposedActionDecisionKind::Reject);
    }
    Err(PostgresRepositoryError::UnknownProposedActionDecision(string_of(value)))
}

/// Each `StoredProposedActionDecisionKind` has exactly one stored text: it decodes to that value, and
/// no other text does.
pub proof fn lemma_proposed_action_decision_kind_stored_text_round_trip(value: StoredProposedActionDecisionKind, text: Seq<char>)
    ensures
        proposed_action_decision_kind_from_db_text(proposed_action_decision_kind_db_text(value)) == Some(value),
        proposed_action_decision_kind_from_db_text(text) == Some(value) ==> proposed_action_decision_kind_db_text(value) == text,
{
    reveal_strlit("confirm");
    reveal_strlit("edit_then_confirm");
    reveal_strlit("reject");
    assert("confirm"@.len() != "edit_then_confirm"@.len());
    assert("confirm"@.len() != "reject"@.len());
    assert("edit_then_confirm"@.len() != "reject"@.len());
}

/// The stored kind of a proposed action, with the custom name for custom kinds.
pub open spec fn proposed_action_kind_db_text(value: ProposedActionKind) -> (Seq<char>, Option<Seq<char>>) {
    match value {
        ProposedActionKind::CreateKrProgress => ("create_kr_progress"@, None),
        ProposedActionKind::UpdateKrProgress => ("update_kr_progress"@, None),
        ProposedActionKind::DeleteKrProgressDryRun => ("delete_kr_progress_dry_run"@, None),
        ProposedActionKind::Custom(custom) => ("custom"@, Some(custom@)),
    }
}

pub fn proposed_action_kind_to_db(value: &ProposedActionKind) -> (r: (&'static str, Option<&str>))
    ensures
        r.0@ == proposed_action_kind_db_text(*value).0,
        r.1 is Some == proposed_action_kind_db_text(*value).1 is Some,
        r.1 is Some ==> r.1->0@ == proposed_action_kind_db_text(*value).1->0,
{
    match value {
        ProposedActionKind::CreateKrProgress => ("create_kr_progress", None),
        ProposedActionKind::UpdateKrProgress => ("update_kr_progress", None),
        ProposedActionKind::DeleteKrProgressDryRun => ("delete_kr_progress_dry_run", None),
        ProposedActionKind::Custom(custom) => ("custom", Some(custom.as_str())),
    }
}

/// Decodes a stored kind; a custom kind without a stored name gets the empty name.
pub fn proposed_action_kind_from_db(kind: &str, custom_kind: Option<&str>) -> (r: PgRepositoryResult<ProposedActionKind>)
    ensures
        match r {
            Ok(ProposedActionKind::CreateKrProgress) => kind@ == "create_kr_progress"@,
            Ok(ProposedActionKind::UpdateKrProgress) => kind@ == "update_kr_progress"@,
            Ok(ProposedActionKind::DeleteKrProgressDryRun) => kind@ == "delete_kr_progress_dry_run"@,
            Ok(ProposedActionKind::Custom(custom)) => kind@ == "custom"@ && custom@ == match custom_kind {
                Some(name) => name@,
                None => Seq::<char>::empty(),
            },
            Err(error) => kind@ != "create_kr_progress"@ && kind@ != "update_kr_progress"@
                && kind@ != "delete_kr_progress_dry_run"@ && kind@ != "custom"@
                && (error matches PostgresRepositoryError::UnknownProposedActionKind(raw) && raw@ == kind@),
        },
{
    if str_equals(kind, "create_kr_progress") {
        return Ok(ProposedActionKind::CreateKrProgress);
    }
    if str_equals(kind, "update_kr_progress") {
        return Ok(ProposedActionKind::UpdateKrProgress);
    }
    if str_equals(kind, "delete_kr_progress_dry_run") {
        return Ok(ProposedActionKind::DeleteKrProgressDryRun);
    }
    if str_equals(kind, "custom") {
        let name = match custom_kind {
            Some(name) => string_of(name),
            None => String::new(),
        };
        return Ok(ProposedActionKind::Custom(name));
    }
    Err(PostgresRepositoryError::UnknownProposedActionKind(string_of(kind)))
}

/// The stored decision text, and the edited payload for edit-then-confirm.
pub fn proposed_action_decision_to_db(value: &ProposedActionDecision) -> (r: (&'static str, Option<&serde_json::Value>))
    ensures
        match *value {
            ProposedActionDecision::Confirm => r.0@ == "confirm"@ && r.1 is None,
            ProposedActionDecision::EditThenConfirm { edited_payload } => r.0@ == "edit_then_confirm"@ && r.1 == Some(&edited_payload),
            ProposedActionDecision::Reject => r.0@ == "reject"@ && r.1 is None,
        },
{
    match value {
        ProposedActionDecision::Confirm => ("confirm", None),
        ProposedActionDecision::EditThenConfirm { edited_payload } => ("edit_then_confirm", Some(edited_payload)),
        ProposedActionDecision::Reject => ("reject", None),
    }
}

/// `serde_json::Value::default()`, which the crate's source defines as
/// `Value::Null`. `Value` is opaque here, so nothing is stated of the result.
#[verifier::external_body]
fn json_null() -> (r: serde_json::Value) {
    serde_json::Value::default()
}

/// Decodes a stored decision; an edit-then-confirm decision carries the stored
/// edited payload, or JSON `null` where none was stored.
pub fn proposed_action_decision_from_db(value: &str, edited_payload: Option<serde_json::Value>) -> (r: PgRepositoryResult<ProposedActionDecision>)
    ensures
        match r {
            Ok(ProposedActionDecision::Confirm) => value@ == "confirm"@,
            Ok(ProposedActionDecision::EditThenConfirm { edited_payload: payload }) => value@ == "edit_then_confirm"@
                && (edited_payload matches Some(stored) ==> payload == stored),
            Ok(ProposedActionDecision::Reject) => value@ == "reject"@,
            Err(error) => proposed_action_decision_kind_from_db_text(value@) is None
                && (error matches PostgresRepositoryError::UnknownProposedActionDecision(raw) && raw@ == value@),
        },
{
    if str_equals(value, "confirm") {
        return Ok(ProposedActionDecision::Confirm);
    }
    if str_equals(value, "edit_then_confirm") {
        let payload = match edited_payload {
            Some(stored) => stored,
            None => json_null(),
        };
        return Ok(ProposedActionDecision::EditThenConfirm { edited_payload: payload });
    }
    if str_equals(value, "reject") {
        return Ok(ProposedActionDecision::Reject);
    }
    Err(PostgresRepositoryError::UnknownProposedActionDecision(string_of(value)))
}

} // verus!
