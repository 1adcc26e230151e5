//! The audit trail of a last-device logout: every token grant the logout
//! revoked gets one `execution_succeeded` record, numbered from one in the
//! order the grants were revoked.
use vstd::prelude::*;

use crate::domain::{
    AuditActor, AuditActorKind, AuditEventType, AuditScope, AuditStateSummary, AuditSubject,
    AuditTarget,
};
use crate::text::{decimal, push_decimal, push_str, string_of};

verus! {

/// The resource type the revoke records name.
pub const AUTH_LOGOUT_GRANT_RESOURCE_TYPE: &'static str = "token_grant";

/// A logout that revokes the session and, when it was the user's last active
/// device, the user's grants.
#[derive(Debug, Clone, Copy)]
pub struct PostgresAuthLogoutRevokeRequest<'a> {
    pub tenant_id: &'a str,
    pub user_id: &'a str,
    pub session_id: &'a str,
    pub occurred_at_ms: u64,
    pub revocation_reason: &'a str,
    pub grant_id_hint: Option<&'a str>,
    pub audit_trace_id: &'a str,
    pub audit_action_type: &'a str,
}

/// What the logout revoked.
#[derive(Debug, Clone)]
pub struct PostgresAuthLogoutRevokeReport {
    pub revoked_grant_ids: Vec<String>,
}

/// One revoked grant, as the audit trail records it.
#[derive(Debug, Clone)]
pub struct GrantRevokeAuditRecord {
    pub event_id: String,
    pub trace_id: String,
    pub sequence: u64,
    pub occurred_at_ms: u64,
    pub event_type: AuditEventType,
    pub subject: AuditSubject,
    pub before: AuditStateSummary,
    pub after: AuditStateSummary,
    pub execution_key: String,
}

/// `"{trace}-evt-{sequence}"`.
pub open spec fn revoke_event_id(trace_id: Seq<char>, sequence: nat) -> Seq<char> {
    trace_id + "-evt-"@ + decimal(sequence)
}

/// `"token-grant-revoke:{grant_id}"`.
pub open spec fn revoke_execution_key(grant_id: Seq<char>) -> Seq<char> {
    "token-grant-revoke:"@ + grant_id
}

/// The record of revoking `grant_id` as the `sequence`-th grant of this logout.
pub open spec fn grant_revoke_record_matches(
    r: GrantRevokeAuditRecord,
    request: PostgresAuthLogoutRevokeRequest,
    grant_id: Seq<char>,
    sequence: nat,
) -> bool {
    &&& r.event_id@ == revoke_event_id(request.audit_trace_id@, sequence)
    &&& r.trace_id@ == request.audit_trace_id@
    &&& r.sequence == sequence
    &&& r.occurred_at_ms == request.occurred_at_ms
    &&& r.event_type == AuditEventType::ExecutionSucceeded
    &&& r.subject.actor.kind == AuditActorKind::User
    &&& r.subject.actor.actor_id@ == request.user_id@
    &&& r.subject.actor.display_name is None
    &&& r.subject.scope.tenant_id@ == request.tenant_id@
    &&& r.subject.scope.workspace_id is None
    &&& r.subject.target.resource_type@ == AUTH_LOGOUT_GRANT_RESOURCE_TYPE@
    &&& r.subject.target.resource_id@ == grant_id
    &&& r.subject.target.action_type@ == request.audit_action_type@
    &&& r.before.summary@
        == "Local Feishu token grant was active before last-device logout revoke."@
    &&& r.before.reference_ids@.len() == 0
    &&& r.before.content_hash is None
    &&& r.after.summary@
        == "Local Feishu token grant was revoked after the last active OAR device signed out."@
    &&& r.after.reference_ids@.len() == 0
    &&& r.after.content_hash is None
    &&& r.execution_key@ == revoke_execution_key(grant_id)
}

/// The audit record of revoking `grant_id` as the `sequence`-th grant of the
/// logout described by `request`.
pub fn logout_grant_revoke_audit_event(
    request: &PostgresAuthLogoutRevokeRequest<'_>,
    grant_id: &str,
    sequence: u64,
) -> (r: GrantRevokeAuditRecord)
    ensures
        grant_revoke_record_matches(r, *request, grant_id@, sequence as nat),
{
    let mut event_id = string_of(request.audit_trace_id);
    push_str(&mut event_id, "-evt-");
    push_decimal(&mut event_id, sequence);
    let mut execution_key = string_of("token-grant-revoke:");
    push_str(&mut execution_key, grant_id);
    GrantRevokeAuditRecord {
        event_id,
        trace_id: string_of(request.audit_trace_id),
        sequence,
        occurred_at_ms: request.occurred_at_ms,
        event_type: AuditEventType::ExecutionSucceeded,
        subject: AuditSubject {
            actor: AuditActor {
                kind: AuditActorKind::User,
                actor_id: string_of(request.user_id),
                display_name: None,
            },
            scope: AuditScope { tenant_id: string_of(request.tenant_id), workspace_id: None },
            target: AuditTarget {
                resource_type: string_of(AUTH_LOGOUT_GRANT_RESOURCE_TYPE),
                resource_id: string_of(grant_id),
                action_type: string_of(request.audit_action_type),
            },
        },
        before: AuditStateSummary {
            summary: string_of(
                "Local Feishu token grant was active before last-device logout revoke.",
            ),
            reference_ids: Vec::new(),
            content_hash: None,
        },
        after: AuditStateSummary {
            summary: string_of(
                "Local Feishu token grant was revoked after the last active OAR device signed out.",
            ),
            reference_ids: Vec::new(),
            content_hash: None,
        },
        execution_key,
    }
}

/// Whether a logout revokes the user's grants: only the logout of the last
/// device does, that is when no active session of the user is left once the
/// logged-out session is revoked.
pub fn logout_revokes_grants(remaining_active_sessions: i64) -> (r: bool)
    ensures
        r == (remaining_active_sessions == 0),
{
    remaining_active_sessions == 0
}

/// The audit records of a logout that revoked `revoked_grant_ids`, in that
/// order: the grant at position `i` gets sequence number `i + 1`.
pub fn logout_grant_revoke_audit_events(
    request: &PostgresAuthLogoutRevokeRequest<'_>,
    revoked_grant_ids: &Vec<String>,
) -> (r: Vec<GrantRevokeAuditRecord>)
    ensures
        r@.len() == revoked_grant_ids@.len(),
        forall|i: int|
            0 <= i < r@.len() ==> grant_revoke_record_matches(
                #[trigger] r@[i],
                *request,
                revoked_grant_ids@[i]@,
                (i + 1) as nat,
            ),
{
    let mut records: Vec<GrantRevokeAuditRecord> = Vec::new();
    let mut index: usize = 0;
    while index < revoked_grant_ids.len()
        invariant
            index <= revoked_grant_ids@.len(),
            records@.len() == index,
            forall|i: int|
                0 <= i < index ==> grant_revoke_record_matches(
                    #[trigger] records@[i],
                    *request,
                    revoked_grant_ids@[i]@,
                    (i + 1) as nat,
                ),
        decreases revoked_grant_ids@.len() - index,
    {
        let next: usize = index + 1;
        let sequence: u64 = next as u64;
        let record = logout_grant_revoke_audit_event(
            request,
            revoked_grant_ids[index].as_str(),
            sequence,
        );
        records.push(record);
        index = index + 1;
    }
    records
}

} // verus!
