//! Operational recovery: which parked rows an operator is offered, what a
//! confirmed recovery re-reads before it writes, and how each outcome is
//! summarised in the audit trail.
use vstd::prelude::*;

use crate::audit_outbox_payload::{
    payload_acceptable, safe_payload_of, AuditPayloadEntry, AuditPayloadField, AuditPayloadJson,
    SafeAuditOutboxPayload,
};
use crate::domain::{
    ActionStatus, ActorKind, AuditActor, AuditActorKind, AuditEventType, AuditScope, AuditStateSummary,
    AuditSubject, AuditTarget, ConfirmedAction, OperationRecord, ScopeBoundary, SubmitResult,
    TokenGrantState,
};
use crate::redaction::{sanitize_refresh_error_for_storage, sanitized_refresh_error};
use crate::text::{push_signed_decimal, push_str, signed_decimal, str_equals, string_of};

verus! {

/// The next step an operator is offered for a parked row.
#[derive(Debug, Clone, Copy, PartialEq, Eq, Structural)]
pub enum OperationalRecoveryAction {
    RequeueFailedAuditOutbox,
    InspectFailedAuditOutbox,
    AskUserToReauthorize,
    FixFeishuRefreshConfigThenResume,
}

/// A failed audit outbox row, with whether its payload may be sent again.
#[derive(Debug, Clone)]
pub struct FailedAuditOutboxRecoveryItem {
    pub id: i64,
    pub tenant_id: String,
    pub stream: String,
    pub aggregate_id: String,
    pub attempt_count: i32,
    pub created_at_ms: u64,
    pub payload: Option<SafeAuditOutboxPayload>,
    pub payload_safe: bool,
    pub recommended_action: OperationalRecoveryAction,
}

/// A token grant whose refresh is parked, with its redacted reason.
#[derive(Debug, Clone)]
pub struct ParkedTokenGrantRecoveryItem {
    pub grant_id: String,
    pub tenant_id: String,
    pub identity_id: String,
    pub actor_kind: ActorKind,
    pub scope_boundary: ScopeBoundary,
    pub state: TokenGrantState,
    pub safe_error: Option<String>,
    pub refreshed_at_ms: Option<u64>,
    pub reauth_required_at_ms: Option<u64>,
    pub updated_at_ms: u64,
    pub recommended_action: OperationalRecoveryAction,
}

/// What a confirmed recovery restored.
#[derive(Debug, Clone, PartialEq, Eq)]
pub enum OperationalRecoveryExecutionTarget {
    TokenGrantRefresh { grant_id: String },
    AuditOutboxRequeue { outbox_id: i64 },
}

/// The two recoveries an operator can confirm.
#[derive(Debug, Clone, Copy, PartialEq, Eq, Structural)]
pub enum OperationalRecoveryKindTag {
    ResumePausedAuthRefresh,
    RequeueFailedAuditOutbox,
}

/// What re-reading the live row before the write found.
#[derive(Debug, Clone, PartialEq, Eq)]
pub enum RecoveryDryRunOutcome {
    Eligible(String),
    UnsafePayload(String),
    Missing,
}

/// Why a confirmed recovery stopped without writing.
#[derive(Debug, Clone, Copy, PartialEq, Eq, Structural)]
pub enum RecoveryFailure {
    NoEligibleGrant,
    ResumeConflict,
    NoEligibleOutbox,
    UnsafeOutboxPayload,
    OutboxConflict,
}

/// The outbox stream recovery events are published on.
pub const RECOVERY_OUTBOX_STREAM: &'static str = "audit-events";

/// A duplicate submission whose operation already started or finished is
/// answered from the ledger without running again.
pub open spec fn recovery_terminal_or_inflight(status: ActionStatus) -> bool {
    status == ActionStatus::Executing || status == ActionStatus::Succeeded || status
        == ActionStatus::Failed || status == ActionStatus::Cancelled
}

pub fn is_recovery_terminal_or_inflight(status: ActionStatus) -> (r: bool)
    ensures
        r == recovery_terminal_or_inflight(status),
{
    match status {
        ActionStatus::Executing | ActionStatus::Succeeded | ActionStatus::Failed
        | ActionStatus::Cancelled => true,
        _ => false,
    }
}

/// The record, and whether the submission was a duplicate.
pub fn recovery_submit_result_parts(result: SubmitResult) -> (r: (OperationRecord, bool))
    ensures
        match result {
            SubmitResult::Created(record) => r == (record, false),
            SubmitResult::Existing(record) => r == (record, true),
        },
{
    match result {
        SubmitResult::Created(record) => (record, false),
        SubmitResult::Existing(record) => (record, true),
    }
}

/// Whether a submission ends the recovery at once: it was a duplicate and
/// the operation is already running or finished.
pub fn recovery_submission_short_circuits(duplicate: bool, status: ActionStatus) -> (r: bool)
    ensures
        r == (duplicate && recovery_terminal_or_inflight(status)),
{
    duplicate && is_recovery_terminal_or_inflight(status)
}

/// A failed outbox row may be requeued when its payload is safe and it
/// belongs to the audit event stream.
pub open spec fn outbox_requeue_recommended(payload_safe: bool, stream: Seq<char>) -> bool {
    payload_safe && stream == "audit-events"@
}

/// The recovery view of a failed outbox row: its payload when safe, and the
/// action to recommend.
pub fn failed_outbox_recovery_item(
    id: i64,
    tenant_id: String,
    stream: String,
    aggregate_id: String,
    payload: &AuditPayloadJson,
    attempt_count: i32,
    created_at_ms: u64,
) -> (r: FailedAuditOutboxRecoveryItem)
    ensures
        r.id == id,
        r.tenant_id == tenant_id,
        r.stream == stream,
        r.aggregate_id == aggregate_id,
        r.attempt_count == attempt_count,
        r.created_at_ms == created_at_ms,
        r.payload_safe == payload_acceptable(*payload),
        r.payload is Some == r.payload_safe,
        r.payload matches Some(safe) ==> (*payload matches AuditPayloadJson::Object(entries)
            && safe_payload_of(safe, entries@)),
        r.recommended_action == if outbox_requeue_recommended(r.payload_safe, stream@) {
            OperationalRecoveryAction::RequeueFailedAuditOutbox
        } else {
            OperationalRecoveryAction::InspectFailedAuditOutbox
        },
{
    let safe = match SafeAuditOutboxPayload::try_from(payload) {
        Ok(safe) => Some(safe),
        Err(_) => None,
    };
    let payload_safe = safe.is_some();
    let can_requeue = payload_safe && str_equals(stream.as_str(), RECOVERY_OUTBOX_STREAM);
    FailedAuditOutboxRecoveryItem {
        id,
        tenant_id,
        stream,
        aggregate_id,
        attempt_count,
        created_at_ms,
        payload: safe,
        payload_safe,
        recommended_action: if can_requeue {
            OperationalRecoveryAction::RequeueFailedAuditOutbox
        } else {
            OperationalRecoveryAction::InspectFailedAuditOutbox
        },
    }
}

/// A grant waiting for its user is sent to reauthorize; any other parked
/// grant needs its refresh configuration fixed.
pub open spec fn parked_grant_recommendation(state: TokenGrantState) -> OperationalRecoveryAction {
    if state == TokenGrantState::ReauthRequired {
        OperationalRecoveryAction::AskUserToReauthorize
    } else {
        OperationalRecoveryAction::FixFeishuRefreshConfigThenResume
    }
}

/// The recovery view of a parked grant; its stored reason is redacted again
/// before anyone sees it.
pub fn parked_token_grant_recovery_item(
    grant_id: String,
    tenant_id: String,
    identity_id: String,
    actor_kind: ActorKind,
    scope_boundary: ScopeBoundary,
    state: TokenGrantState,
    last_refresh_error: Option<String>,
    refreshed_at_ms: Option<u64>,
    reauth_required_at_ms: Option<u64>,
    updated_at_ms: u64,
) -> (r: ParkedTokenGrantRecoveryItem)
    ensures
        r.grant_id == grant_id,
        r.tenant_id == tenant_id,
        r.identity_id == identity_id,
        r.actor_kind == actor_kind,
        r.scope_boundary == scope_boundary,
        r.state == state,
        r.refreshed_at_ms == refreshed_at_ms,
        r.reauth_required_at_ms == reauth_required_at_ms,
        r.updated_at_ms == updated_at_ms,
        r.safe_error is Some == last_refresh_error is Some,
        r.safe_error is Some ==> r.safe_error->0@ == sanitized_refresh_error(
            last_refresh_error->0@,
        ),
        r.recommended_action == parked_grant_recommendation(state),
{
    let safe_error = match &last_refresh_error {
        Some(error) => Some(sanitize_refresh_error_for_storage(error.as_str())),
        None => None,
    };
    let recommended_action = match state {
        TokenGrantState::ReauthRequired => OperationalRecoveryAction::AskUserToReauthorize,
        _ => OperationalRecoveryAction::FixFeishuRefreshConfigThenResume,
    };
    ParkedTokenGrantRecoveryItem {
        grant_id,
        tenant_id,
        identity_id,
        actor_kind,
        scope_boundary,
        state,
        safe_error,
        refreshed_at_ms,
        reauth_required_at_ms,
        updated_at_ms,
        recommended_action,
    }
}

/// `audit_outbox:{id}`, the reference id of an outbox row.
pub open spec fn outbox_reference(outbox_id: i64) -> Seq<char> {
    "audit_outbox:"@ + signed_decimal(outbox_id as int)
}

pub fn outbox_reference_id(outbox_id: i64) -> (r: String)
    ensures
        r@ == outbox_reference(outbox_id),
{
    let mut s = string_of("audit_outbox:");
    push_signed_decimal(&mut s, outbox_id);
    s
}

/// What the requeue dry run found: no failed row at the expected attempt,
/// a row whose payload fails validation, or an eligible row.
pub fn requeue_dry_run_outcome(outbox_id: i64, eligible: bool, payload_safe: bool) -> (r:
    RecoveryDryRunOutcome)
    ensures
        !eligible ==> r == RecoveryDryRunOutcome::Missing,
        eligible && payload_safe ==> (r matches RecoveryDryRunOutcome::Eligible(reference)
            && reference@ == outbox_reference(outbox_id)),
        eligible && !payload_safe ==> (r matches RecoveryDryRunOutcome::UnsafePayload(reference)
            && reference@ == outbox_reference(outbox_id)),
{
    if !eligible {
        RecoveryDryRunOutcome::Missing
    } else if payload_safe {
        RecoveryDryRunOutcome::Eligible(outbox_reference_id(outbox_id))
    } else {
        RecoveryDryRunOutcome::UnsafePayload(outbox_reference_id(outbox_id))
    }
}

/// Why a resume stops after its dry run, if it does.
pub fn resume_precheck_failure(eligible: bool) -> (r: Option<RecoveryFailure>)
    ensures
        r == if eligible { None::<RecoveryFailure> } else { Some(RecoveryFailure::NoEligibleGrant) },
{
    if eligible {
        None
    } else {
        Some(RecoveryFailure::NoEligibleGrant)
    }
}

/// What the resume write found: the grant it resumed, or a grant that changed
/// after the dry run locked it.
pub fn resume_write_result(resumed_grant_id: Option<String>) -> (r: Result<
    OperationalRecoveryExecutionTarget,
    RecoveryFailure,
>)
    ensures
        match resumed_grant_id {
            Some(id) => r == Ok::<OperationalRecoveryExecutionTarget, RecoveryFailure>(
                OperationalRecoveryExecutionTarget::TokenGrantRefresh { grant_id: id },
            ),
            None => r == Err::<OperationalRecoveryExecutionTarget, RecoveryFailure>(
                RecoveryFailure::ResumeConflict,
            ),
        },
{
    match resumed_grant_id {
        Some(grant_id) => Ok(OperationalRecoveryExecutionTarget::TokenGrantRefresh { grant_id }),
        None => Err(RecoveryFailure::ResumeConflict),
    }
}

/// What the requeue write found: the outbox row it reopened, or a row that
/// changed after the dry run locked it.
pub fn requeue_write_result(reopened_outbox_id: Option<i64>) -> (r: Result<
    OperationalRecoveryExecutionTarget,
    RecoveryFailure,
>)
    ensures
        match reopened_outbox_id {
            Some(id) => r == Ok::<OperationalRecoveryExecutionTarget, RecoveryFailure>(
                OperationalRecoveryExecutionTarget::AuditOutboxRequeue { outbox_id: id },
            ),
            None => r == Err::<OperationalRecoveryExecutionTarget, RecoveryFailure>(
                RecoveryFailure::OutboxConflict,
            ),
        },
{
    match reopened_outbox_id {
        Some(outbox_id) => Ok(OperationalRecoveryExecutionTarget::AuditOutboxRequeue { outbox_id }),
        None => Err(RecoveryFailure::OutboxConflict),
    }
}

/// Why a requeue stops after its dry run, if it does.
pub fn requeue_precheck_failure(eligible: bool, payload_safe: bool) -> (r: Option<RecoveryFailure>)
    ensures
        r == if !eligible {
            Some(RecoveryFailure::NoEligibleOutbox)
        } else if !payload_safe {
            Some(RecoveryFailure::UnsafeOutboxPayload)
        } else {
            None::<RecoveryFailure>
        },
{
    if !eligible {
        Some(RecoveryFailure::NoEligibleOutbox)
    } else if !payload_safe {
        Some(RecoveryFailure::UnsafeOutboxPayload)
    } else {
        None
    }
}

/// What the resume dry run found: the eligible grant, or nothing.
pub fn resume_dry_run_outcome(eligible_grant_id: Option<String>) -> (r: RecoveryDryRunOutcome)
    ensures
        match eligible_grant_id {
            Some(id) => r == RecoveryDryRunOutcome::Eligible(id),
            None => r == RecoveryDryRunOutcome::Missing,
        },
{
    match eligible_grant_id {
        Some(id) => RecoveryDryRunOutcome::Eligible(id),
        None => RecoveryDryRunOutcome::Missing,
    }
}

/// The error code a failed recovery records.
pub open spec fn recovery_failure_code_text(failure: RecoveryFailure) -> Seq<char> {
    match failure {
        RecoveryFailure::NoEligibleGrant => "operational_recovery_no_eligible_grant"@,
        RecoveryFailure::ResumeConflict => "operational_recovery_resume_conflict"@,
        RecoveryFailure::NoEligibleOutbox => "operational_recovery_no_eligible_outbox"@,
        RecoveryFailure::UnsafeOutboxPayload => "operational_recovery_unsafe_outbox_payload"@,
        RecoveryFailure::OutboxConflict => "operational_recovery_outbox_conflict"@,
    }
}

/// The message a failed recovery records.
pub open spec fn recovery_failure_message_text(failure: RecoveryFailure) -> Seq<char> {
    match failure {
        RecoveryFailure::NoEligibleGrant => "no eligible paused auth refresh grant matched the confirmed recovery request"@,
        RecoveryFailure::ResumeConflict => "paused auth refresh grant changed before recovery could resume it"@,
        RecoveryFailure::NoEligibleOutbox => "no eligible failed audit outbox matched the confirmed recovery request"@,
        RecoveryFailure::UnsafeOutboxPayload => "failed audit outbox payload did not pass safety validation"@,
        RecoveryFailure::OutboxConflict => "failed audit outbox changed before recovery could requeue it"@,
    }
}

/// The error code and message a failed recovery records.
pub fn recovery_failure_code_and_message(failure: RecoveryFailure) -> (r: (&'static str, &'static str))
    ensures
        r.0@ == recovery_failure_code_text(failure),
        r.1@ == recovery_failure_message_text(failure),
{
    match failure {
        RecoveryFailure::NoEligibleGrant => (
            "operational_recovery_no_eligible_grant",
            "no eligible paused auth refresh grant matched the confirmed recovery request",
        ),
        RecoveryFailure::ResumeConflict => (
            "operational_recovery_resume_conflict",
            "paused auth refresh grant changed before recovery could resume it",
        ),
        RecoveryFailure::NoEligibleOutbox => (
            "operational_recovery_no_eligible_outbox",
            "no eligible failed audit outbox matched the confirmed recovery request",
        ),
        RecoveryFailure::UnsafeOutboxPayload => (
            "operational_recovery_unsafe_outbox_payload",
            "failed audit outbox payload did not pass safety validation",
        ),
        RecoveryFailure::OutboxConflict => (
            "operational_recovery_outbox_conflict",
            "failed audit outbox changed before recovery could requeue it",
        ),
    }
}

/// Who the recovery's audit trail speaks of: the confirming user, in the
/// action's tenant, acting on the recovery action itself.
pub fn recovery_audit_subject(action: &ConfirmedAction, action_type: &str) -> (r: AuditSubject)
    ensures
        r.actor.kind == AuditActorKind::User,
        r.actor.actor_id@ == action.actor_user_id@,
        r.actor.display_name is None,
        r.scope.tenant_id@ == action.tenant_id@,
        r.scope.workspace_id is None,
        r.target.resource_type@ == "operational_recovery"@,
        r.target.resource_id@ == action.action_id@,
        r.target.action_type@ == action_type@,
{
    AuditSubject {
        actor: AuditActor {
            kind: AuditActorKind::User,
            actor_id: action.actor_user_id.clone(),
            display_name: None,
        },
        scope: AuditScope { tenant_id: action.tenant_id.clone(), workspace_id: None },
        target: AuditTarget {
            resource_type: string_of("operational_recovery"),
            resource_id: action.action_id.clone(),
            action_type: string_of(action_type),
        },
    }
}

fn summary_of(text: &str, reference_ids: Vec<String>) -> (r: AuditStateSummary)
    ensures
        r.summary@ == text@,
        r.reference_ids == reference_ids,
        r.content_hash is None,
{
    AuditStateSummary { summary: string_of(text), reference_ids, content_hash: None }
}

/// The after-summary of a recovery dry run. `target_reference_ids` are the
/// references of the requested target, used when nothing matched.
pub open spec fn dry_run_summary_text(kind: OperationalRecoveryKindTag, outcome: RecoveryDryRunOutcome) -> Seq<char> {
    match (kind, outcome) {
        (OperationalRecoveryKindTag::ResumePausedAuthRefresh, RecoveryDryRunOutcome::Eligible(_)) => "paused auth refresh grant is eligible for recovery resume"@,
        (OperationalRecoveryKindTag::ResumePausedAuthRefresh, RecoveryDryRunOutcome::UnsafePayload(_)) => "paused auth refresh grant matched an unsafe recovery state"@,
        (OperationalRecoveryKindTag::ResumePausedAuthRefresh, RecoveryDryRunOutcome::Missing) => "no eligible paused auth refresh grant matched the recovery request"@,
        (OperationalRecoveryKindTag::RequeueFailedAuditOutbox, RecoveryDryRunOutcome::Eligible(_)) => "failed audit outbox is eligible for recovery requeue"@,
        (OperationalRecoveryKindTag::RequeueFailedAuditOutbox, RecoveryDryRunOutcome::UnsafePayload(_)) => "failed audit outbox matched but payload did not pass safety validation"@,
        (OperationalRecoveryKindTag::RequeueFailedAuditOutbox, RecoveryDryRunOutcome::Missing) => "no eligible failed audit outbox matched the recovery request"@,
    }
}

pub fn recovery_dry_run_after_summary(
    kind: OperationalRecoveryKindTag,
    outcome: RecoveryDryRunOutcome,
    target_reference_ids: Vec<String>,
) -> (r: AuditStateSummary)
    ensures
        r.summary@ == dry_run_summary_text(kind, outcome),
        r.content_hash is None,
        match outcome {
            RecoveryDryRunOutcome::Eligible(reference) => r.reference_ids@ == seq![reference],
            RecoveryDryRunOutcome::UnsafePayload(reference) => r.reference_ids@ == seq![reference],
            RecoveryDryRunOutcome::Missing => r.reference_ids == target_reference_ids,
        },
{
    let text = match (kind, &outcome) {
        (OperationalRecoveryKindTag::ResumePausedAuthRefresh, RecoveryDryRunOutcome::Eligible(_)) => "paused auth refresh grant is eligible for recovery resume",
        (OperationalRecoveryKindTag::ResumePausedAuthRefresh, RecoveryDryRunOutcome::UnsafePayload(_)) => "paused auth refresh grant matched an unsafe recovery state",
        (OperationalRecoveryKindTag::ResumePausedAuthRefresh, RecoveryDryRunOutcome::Missing) => "no eligible paused auth refresh grant matched the recovery request",
        (OperationalRecoveryKindTag::RequeueFailedAuditOutbox, RecoveryDryRunOutcome::Eligible(_)) => "failed audit outbox is eligible for recovery requeue",
        (OperationalRecoveryKindTag::RequeueFailedAuditOutbox, RecoveryDryRunOutcome::UnsafePayload(_)) => "failed audit outbox matched but payload did not pass safety validation",
        (OperationalRecoveryKindTag::RequeueFailedAuditOutbox, RecoveryDryRunOutcome::Missing) => "no eligible failed audit outbox matched the recovery request",
    };
    let reference_ids = match outcome {
        RecoveryDryRunOutcome::Eligible(reference) => {
            let mut ids: Vec<String> = Vec::new();
            ids.push(reference);
            ids
        },
        RecoveryDryRunOutcome::UnsafePayload(reference) => {
            let mut ids: Vec<String> = Vec::new();
            ids.push(reference);
            ids
        },
        RecoveryDryRunOutcome::Missing => target_reference_ids,
    };
    summary_of(text, reference_ids)
}

/// The summary of the event that records a newly confirmed recovery.
pub fn recovery_confirmed_summary(action_id: &str, target_reference_ids: Vec<String>) -> (r:
    AuditStateSummary)
    ensures
        r.summary@ == "confirmed operational recovery "@ + action_id@,
        r.reference_ids == target_reference_ids,
        r.content_hash is None,
{
    let mut summary = string_of("confirmed operational recovery ");
    push_str(&mut summary, action_id);
    AuditStateSummary { summary, reference_ids: target_reference_ids, content_hash: None }
}

/// The before-summary every recovery dry run and failure records.
pub fn recovery_reread_summary(target_reference_ids: Vec<String>) -> (r: AuditStateSummary)
    ensures
        r.summary@ == "operational recovery request re-read live state before write"@,
        r.reference_ids == target_reference_ids,
        r.content_hash is None,
{
    summary_of("operational recovery request re-read live state before write", target_reference_ids)
}

/// The summaries and execution key of a successful recovery.
pub struct RecoverySuccessSummary {
    pub before: AuditStateSummary,
    pub after: AuditStateSummary,
    pub execution_key: String,
}

pub fn recovery_succeeded_summary(target: &OperationalRecoveryExecutionTarget) -> (r:
    RecoverySuccessSummary)
    ensures
        match *target {
            OperationalRecoveryExecutionTarget::TokenGrantRefresh { grant_id } => {
                &&& r.before.summary@ == "paused auth refresh grant had a recoverable safe refresh blocker"@
                &&& r.after.summary@ == "paused auth refresh blocker was cleared; scheduler can re-evaluate the grant"@
                &&& r.before.reference_ids@.len() == 1 && r.before.reference_ids@[0]@ == grant_id@
                &&& r.after.reference_ids@.len() == 1 && r.after.reference_ids@[0]@ == grant_id@
                &&& r.execution_key@ == "operational-recovery:resume-paused-auth-refresh:"@ + grant_id@
            },
            OperationalRecoveryExecutionTarget::AuditOutboxRequeue { outbox_id } => {
                &&& r.before.summary@ == "failed audit outbox had a recoverable safe delivery blocker"@
                &&& r.after.summary@ == "failed audit outbox was reopened for delivery; worker can retry the same row"@
                &&& r.before.reference_ids@.len() == 1 && r.before.reference_ids@[0]@ == outbox_reference(outbox_id)
                &&& r.after.reference_ids@.len() == 1 && r.after.reference_ids@[0]@ == outbox_reference(outbox_id)
                &&& r.execution_key@ == "operational-recovery:requeue-failed-audit-outbox:"@ + signed_decimal(outbox_id as int)
            },
        },
        r.before.content_hash is None,
        r.after.content_hash is None,
{
    match target {
        OperationalRecoveryExecutionTarget::TokenGrantRefresh { grant_id } => {
            let mut before_ids: Vec<String> = Vec::new();
            before_ids.push(grant_id.clone());
            let mut after_ids: Vec<String> = Vec::new();
            after_ids.push(grant_id.clone());
            let mut key = string_of("operational-recovery:resume-paused-auth-refresh:");
            push_str(&mut key, grant_id.as_str());
            RecoverySuccessSummary {
                before: summary_of(
                    "paused auth refresh grant had a recoverable safe refresh blocker",
                    before_ids,
                ),
                after: summary_of(
                    "paused auth refresh blocker was cleared; scheduler can re-evaluate the grant",
                    after_ids,
                ),
                execution_key: key,
            }
        },
        OperationalRecoveryExecutionTarget::AuditOutboxRequeue { outbox_id } => {
            let mut before_ids: Vec<String> = Vec::new();
            before_ids.push(outbox_reference_id(*outbox_id));
            let mut after_ids: Vec<String> = Vec::new();
            after_ids.push(outbox_reference_id(*outbox_id));
            let mut key = string_of("operational-recovery:requeue-failed-audit-outbox:");
            push_signed_decimal(&mut key, *outbox_id);
            RecoverySuccessSummary {
                before: summary_of(
                    "failed audit outbox had a recoverable safe delivery blocker",
                    before_ids,
                ),
                after: summary_of(
                    "failed audit outbox was reopened for delivery; worker can retry the same row",
                    after_ids,
                ),
                execution_key: key,
            }
        },
    }
}

/// The `kind` every recovery outbox payload carries.
pub const RECOVERY_OUTBOX_KIND: &'static str = "operational_recovery";

/// The name `{:?}` prints for an event type.
pub open spec fn audit_event_type_debug_text(event_type: AuditEventType) -> Seq<char> {
    match event_type {
        AuditEventType::ProposedActionDecisionRecorded => "ProposedActionDecisionRecorded"@,
        AuditEventType::ConfirmedActionRecorded => "ConfirmedActionRecorded"@,
        AuditEventType::DryRunExecuted => "DryRunExecuted"@,
        AuditEventType::ExecutionDenied => "ExecutionDenied"@,
        AuditEventType::ExecutionSucceeded => "ExecutionSucceeded"@,
        AuditEventType::ExecutionFailed => "ExecutionFailed"@,
    }
}

pub fn audit_event_type_debug_name(event_type: AuditEventType) -> (r: &'static str)
    ensures
        r@ == audit_event_type_debug_text(event_type),
{
    match event_type {
        AuditEventType::ProposedActionDecisionRecorded => "ProposedActionDecisionRecorded",
        AuditEventType::ConfirmedActionRecorded => "ConfirmedActionRecorded",
        AuditEventType::DryRunExecuted => "DryRunExecuted",
        AuditEventType::ExecutionDenied => "ExecutionDenied",
        AuditEventType::ExecutionSucceeded => "ExecutionSucceeded",
        AuditEventType::ExecutionFailed => "ExecutionFailed",
    }
}

/// A member `key` whose value is the text `value`.
pub open spec fn is_text_entry(entry: AuditPayloadEntry, key: Seq<char>, value: Seq<char>) -> bool {
    &&& entry.key@ == key
    &&& entry.value is Text
    &&& entry.value->Text_0@ == value
}

fn text_entry(key: &str, value: &str) -> (r: AuditPayloadEntry)
    ensures
        is_text_entry(r, key@, value@),
{
    AuditPayloadEntry { key: string_of(key), value: AuditPayloadField::Text(string_of(value)) }
}

/// The routing payload published for a recovery event: its id, its trace, the
/// name of its type and the recovery kind, in that order.
pub fn recovery_outbox_payload(event_id: &str, trace_id: &str, event_type: AuditEventType) -> (r:
    AuditPayloadJson)
    ensures
        r is Object,
        r->Object_0@.len() == 4,
        is_text_entry(r->Object_0@[0], "event_id"@, event_id@),
        is_text_entry(r->Object_0@[1], "trace_id"@, trace_id@),
        is_text_entry(r->Object_0@[2], "event_type"@, audit_event_type_debug_text(event_type)),
        is_text_entry(r->Object_0@[3], "kind"@, RECOVERY_OUTBOX_KIND@),
{
    let mut entries: Vec<AuditPayloadEntry> = Vec::new();
    entries.push(text_entry("event_id", event_id));
    entries.push(text_entry("trace_id", trace_id));
    entries.push(text_entry("event_type", audit_event_type_debug_name(event_type)));
    entries.push(text_entry("kind", RECOVERY_OUTBOX_KIND));
    AuditPayloadJson::Object(entries)
}

/// A recovery whose submission found the operation already running or
/// finished never reaches its dry run: replaying a confirmed recovery does
/// not write twice.
pub proof fn lemma_replayed_recovery_does_not_rerun(status: ActionStatus)
    requires
        status != ActionStatus::Confirmed,
        status != ActionStatus::Proposed,
    ensures
        recovery_terminal_or_inflight(status),
{
}

} // verus!
