//! The safe reason of a repository error names its variant and nothing
//! else: distinct variants get distinct reasons, and every reason is a short
//! lowercase identifier.
use vstd::prelude::*;

use crate::error::{safe_error_reason, PostgresRepositoryError};

verus! {

/// A number for each variant of `PostgresRepositoryError`: two errors get the
/// same number exactly when they are of the same variant.
pub open spec fn error_variant(error: PostgresRepositoryError) -> int {
    if error is ActionNotConfirmed {
        0
    } else if error is InvalidExecutionQueueRow {
        1
    } else if error is InvalidOperationStatusTransition {
        2
    } else if error is Json {
        3
    } else if error is LarkIdentityActorExternalBindingConflict {
        4
    } else if error is MissingConfirmedActionForDecision {
        5
    } else if error is MissingConfirmedAtForDecision {
        6
    } else if error is MissingOperationIdForDecision {
        7
    } else if error is NegativeInteger {
        8
    } else if error is ReviewDecisionRequestMismatch {
        9
    } else if error is Sqlx {
        10
    } else if error is TenantMismatch {
        11
    } else if error is TokenRefreshDecisionBridge {
        12
    } else if error is TokenRefreshPlanMismatch {
        13
    } else if error is UnexpectedConfirmedActionForDecision {
        14
    } else if error is UnexpectedOperationIdForDecision {
        15
    } else if error is UnknownActionStatus {
        16
    } else if error is UnknownAuditActorKind {
        17
    } else if error is UnknownAuditEventType {
        18
    } else if error is UnknownDeviceEntryPoint {
        19
    } else if error is UnknownDeviceSessionState {
        20
    } else if error is UnknownEvidenceSourceKind {
        21
    } else if error is UnknownEvidenceVisibilityScope {
        22
    } else if error is UnknownExecutionStatus {
        23
    } else if error is UnknownIdentityActorKind {
        24
    } else if error is UnknownOperationIdempotencyKey {
        25
    } else if error is UnknownProposedActionDecision {
        26
    } else if error is UnknownProposedActionKind {
        27
    } else if error is UnknownProposedActionStatus {
        28
    } else if error is UnknownReviewInboxItemStatus {
        29
    } else if error is UnknownReviewInboxLedgerStage {
        30
    } else if error is UnknownReviewInboxLedgerStatus {
        31
    } else if error is UnknownRiskSeverity {
        32
    } else if error is UnknownSchedulerJobKind {
        33
    } else if error is UnknownSchedulerJobStatus {
        34
    } else if error is UnknownScopeBoundary {
        35
    } else if error is UnknownTenantStatus {
        36
    } else if error is UnknownTokenGrantState {
        37
    } else if error is UnknownWorkspaceUserStatus {
        38
    } else if error is UnsafeAuditOutboxPayload {
        39
    } else {
        40
    }
}

/// What tells the safe reasons apart: the length, and the characters at
/// positions 0, 8 and 14.
pub open spec fn reason_key(reason: Seq<char>) -> (int, char, char, char) {
    (reason.len() as int, reason[0], reason[8], reason[14])
}

/// The variant number of the error whose safe reason has this key, or -1.
pub open spec fn variant_of_reason_key(key: (int, char, char, char)) -> int {
    if key == (20int, 'a', 'o', 'f') {
        0
    } else if key == (27int, 'i', 'e', 'i') {
        1
    } else if key == (35int, 'i', 'o', 'i') {
        2
    } else if key == (20int, 'i', 'j', 'a') {
        3
    } else if key == (45int, 'l', 'n', 'a') {
        4
    } else if key == (37int, 'm', 'c', 'm') {
        5
    } else if key == (33int, 'm', 'c', 'm') {
        6
    } else if key == (33int, 'm', 'o', 'i') {
        7
    } else if key == (16int, 'n', '_', 'e') {
        8
    } else if key == (32int, 'r', 'e', 'n') {
        9
    } else if key == (21int, 'p', '_', '_') {
        10
    } else if key == (15int, 't', 'i', 'h') {
        11
    } else if key == (36int, 't', 'f', 'd') {
        12
    } else if key == (27int, 't', 'f', 'p') {
        13
    } else if key == (40int, 'u', 'e', 'f') {
        14
    } else if key == (36int, 'u', 'e', 'r') {
        15
    } else if key == (21int, 'u', 'a', '_') {
        16
    } else if key == (24int, 'u', 'a', 'a') {
        17
    } else if key == (24int, 'u', 'a', 'e') {
        18
    } else if key == (26int, 'u', 'd', '_') {
        19
    } else if key == (28int, 'u', 'd', '_') {
        20
    } else if key == (28int, 'u', 'e', 'c') {
        21
    } else if key == (33int, 'u', 'e', 'c') {
        22
    } else if key == (24int, 'u', 'e', 'i') {
        23
    } else if key == (27int, 'u', 'i', 't') {
        24
    } else if key == (33int, 'u', 'o', 'i') {
        25
    } else if key == (32int, 'u', 'p', 'e') {
        26
    } else if key == (28int, 'u', 'p', 'e') {
        27
    } else if key == (30int, 'u', 'p', 'e') {
        28
    } else if key == (32int, 'u', 'r', '_') {
        29
    } else if key == (33int, 'u', 'r', '_') {
        30
    } else if key == (34int, 'u', 'r', '_') {
        31
    } else if key == (21int, 'u', 'r', 'e') {
        32
    } else if key == (26int, 'u', 's', 'l') {
        33
    } else if key == (28int, 'u', 's', 'l') {
        34
    } else if key == (22int, 'u', 's', 'b') {
        35
    } else if key == (21int, 'u', 't', '_') {
        36
    } else if key == (25int, 'u', 't', 'g') {
        37
    } else if key == (29int, 'u', 'w', 'a') {
        38
    } else if key == (27int, 'u', 'u', 'u') {
        39
    } else if key == (31int, 'u', 'c', 'e') {
        40
    } else {
        -1
    }
}

/// A character a safe reason may hold: a lowercase ASCII letter or `_`.
pub open spec fn safe_reason_char(c: char) -> bool {
    ('a' <= c && c <= 'z') || c == '_'
}


/// The safe reason depends on the variant alone and tells variants apart: two
/// errors get the same reason exactly when they are of the same variant,
/// whatever text or values they carry. Every reason is non-empty and made of
/// lowercase ASCII letters and `_` only.
#[verifier::rlimit(60)]
pub proof fn lemma_safe_reason_identifies_variant(first: PostgresRepositoryError, second: PostgresRepositoryError)
    ensures
        (safe_error_reason(first) == safe_error_reason(second)) <==> (error_variant(first) == error_variant(second)),
        safe_error_reason(first).len() > 0,
        forall|i: int| 0 <= i < safe_error_reason(first).len() ==> safe_reason_char(#[trigger] safe_error_reason(first)[i]),
{
    reveal_strlit("unknown_scheduler_job_kind");
    reveal_strlit("unsafe_scheduler_job_error_code");
    reveal_strlit("action_not_confirmed");
    reveal_strlit("review_decision_request_mismatch");
    reveal_strlit("unknown_identity_actor_kind");
    reveal_strlit("unknown_execution_status");
    reveal_strlit("token_refresh_decision_bridge_failed");
    reveal_strlit("unsafe_audit_outbox_payload");
    reveal_strlit("tenant_mismatch");
    reveal_strlit("unknown_evidence_visibility_scope");
    reveal_strlit("negative_integer");
    reveal_strlit("unknown_proposed_action_kind");
    reveal_strlit("unknown_proposed_action_decision");
    reveal_strlit("invalid_execution_queue_row");
    reveal_strlit("unknown_risk_severity");
    reveal_strlit("unknown_review_inbox_ledger_status");
    reveal_strlit("lark_identity_actor_external_binding_conflict");
    reveal_strlit("token_refresh_plan_mismatch");
    reveal_strlit("unknown_proposed_action_status");
    reveal_strlit("postgres_query_failed");
    reveal_strlit("unexpected_confirmed_action_for_decision");
    reveal_strlit("missing_operation_id_for_decision");
    reveal_strlit("unknown_audit_actor_kind");
    reveal_strlit("unknown_scheduler_job_status");
    reveal_strlit("unknown_tenant_status");
    reveal_strlit("missing_confirmed_at_for_decision");
    reveal_strlit("invalid_operation_status_transition");
    reveal_strlit("unknown_review_inbox_item_status");
    reveal_strlit("unknown_device_session_state");
    reveal_strlit("missing_confirmed_action_for_decision");
    reveal_strlit("invalid_json_payload");
    reveal_strlit("unknown_scope_boundary");
    reveal_strlit("unknown_review_inbox_ledger_stage");
    reveal_strlit("unknown_workspace_user_status");
    reveal_strlit("unexpected_operation_id_for_decision");
    reveal_strlit("unknown_operation_idempotency_key");
    reveal_strlit("unknown_token_grant_state");
    reveal_strlit("unknown_action_status");
    reveal_strlit("unknown_device_entry_point");
    reveal_strlit("unknown_audit_event_type");
    reveal_strlit("unknown_evidence_source_kind");
    assert(variant_of_reason_key(reason_key(safe_error_reason(first))) == error_variant(first));
    assert(variant_of_reason_key(reason_key(safe_error_reason(second))) == error_variant(second));
}

} // verus!
