//! Checks that a review decision, the inbox row it updates, the audit event
//! and the outbox message all describe the same tenant, deciding user, proposed
//! action and confirmed action before anything is written.
use vstd::prelude::*;

use crate::domain::{
    AuditEvent, ConfirmedAction, ProposedActionDecision, ReviewInboxItem, ReviewInboxItemStatus,
};
use crate::error::{PgRepositoryResult, PostgresRepositoryError};
use crate::text::{decimal, push_decimal, push_str, str_equals, string_of, u64_to_string};

verus! {

/// An outbox message to enqueue in the same transaction as its audit event.
/// The payload is a JSON document that the outbox carries unchanged.
#[derive(Debug, Clone)]
pub struct AuditOutboxEnvelope {
    pub tenant_id: String,
    pub stream: String,
    pub aggregate_id: String,
    pub payload: serde_json::Value,
    pub next_attempt_at_ms: u64,
}

/// The decision row to insert for a proposed action version.
#[derive(Debug, Clone, Copy)]
pub struct InsertProposedActionDecisionRequest<'a> {
    pub id: &'a str,
    pub tenant_id: &'a str,
    pub proposed_action_id: &'a str,
    pub proposed_action_version: u64,
    pub actor_user_id: &'a str,
    pub decision: &'a ProposedActionDecision,
    pub confirmed_action_id: Option<&'a str>,
    pub decided_at_ms: u64,
}

/// Everything a review decision writes in one transaction.
#[derive(Debug, Clone, Copy)]
pub struct PostgresReviewDecisionRecorderRequest<'a> {
    pub decision: InsertProposedActionDecisionRequest<'a>,
    pub inbox_item: &'a ReviewInboxItem,
    pub expected_sync_cursor_value: u64,
    pub event: &'a AuditEvent,
    pub outbox: &'a AuditOutboxEnvelope,
    pub confirmed_action: Option<&'a ConfirmedAction>,
    pub confirmed_at_ms: Option<u64>,
    pub operation_id: Option<&'a str>,
}

/// The first inconsistency a validation finds, as plain values.
pub enum RequestFailure {
    TenantMismatch { field: Seq<char>, expected: Seq<char>, actual: Seq<char> },
    Mismatch { field: Seq<char>, expected: Seq<char>, actual: Seq<char> },
    MissingConfirmedAction,
    MissingOperationId,
    MissingConfirmedAt,
    UnexpectedConfirmedAction,
    UnexpectedOperationId,
}

/// `error` is the repository error that reports `failure`.
pub open spec fn error_reports(error: PostgresRepositoryError, failure: RequestFailure) -> bool {
    match failure {
        RequestFailure::TenantMismatch { field, expected, actual } => error matches PostgresRepositoryError::TenantMismatch { field: f, expected: e, actual: a } && f@ == field && e@ == expected && a@ == actual,
        RequestFailure::Mismatch { field, expected, actual } => error matches PostgresRepositoryError::ReviewDecisionRequestMismatch { field: f, expected: e, actual: a } && f@ == field && e@ == expected && a@ == actual,
        RequestFailure::MissingConfirmedAction => error is MissingConfirmedActionForDecision,
        RequestFailure::MissingOperationId => error is MissingOperationIdForDecision,
        RequestFailure::MissingConfirmedAt => error is MissingConfirmedAtForDecision,
        RequestFailure::UnexpectedConfirmedAction => error is UnexpectedConfirmedActionForDecision,
        RequestFailure::UnexpectedOperationId => error is UnexpectedOperationIdForDecision,
    }
}

/// How `{:?}` writes a review inbox status: the variant's name.
pub open spec fn review_inbox_item_status_debug_text(status: ReviewInboxItemStatus) -> Seq<char> {
    match status {
        ReviewInboxItemStatus::Open => "Open"@,
        ReviewInboxItemStatus::Confirmed => "Confirmed"@,
        ReviewInboxItemStatus::Rejected => "Rejected"@,
        ReviewInboxItemStatus::Executing => "Executing"@,
        ReviewInboxItemStatus::Succeeded => "Succeeded"@,
        ReviewInboxItemStatus::Failed => "Failed"@,
        ReviewInboxItemStatus::Withdrawn => "Withdrawn"@,
    }
}

pub fn review_inbox_item_status_debug_name(status: &ReviewInboxItemStatus) -> (r: &'static str)
    ensures
        r@ == review_inbox_item_status_debug_text(*status),
{
    match status {
        ReviewInboxItemStatus::Open => "Open",
        ReviewInboxItemStatus::Confirmed => "Confirmed",
        ReviewInboxItemStatus::Rejected => "Rejected",
        ReviewInboxItemStatus::Executing => "Executing",
        ReviewInboxItemStatus::Succeeded => "Succeeded",
        ReviewInboxItemStatus::Failed => "Failed",
        ReviewInboxItemStatus::Withdrawn => "Withdrawn",
    }
}

/// The first of the event scope and the outbox that names another tenant.
pub open spec fn recorder_tenant_failure(
    expected: Seq<char>,
    event: AuditEvent,
    outbox: AuditOutboxEnvelope,
) -> Option<RequestFailure> {
    if event.scope.tenant_id@ != expected {
        Some(
            RequestFailure::TenantMismatch {
                field: "event.scope.tenant_id"@,
                expected,
                actual: event.scope.tenant_id@,
            },
        )
    } else if outbox.tenant_id@ != expected {
        Some(
            RequestFailure::TenantMismatch {
                field: "outbox.tenant_id"@,
                expected,
                actual: outbox.tenant_id@,
            },
        )
    } else {
        None
    }
}

/// Rejects an audit event or outbox message that belongs to another tenant.
pub fn validate_recorder_tenant(
    expected_tenant_id: &str,
    event: &AuditEvent,
    outbox: &AuditOutboxEnvelope,
) -> (r: PgRepositoryResult<()>)
    ensures
        r is Ok <==> recorder_tenant_failure(expected_tenant_id@, *event, *outbox) is None,
        r matches Err(error) ==> error_reports(
            error,
            recorder_tenant_failure(expected_tenant_id@, *event, *outbox)->0,
        ),
{
    if !str_equals(event.scope.tenant_id.as_str(), expected_tenant_id) {
        return Err(
            PostgresRepositoryError::TenantMismatch {
                field: "event.scope.tenant_id",
                expected: string_of(expected_tenant_id),
                actual: event.scope.tenant_id.clone(),
            },
        );
    }
    if !str_equals(outbox.tenant_id.as_str(), expected_tenant_id) {
        return Err(
            PostgresRepositoryError::TenantMismatch {
                field: "outbox.tenant_id",
                expected: string_of(expected_tenant_id),
                actual: outbox.tenant_id.clone(),
            },
        );
    }
    Ok(())
}

pub open spec fn binding_failure(field: Seq<char>, expected: Seq<char>, actual: Seq<char>) -> Option<
    RequestFailure,
> {
    if expected != actual {
        Some(RequestFailure::Mismatch { field, expected, actual })
    } else {
        None
    }
}

/// Rejects a request in which `actual` differs from `expected`, naming `field`.
pub fn validate_review_decision_tenant_binding(
    field: &'static str,
    expected: &str,
    actual: &str,
) -> (r: PgRepositoryResult<()>)
    ensures
        r is Ok <==> binding_failure(field@, expected@, actual@) is None,
        r matches Err(error) ==> error_reports(
            error,
            binding_failure(field@, expected@, actual@)->0,
        ),
{
    if !str_equals(expected, actual) {
        return Err(
            PostgresRepositoryError::ReviewDecisionRequestMismatch {
                field,
                expected: string_of(expected),
                actual: string_of(actual),
            },
        );
    }
    Ok(())
}

/// The operation id the inbox row carries, or the empty text.
pub open spec fn item_operation_text(item: ReviewInboxItem) -> Seq<char> {
    match item.operation_id {
        Some(id) => id@,
        None => Seq::<char>::empty(),
    }
}

/// What a confirm or edit-then-confirm decision must agree on.
pub open spec fn confirm_decision_failure(request: PostgresReviewDecisionRecorderRequest) -> Option<
    RequestFailure,
> {
    let decision = request.decision;
    let item = *request.inbox_item;
    if item.status != ReviewInboxItemStatus::Confirmed {
        Some(
            RequestFailure::Mismatch {
                field: "inbox_item.status"@,
                expected: "confirmed"@,
                actual: review_inbox_item_status_debug_text(item.status),
            },
        )
    } else if request.confirmed_action is None {
        Some(RequestFailure::MissingConfirmedAction)
    } else if request.operation_id is None {
        Some(RequestFailure::MissingOperationId)
    } else if request.confirmed_at_ms is None {
        Some(RequestFailure::MissingConfirmedAt)
    } else if decision.confirmed_action_id is None {
        Some(RequestFailure::MissingConfirmedAction)
    } else {
        let action = *request.confirmed_action->0;
        let confirmed_action_id = decision.confirmed_action_id->0@;
        let operation_id = request.operation_id->0@;
        if binding_failure(
            "decision.confirmed_action_id"@,
            confirmed_action_id,
            action.action_id@,
        ) is Some {
            binding_failure(
                "decision.confirmed_action_id"@,
                confirmed_action_id,
                action.action_id@,
            )
        } else if binding_failure(
            "confirmed_action.tenant_id"@,
            decision.tenant_id@,
            action.tenant_id@,
        ) is Some {
            binding_failure("confirmed_action.tenant_id"@, decision.tenant_id@, action.tenant_id@)
        } else if binding_failure(
            "confirmed_action.actor_user_id"@,
            decision.actor_user_id@,
            action.actor_user_id@,
        ) is Some {
            binding_failure(
                "confirmed_action.actor_user_id"@,
                decision.actor_user_id@,
                action.actor_user_id@,
            )
        } else if binding_failure(
            "inbox_item.operation_id"@,
            operation_id,
            item_operation_text(item),
        ) is Some {
            binding_failure("inbox_item.operation_id"@, operation_id, item_operation_text(item))
        } else if item.ledger_status is None {
            Some(
                RequestFailure::Mismatch {
                    field: "inbox_item.ledger_status"@,
                    expected: "confirmed"@,
                    actual: "none"@,
                },
            )
        } else {
            None
        }
    }
}

/// What a reject decision must agree on: nothing may be confirmed.
pub open spec fn reject_decision_failure(request: PostgresReviewDecisionRecorderRequest) -> Option<
    RequestFailure,
> {
    let item = *request.inbox_item;
    if item.status != ReviewInboxItemStatus::Rejected {
        Some(
            RequestFailure::Mismatch {
                field: "inbox_item.status"@,
                expected: "rejected"@,
                actual: review_inbox_item_status_debug_text(item.status),
            },
        )
    } else if request.confirmed_action is Some {
        Some(RequestFailure::UnexpectedConfirmedAction)
    } else if request.confirmed_at_ms is Some {
        Some(RequestFailure::UnexpectedConfirmedAction)
    } else if request.operation_id is Some {
        Some(RequestFailure::UnexpectedOperationId)
    } else if request.decision.confirmed_action_id is Some {
        Some(RequestFailure::UnexpectedConfirmedAction)
    } else {
        None
    }
}

/// The first inconsistency of a review decision request, checked in the order
/// the recorder reports them.
pub open spec fn review_decision_request_failure(
    request: PostgresReviewDecisionRecorderRequest,
) -> Option<RequestFailure> {
    let decision = request.decision;
    let item = *request.inbox_item;
    if recorder_tenant_failure(decision.tenant_id@, *request.event, *request.outbox) is Some {
        recorder_tenant_failure(decision.tenant_id@, *request.event, *request.outbox)
    } else if binding_failure("inbox_item.tenant_id"@, decision.tenant_id@, item.tenant_id@) is Some {
        binding_failure("inbox_item.tenant_id"@, decision.tenant_id@, item.tenant_id@)
    } else if binding_failure(
        "event.actor.actor_id"@,
        decision.actor_user_id@,
        request.event.actor.actor_id@,
    ) is Some {
        binding_failure(
            "event.actor.actor_id"@,
            decision.actor_user_id@,
            request.event.actor.actor_id@,
        )
    } else if binding_failure("inbox_item.user_id"@, decision.actor_user_id@, item.user_id@) is Some {
        binding_failure("inbox_item.user_id"@, decision.actor_user_id@, item.user_id@)
    } else if binding_failure(
        "inbox_item.proposed_action_id"@,
        decision.proposed_action_id@,
        item.proposed_action_id@,
    ) is Some {
        binding_failure(
            "inbox_item.proposed_action_id"@,
            decision.proposed_action_id@,
            item.proposed_action_id@,
        )
    } else if decision.proposed_action_version != item.proposed_action_version {
        Some(
            RequestFailure::Mismatch {
                field: "proposed_action_version"@,
                expected: decimal(decision.proposed_action_version as nat),
                actual: decimal(item.proposed_action_version as nat),
            },
        )
    } else if item.sync_cursor <= request.expected_sync_cursor_value {
        Some(
            RequestFailure::Mismatch {
                field: "inbox_item.sync_cursor"@,
                expected: ">"@ + decimal(request.expected_sync_cursor_value as nat),
                actual: decimal(item.sync_cursor as nat),
            },
        )
    } else if decision.decision.spec_requires_action() {
        confirm_decision_failure(request)
    } else {
        reject_decision_failure(request)
    }
}

/// A request the recorder accepts: one tenant and one deciding user throughout, the
/// inbox row at the decided version and ahead of the expected cursor, and a
/// confirmed action and operation exactly when the decision confirms.
pub open spec fn review_decision_request_consistent(request: PostgresReviewDecisionRecorderRequest) -> bool {
    let decision = request.decision;
    let item = *request.inbox_item;
    &&& request.event.scope.tenant_id@ == decision.tenant_id@
    &&& request.outbox.tenant_id@ == decision.tenant_id@
    &&& item.tenant_id@ == decision.tenant_id@
    &&& request.event.actor.actor_id@ == decision.actor_user_id@
    &&& item.user_id@ == decision.actor_user_id@
    &&& item.proposed_action_id@ == decision.proposed_action_id@
    &&& item.proposed_action_version == decision.proposed_action_version
    &&& item.sync_cursor > request.expected_sync_cursor_value
    &&& if decision.decision.spec_requires_action() {
        &&& item.status == ReviewInboxItemStatus::Confirmed
        &&& request.confirmed_action is Some
        &&& request.operation_id is Some
        &&& request.confirmed_at_ms is Some
        &&& decision.confirmed_action_id is Some
        &&& decision.confirmed_action_id->0@ == request.confirmed_action->0.action_id@
        &&& request.confirmed_action->0.tenant_id@ == decision.tenant_id@
        &&& request.confirmed_action->0.actor_user_id@ == decision.actor_user_id@
        &&& item_operation_text(item) == request.operation_id->0@
        &&& item.ledger_status is Some
    } else {
        &&& item.status == ReviewInboxItemStatus::Rejected
        &&& request.confirmed_action is None
        &&& request.confirmed_at_ms is None
        &&& request.operation_id is None
        &&& decision.confirmed_action_id is None
    }
}

/// The failures above are exactly the ways to be inconsistent.
pub proof fn lemma_review_decision_failure_iff_inconsistent(
    request: PostgresReviewDecisionRecorderRequest,
)
    ensures
        review_decision_request_failure(request) is None <==> review_decision_request_consistent(
            request,
        ),
{
}

fn decision_mismatch(field: &'static str, expected: String, actual: String) -> (r:
    PostgresRepositoryError)
    ensures
        r matches PostgresRepositoryError::ReviewDecisionRequestMismatch { field: f, expected: e, actual: a } && f == field && e == expected && a == actual,
{
    PostgresRepositoryError::ReviewDecisionRequestMismatch { field, expected, actual }
}

fn validate_confirm_decision(request: &PostgresReviewDecisionRecorderRequest) -> (r:
    PgRepositoryResult<()>)
    requires
        request.decision.decision.spec_requires_action(),
    ensures
        r is Ok <==> confirm_decision_failure(*request) is None,
        r matches Err(error) ==> error_reports(error, confirm_decision_failure(*request)->0),
{
    let item = request.inbox_item;
    if item.status != ReviewInboxItemStatus::Confirmed {
        return Err(
            decision_mismatch(
                "inbox_item.status",
                string_of("confirmed"),
                string_of(review_inbox_item_status_debug_name(&item.status)),
            ),
        );
    }
    let action = match request.confirmed_action {
        Some(action) => action,
        None => {
            return Err(PostgresRepositoryError::MissingConfirmedActionForDecision);
        },
    };
    let operation_id = match request.operation_id {
        Some(operation_id) => operation_id,
        None => {
            return Err(PostgresRepositoryError::MissingOperationIdForDecision);
        },
    };
    if request.confirmed_at_ms.is_none() {
        return Err(PostgresRepositoryError::MissingConfirmedAtForDecision);
    }
    let confirmed_action_id = match request.decision.confirmed_action_id {
        Some(id) => id,
        None => {
            return Err(PostgresRepositoryError::MissingConfirmedActionForDecision);
        },
    };
    validate_review_decision_tenant_binding(
        "decision.confirmed_action_id",
        confirmed_action_id,
        action.action_id.as_str(),
    )?;
    validate_review_decision_tenant_binding(
        "confirmed_action.tenant_id",
        request.decision.tenant_id,
        action.tenant_id.as_str(),
    )?;
    validate_review_decision_tenant_binding(
        "confirmed_action.actor_user_id",
        request.decision.actor_user_id,
        action.actor_user_id.as_str(),
    )?;
    let item_operation_id: &str = match &item.operation_id {
        Some(id) => id.as_str(),
        None => "",
    };
    proof {
        if item.operation_id is None {
            reveal_strlit("");
            assert(item_operation_id@ =~= Seq::<char>::empty());
        }
    }
    validate_review_decision_tenant_binding(
        "inbox_item.operation_id",
        operation_id,
        item_operation_id,
    )?;
    if item.ledger_status.is_none() {
        return Err(
            decision_mismatch("inbox_item.ledger_status", string_of("confirmed"), string_of("none")),
        );
    }
    Ok(())
}

fn validate_reject_decision(request: &PostgresReviewDecisionRecorderRequest) -> (r:
    PgRepositoryResult<()>)
    ensures
        r is Ok <==> reject_decision_failure(*request) is None,
        r matches Err(error) ==> error_reports(error, reject_decision_failure(*request)->0),
{
    let item = request.inbox_item;
    if item.status != ReviewInboxItemStatus::Rejected {
        return Err(
            decision_mismatch(
                "inbox_item.status",
                string_of("rejected"),
                string_of(review_inbox_item_status_debug_name(&item.status)),
            ),
        );
    }
    if request.confirmed_action.is_some() {
        return Err(PostgresRepositoryError::UnexpectedConfirmedActionForDecision);
    }
    if request.confirmed_at_ms.is_some() {
        return Err(PostgresRepositoryError::UnexpectedConfirmedActionForDecision);
    }
    if request.operation_id.is_some() {
        return Err(PostgresRepositoryError::UnexpectedOperationIdForDecision);
    }
    if request.decision.confirmed_action_id.is_some() {
        return Err(PostgresRepositoryError::UnexpectedConfirmedActionForDecision);
    }
    Ok(())
}

/// Accepts exactly the consistent review decision requests; otherwise reports
/// the first inconsistency, naming the field and the two values that differ.
pub fn validate_review_decision_request(request: &PostgresReviewDecisionRecorderRequest) -> (r:
    PgRepositoryResult<()>)
    ensures
        r is Ok <==> review_decision_request_consistent(*request),
        r is Ok <==> review_decision_request_failure(*request) is None,
        r matches Err(error) ==> error_reports(error, review_decision_request_failure(*request)->0),
{
    proof {
        lemma_review_decision_failure_iff_inconsistent(*request);
    }
    let decision = &request.decision;
    let item = request.inbox_item;
    validate_recorder_tenant(decision.tenant_id, request.event, request.outbox)?;
    validate_review_decision_tenant_binding(
        "inbox_item.tenant_id",
        decision.tenant_id,
        item.tenant_id.as_str(),
    )?;
    validate_review_decision_tenant_binding(
        "event.actor.actor_id",
        decision.actor_user_id,
        request.event.actor.actor_id.as_str(),
    )?;
    validate_review_decision_tenant_binding(
        "inbox_item.user_id",
        decision.actor_user_id,
        item.user_id.as_str(),
    )?;
    validate_review_decision_tenant_binding(
        "inbox_item.proposed_action_id",
        decision.proposed_action_id,
        item.proposed_action_id.as_str(),
    )?;
    if decision.proposed_action_version != item.proposed_action_version {
        return Err(
            decision_mismatch(
                "proposed_action_version",
                u64_to_string(decision.proposed_action_version),
                u64_to_string(item.proposed_action_version),
            ),
        );
    }
    if item.sync_cursor <= request.expected_sync_cursor_value {
        let mut expected = string_of(">");
        push_decimal(&mut expected, request.expected_sync_cursor_value);
        return Err(
            decision_mismatch(
                "inbox_item.sync_cursor",
                expected,
                u64_to_string(item.sync_cursor),
            ),
        );
    }
    let requires_action = match decision.decision {
        ProposedActionDecision::Confirm => true,
        ProposedActionDecision::EditThenConfirm { .. } => true,
        ProposedActionDecision::Reject => false,
    };
    if requires_action {
        validate_confirm_decision(request)
    } else {
        validate_reject_decision(request)
    }
}

} // verus!
