//! The decisions a review decision recorder takes between its writes: whether
//! a decision that was already stored is the same one being replayed, what a
//! replay reports, which confirmed action to submit, and how a lost race on
//! the inbox row is reported.
use vstd::prelude::*;

use crate::codec::{
    lemma_proposed_action_decision_kind_stored_text_round_trip,
    proposed_action_decision_kind_db_text, proposed_action_decision_kind_from_db_text,
};
use crate::domain::{
    ConfirmedAction, OperationRecord, ProposedActionDecision, StoredProposedActionDecisionKind,
};
use crate::error::{PgRepositoryResult, PostgresRepositoryError};
use crate::text::{push_decimal, str_equals, string_of, decimal};
use crate::validation::{InsertProposedActionDecisionRequest, PostgresReviewDecisionRecorderRequest};

verus! {

/// What recording a decision wrote.
#[derive(Debug, Clone)]
pub struct PostgresReviewDecisionRecorderReport {
    pub operation: Option<OperationRecord>,
    pub inbox_item_id: Option<String>,
    pub outbox_id: Option<i64>,
    pub duplicate: bool,
}

/// The columns of a decision that is already stored for the same proposed
/// action version.
#[derive(Debug, Clone)]
pub struct StoredDecisionColumns {
    pub actor_user_id: String,
    pub decision: String,
    pub edited_payload: Option<serde_json::Value>,
    pub confirmed_action_id: Option<String>,
}

/// Whether two optional JSON documents are equal under `Value`'s `==` (the
/// derived `PartialEq` of `serde_json::Value`, through `Option`'s `==`). It is
/// not spec equality: the JSON numbers `-0.0` and `0.0` compare equal.
pub uninterp spec fn json_documents_eq(a: Option<serde_json::Value>, b: Option<serde_json::Value>) -> bool;

/// The documents behind two optional references.
pub open spec fn documents_of(a: Option<&serde_json::Value>) -> Option<serde_json::Value> {
    match a {
        Some(value) => Some(*value),
        None => None,
    }
}

/// Compares two optional JSON documents with `Option<&Value>`'s `==`. The
/// result is the named comparison `json_documents_eq`; beside it, what std's
/// `Option` equality and the derived `Eq` of `Value` give: a document equals
/// itself, no document equals an absent one, and two absent ones are equal.
/// Which distinct documents compare equal is not stated.
#[verifier::external_body]
fn json_documents_equal(a: Option<&serde_json::Value>, b: Option<&serde_json::Value>) -> (r: bool)
    ensures
        r == json_documents_eq(documents_of(a), documents_of(b)),
        a == b ==> r,
        (a is None || b is None) ==> (r == (a is None && b is None)),
{
    a == b
}

/// The stored decision text of a decision.
pub open spec fn decision_db_text(decision: ProposedActionDecision) -> Seq<char> {
    match decision {
        ProposedActionDecision::Confirm => "confirm"@,
        ProposedActionDecision::EditThenConfirm { .. } => "edit_then_confirm"@,
        ProposedActionDecision::Reject => "reject"@,
    }
}

/// The edited payload a decision stores.
pub open spec fn decision_edited_payload(decision: ProposedActionDecision) -> Option<serde_json::Value> {
    match decision {
        ProposedActionDecision::EditThenConfirm { edited_payload } => Some(edited_payload),
        _ => None,
    }
}

pub open spec fn optional_text_view(value: Option<&str>) -> Option<Seq<char>> {
    match value {
        Some(t) => Some(t@),
        None => None,
    }
}

pub open spec fn optional_string_view(value: Option<String>) -> Option<Seq<char>> {
    match value {
        Some(t) => Some(t@),
        None => None,
    }
}

/// The stored decision agrees with the request on everything but the edited
/// payload.
pub open spec fn stored_decision_agrees(
    request: InsertProposedActionDecisionRequest,
    stored: StoredDecisionColumns,
) -> bool {
    &&& stored.actor_user_id@ == request.actor_user_id@
    &&& stored.decision@ == decision_db_text(*request.decision)
    &&& optional_string_view(stored.confirmed_action_id) == optional_text_view(
        request.confirmed_action_id,
    )
}

fn optional_str_equals(a: Option<&str>, b: Option<&str>) -> (r: bool)
    ensures
        r == (optional_text_view(a) == optional_text_view(b)),
{
    match (a, b) {
        (Some(x), Some(y)) => str_equals(x, y),
        (None, None) => true,
        _ => false,
    }
}

/// Whether a decision already stored for this proposed action version is the
/// one being recorded: same decider, same decision, same edited payload and
/// same confirmed action. No stored decision matches nothing.
pub fn existing_decision_matches(
    request: &InsertProposedActionDecisionRequest<'_>,
    stored: Option<&StoredDecisionColumns>,
) -> (r: bool)
    ensures
        r == (stored matches Some(columns) && stored_decision_agrees(*request, *columns)
            && json_documents_eq(columns.edited_payload, decision_edited_payload(*request.decision))),
{
    let columns = match stored {
        Some(columns) => columns,
        None => {
            return false;
        },
    };
    let (expected_decision, expected_edited_payload) = match request.decision {
        ProposedActionDecision::Confirm => ("confirm", None),
        ProposedActionDecision::EditThenConfirm { edited_payload } => (
            "edit_then_confirm",
            Some(edited_payload),
        ),
        ProposedActionDecision::Reject => ("reject", None),
    };
    let stored_confirmed = match &columns.confirmed_action_id {
        Some(id) => Some(id.as_str()),
        None => None,
    };
    str_equals(columns.actor_user_id.as_str(), request.actor_user_id) && str_equals(
        columns.decision.as_str(),
        expected_decision,
    ) && json_documents_equal(columns.edited_payload.as_ref(), expected_edited_payload)
        && optional_str_equals(stored_confirmed, request.confirmed_action_id)
}

/// The kind of decision a request records, as the decision codec stores it.
pub open spec fn decision_kind(decision: ProposedActionDecision) -> StoredProposedActionDecisionKind {
    match decision {
        ProposedActionDecision::Confirm => StoredProposedActionDecisionKind::Confirm,
        ProposedActionDecision::EditThenConfirm { .. } => StoredProposedActionDecisionKind::EditThenConfirm,
        ProposedActionDecision::Reject => StoredProposedActionDecisionKind::Reject,
    }
}

/// A stored decision agrees with a request exactly when it has the request's
/// decider and confirmed action, and its decision text is one the decision
/// codec decodes to the request's kind of decision. So a row the codec wrote
/// for the same request (`"confirm"` for a confirmation) always agrees, and a
/// row of another kind never does.
pub proof fn lemma_stored_decision_agrees_with_codec(
    request: InsertProposedActionDecisionRequest,
    stored: StoredDecisionColumns,
)
    ensures
        stored_decision_agrees(request, stored) <==> (stored.actor_user_id@ == request.actor_user_id@
            && optional_string_view(stored.confirmed_action_id) == optional_text_view(
            request.confirmed_action_id,
        ) && proposed_action_decision_kind_from_db_text(stored.decision@) == Some(
            decision_kind(*request.decision),
        )),
        stored.decision@ == proposed_action_decision_kind_db_text(decision_kind(*request.decision))
            ==> (stored_decision_agrees(request, stored) <==> (stored.actor_user_id@
            == request.actor_user_id@ && optional_string_view(stored.confirmed_action_id)
            == optional_text_view(request.confirmed_action_id))),
{
    lemma_proposed_action_decision_kind_stored_text_round_trip(
        decision_kind(*request.decision),
        stored.decision@,
    );
}

/// A replay of the decision that is stored is recognised: when the stored row
/// has the request's decider, the text the codec stores for the request's
/// kind of decision, the request's confirmed action and an edited payload that
/// compares equal, the comparison that `existing_decision_matches` makes holds.
pub proof fn lemma_codec_written_replay_matches(
    request: InsertProposedActionDecisionRequest,
    stored: StoredDecisionColumns,
)
    requires
        stored.actor_user_id@ == request.actor_user_id@,
        stored.decision@ == proposed_action_decision_kind_db_text(decision_kind(*request.decision)),
        optional_string_view(stored.confirmed_action_id) == optional_text_view(
            request.confirmed_action_id,
        ),
        json_documents_eq(stored.edited_payload, decision_edited_payload(*request.decision)),
    ensures
        Some(stored) matches Some(columns) && stored_decision_agrees(request, columns)
            && json_documents_eq(columns.edited_payload, decision_edited_payload(*request.decision)),
{
    lemma_stored_decision_agrees_with_codec(request, stored);
}

/// The answer to a decision that was already stored: a replay of the same
/// decision reports a duplicate that wrote nothing; any other stored decision
/// is a conflict.
pub fn duplicate_decision_outcome(matches: bool) -> (r: PgRepositoryResult<
    PostgresReviewDecisionRecorderReport,
>)
    ensures
        matches ==> (r matches Ok(report) && report.duplicate && report.operation is None
            && report.inbox_item_id is None && report.outbox_id is None),
        !matches ==> (r matches Err(PostgresRepositoryError::ReviewDecisionRequestMismatch {
            field,
            expected,
            actual,
        }) && field@ == "decision"@ && expected@ == "same_existing_decision"@ && actual@
            == "conflicting_existing_decision"@),
{
    if !matches {
        return Err(
            PostgresRepositoryError::ReviewDecisionRequestMismatch {
                field: "decision",
                expected: string_of("same_existing_decision"),
                actual: string_of("conflicting_existing_decision"),
            },
        );
    }
    Ok(
        PostgresReviewDecisionRecorderReport {
            operation: None,
            inbox_item_id: None,
            outbox_id: None,
            duplicate: true,
        },
    )
}

/// The confirmed action to submit with a decision: only when the request
/// carries the action, its confirmation time and its operation id.
pub fn decision_submission<'a>(request: &PostgresReviewDecisionRecorderRequest<'a>) -> (r: Option<
    (&'a ConfirmedAction, u64, &'a str),
>)
    ensures
        r is Some <==> (request.confirmed_action is Some && request.confirmed_at_ms is Some
            && request.operation_id is Some),
        r matches Some((action, at, operation_id)) ==> (Some(action) == request.confirmed_action
            && Some(at) == request.confirmed_at_ms && Some(operation_id) == request.operation_id),
{
    match (request.confirmed_action, request.confirmed_at_ms, request.operation_id) {
        (Some(action), Some(confirmed_at_ms), Some(operation_id)) => Some(
            (action, confirmed_at_ms, operation_id),
        ),
        _ => None,
    }
}

/// The inbox row moved past the expected cursor, or reached a final status,
/// before the decision could update it.
pub fn stale_inbox_item_error(expected_sync_cursor_value: u64) -> (r: PostgresRepositoryError)
    ensures
        r matches PostgresRepositoryError::ReviewDecisionRequestMismatch { field, expected, actual }
            && field@ == "inbox_item.sync_cursor"@ && expected@ == decimal(
            expected_sync_cursor_value as nat,
        ) && actual@ == "stale_or_terminal"@,
{
    let mut expected = String::new();
    push_decimal(&mut expected, expected_sync_cursor_value);
    proof {
        assert(Seq::<char>::empty() + decimal(expected_sync_cursor_value as nat) =~= decimal(
            expected_sync_cursor_value as nat,
        ));
    }
    PostgresRepositoryError::ReviewDecisionRequestMismatch {
        field: "inbox_item.sync_cursor",
        expected,
        actual: string_of("stale_or_terminal"),
    }
}

} // verus!
