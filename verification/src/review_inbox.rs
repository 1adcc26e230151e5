//! The review inbox read model: a page of inbox rows with the proposed
//! actions, evidence and ledger timeline shown beside them, decoded row by
//! row so that one corrupt row fails the whole page.
use vstd::prelude::*;

use crate::error::PgRepositoryResult;
use crate::rows::{
    evidence_item_decoded, evidence_row_error, evidence_row_valid, ledger_event_decoded,
    ledger_event_row_error, ledger_event_row_valid, review_action_decoded, review_action_row_error,
    review_action_row_valid, review_inbox_item_decoded, review_inbox_item_row_error,
    review_inbox_item_row_valid, stored_review_inbox_action_from_row,
    stored_review_inbox_evidence_from_row, stored_review_inbox_item_from_row,
    stored_review_inbox_ledger_event_from_row, EvidenceItemRow, ReviewInboxActionRow,
    ReviewInboxItemRow, ReviewInboxLedgerEventRow, StoredReviewInboxAction,
    StoredReviewInboxEvidence, StoredReviewInboxItem, StoredReviewInboxLedgerEvent,
};

verus! {

/// A page of the review inbox.
#[derive(Debug, Clone)]
pub struct StoredReviewInboxSnapshot {
    pub items: Vec<StoredReviewInboxItem>,
    pub actions: Vec<StoredReviewInboxAction>,
    pub evidence: Vec<StoredReviewInboxEvidence>,
    pub ledger_events: Vec<StoredReviewInboxLedgerEvent>,
}

/// Everything a decision on one inbox row is checked against.
#[derive(Debug, Clone)]
pub struct StoredReviewDecisionContext {
    pub item: StoredReviewInboxItem,
    pub action: StoredReviewInboxAction,
    pub evidence: Vec<StoredReviewInboxEvidence>,
}

/// The page with no rows: what a zero limit, or an inbox with nothing after
/// the cursor, answers without reading the rest.
pub fn review_inbox_snapshot_of_items(items: Vec<StoredReviewInboxItem>) -> (r:
    StoredReviewInboxSnapshot)
    ensures
        r.items == items,
        r.actions@.len() == 0,
        r.evidence@.len() == 0,
        r.ledger_events@.len() == 0,
{
    StoredReviewInboxSnapshot {
        items,
        actions: Vec::new(),
        evidence: Vec::new(),
        ledger_events: Vec::new(),
    }
}

/// Whether a page request reads the item rows at all.
pub fn review_inbox_page_reads_items(limit: u32) -> (r: bool)
    ensures
        r == (limit > 0),
{
    limit > 0
}

/// Decodes review inbox rows in order, stopping at the first row that does not decode.
pub fn stored_review_inbox_items_from_rows(rows: Vec<ReviewInboxItemRow>) -> (r: PgRepositoryResult<Vec<StoredReviewInboxItem>>)
    ensures
        match r {
            Ok(decoded) => decoded@.len() == rows@.len() && forall|i: int|
                0 <= i < rows@.len() ==> review_inbox_item_row_valid(#[trigger] rows@[i]) && review_inbox_item_decoded(
                    rows@[i],
                    decoded@[i],
                ),
            Err(error) => exists|k: int|
                0 <= k < rows@.len() && (forall|i: int| 0 <= i < k ==> review_inbox_item_row_valid(#[trigger] rows@[i]))
                    && #[trigger] review_inbox_item_row_error(rows@[k], error) && !review_inbox_item_row_valid(rows@[k]),
        },
{
    let ghost all = rows@;
    let mut decoded: Vec<StoredReviewInboxItem> = Vec::new();
    for row in it: rows.into_iter()
        invariant
            it.seq() == all,
            decoded@.len() == it.index(),
            forall|i: int|
                0 <= i < it.index() ==> review_inbox_item_row_valid(#[trigger] all[i]) && review_inbox_item_decoded(
                    all[i],
                    decoded@[i],
                ),
    {
        let ghost index = it.index() as int;
        match stored_review_inbox_item_from_row(row) {
            Ok(value) => {
                decoded.push(value);
            },
            Err(error) => {
                proof {
                    assert(review_inbox_item_row_error(all[index], error));
                }
                return Err(error);
            },
        }
    }
    Ok(decoded)
}

/// Decodes proposed action rows in order, stopping at the first row that does not decode.
pub fn stored_review_inbox_actions_from_rows(rows: Vec<ReviewInboxActionRow>) -> (r: PgRepositoryResult<Vec<StoredReviewInboxAction>>)
    ensures
        match r {
            Ok(decoded) => decoded@.len() == rows@.len() && forall|i: int|
                0 <= i < rows@.len() ==> review_action_row_valid(#[trigger] rows@[i]) && review_action_decoded(
                    rows@[i],
                    decoded@[i],
                ),
            Err(error) => exists|k: int|
                0 <= k < rows@.len() && (forall|i: int| 0 <= i < k ==> review_action_row_valid(#[trigger] rows@[i]))
                    && #[trigger] review_action_row_error(rows@[k], error) && !review_action_row_valid(rows@[k]),
        },
{
    let ghost all = rows@;
    let mut decoded: Vec<StoredReviewInboxAction> = Vec::new();
    for row in it: rows.into_iter()
        invariant
            it.seq() == all,
            decoded@.len() == it.index(),
            forall|i: int|
                0 <= i < it.index() ==> review_action_row_valid(#[trigger] all[i]) && review_action_decoded(
                    all[i],
                    decoded@[i],
                ),
    {
        let ghost index = it.index() as int;
        match stored_review_inbox_action_from_row(row) {
            Ok(value) => {
                decoded.push(value);
            },
            Err(error) => {
                proof {
                    assert(review_action_row_error(all[index], error));
                }
                return Err(error);
            },
        }
    }
    Ok(decoded)
}

/// Decodes ledger event rows in order, stopping at the first row that does not decode.
pub fn stored_review_inbox_ledger_events_from_rows(rows: Vec<ReviewInboxLedgerEventRow>) -> (r: PgRepositoryResult<Vec<StoredReviewInboxLedgerEvent>>)
    ensures
        match r {
            Ok(decoded) => decoded@.len() == rows@.len() && forall|i: int|
                0 <= i < rows@.len() ==> ledger_event_row_valid(#[trigger] rows@[i]) && ledger_event_decoded(
                    rows@[i],
                    decoded@[i],
                ),
            Err(error) => exists|k: int|
                0 <= k < rows@.len() && (forall|i: int| 0 <= i < k ==> ledger_event_row_valid(#[trigger] rows@[i]))
                    && #[trigger] ledger_event_row_error(rows@[k], error) && !ledger_event_row_valid(rows@[k]),
        },
{
    let ghost all = rows@;
    let mut decoded: Vec<StoredReviewInboxLedgerEvent> = Vec::new();
    for row in it: rows.into_iter()
        invariant
            it.seq() == all,
            decoded@.len() == it.index(),
            forall|i: int|
                0 <= i < it.index() ==> ledger_event_row_valid(#[trigger] all[i]) && ledger_event_decoded(
                    all[i],
                    decoded@[i],
                ),
    {
        let ghost index = it.index() as int;
        match stored_review_inbox_ledger_event_from_row(row) {
            Ok(value) => {
                decoded.push(value);
            },
            Err(error) => {
                proof {
                    assert(ledger_event_row_error(all[index], error));
                }
                return Err(error);
            },
        }
    }
    Ok(decoded)
}

/// One evidence row shown with the inbox row it belongs to.
pub struct ReviewInboxEvidenceRow {
    pub review_item_id: String,
    pub evidence: EvidenceItemRow,
}

pub open spec fn review_evidence_row_valid(row: ReviewInboxEvidenceRow) -> bool {
    evidence_row_valid(row.evidence)
}

pub open spec fn review_evidence_row_error(row: ReviewInboxEvidenceRow, error: crate::error::PostgresRepositoryError) -> bool {
    evidence_row_error(row.evidence, error)
}

pub open spec fn review_evidence_decoded(row: ReviewInboxEvidenceRow, out: StoredReviewInboxEvidence) -> bool {
    out.review_item_id == row.review_item_id && evidence_item_decoded(row.evidence, out.item)
}

fn stored_review_inbox_evidence_from_pair(row: ReviewInboxEvidenceRow) -> (r: PgRepositoryResult<
    StoredReviewInboxEvidence,
>)
    ensures
        match r {
            Ok(out) => review_evidence_row_valid(row) && review_evidence_decoded(row, out),
            Err(error) => !review_evidence_row_valid(row) && review_evidence_row_error(row, error),
        },
{
    stored_review_inbox_evidence_from_row(row.review_item_id, row.evidence)
}

/// Decodes evidence rows in order, stopping at the first row that does not decode.
pub fn stored_review_inbox_evidence_from_rows(rows: Vec<ReviewInboxEvidenceRow>) -> (r: PgRepositoryResult<Vec<StoredReviewInboxEvidence>>)
    ensures
        match r {
            Ok(decoded) => decoded@.len() == rows@.len() && forall|i: int|
                0 <= i < rows@.len() ==> review_evidence_row_valid(#[trigger] rows@[i]) && review_evidence_decoded(
                    rows@[i],
                    decoded@[i],
                ),
            Err(error) => exists|k: int|
                0 <= k < rows@.len() && (forall|i: int| 0 <= i < k ==> review_evidence_row_valid(#[trigger] rows@[i]))
                    && #[trigger] review_evidence_row_error(rows@[k], error) && !review_evidence_row_valid(rows@[k]),
        },
{
    let ghost all = rows@;
    let mut decoded: Vec<StoredReviewInboxEvidence> = Vec::new();
    for row in it: rows.into_iter()
        invariant
            it.seq() == all,
            decoded@.len() == it.index(),
            forall|i: int|
                0 <= i < it.index() ==> review_evidence_row_valid(#[trigger] all[i]) && review_evidence_decoded(
                    all[i],
                    decoded@[i],
                ),
    {
        let ghost index = it.index() as int;
        match stored_review_inbox_evidence_from_pair(row) {
            Ok(value) => {
                decoded.push(value);
            },
            Err(error) => {
                proof {
                    assert(review_evidence_row_error(all[index], error));
                }
                return Err(error);
            },
        }
    }
    Ok(decoded)
}

} // verus!
