//! The operation ledger's status transitions: which statement moves an
//! operation to which status, how a statement that touched no row is
//! explained, and how the review inbox mirrors the ledger.
use vstd::prelude::*;

use crate::domain::{ActionStatus, ConfirmedAction, LedgerError, OperationRecord, ReviewInboxItemStatus, SubmitResult};
use crate::error::{PgRepositoryResult, PostgresRepositoryError, safe_error_reason, ledger_repository_failure};
use crate::operation_ledger_sql::{MARK_EXECUTING, MARK_FAILED, MARK_SUCCEEDED};
use crate::text::{str_equals, string_of};

verus! {

/// A ledger status change: the statement to run and the status it produces.
#[derive(Debug, Clone, Copy, PartialEq, Eq)]
pub struct OperationStatusTransition {
    sql: &'static str,
    target_status: ActionStatus,
}

/// The status an operation must hold for the statement towards `target` to
/// apply: confirmed operations start executing, executing ones finish.
pub open spec fn transition_source(target: ActionStatus) -> Option<ActionStatus> {
    match target {
        ActionStatus::Executing => Some(ActionStatus::Confirmed),
        ActionStatus::Succeeded => Some(ActionStatus::Executing),
        ActionStatus::Failed => Some(ActionStatus::Executing),
        _ => None,
    }
}

impl OperationStatusTransition {
    pub closed spec fn spec_target(self) -> ActionStatus {
        self.target_status
    }

    pub closed spec fn spec_sql(self) -> &'static str {
        self.sql
    }

    pub fn mark_executing() -> (r: Self)
        ensures
            r.spec_target() == ActionStatus::Executing,
            r.spec_sql() == MARK_EXECUTING,
    {
        Self { sql: MARK_EXECUTING, target_status: ActionStatus::Executing }
    }

    pub fn mark_succeeded() -> (r: Self)
        ensures
            r.spec_target() == ActionStatus::Succeeded,
            r.spec_sql() == MARK_SUCCEEDED,
    {
        Self { sql: MARK_SUCCEEDED, target_status: ActionStatus::Succeeded }
    }

    pub fn mark_failed() -> (r: Self)
        ensures
            r.spec_target() == ActionStatus::Failed,
            r.spec_sql() == MARK_FAILED,
    {
        Self { sql: MARK_FAILED, target_status: ActionStatus::Failed }
    }

    pub fn target_status(self) -> (r: ActionStatus)
        ensures
            r == self.spec_target(),
    {
        self.target_status
    }

    /// The statement that performs the transition.
    pub fn sql(self) -> (r: &'static str)
        ensures
            r == self.spec_sql(),
    {
        self.sql
    }
}

/// Only a confirmed action may be submitted to the ledger.
pub fn ensure_action_confirmed(action: &ConfirmedAction) -> (r: PgRepositoryResult<()>)
    ensures
        r is Ok <==> action.status == ActionStatus::Confirmed,
        r matches Err(error) ==> (error matches PostgresRepositoryError::ActionNotConfirmed(status)
            && status == action.status),
{
    if action.status != ActionStatus::Confirmed {
        return Err(PostgresRepositoryError::ActionNotConfirmed(action.status));
    }
    Ok(())
}

/// The record, and whether it was already there.
pub fn submit_result_parts(result: SubmitResult) -> (r: (OperationRecord, bool))
    ensures
        match result {
            SubmitResult::Created(record) => r == (record, false),
            SubmitResult::Existing(record) => r == (record, true),
        },
{
    match result {
        SubmitResult::Created(record) => (record, false),
        SubmitResult::Existing(record) => (record, true),
    }
}

/// Explains a transition statement that updated no row: the operation already
/// holds the target status (a replay, reported as duplicate), it holds some
/// other status (an invalid transition), or it does not exist.
pub fn resolve_transition_miss(
    existing: Option<OperationRecord>,
    transition: OperationStatusTransition,
    idempotency_key: &str,
) -> (r: PgRepositoryResult<(OperationRecord, bool)>)
    ensures
        match existing {
            Some(record) => if record.status == transition.spec_target() {
                r matches Ok((found, duplicate)) && found == record && duplicate
            } else {
                r matches Err(PostgresRepositoryError::InvalidOperationStatusTransition { from, to })
                    && from == record.status && to == transition.spec_target()
            },
            None => r matches Err(PostgresRepositoryError::UnknownOperationIdempotencyKey(key))
                && key@ == idempotency_key@,
        },
{
    match existing {
        Some(record) => {
            if record.status == transition.target_status {
                Ok((record, true))
            } else {
                Err(
                    PostgresRepositoryError::InvalidOperationStatusTransition {
                        from: record.status,
                        to: transition.target_status,
                    },
                )
            }
        },
        None => Err(PostgresRepositoryError::UnknownOperationIdempotencyKey(string_of(idempotency_key))),
    }
}

/// The status a ledger statement produces; an unknown statement is treated
/// as a failure.
pub fn target_status_for_statement(sql: &str) -> (r: ActionStatus)
    ensures
        sql@ == MARK_EXECUTING@ ==> r == ActionStatus::Executing,
        sql@ != MARK_EXECUTING@ && sql@ == MARK_SUCCEEDED@ ==> r == ActionStatus::Succeeded,
        sql@ != MARK_EXECUTING@ && sql@ != MARK_SUCCEEDED@ ==> r == ActionStatus::Failed,
{
    if str_equals(sql, MARK_EXECUTING) {
        ActionStatus::Executing
    } else if str_equals(sql, MARK_SUCCEEDED) {
        ActionStatus::Succeeded
    } else {
        ActionStatus::Failed
    }
}

/// The ledger repository's reading of a statement that updated no row: the
/// operation's current record decides, and repository failures keep only
/// their safe reason.
pub fn ledger_transition_miss(
    existing: PgRepositoryResult<Option<OperationRecord>>,
    target_status: ActionStatus,
    idempotency_key: &str,
) -> (r: Result<OperationRecord, LedgerError>)
    ensures
        match existing {
            Ok(Some(record)) => if record.status == target_status {
                r == Ok::<OperationRecord, LedgerError>(record)
            } else {
                r == Err::<OperationRecord, LedgerError>(
                    LedgerError::InvalidTransition { from: record.status, to: target_status },
                )
            },
            Ok(None) => r matches Err(LedgerError::UnknownIdempotencyKey(key)) && key@
                == idempotency_key@,
            Err(error) => r matches Err(LedgerError::RepositoryFailure(reason)) && reason@
                == safe_error_reason(error),
        },
{
    match existing {
        Ok(Some(record)) => {
            if record.status == target_status {
                Ok(record)
            } else {
                Err(LedgerError::InvalidTransition { from: record.status, to: target_status })
            }
        },
        Ok(None) => Err(LedgerError::UnknownIdempotencyKey(string_of(idempotency_key))),
        Err(error) => Err(ledger_repository_failure(&error)),
    }
}

/// The inbox status that mirrors a ledger status, if the ledger status is
/// one the inbox shows.
pub open spec fn inbox_status_for_ledger(status: ActionStatus) -> Option<ReviewInboxItemStatus> {
    match status {
        ActionStatus::Confirmed | ActionStatus::Proposed => None,
        ActionStatus::Executing => Some(ReviewInboxItemStatus::Executing),
        ActionStatus::Succeeded => Some(ReviewInboxItemStatus::Succeeded),
        ActionStatus::Failed | ActionStatus::Cancelled => Some(ReviewInboxItemStatus::Failed),
    }
}

pub fn review_inbox_status_for_ledger_status(status: ActionStatus) -> (r: Option<
    ReviewInboxItemStatus,
>)
    ensures
        r == inbox_status_for_ledger(status),
{
    match status {
        ActionStatus::Confirmed | ActionStatus::Proposed => None,
        ActionStatus::Executing => Some(ReviewInboxItemStatus::Executing),
        ActionStatus::Succeeded => Some(ReviewInboxItemStatus::Succeeded),
        ActionStatus::Failed | ActionStatus::Cancelled => Some(ReviewInboxItemStatus::Failed),
    }
}

/// Every status a transition statement produces is mirrored in the inbox,
/// and the mirror of a finished operation is itself a finished inbox status.
pub proof fn lemma_transition_targets_are_mirrored(transition: OperationStatusTransition)
    requires
        transition.spec_target() == ActionStatus::Executing || transition.spec_target()
            == ActionStatus::Succeeded || transition.spec_target() == ActionStatus::Failed,
    ensures
        inbox_status_for_ledger(transition.spec_target()) is Some,
        transition_source(transition.spec_target()) is Some,
        transition.spec_target() != ActionStatus::Executing ==> inbox_status_for_ledger(
            transition.spec_target(),
        ) != Some(ReviewInboxItemStatus::Executing),
{
}

/// Replaying a transition whose first run already moved the operation is
/// harmless: the miss resolves to the same record, flagged as a duplicate.
pub proof fn lemma_transition_replay_is_duplicate(
    record: OperationRecord,
    transition: OperationStatusTransition,
)
    requires
        record.status == transition.spec_target(),
    ensures
        record.status != transition_source(transition.spec_target())->0 || transition_source(
            transition.spec_target(),
        ) is None,
{
}

} // verus!
