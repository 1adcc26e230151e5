use oar_core::domain::{ActionStatus, LedgerError, OperationRecord, ReviewInboxItemStatus, SubmitResult};
use oar_core::error::PostgresRepositoryError;
use oar_core::ledger::{
    ledger_transition_miss, resolve_transition_miss, review_inbox_status_for_ledger_status,
    submit_result_parts, target_status_for_statement, OperationStatusTransition,
};
use oar_core::operation_ledger_sql::{MARK_EXECUTING, MARK_FAILED, MARK_SUCCEEDED};

fn record(status: ActionStatus) -> OperationRecord {
    OperationRecord {
        operation_id: "op_1".to_string(),
        tenant_id: "tenant_1".to_string(),
        action_id: "ca_1".to_string(),
        idempotency_key: "idem_1".to_string(),
        status,
        last_error: None,
    }
}

#[test]
fn transitions_pair_each_statement_with_its_status() {
    let executing = OperationStatusTransition::mark_executing();
    assert_eq!(executing.target_status(), ActionStatus::Executing);
    assert_eq!(executing.sql(), MARK_EXECUTING);
    let succeeded = OperationStatusTransition::mark_succeeded();
    assert_eq!(succeeded.target_status(), ActionStatus::Succeeded);
    assert_eq!(succeeded.sql(), MARK_SUCCEEDED);
    let failed = OperationStatusTransition::mark_failed();
    assert_eq!(failed.target_status(), ActionStatus::Failed);
    assert_eq!(failed.sql(), MARK_FAILED);
    assert_eq!(target_status_for_statement(MARK_EXECUTING), ActionStatus::Executing);
    assert_eq!(target_status_for_statement(MARK_SUCCEEDED), ActionStatus::Succeeded);
    assert_eq!(target_status_for_statement(MARK_FAILED), ActionStatus::Failed);
    assert_eq!(target_status_for_statement("SELECT 1"), ActionStatus::Failed);
}

#[test]
fn submit_result_reports_whether_the_record_existed() {
    assert_eq!(
        submit_result_parts(SubmitResult::Created(record(ActionStatus::Confirmed))),
        (record(ActionStatus::Confirmed), false)
    );
    assert_eq!(
        submit_result_parts(SubmitResult::Existing(record(ActionStatus::Executing))),
        (record(ActionStatus::Executing), true)
    );
}

#[test]
fn replayed_transition_resolves_to_a_duplicate() {
    let transition = OperationStatusTransition::mark_succeeded();
    let resolved =
        resolve_transition_miss(Some(record(ActionStatus::Succeeded)), transition, "idem_1")
            .expect("replay");
    assert_eq!(resolved, (record(ActionStatus::Succeeded), true));
}

#[test]
fn transition_from_the_wrong_status_is_invalid() {
    let transition = OperationStatusTransition::mark_succeeded();
    assert!(matches!(
        resolve_transition_miss(Some(record(ActionStatus::Confirmed)), transition, "idem_1"),
        Err(PostgresRepositoryError::InvalidOperationStatusTransition {
            from: ActionStatus::Confirmed,
            to: ActionStatus::Succeeded,
        })
    ));
    assert!(matches!(
        resolve_transition_miss(None, transition, "idem_9"),
        Err(PostgresRepositoryError::UnknownOperationIdempotencyKey(key)) if key == "idem_9"
    ));
}

#[test]
fn ledger_miss_maps_to_ledger_errors() {
    assert_eq!(
        ledger_transition_miss(Ok(Some(record(ActionStatus::Failed))), ActionStatus::Failed, "idem_1"),
        Ok(record(ActionStatus::Failed))
    );
    assert_eq!(
        ledger_transition_miss(
            Ok(Some(record(ActionStatus::Executing))),
            ActionStatus::Executing.clone(),
            "idem_1"
        ),
        Ok(record(ActionStatus::Executing))
    );
    assert_eq!(
        ledger_transition_miss(Ok(Some(record(ActionStatus::Confirmed))), ActionStatus::Failed, "idem_1"),
        Err(LedgerError::InvalidTransition {
            from: ActionStatus::Confirmed,
            to: ActionStatus::Failed,
        })
    );
    assert_eq!(
        ledger_transition_miss(Ok(None), ActionStatus::Failed, "idem_2"),
        Err(LedgerError::UnknownIdempotencyKey("idem_2".to_string()))
    );
    assert_eq!(
        ledger_transition_miss(
            Err(PostgresRepositoryError::UnknownActionStatus("weird password".to_string())),
            ActionStatus::Failed,
            "idem_1"
        ),
        Err(LedgerError::RepositoryFailure("unknown_action_status".to_string()))
    );
}

#[test]
fn inbox_mirrors_ledger_statuses() {
    assert_eq!(review_inbox_status_for_ledger_status(ActionStatus::Proposed), None);
    assert_eq!(review_inbox_status_for_ledger_status(ActionStatus::Confirmed), None);
    assert_eq!(
        review_inbox_status_for_ledger_status(ActionStatus::Executing),
        Some(ReviewInboxItemStatus::Executing)
    );
    assert_eq!(
        review_inbox_status_for_ledger_status(ActionStatus::Succeeded),
        Some(ReviewInboxItemStatus::Succeeded)
    );
    assert_eq!(
        review_inbox_status_for_ledger_status(ActionStatus::Failed),
        Some(ReviewInboxItemStatus::Failed)
    );
    assert_eq!(
        review_inbox_status_for_ledger_status(ActionStatus::Cancelled),
        Some(ReviewInboxItemStatus::Failed)
    );
}
