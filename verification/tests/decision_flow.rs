use oar_core::domain::{ActionStatus, OperationRecord};
use oar_core::error::PostgresRepositoryError;
use oar_core::review_decision_flow::{
    next_decision_step, DecisionObservation, DecisionRecording, DecisionStage, DecisionStep,
};

fn start(submits_action: bool, cursor: u64) -> DecisionRecording {
    DecisionRecording {
        stage: DecisionStage::Inserting,
        submits_action,
        expected_sync_cursor_value: cursor,
        operation: None,
        inbox_item_id: None,
    }
}

fn operation() -> OperationRecord {
    OperationRecord {
        operation_id: "op-1".to_string(),
        tenant_id: "tenant-a".to_string(),
        action_id: "action-1".to_string(),
        idempotency_key: "idem-1".to_string(),
        status: ActionStatus::Confirmed,
        last_error: None,
    }
}

fn run(
    recording: DecisionRecording,
    observations: Vec<DecisionObservation>,
) -> (DecisionRecording, Vec<DecisionStep>) {
    let mut recording = recording;
    let mut steps = Vec::new();
    for observation in observations {
        let (next, step) = next_decision_step(recording, observation);
        recording = next;
        steps.push(step);
    }
    (recording, steps)
}

#[test]
fn confirming_decision_submits_moves_inbox_and_audits_its_operation() {
    let (recording, steps) = run(
        start(true, 4),
        vec![
            DecisionObservation::DecisionInserted { inserted: true },
            DecisionObservation::ActionSubmitted { operation: operation() },
            DecisionObservation::InboxUpdated {
                inbox_item_id: Some("inbox-1".to_string()),
            },
            DecisionObservation::AuditWritten { outbox_id: 11 },
        ],
    );
    assert_eq!(recording.stage, DecisionStage::Finished);
    assert!(matches!(steps[0], DecisionStep::SubmitConfirmedAction));
    assert!(matches!(steps[1], DecisionStep::UpdateInbox));
    match &steps[2] {
        DecisionStep::WriteAudit { operation_id } => {
            assert_eq!(operation_id.as_deref(), Some("op-1"))
        }
        other => panic!("unexpected step {:?}", other),
    }
    match &steps[3] {
        DecisionStep::Commit { report } => {
            assert!(!report.duplicate);
            assert_eq!(report.operation, Some(operation()));
            assert_eq!(report.inbox_item_id.as_deref(), Some("inbox-1"));
            assert_eq!(report.outbox_id, Some(11));
        }
        other => panic!("unexpected step {:?}", other),
    }
}

#[test]
fn rejecting_decision_never_submits_and_audits_without_operation() {
    let (_, steps) = run(
        start(false, 2),
        vec![
            DecisionObservation::DecisionInserted { inserted: true },
            DecisionObservation::InboxUpdated {
                inbox_item_id: Some("inbox-2".to_string()),
            },
            DecisionObservation::AuditWritten { outbox_id: 3 },
        ],
    );
    assert!(matches!(steps[0], DecisionStep::UpdateInbox));
    assert!(matches!(steps[1], DecisionStep::WriteAudit { operation_id: None }));
    match &steps[2] {
        DecisionStep::Commit { report } => {
            assert!(!report.duplicate);
            assert!(report.operation.is_none());
            assert_eq!(report.outbox_id, Some(3));
        }
        other => panic!("unexpected step {:?}", other),
    }
}

#[test]
fn stored_matching_decision_is_reported_as_duplicate_without_writes() {
    let (recording, steps) = run(
        start(true, 4),
        vec![
            DecisionObservation::DecisionInserted { inserted: false },
            DecisionObservation::ExistingDecisionCompared { matches: true },
            DecisionObservation::ActionSubmitted { operation: operation() },
        ],
    );
    assert_eq!(recording.stage, DecisionStage::Finished);
    assert!(matches!(steps[0], DecisionStep::CompareExistingDecision));
    match &steps[1] {
        DecisionStep::Commit { report } => {
            assert!(report.duplicate);
            assert!(report.operation.is_none());
            assert!(report.inbox_item_id.is_none());
            assert!(report.outbox_id.is_none());
        }
        other => panic!("unexpected step {:?}", other),
    }
    assert!(matches!(steps[2], DecisionStep::OutOfOrder));
}

#[test]
fn stored_conflicting_decision_is_refused() {
    let (_, steps) = run(
        start(false, 4),
        vec![
            DecisionObservation::DecisionInserted { inserted: false },
            DecisionObservation::ExistingDecisionCompared { matches: false },
        ],
    );
    match &steps[1] {
        DecisionStep::Abort {
            error: PostgresRepositoryError::ReviewDecisionRequestMismatch { field, expected, actual },
        } => {
            assert_eq!(*field, "decision");
            assert_eq!(expected, "same_existing_decision");
            assert_eq!(actual, "conflicting_existing_decision");
        }
        other => panic!("unexpected step {:?}", other),
    }
}

#[test]
fn stale_inbox_row_aborts_with_expected_cursor() {
    let (recording, steps) = run(
        start(true, 42),
        vec![
            DecisionObservation::DecisionInserted { inserted: true },
            DecisionObservation::ActionSubmitted { operation: operation() },
            DecisionObservation::InboxUpdated { inbox_item_id: None },
        ],
    );
    assert_eq!(recording.stage, DecisionStage::Finished);
    match &steps[2] {
        DecisionStep::Abort {
            error: PostgresRepositoryError::ReviewDecisionRequestMismatch { field, expected, actual },
        } => {
            assert_eq!(*field, "inbox_item.sync_cursor");
            assert_eq!(expected, "42");
            assert_eq!(actual, "stale_or_terminal");
        }
        other => panic!("unexpected step {:?}", other),
    }
}

#[test]
fn observation_out_of_order_changes_nothing() {
    let (recording, steps) = run(
        start(true, 1),
        vec![DecisionObservation::AuditWritten { outbox_id: 9 }],
    );
    assert_eq!(recording.stage, DecisionStage::Inserting);
    assert!(matches!(steps[0], DecisionStep::OutOfOrder));
}

#[test]
fn finished_recording_answers_once() {
    let (recording, steps) = run(
        start(false, 3),
        vec![
            DecisionObservation::DecisionInserted { inserted: true },
            DecisionObservation::InboxUpdated {
                inbox_item_id: Some("inbox-3".to_string()),
            },
            DecisionObservation::AuditWritten { outbox_id: 8 },
            DecisionObservation::AuditWritten { outbox_id: 9 },
            DecisionObservation::InboxUpdated {
                inbox_item_id: Some("inbox-3".to_string()),
            },
        ],
    );
    assert_eq!(recording.stage, DecisionStage::Finished);
    assert!(matches!(steps[2], DecisionStep::Commit { .. }));
    assert!(matches!(steps[3], DecisionStep::OutOfOrder));
    assert!(matches!(steps[4], DecisionStep::OutOfOrder));
}
