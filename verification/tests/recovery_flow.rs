use oar_core::domain::ActionStatus;
use oar_core::recovery::{
    OperationalRecoveryExecutionTarget, OperationalRecoveryKindTag, RecoveryDryRunOutcome,
    RecoveryFailure,
};
use oar_core::recovery_flow::{
    next_recovery_step, RecoveryObservation, RecoveryStage, RecoveryState, RecoveryStep,
};

fn start(kind: OperationalRecoveryKindTag) -> RecoveryState {
    RecoveryState {
        kind,
        stage: RecoveryStage::Submitting,
    }
}

fn run(kind: OperationalRecoveryKindTag, observations: Vec<RecoveryObservation>) -> (RecoveryState, Vec<RecoveryStep>) {
    let mut state = start(kind);
    let mut steps = Vec::new();
    for observation in observations {
        let (next, step) = next_recovery_step(state, observation);
        state = next;
        steps.push(step);
    }
    (state, steps)
}

#[test]
fn requeue_writes_after_an_eligible_dry_run() {
    let (state, steps) = run(
        OperationalRecoveryKindTag::RequeueFailedAuditOutbox,
        vec![
            RecoveryObservation::Submitted {
                duplicate: false,
                status: ActionStatus::Confirmed,
            },
            RecoveryObservation::ExecutingMarked { duplicate: false },
            RecoveryObservation::OutboxLocked {
                outbox_id: 7,
                eligible: true,
                payload_safe: true,
            },
            RecoveryObservation::OutboxReopened { outbox_id: Some(7) },
            RecoveryObservation::ExecutingMarked { duplicate: false },
        ],
    );
    assert_eq!(
        steps,
        vec![
            RecoveryStep::MarkExecuting {
                record_confirmation: true
            },
            RecoveryStep::LockTarget,
            RecoveryStep::WriteTarget {
                dry_run: RecoveryDryRunOutcome::Eligible("audit_outbox:7".to_string())
            },
            RecoveryStep::Succeed {
                target: OperationalRecoveryExecutionTarget::AuditOutboxRequeue { outbox_id: 7 }
            },
            RecoveryStep::OutOfOrder,
        ]
    );
    assert_eq!(state.stage, RecoveryStage::Finished);
}

#[test]
fn unsafe_outbox_payload_fails_after_its_dry_run() {
    let (_, steps) = run(
        OperationalRecoveryKindTag::RequeueFailedAuditOutbox,
        vec![
            RecoveryObservation::Submitted {
                duplicate: true,
                status: ActionStatus::Confirmed,
            },
            RecoveryObservation::ExecutingMarked { duplicate: false },
            RecoveryObservation::OutboxLocked {
                outbox_id: 7,
                eligible: true,
                payload_safe: false,
            },
        ],
    );
    assert_eq!(
        steps,
        vec![
            RecoveryStep::MarkExecuting {
                record_confirmation: false
            },
            RecoveryStep::LockTarget,
            RecoveryStep::FailAfterDryRun {
                dry_run: RecoveryDryRunOutcome::UnsafePayload("audit_outbox:7".to_string()),
                failure: RecoveryFailure::UnsafeOutboxPayload,
            },
        ]
    );
}

#[test]
fn replayed_recovery_reports_a_duplicate() {
    let (state, steps) = run(
        OperationalRecoveryKindTag::ResumePausedAuthRefresh,
        vec![
            RecoveryObservation::Submitted {
                duplicate: true,
                status: ActionStatus::Succeeded,
            },
            RecoveryObservation::GrantLocked {
                grant_id: Some("grant_1".to_string()),
            },
        ],
    );
    assert_eq!(
        steps,
        vec![RecoveryStep::ReportDuplicate, RecoveryStep::OutOfOrder]
    );
    assert_eq!(state.stage, RecoveryStage::Finished);
    let (_, steps) = run(
        OperationalRecoveryKindTag::ResumePausedAuthRefresh,
        vec![
            RecoveryObservation::Submitted {
                duplicate: false,
                status: ActionStatus::Confirmed,
            },
            RecoveryObservation::ExecutingMarked { duplicate: true },
        ],
    );
    assert_eq!(steps[1], RecoveryStep::ReportDuplicate);
}

#[test]
fn resume_conflict_and_missing_grant_fail() {
    let (_, steps) = run(
        OperationalRecoveryKindTag::ResumePausedAuthRefresh,
        vec![
            RecoveryObservation::Submitted {
                duplicate: false,
                status: ActionStatus::Confirmed,
            },
            RecoveryObservation::ExecutingMarked { duplicate: false },
            RecoveryObservation::GrantLocked {
                grant_id: Some("grant_1".to_string()),
            },
            RecoveryObservation::GrantResumed { grant_id: None },
        ],
    );
    assert_eq!(
        steps[2],
        RecoveryStep::WriteTarget {
            dry_run: RecoveryDryRunOutcome::Eligible("grant_1".to_string())
        }
    );
    assert_eq!(
        steps[3],
        RecoveryStep::Fail {
            failure: RecoveryFailure::ResumeConflict
        }
    );
    let (_, steps) = run(
        OperationalRecoveryKindTag::ResumePausedAuthRefresh,
        vec![
            RecoveryObservation::Submitted {
                duplicate: false,
                status: ActionStatus::Confirmed,
            },
            RecoveryObservation::ExecutingMarked { duplicate: false },
            RecoveryObservation::GrantLocked { grant_id: None },
        ],
    );
    assert_eq!(
        steps[2],
        RecoveryStep::FailAfterDryRun {
            dry_run: RecoveryDryRunOutcome::Missing,
            failure: RecoveryFailure::NoEligibleGrant,
        }
    );
}

#[test]
fn observation_of_the_other_recovery_is_out_of_order() {
    let state = RecoveryState {
        kind: OperationalRecoveryKindTag::RequeueFailedAuditOutbox,
        stage: RecoveryStage::LockingTarget,
    };
    let (next, step) = next_recovery_step(
        state,
        RecoveryObservation::GrantLocked {
            grant_id: Some("grant_1".to_string()),
        },
    );
    assert_eq!(next, state);
    assert_eq!(step, RecoveryStep::OutOfOrder);
}
