//! Recording an execution step of a confirmed action as a sequence of
//! database steps: write the ledger (submit the confirmation, or move the
//! operation to a new status), mirror the new status on the review inbox row,
//! append the audit event and its outbox message, commit. Each database
//! answer is an observation; from the recording so far and the observation
//! this module decides the next step, which the caller performs.
use vstd::prelude::*;

use crate::domain::{ActionStatus, OperationRecord, ReviewInboxItemStatus};
use crate::ledger::{inbox_status_for_ledger, review_inbox_status_for_ledger_status};

verus! {

/// What an execution recording wrote.
#[derive(Debug, Clone)]
pub struct PostgresExecutionRecorderReport {
    pub operation: OperationRecord,
    pub outbox_id: Option<i64>,
    pub inbox_item_id: Option<String>,
    pub duplicate: bool,
}

/// How far an execution recording has come, with what the steps so far
/// produced.
#[derive(Debug, Clone)]
pub enum ExecutionStage {
    WritingLedger,
    ProjectingInbox { operation: OperationRecord },
    WritingAudit { operation: OperationRecord, inbox_item_id: Option<String> },
    Finished,
}

/// An execution recording: the status it moves the operation to (none for a
/// confirmation, which submits the action), and its stage.
#[derive(Debug, Clone)]
pub struct ExecutionRecording {
    pub target_status: Option<ActionStatus>,
    pub stage: ExecutionStage,
}

/// What the last database step of an execution recording found.
#[derive(Debug, Clone)]
pub enum ExecutionObservation {
    /// The ledger holds this operation; `duplicate` when the write had
    /// already been made.
    LedgerWritten { operation: OperationRecord, duplicate: bool },
    /// The review inbox row that now mirrors the operation, if one does.
    InboxProjected { inbox_item_id: Option<String> },
    /// The audit event was appended and its outbox message enqueued.
    AuditWritten { outbox_id: i64 },
}

/// What to do next.
#[derive(Debug, Clone)]
pub enum ExecutionStep {
    /// Mirror the ledger status on the operation's review inbox row.
    ProjectInbox { inbox_status: ReviewInboxItemStatus, ledger_status: ActionStatus },
    /// Append the audit event for this operation and enqueue its outbox message.
    WriteAudit { operation_id: String },
    /// Commit and report.
    Commit { report: PostgresExecutionRecorderReport },
    /// The observation does not belong to this stage; nothing is done.
    OutOfOrder,
}

/// A recording that has just started: its tenant binding was validated.
pub open spec fn execution_recording_start(target_status: Option<ActionStatus>) -> ExecutionRecording {
    ExecutionRecording { target_status, stage: ExecutionStage::WritingLedger }
}

/// The inbox status that a recording towards `target_status` mirrors, if any.
pub open spec fn projection_for(target_status: Option<ActionStatus>) -> Option<ReviewInboxItemStatus> {
    match target_status {
        Some(status) => inbox_status_for_ledger(status),
        None => None,
    }
}

/// The recording after `observation`.
pub open spec fn next_execution_recording(
    recording: ExecutionRecording,
    observation: ExecutionObservation,
) -> ExecutionRecording {
    match (recording.stage, observation) {
        (ExecutionStage::WritingLedger, ExecutionObservation::LedgerWritten { operation, duplicate }) => {
            if duplicate {
                ExecutionRecording { stage: ExecutionStage::Finished, ..recording }
            } else if projection_for(recording.target_status) is Some {
                ExecutionRecording { stage: ExecutionStage::ProjectingInbox { operation }, ..recording }
            } else {
                ExecutionRecording {
                    stage: ExecutionStage::WritingAudit { operation, inbox_item_id: None },
                    ..recording
                }
            }
        },
        (ExecutionStage::ProjectingInbox { operation }, ExecutionObservation::InboxProjected { inbox_item_id }) => {
            ExecutionRecording {
                stage: ExecutionStage::WritingAudit { operation, inbox_item_id },
                ..recording
            }
        },
        (ExecutionStage::WritingAudit { .. }, ExecutionObservation::AuditWritten { .. }) => {
            ExecutionRecording { stage: ExecutionStage::Finished, ..recording }
        },
        _ => recording,
    }
}

/// `step` is the step to take in `recording` after `observation`.
pub open spec fn execution_step_fits(
    recording: ExecutionRecording,
    observation: ExecutionObservation,
    step: ExecutionStep,
) -> bool {
    match (recording.stage, observation) {
        (ExecutionStage::WritingLedger, ExecutionObservation::LedgerWritten { operation, duplicate }) => {
            if duplicate {
                step matches ExecutionStep::Commit { report } && report.operation == operation
                    && report.duplicate && report.outbox_id is None && report.inbox_item_id is None
            } else {
                match projection_for(recording.target_status) {
                    Some(mirrored) => step matches ExecutionStep::ProjectInbox {
                        inbox_status,
                        ledger_status,
                    } && inbox_status == mirrored && recording.target_status == Some(ledger_status),
                    None => step matches ExecutionStep::WriteAudit { operation_id }
                        && operation_id@ == operation.operation_id@,
                }
            }
        },
        (ExecutionStage::ProjectingInbox { operation }, ExecutionObservation::InboxProjected { .. }) => {
            step matches ExecutionStep::WriteAudit { operation_id } && operation_id@
                == operation.operation_id@
        },
        (ExecutionStage::WritingAudit { operation, inbox_item_id }, ExecutionObservation::AuditWritten { outbox_id }) => {
            step matches ExecutionStep::Commit { report } && report.operation == operation
                && !report.duplicate && report.inbox_item_id == inbox_item_id && report.outbox_id
                == Some(outbox_id)
        },
        _ => step is OutOfOrder,
    }
}

/// Starts a recording: a confirmation when `target_status` is none, else a
/// move of the operation to `target_status`.
pub fn start_execution_recording(target_status: Option<ActionStatus>) -> (r: ExecutionRecording)
    ensures
        r == execution_recording_start(target_status),
{
    ExecutionRecording { target_status, stage: ExecutionStage::WritingLedger }
}

/// Decides the step to take in `recording` after `observation`.
pub fn next_execution_step(recording: ExecutionRecording, observation: ExecutionObservation) -> (r: (
    ExecutionRecording,
    ExecutionStep,
))
    ensures
        r.0 == next_execution_recording(recording, observation),
        execution_step_fits(recording, observation, r.1),
{
    let ExecutionRecording { target_status, stage } = recording;
    match (stage, observation) {
        (ExecutionStage::WritingLedger, ExecutionObservation::LedgerWritten { operation, duplicate }) => {
            if duplicate {
                let report = PostgresExecutionRecorderReport {
                    operation,
                    outbox_id: None,
                    inbox_item_id: None,
                    duplicate: true,
                };
                return (
                    ExecutionRecording { target_status, stage: ExecutionStage::Finished },
                    ExecutionStep::Commit { report },
                );
            }
            let mirrored = match target_status {
                Some(status) => review_inbox_status_for_ledger_status(status),
                None => None,
            };
            match (mirrored, target_status) {
                (Some(inbox_status), Some(ledger_status)) => (
                    ExecutionRecording {
                        target_status,
                        stage: ExecutionStage::ProjectingInbox { operation },
                    },
                    ExecutionStep::ProjectInbox { inbox_status, ledger_status },
                ),
                _ => {
                    let operation_id = operation.operation_id.clone();
                    (
                        ExecutionRecording {
                            target_status,
                            stage: ExecutionStage::WritingAudit { operation, inbox_item_id: None },
                        },
                        ExecutionStep::WriteAudit { operation_id },
                    )
                },
            }
        },
        (ExecutionStage::ProjectingInbox { operation }, ExecutionObservation::InboxProjected { inbox_item_id }) => {
            let operation_id = operation.operation_id.clone();
            (
                ExecutionRecording {
                    target_status,
                    stage: ExecutionStage::WritingAudit { operation, inbox_item_id },
                },
                ExecutionStep::WriteAudit { operation_id },
            )
        },
        (ExecutionStage::WritingAudit { operation, inbox_item_id }, ExecutionObservation::AuditWritten { outbox_id }) => {
            let report = PostgresExecutionRecorderReport {
                operation,
                outbox_id: Some(outbox_id),
                inbox_item_id,
                duplicate: false,
            };
            (
                ExecutionRecording { target_status, stage: ExecutionStage::Finished },
                ExecutionStep::Commit { report },
            )
        },
        (stage, _) => (ExecutionRecording { target_status, stage }, ExecutionStep::OutOfOrder),
    }
}

/// `steps` are the steps a recording in `recording` decides, one for each
/// observation in order.
pub open spec fn execution_run(
    recording: ExecutionRecording,
    observations: Seq<ExecutionObservation>,
    steps: Seq<ExecutionStep>,
) -> bool
    decreases observations.len(),
{
    if observations.len() == 0 {
        steps.len() == 0
    } else {
        &&& steps.len() == observations.len()
        &&& execution_step_fits(recording, observations[0], steps[0])
        &&& execution_run(
            next_execution_recording(recording, observations[0]),
            observations.drop_first(),
            steps.drop_first(),
        )
    }
}

/// Once a recording has finished, no observation moves it: every later step
/// is out of order.
pub proof fn lemma_finished_execution_takes_no_step(
    recording: ExecutionRecording,
    observations: Seq<ExecutionObservation>,
    steps: Seq<ExecutionStep>,
)
    requires
        recording.stage is Finished,
        execution_run(recording, observations, steps),
    ensures
        forall|j: int| 0 <= j < steps.len() ==> #[trigger] steps[j] is OutOfOrder,
    decreases observations.len(),
{
    if observations.len() > 0 {
        lemma_finished_execution_takes_no_step(
            next_execution_recording(recording, observations[0]),
            observations.drop_first(),
            steps.drop_first(),
        );
        assert forall|j: int| 0 <= j < steps.len() implies #[trigger] steps[j] is OutOfOrder by {
            if j > 0 {
                assert(steps[j] == steps.drop_first()[j - 1]);
            }
        }
    }
}

/// A replayed ledger write writes nothing more: when the ledger reports the
/// write as already made, the recording commits a duplicate report at once,
/// and every later observation is out of order, so no inbox row is moved and
/// no audit event is written.
pub proof fn lemma_replayed_write_writes_nothing_more(
    target_status: Option<ActionStatus>,
    observations: Seq<ExecutionObservation>,
    steps: Seq<ExecutionStep>,
)
    requires
        execution_run(execution_recording_start(target_status), observations, steps),
        observations.len() > 0,
        observations[0] matches ExecutionObservation::LedgerWritten { duplicate, .. } && duplicate,
    ensures
        steps[0] matches ExecutionStep::Commit { report } && report.duplicate
            && report.outbox_id is None && report.inbox_item_id is None,
        forall|j: int| 1 <= j < steps.len() ==> #[trigger] steps[j] is OutOfOrder,
{
    let start = execution_recording_start(target_status);
    lemma_finished_execution_takes_no_step(
        next_execution_recording(start, observations[0]),
        observations.drop_first(),
        steps.drop_first(),
    );
    assert forall|j: int| 1 <= j < steps.len() implies #[trigger] steps[j] is OutOfOrder by {
        assert(steps[j] == steps.drop_first()[j - 1]);
    }
}

proof fn lemma_confirmation_never_projects_from(
    recording: ExecutionRecording,
    observations: Seq<ExecutionObservation>,
    steps: Seq<ExecutionStep>,
)
    requires
        recording.target_status is None,
        execution_run(recording, observations, steps),
    ensures
        forall|j: int| 0 <= j < steps.len() ==> !(#[trigger] steps[j] is ProjectInbox),
    decreases observations.len(),
{
    if observations.len() > 0 {
        lemma_confirmation_never_projects_from(
            next_execution_recording(recording, observations[0]),
            observations.drop_first(),
            steps.drop_first(),
        );
        assert forall|j: int| 0 <= j < steps.len() implies !(#[trigger] steps[j] is ProjectInbox) by {
            if j > 0 {
                assert(steps[j] == steps.drop_first()[j - 1]);
            }
        }
    }
}

/// Recording a confirmation never touches the review inbox: only a status
/// move is mirrored there.
pub proof fn lemma_confirmation_never_projects_inbox(
    observations: Seq<ExecutionObservation>,
    steps: Seq<ExecutionStep>,
)
    requires
        execution_run(execution_recording_start(None), observations, steps),
    ensures
        forall|j: int| 0 <= j < steps.len() ==> !(#[trigger] steps[j] is ProjectInbox),
{
    lemma_confirmation_never_projects_from(execution_recording_start(None), observations, steps);
}

/// A recording answers once: after the step that commits, every step is out
/// of order.
pub proof fn lemma_execution_commits_once(
    recording: ExecutionRecording,
    observations: Seq<ExecutionObservation>,
    steps: Seq<ExecutionStep>,
)
    requires
        execution_run(recording, observations, steps),
    ensures
        forall|i: int, j: int|
            0 <= i < j < steps.len() && #[trigger] steps[i] is Commit ==> #[trigger] steps[j] is OutOfOrder,
    decreases observations.len(),
{
    if observations.len() > 0 {
        let next = next_execution_recording(recording, observations[0]);
        lemma_execution_commits_once(next, observations.drop_first(), steps.drop_first());
        if steps[0] is Commit {
            lemma_finished_execution_takes_no_step(next, observations.drop_first(), steps.drop_first());
        }
        assert forall|i: int, j: int|
            0 <= i < j < steps.len() && #[trigger] steps[i] is Commit implies #[trigger] steps[j] is OutOfOrder by {
            assert(steps[j] == steps.drop_first()[j - 1]);
            if i > 0 {
                assert(steps[i] == steps.drop_first()[i - 1]);
            }
        }
    }
}

proof fn lemma_audit_names_operation_from(
    recording: ExecutionRecording,
    observations: Seq<ExecutionObservation>,
    steps: Seq<ExecutionStep>,
    operation_id: Seq<char>,
)
    requires
        recording.stage is Finished || (recording.stage matches ExecutionStage::ProjectingInbox {
            operation,
        } && operation.operation_id@ == operation_id) || (
        recording.stage matches ExecutionStage::WritingAudit { operation, .. }
            && operation.operation_id@ == operation_id),
        execution_run(recording, observations, steps),
    ensures
        forall|j: int|
            0 <= j < steps.len() ==> (#[trigger] steps[j] matches ExecutionStep::WriteAudit {
                operation_id: written,
            } ==> written@ == operation_id),
    decreases observations.len(),
{
    if observations.len() > 0 {
        lemma_audit_names_operation_from(
            next_execution_recording(recording, observations[0]),
            observations.drop_first(),
            steps.drop_first(),
            operation_id,
        );
        assert forall|j: int| 0 <= j < steps.len() implies (#[trigger] steps[j] matches ExecutionStep::WriteAudit {
            operation_id: written,
        } ==> written@ == operation_id) by {
            if j > 0 {
                assert(steps[j] == steps.drop_first()[j - 1]);
            }
        }
    }
}

/// The audit event of a recording is written for the operation that the
/// ledger write returned, and for no other.
pub proof fn lemma_audit_names_the_written_operation(
    target_status: Option<ActionStatus>,
    operation: OperationRecord,
    duplicate: bool,
    observations: Seq<ExecutionObservation>,
    steps: Seq<ExecutionStep>,
)
    requires
        execution_run(execution_recording_start(target_status), observations, steps),
        observations.len() > 0,
        observations[0] == (ExecutionObservation::LedgerWritten { operation, duplicate }),
    ensures
        forall|j: int|
            0 <= j < steps.len() ==> (#[trigger] steps[j] matches ExecutionStep::WriteAudit {
                operation_id,
            } ==> operation_id@ == operation.operation_id@),
{
    let start = execution_recording_start(target_status);
    lemma_audit_names_operation_from(
        next_execution_recording(start, observations[0]),
        observations.drop_first(),
        steps.drop_first(),
        operation.operation_id@,
    );
    assert forall|j: int| 0 <= j < steps.len() implies (#[trigger] steps[j] matches ExecutionStep::WriteAudit {
        operation_id,
    } ==> operation_id@ == operation.operation_id@) by {
        if j > 0 {
            assert(steps[j] == steps.drop_first()[j - 1]);
        }
    }
}

proof fn lemma_no_audit_after_audit(
    recording: ExecutionRecording,
    observations: Seq<ExecutionObservation>,
    steps: Seq<ExecutionStep>,
)
    requires
        recording.stage is WritingAudit || recording.stage is Finished,
        execution_run(recording, observations, steps),
    ensures
        forall|j: int| 0 <= j < steps.len() ==> !(#[trigger] steps[j] is WriteAudit),
    decreases observations.len(),
{
    if observations.len() > 0 {
        lemma_no_audit_after_audit(
            next_execution_recording(recording, observations[0]),
            observations.drop_first(),
            steps.drop_first(),
        );
        assert forall|j: int| 0 <= j < steps.len() implies !(#[trigger] steps[j] is WriteAudit) by {
            if j > 0 {
                assert(steps[j] == steps.drop_first()[j - 1]);
            }
        }
    }
}

/// A recording writes its audit event at most once: after the step that
/// writes it, no later step writes another.
pub proof fn lemma_execution_audits_once(
    recording: ExecutionRecording,
    observations: Seq<ExecutionObservation>,
    steps: Seq<ExecutionStep>,
)
    requires
        execution_run(recording, observations, steps),
    ensures
        forall|i: int, j: int|
            0 <= i < j < steps.len() && #[trigger] steps[i] is WriteAudit ==> !(
            #[trigger] steps[j] is WriteAudit),
    decreases observations.len(),
{
    if observations.len() > 0 {
        let next = next_execution_recording(recording, observations[0]);
        lemma_execution_audits_once(next, observations.drop_first(), steps.drop_first());
        if steps[0] is WriteAudit {
            lemma_no_audit_after_audit(next, observations.drop_first(), steps.drop_first());
        }
        assert forall|i: int, j: int|
            0 <= i < j < steps.len() && #[trigger] steps[i] is WriteAudit implies !(
            #[trigger] steps[j] is WriteAudit) by {
            assert(steps[j] == steps.drop_first()[j - 1]);
            if i > 0 {
                assert(steps[i] == steps.drop_first()[i - 1]);
            }
        }
    }
}

} // verus!
