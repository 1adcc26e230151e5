//! Recording a review decision as a sequence of steps: insert the decision,
//! or compare it with the one already stored; submit the confirmed action;
//! move the inbox row; append the audit event and its outbox message; commit.
//! Each database answer is an observation; from the recording so far and the
//! observation this module decides the next step, which the caller performs.
use vstd::prelude::*;

use crate::domain::OperationRecord;
use crate::error::{PgRepositoryResult, PostgresRepositoryError};
use crate::review_decision::{
    decision_submission, duplicate_decision_outcome, stale_inbox_item_error,
    PostgresReviewDecisionRecorderReport,
};
use crate::validation::{
    error_reports, review_decision_request_consistent, review_decision_request_failure,
    validate_review_decision_request, PostgresReviewDecisionRecorderRequest,
};
use crate::text::decimal;

verus! {

/// How far a decision recording has come.
#[derive(Debug, Clone, Copy, PartialEq, Eq, Structural)]
pub enum DecisionStage {
    Inserting,
    CheckingExisting,
    Submitting,
    UpdatingInbox,
    WritingAudit,
    Finished,
}

/// A decision recording: its stage, what the request asks for, and what the
/// steps so far produced.
#[derive(Debug, Clone)]
pub struct DecisionRecording {
    pub stage: DecisionStage,
    pub submits_action: bool,
    pub expected_sync_cursor_value: u64,
    pub operation: Option<OperationRecord>,
    pub inbox_item_id: Option<String>,
}

/// What the last database step of a decision recording found.
#[derive(Debug, Clone)]
pub enum DecisionObservation {
    /// The decision row was inserted, or one was already stored.
    DecisionInserted { inserted: bool },
    /// Whether the stored decision is the one being recorded.
    ExistingDecisionCompared { matches: bool },
    /// The confirmed action reached the ledger as this operation.
    ActionSubmitted { operation: OperationRecord },
    /// The inbox row the decision moved, if it was still at the expected
    /// cursor and not final.
    InboxUpdated { inbox_item_id: Option<String> },
    /// The audit event was appended and its outbox message enqueued.
    AuditWritten { outbox_id: i64 },
}

/// What to do next.
#[derive(Debug)]
pub enum DecisionStep {
    /// Load the stored decision and compare it with the request.
    CompareExistingDecision,
    /// Submit the request's confirmed action to the ledger.
    SubmitConfirmedAction,
    /// Move the inbox row to the decided status.
    UpdateInbox,
    /// Append the audit event, tied to the operation if there is one, and
    /// enqueue its outbox message.
    WriteAudit { operation_id: Option<String> },
    /// Commit and report.
    Commit { report: PostgresReviewDecisionRecorderReport },
    /// Roll back and fail.
    Abort { error: PostgresRepositoryError },
    /// The observation does not belong to this stage; nothing is done.
    OutOfOrder,
}

/// A recording that has just started: the request passed validation.
pub open spec fn decision_recording_start(submits_action: bool, expected_sync_cursor_value: u64) -> DecisionRecording {
    DecisionRecording {
        stage: DecisionStage::Inserting,
        submits_action,
        expected_sync_cursor_value,
        operation: None,
        inbox_item_id: None,
    }
}

/// Starts the recording of a request: the request is validated first, and a
/// request that fails validation starts no recording, so nothing is written
/// for it. A valid recording submits an action when the request carries the
/// action, its confirmation time and its operation id.
pub fn start_decision_recording(request: &PostgresReviewDecisionRecorderRequest) -> (r: PgRepositoryResult<DecisionRecording>)
    ensures
        r is Ok <==> review_decision_request_consistent(*request),
        r matches Err(error) ==> error_reports(error, review_decision_request_failure(*request)->0),
        r matches Ok(recording) ==> recording == decision_recording_start(
            request.confirmed_action is Some && request.confirmed_at_ms is Some
                && request.operation_id is Some,
            request.expected_sync_cursor_value,
        ),
{
    validate_review_decision_request(request)?;
    let submits_action = decision_submission(request).is_some();
    Ok(DecisionRecording {
        stage: DecisionStage::Inserting,
        submits_action,
        expected_sync_cursor_value: request.expected_sync_cursor_value,
        operation: None,
        inbox_item_id: None,
    })
}

pub open spec fn with_stage(recording: DecisionRecording, stage: DecisionStage) -> DecisionRecording {
    DecisionRecording { stage, ..recording }
}

/// The recording after `observation`.
pub open spec fn next_decision_recording(
    recording: DecisionRecording,
    observation: DecisionObservation,
) -> DecisionRecording {
    match (recording.stage, observation) {
        (DecisionStage::Inserting, DecisionObservation::DecisionInserted { inserted }) => {
            if !inserted {
                with_stage(recording, DecisionStage::CheckingExisting)
            } else if recording.submits_action {
                with_stage(recording, DecisionStage::Submitting)
            } else {
                with_stage(recording, DecisionStage::UpdatingInbox)
            }
        },
        (DecisionStage::CheckingExisting, DecisionObservation::ExistingDecisionCompared { .. }) => {
            with_stage(recording, DecisionStage::Finished)
        },
        (DecisionStage::Submitting, DecisionObservation::ActionSubmitted { operation }) => {
            DecisionRecording {
                stage: DecisionStage::UpdatingInbox,
                operation: Some(operation),
                ..recording
            }
        },
        (DecisionStage::UpdatingInbox, DecisionObservation::InboxUpdated { inbox_item_id }) => {
            match inbox_item_id {
                Some(id) => DecisionRecording {
                    stage: DecisionStage::WritingAudit,
                    inbox_item_id: Some(id),
                    ..recording
                },
                None => with_stage(recording, DecisionStage::Finished),
            }
        },
        (DecisionStage::WritingAudit, DecisionObservation::AuditWritten { .. }) => {
            DecisionRecording {
                stage: DecisionStage::Finished,
                operation: None,
                inbox_item_id: None,
                ..recording
            }
        },
        _ => recording,
    }
}

pub open spec fn operation_id_of(operation: Option<OperationRecord>) -> Option<Seq<char>> {
    match operation {
        Some(record) => Some(record.operation_id@),
        None => None,
    }
}

pub open spec fn optional_view(value: Option<String>) -> Option<Seq<char>> {
    match value {
        Some(text) => Some(text@),
        None => None,
    }
}

/// `step` is the step to take in `recording` after `observation`.
pub open spec fn decision_step_fits(
    recording: DecisionRecording,
    observation: DecisionObservation,
    step: DecisionStep,
) -> bool {
    match (recording.stage, observation) {
        (DecisionStage::Inserting, DecisionObservation::DecisionInserted { inserted }) => {
            if !inserted {
                step is CompareExistingDecision
            } else if recording.submits_action {
                step is SubmitConfirmedAction
            } else {
                step is UpdateInbox
            }
        },
        (DecisionStage::CheckingExisting, DecisionObservation::ExistingDecisionCompared { matches }) => {
            if matches {
                step matches DecisionStep::Commit { report } && report.duplicate
                    && report.operation is None && report.inbox_item_id is None
                    && report.outbox_id is None
            } else {
                step matches DecisionStep::Abort { error } && (
                error matches PostgresRepositoryError::ReviewDecisionRequestMismatch {
                    field,
                    expected,
                    actual,
                } && field@ == "decision"@ && expected@ == "same_existing_decision"@ && actual@
                    == "conflicting_existing_decision"@)
            }
        },
        (DecisionStage::Submitting, DecisionObservation::ActionSubmitted { .. }) => {
            step is UpdateInbox
        },
        (DecisionStage::UpdatingInbox, DecisionObservation::InboxUpdated { inbox_item_id }) => {
            match inbox_item_id {
                Some(_) => step matches DecisionStep::WriteAudit { operation_id }
                    && optional_view(operation_id) == operation_id_of(recording.operation),
                None => step matches DecisionStep::Abort { error } && (
                error matches PostgresRepositoryError::ReviewDecisionRequestMismatch {
                    field,
                    expected,
                    actual,
                } && field@ == "inbox_item.sync_cursor"@ && expected@ == decimal(
                    recording.expected_sync_cursor_value as nat,
                ) && actual@ == "stale_or_terminal"@),
            }
        },
        (DecisionStage::WritingAudit, DecisionObservation::AuditWritten { outbox_id }) => {
            step matches DecisionStep::Commit { report } && !report.duplicate && report.operation
                == recording.operation && report.inbox_item_id == recording.inbox_item_id
                && report.outbox_id == Some(outbox_id)
        },
        _ => step is OutOfOrder,
    }
}

/// Decides the step to take in `recording` after `observation`.
pub fn next_decision_step(recording: DecisionRecording, observation: DecisionObservation) -> (r: (
    DecisionRecording,
    DecisionStep,
))
    ensures
        r.0 == next_decision_recording(recording, observation),
        decision_step_fits(recording, observation, r.1),
{
    match (recording.stage, observation) {
        (DecisionStage::Inserting, DecisionObservation::DecisionInserted { inserted }) => {
            if !inserted {
                (
                    DecisionRecording { stage: DecisionStage::CheckingExisting, ..recording },
                    DecisionStep::CompareExistingDecision,
                )
            } else if recording.submits_action {
                (
                    DecisionRecording { stage: DecisionStage::Submitting, ..recording },
                    DecisionStep::SubmitConfirmedAction,
                )
            } else {
                (
                    DecisionRecording { stage: DecisionStage::UpdatingInbox, ..recording },
                    DecisionStep::UpdateInbox,
                )
            }
        },
        (DecisionStage::CheckingExisting, DecisionObservation::ExistingDecisionCompared { matches }) => {
            let step = match duplicate_decision_outcome(matches) {
                Ok(report) => DecisionStep::Commit { report },
                Err(error) => DecisionStep::Abort { error },
            };
            (DecisionRecording { stage: DecisionStage::Finished, ..recording }, step)
        },
        (DecisionStage::Submitting, DecisionObservation::ActionSubmitted { operation }) => {
            (
                DecisionRecording {
                    stage: DecisionStage::UpdatingInbox,
                    operation: Some(operation),
                    ..recording
                },
                DecisionStep::UpdateInbox,
            )
        },
        (DecisionStage::UpdatingInbox, DecisionObservation::InboxUpdated { inbox_item_id }) => {
            match inbox_item_id {
                Some(id) => {
                    let operation_id = match &recording.operation {
                        Some(record) => Some(record.operation_id.clone()),
                        None => None,
                    };
                    (
                        DecisionRecording {
                            stage: DecisionStage::WritingAudit,
                            inbox_item_id: Some(id),
                            ..recording
                        },
                        DecisionStep::WriteAudit { operation_id },
                    )
                },
                None => {
                    let error = stale_inbox_item_error(recording.expected_sync_cursor_value);
                    (
                        DecisionRecording { stage: DecisionStage::Finished, ..recording },
                        DecisionStep::Abort { error },
                    )
                },
            }
        },
        (DecisionStage::WritingAudit, DecisionObservation::AuditWritten { outbox_id }) => {
            let DecisionRecording {
                submits_action,
                expected_sync_cursor_value,
                operation,
                inbox_item_id,
                ..
            } = recording;
            let report = PostgresReviewDecisionRecorderReport {
                operation,
                inbox_item_id,
                outbox_id: Some(outbox_id),
                duplicate: false,
            };
            (
                DecisionRecording {
                    stage: DecisionStage::Finished,
                    submits_action,
                    expected_sync_cursor_value,
                    operation: None,
                    inbox_item_id: None,
                },
                DecisionStep::Commit { report },
            )
        },
        _ => (recording, DecisionStep::OutOfOrder),
    }
}

/// `steps` are the steps a recording in `recording` decides, one for each
/// observation in order.
pub open spec fn decision_run(
    recording: DecisionRecording,
    observations: Seq<DecisionObservation>,
    steps: Seq<DecisionStep>,
) -> bool
    decreases observations.len(),
{
    if observations.len() == 0 {
        steps.len() == 0
    } else {
        &&& steps.len() == observations.len()
        &&& decision_step_fits(recording, observations[0], steps[0])
        &&& decision_run(
            next_decision_recording(recording, observations[0]),
            observations.drop_first(),
            steps.drop_first(),
        )
    }
}

/// The step writes something of the decision's effects.
pub open spec fn writes_effects(step: DecisionStep) -> bool {
    ||| step is SubmitConfirmedAction
    ||| step is UpdateInbox
    ||| step is WriteAudit
}

proof fn lemma_no_effects_once_compared(
    recording: DecisionRecording,
    observations: Seq<DecisionObservation>,
    steps: Seq<DecisionStep>,
)
    requires
        recording.stage == DecisionStage::CheckingExisting || recording.stage
            == DecisionStage::Finished,
        decision_run(recording, observations, steps),
    ensures
        forall|j: int| 0 <= j < steps.len() ==> !writes_effects(#[trigger] steps[j]),
    decreases observations.len(),
{
    if observations.len() > 0 {
        lemma_no_effects_once_compared(
            next_decision_recording(recording, observations[0]),
            observations.drop_first(),
            steps.drop_first(),
        );
        assert forall|j: int| 0 <= j < steps.len() implies !writes_effects(#[trigger] steps[j]) by {
            if j > 0 {
                assert(steps[j] == steps.drop_first()[j - 1]);
            }
        }
    }
}

/// A decision that was already stored writes nothing more: when inserting it
/// finds a stored decision, no later step submits an action, moves the inbox
/// row or writes audit; the recording only compares, then reports a
/// duplicate or refuses the conflict.
pub proof fn lemma_stored_decision_writes_nothing_more(
    submits_action: bool,
    expected_sync_cursor_value: u64,
    observations: Seq<DecisionObservation>,
    steps: Seq<DecisionStep>,
)
    requires
        decision_run(
            decision_recording_start(submits_action, expected_sync_cursor_value),
            observations,
            steps,
        ),
        observations.len() > 0,
        observations[0] matches DecisionObservation::DecisionInserted { inserted } && !inserted,
    ensures
        forall|j: int| 0 <= j < steps.len() ==> !writes_effects(#[trigger] steps[j]),
{
    let start = decision_recording_start(submits_action, expected_sync_cursor_value);
    lemma_no_effects_once_compared(
        next_decision_recording(start, observations[0]),
        observations.drop_first(),
        steps.drop_first(),
    );
    assert forall|j: int| 0 <= j < steps.len() implies !writes_effects(#[trigger] steps[j]) by {
        if j > 0 {
            assert(steps[j] == steps.drop_first()[j - 1]);
        }
    }
}

proof fn lemma_confirmed_audit_has_operation(
    recording: DecisionRecording,
    observations: Seq<DecisionObservation>,
    steps: Seq<DecisionStep>,
)
    requires
        recording.submits_action,
        recording.stage == DecisionStage::Inserting || recording.stage == DecisionStage::Submitting
            || recording.operation is Some,
        decision_run(recording, observations, steps),
    ensures
        forall|j: int|
            0 <= j < steps.len() ==> (#[trigger] steps[j] matches DecisionStep::WriteAudit {
                operation_id,
            } ==> operation_id is Some),
    decreases observations.len(),
{
    if observations.len() > 0 {
        let next = next_decision_recording(recording, observations[0]);
        if next.stage == DecisionStage::Inserting || next.stage == DecisionStage::Submitting
            || next.operation is Some {
            lemma_confirmed_audit_has_operation(next, observations.drop_first(), steps.drop_first());
            assert forall|j: int| 0 <= j < steps.len() implies (#[trigger] steps[j] matches DecisionStep::WriteAudit {
                operation_id,
            } ==> operation_id is Some) by {
                if j > 0 {
                    assert(steps[j] == steps.drop_first()[j - 1]);
                }
            }
        } else {
            lemma_no_effects_once_compared(next, observations.drop_first(), steps.drop_first());
            assert forall|j: int| 0 <= j < steps.len() implies (#[trigger] steps[j] matches DecisionStep::WriteAudit {
                operation_id,
            } ==> operation_id is Some) by {
                if j > 0 {
                    assert(steps[j] == steps.drop_first()[j - 1]);
                }
            }
        }
    }
}

/// A confirming decision's audit event always names the operation its
/// confirmed action became.
pub proof fn lemma_confirming_decision_audits_its_operation(
    expected_sync_cursor_value: u64,
    observations: Seq<DecisionObservation>,
    steps: Seq<DecisionStep>,
)
    requires
        decision_run(decision_recording_start(true, expected_sync_cursor_value), observations, steps),
    ensures
        forall|j: int|
            0 <= j < steps.len() ==> (#[trigger] steps[j] matches DecisionStep::WriteAudit {
                operation_id,
            } ==> operation_id is Some),
{
    lemma_confirmed_audit_has_operation(
        decision_recording_start(true, expected_sync_cursor_value),
        observations,
        steps,
    );
}

proof fn lemma_rejection_never_submits_from(
    recording: DecisionRecording,
    observations: Seq<DecisionObservation>,
    steps: Seq<DecisionStep>,
)
    requires
        !recording.submits_action,
        decision_run(recording, observations, steps),
    ensures
        forall|j: int| 0 <= j < steps.len() ==> !(#[trigger] steps[j] is SubmitConfirmedAction),
    decreases observations.len(),
{
    if observations.len() > 0 {
        lemma_rejection_never_submits_from(
            next_decision_recording(recording, observations[0]),
            observations.drop_first(),
            steps.drop_first(),
        );
        assert forall|j: int| 0 <= j < steps.len() implies !(#[trigger] steps[j] is SubmitConfirmedAction) by {
            if j > 0 {
                assert(steps[j] == steps.drop_first()[j - 1]);
            }
        }
    }
}

/// A decision that confirms nothing never submits an action to the ledger.
pub proof fn lemma_rejection_never_submits(
    expected_sync_cursor_value: u64,
    observations: Seq<DecisionObservation>,
    steps: Seq<DecisionStep>,
)
    requires
        decision_run(decision_recording_start(false, expected_sync_cursor_value), observations, steps),
    ensures
        forall|j: int| 0 <= j < steps.len() ==> !(#[trigger] steps[j] is SubmitConfirmedAction),
{
    lemma_rejection_never_submits_from(
        decision_recording_start(false, expected_sync_cursor_value),
        observations,
        steps,
    );
}

/// Once a recording has finished, no observation moves it: every later step
/// is out of order.
pub proof fn lemma_finished_recording_takes_no_step(
    recording: DecisionRecording,
    observations: Seq<DecisionObservation>,
    steps: Seq<DecisionStep>,
)
    requires
        recording.stage == DecisionStage::Finished,
        decision_run(recording, observations, steps),
    ensures
        forall|j: int| 0 <= j < steps.len() ==> #[trigger] steps[j] is OutOfOrder,
    decreases observations.len(),
{
    if observations.len() > 0 {
        lemma_finished_recording_takes_no_step(
            next_decision_recording(recording, observations[0]),
            observations.drop_first(),
            steps.drop_first(),
        );
        assert forall|j: int| 0 <= j < steps.len() implies #[trigger] steps[j] is OutOfOrder by {
            if j > 0 {
                assert(steps[j] == steps.drop_first()[j - 1]);
            }
        }
    }
}

/// The step ends the recording: it commits or rolls back.
pub open spec fn ends_recording(step: DecisionStep) -> bool {
    step is Commit || step is Abort
}

/// A recording answers once: after the step that commits or rolls back,
/// every step is out of order.
pub proof fn lemma_decision_answers_once(
    recording: DecisionRecording,
    observations: Seq<DecisionObservation>,
    steps: Seq<DecisionStep>,
)
    requires
        decision_run(recording, observations, steps),
    ensures
        forall|i: int, j: int|
            0 <= i < j < steps.len() && ends_recording(#[trigger] steps[i]) ==> #[trigger] steps[j] is OutOfOrder,
    decreases observations.len(),
{
    if observations.len() > 0 {
        let next = next_decision_recording(recording, observations[0]);
        lemma_decision_answers_once(next, observations.drop_first(), steps.drop_first());
        if ends_recording(steps[0]) {
            lemma_finished_recording_takes_no_step(next, observations.drop_first(), steps.drop_first());
        }
        assert forall|i: int, j: int|
            0 <= i < j < steps.len() && ends_recording(#[trigger] steps[i]) implies #[trigger] steps[j] is OutOfOrder by {
            assert(steps[j] == steps.drop_first()[j - 1]);
            if i > 0 {
                assert(steps[i] == steps.drop_first()[i - 1]);
            }
        }
    }
}

proof fn lemma_no_decision_audit_after_audit(
    recording: DecisionRecording,
    observations: Seq<DecisionObservation>,
    steps: Seq<DecisionStep>,
)
    requires
        recording.stage == DecisionStage::WritingAudit || recording.stage == DecisionStage::Finished,
        decision_run(recording, observations, steps),
    ensures
        forall|j: int| 0 <= j < steps.len() ==> !(#[trigger] steps[j] is WriteAudit),
    decreases observations.len(),
{
    if observations.len() > 0 {
        lemma_no_decision_audit_after_audit(
            next_decision_recording(recording, observations[0]),
            observations.drop_first(),
            steps.drop_first(),
        );
        assert forall|j: int| 0 <= j < steps.len() implies !(#[trigger] steps[j] is WriteAudit) by {
            if j > 0 {
                assert(steps[j] == steps.drop_first()[j - 1]);
            }
        }
    }
}

/// A recording writes its audit event at most once.
pub proof fn lemma_decision_audits_once(
    recording: DecisionRecording,
    observations: Seq<DecisionObservation>,
    steps: Seq<DecisionStep>,
)
    requires
        decision_run(recording, observations, steps),
    ensures
        forall|i: int, j: int|
            0 <= i < j < steps.len() && #[trigger] steps[i] is WriteAudit ==> !(
            #[trigger] steps[j] is WriteAudit),
    decreases observations.len(),
{
    if observations.len() > 0 {
        let next = next_decision_recording(recording, observations[0]);
        lemma_decision_audits_once(next, observations.drop_first(), steps.drop_first());
        if steps[0] is WriteAudit {
            lemma_no_decision_audit_after_audit(next, observations.drop_first(), steps.drop_first());
        }
        assert forall|i: int, j: int|
            0 <= i < j < steps.len() && #[trigger] steps[i] is WriteAudit implies !(
            #[trigger] steps[j] is WriteAudit) by {
            assert(steps[j] == steps.drop_first()[j - 1]);
            if i > 0 {
                assert(steps[i] == steps.drop_first()[i - 1]);
            }
        }
    }
}

} // verus!
