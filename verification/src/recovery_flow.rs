//! A confirmed recovery as a sequence of steps: submit to the ledger, move
//! the operation to executing, lock the target for a dry run, write the
//! target, finish. Each database answer is an observation; from the stage
//! and the observation this module decides the next step, which the caller
//! performs. A target is written only after a dry run found it eligible, and
//! a finished recovery takes no further step.
use vstd::prelude::*;

use crate::domain::ActionStatus;
use crate::recovery::{
    outbox_reference, recovery_terminal_or_inflight, requeue_dry_run_outcome,
    requeue_precheck_failure, requeue_write_result, resume_dry_run_outcome, resume_write_result,
    is_recovery_terminal_or_inflight, OperationalRecoveryExecutionTarget,
    OperationalRecoveryKindTag, RecoveryDryRunOutcome, RecoveryFailure,
};

verus! {

/// How far a confirmed recovery has come.
#[derive(Debug, Clone, Copy, PartialEq, Eq, Structural)]
pub enum RecoveryStage {
    Submitting,
    MarkingExecuting,
    LockingTarget,
    WritingTarget,
    Finished,
}

/// Which recovery runs, and how far it has come.
#[derive(Debug, Clone, Copy, PartialEq, Eq, Structural)]
pub struct RecoveryState {
    pub kind: OperationalRecoveryKindTag,
    pub stage: RecoveryStage,
}

/// What the last database step of a recovery found.
#[derive(Debug, Clone, PartialEq, Eq)]
pub enum RecoveryObservation {
    /// The recovery action reached the ledger; `duplicate` when it was
    /// already there, with the operation's status.
    Submitted { duplicate: bool, status: ActionStatus },
    /// The operation was moved to executing; `duplicate` when it already was.
    ExecutingMarked { duplicate: bool },
    /// The paused grant the dry run locked, if one was still eligible.
    GrantLocked { grant_id: Option<String> },
    /// Whether the requested failed outbox row was still eligible, and
    /// whether its payload passed validation.
    OutboxLocked { outbox_id: i64, eligible: bool, payload_safe: bool },
    /// The grant the guarded write resumed, if it still matched.
    GrantResumed { grant_id: Option<String> },
    /// The outbox row the guarded write reopened, if it still matched.
    OutboxReopened { outbox_id: Option<i64> },
}

/// What to do next.
#[derive(Debug, Clone, PartialEq, Eq)]
pub enum RecoveryStep {
    /// Commit and report a duplicate; nothing more is written.
    ReportDuplicate,
    /// Record the confirmation event when asked, then move the operation to
    /// executing.
    MarkExecuting { record_confirmation: bool },
    /// Lock the target row for the dry run.
    LockTarget,
    /// Record the dry run, then write the target.
    WriteTarget { dry_run: RecoveryDryRunOutcome },
    /// Record the dry run, then fail the operation.
    FailAfterDryRun { dry_run: RecoveryDryRunOutcome, failure: RecoveryFailure },
    /// Fail the operation: the target changed after the dry run.
    Fail { failure: RecoveryFailure },
    /// Mark the operation succeeded and record the restored target.
    Succeed { target: OperationalRecoveryExecutionTarget },
    /// The observation does not belong to this stage or recovery; nothing is
    /// done and the stage stays.
    OutOfOrder,
}

/// A recovery that has just been confirmed.
pub open spec fn recovery_start(kind: OperationalRecoveryKindTag) -> RecoveryState {
    RecoveryState { kind, stage: RecoveryStage::Submitting }
}

/// The stage after `observation`.
pub open spec fn next_recovery_state(state: RecoveryState, observation: RecoveryObservation) -> RecoveryState {
    let stage = match (state.stage, state.kind, observation) {
        (RecoveryStage::Submitting, _, RecoveryObservation::Submitted { duplicate, status }) => {
            if duplicate && recovery_terminal_or_inflight(status) {
                RecoveryStage::Finished
            } else {
                RecoveryStage::MarkingExecuting
            }
        },
        (RecoveryStage::MarkingExecuting, _, RecoveryObservation::ExecutingMarked { duplicate }) => {
            if duplicate {
                RecoveryStage::Finished
            } else {
                RecoveryStage::LockingTarget
            }
        },
        (
            RecoveryStage::LockingTarget,
            OperationalRecoveryKindTag::ResumePausedAuthRefresh,
            RecoveryObservation::GrantLocked { grant_id },
        ) => {
            if grant_id is Some {
                RecoveryStage::WritingTarget
            } else {
                RecoveryStage::Finished
            }
        },
        (
            RecoveryStage::LockingTarget,
            OperationalRecoveryKindTag::RequeueFailedAuditOutbox,
            RecoveryObservation::OutboxLocked { eligible, payload_safe, .. },
        ) => {
            if eligible && payload_safe {
                RecoveryStage::WritingTarget
            } else {
                RecoveryStage::Finished
            }
        },
        (
            RecoveryStage::WritingTarget,
            OperationalRecoveryKindTag::ResumePausedAuthRefresh,
            RecoveryObservation::GrantResumed { .. },
        ) => RecoveryStage::Finished,
        (
            RecoveryStage::WritingTarget,
            OperationalRecoveryKindTag::RequeueFailedAuditOutbox,
            RecoveryObservation::OutboxReopened { .. },
        ) => RecoveryStage::Finished,
        _ => state.stage,
    };
    RecoveryState { kind: state.kind, stage }
}

/// `step` is the step to take in `state` after `observation`.
pub open spec fn recovery_step_fits(
    state: RecoveryState,
    observation: RecoveryObservation,
    step: RecoveryStep,
) -> bool {
    match (state.stage, state.kind, observation) {
        (RecoveryStage::Submitting, _, RecoveryObservation::Submitted { duplicate, status }) => {
            if duplicate && recovery_terminal_or_inflight(status) {
                step == RecoveryStep::ReportDuplicate
            } else {
                step == RecoveryStep::MarkExecuting { record_confirmation: !duplicate }
            }
        },
        (RecoveryStage::MarkingExecuting, _, RecoveryObservation::ExecutingMarked { duplicate }) => {
            if duplicate {
                step == RecoveryStep::ReportDuplicate
            } else {
                step == RecoveryStep::LockTarget
            }
        },
        (
            RecoveryStage::LockingTarget,
            OperationalRecoveryKindTag::ResumePausedAuthRefresh,
            RecoveryObservation::GrantLocked { grant_id },
        ) => match grant_id {
            Some(id) => step == RecoveryStep::WriteTarget {
                dry_run: RecoveryDryRunOutcome::Eligible(id),
            },
            None => step == RecoveryStep::FailAfterDryRun {
                dry_run: RecoveryDryRunOutcome::Missing,
                failure: RecoveryFailure::NoEligibleGrant,
            },
        },
        (
            RecoveryStage::LockingTarget,
            OperationalRecoveryKindTag::RequeueFailedAuditOutbox,
            RecoveryObservation::OutboxLocked { outbox_id, eligible, payload_safe },
        ) => {
            if !eligible {
                step == RecoveryStep::FailAfterDryRun {
                    dry_run: RecoveryDryRunOutcome::Missing,
                    failure: RecoveryFailure::NoEligibleOutbox,
                }
            } else if !payload_safe {
                step matches RecoveryStep::FailAfterDryRun {
                    dry_run: RecoveryDryRunOutcome::UnsafePayload(reference),
                    failure: RecoveryFailure::UnsafeOutboxPayload,
                } && reference@ == outbox_reference(outbox_id)
            } else {
                step matches RecoveryStep::WriteTarget {
                    dry_run: RecoveryDryRunOutcome::Eligible(reference),
                } && reference@ == outbox_reference(outbox_id)
            }
        },
        (
            RecoveryStage::WritingTarget,
            OperationalRecoveryKindTag::ResumePausedAuthRefresh,
            RecoveryObservation::GrantResumed { grant_id },
        ) => match grant_id {
            Some(id) => step == RecoveryStep::Succeed {
                target: OperationalRecoveryExecutionTarget::TokenGrantRefresh { grant_id: id },
            },
            None => step == RecoveryStep::Fail { failure: RecoveryFailure::ResumeConflict },
        },
        (
            RecoveryStage::WritingTarget,
            OperationalRecoveryKindTag::RequeueFailedAuditOutbox,
            RecoveryObservation::OutboxReopened { outbox_id },
        ) => match outbox_id {
            Some(id) => step == RecoveryStep::Succeed {
                target: OperationalRecoveryExecutionTarget::AuditOutboxRequeue { outbox_id: id },
            },
            None => step == RecoveryStep::Fail { failure: RecoveryFailure::OutboxConflict },
        },
        _ => step == RecoveryStep::OutOfOrder,
    }
}

/// Decides the step to take in `state` after `observation`.
pub fn next_recovery_step(state: RecoveryState, observation: RecoveryObservation) -> (r: (
    RecoveryState,
    RecoveryStep,
))
    ensures
        r.0 == next_recovery_state(state, observation),
        recovery_step_fits(state, observation, r.1),
{
    let kind = state.kind;
    match (state.stage, kind, observation) {
        (RecoveryStage::Submitting, _, RecoveryObservation::Submitted { duplicate, status }) => {
            if duplicate && is_recovery_terminal_or_inflight(status) {
                (RecoveryState { kind, stage: RecoveryStage::Finished }, RecoveryStep::ReportDuplicate)
            } else {
                (
                    RecoveryState { kind, stage: RecoveryStage::MarkingExecuting },
                    RecoveryStep::MarkExecuting { record_confirmation: !duplicate },
                )
            }
        },
        (RecoveryStage::MarkingExecuting, _, RecoveryObservation::ExecutingMarked { duplicate }) => {
            if duplicate {
                (RecoveryState { kind, stage: RecoveryStage::Finished }, RecoveryStep::ReportDuplicate)
            } else {
                (RecoveryState { kind, stage: RecoveryStage::LockingTarget }, RecoveryStep::LockTarget)
            }
        },
        (
            RecoveryStage::LockingTarget,
            OperationalRecoveryKindTag::ResumePausedAuthRefresh,
            RecoveryObservation::GrantLocked { grant_id },
        ) => {
            let eligible = grant_id.is_some();
            let dry_run = resume_dry_run_outcome(grant_id);
            if eligible {
                (
                    RecoveryState { kind, stage: RecoveryStage::WritingTarget },
                    RecoveryStep::WriteTarget { dry_run },
                )
            } else {
                (
                    RecoveryState { kind, stage: RecoveryStage::Finished },
                    RecoveryStep::FailAfterDryRun { dry_run, failure: RecoveryFailure::NoEligibleGrant },
                )
            }
        },
        (
            RecoveryStage::LockingTarget,
            OperationalRecoveryKindTag::RequeueFailedAuditOutbox,
            RecoveryObservation::OutboxLocked { outbox_id, eligible, payload_safe },
        ) => {
            let dry_run = requeue_dry_run_outcome(outbox_id, eligible, payload_safe);
            match requeue_precheck_failure(eligible, payload_safe) {
                Some(failure) => (
                    RecoveryState { kind, stage: RecoveryStage::Finished },
                    RecoveryStep::FailAfterDryRun { dry_run, failure },
                ),
                None => (
                    RecoveryState { kind, stage: RecoveryStage::WritingTarget },
                    RecoveryStep::WriteTarget { dry_run },
                ),
            }
        },
        (
            RecoveryStage::WritingTarget,
            OperationalRecoveryKindTag::ResumePausedAuthRefresh,
            RecoveryObservation::GrantResumed { grant_id },
        ) => {
            let step = match resume_write_result(grant_id) {
                Ok(target) => RecoveryStep::Succeed { target },
                Err(failure) => RecoveryStep::Fail { failure },
            };
            (RecoveryState { kind, stage: RecoveryStage::Finished }, step)
        },
        (
            RecoveryStage::WritingTarget,
            OperationalRecoveryKindTag::RequeueFailedAuditOutbox,
            RecoveryObservation::OutboxReopened { outbox_id },
        ) => {
            let step = match requeue_write_result(outbox_id) {
                Ok(target) => RecoveryStep::Succeed { target },
                Err(failure) => RecoveryStep::Fail { failure },
            };
            (RecoveryState { kind, stage: RecoveryStage::Finished }, step)
        },
        _ => (state, RecoveryStep::OutOfOrder),
    }
}

/// `steps` are the steps a recovery in `state` decides, one for each
/// observation in order.
pub open spec fn recovery_run(
    state: RecoveryState,
    observations: Seq<RecoveryObservation>,
    steps: Seq<RecoveryStep>,
) -> bool
    decreases observations.len(),
{
    if observations.len() == 0 {
        steps.len() == 0
    } else {
        &&& steps.len() == observations.len()
        &&& recovery_step_fits(state, observations[0], steps[0])
        &&& recovery_run(
            next_recovery_state(state, observations[0]),
            observations.drop_first(),
            steps.drop_first(),
        )
    }
}

/// The step writes the target after a dry run that found it eligible.
pub open spec fn writes_after_eligible_dry_run(step: RecoveryStep) -> bool {
    step matches RecoveryStep::WriteTarget { dry_run: RecoveryDryRunOutcome::Eligible(_) }
}

/// The step ends the recovery with an answer.
pub open spec fn is_outcome_step(step: RecoveryStep) -> bool {
    ||| step is ReportDuplicate
    ||| step is FailAfterDryRun
    ||| step is Fail
    ||| step is Succeed
}

proof fn lemma_success_follows_eligible_write(
    state: RecoveryState,
    observations: Seq<RecoveryObservation>,
    steps: Seq<RecoveryStep>,
    j: int,
)
    requires
        recovery_run(state, observations, steps),
        0 <= j < steps.len(),
        steps[j] is Succeed,
    ensures
        state.stage == RecoveryStage::WritingTarget || exists|i: int|
            0 <= i < j && writes_after_eligible_dry_run(#[trigger] steps[i]),
    decreases observations.len(),
{
    if j > 0 {
        let next = next_recovery_state(state, observations[0]);
        lemma_success_follows_eligible_write(
            next,
            observations.drop_first(),
            steps.drop_first(),
            j - 1,
        );
        if next.stage == RecoveryStage::WritingTarget {
            if state.stage != RecoveryStage::WritingTarget {
                assert(writes_after_eligible_dry_run(steps[0]));
            }
        } else {
            let i = choose|i: int|
                0 <= i < j - 1 && writes_after_eligible_dry_run(#[trigger] steps.drop_first()[i]);
            assert(steps[i + 1] == steps.drop_first()[i]);
        }
    }
}

/// A recovery restores its target only after a dry run found the target
/// eligible: in every run from a fresh confirmation, a success is preceded
/// by a step that wrote after an eligible dry run.
pub proof fn lemma_recovery_writes_only_after_eligible_dry_run(
    kind: OperationalRecoveryKindTag,
    observations: Seq<RecoveryObservation>,
    steps: Seq<RecoveryStep>,
    j: int,
)
    requires
        recovery_run(recovery_start(kind), observations, steps),
        0 <= j < steps.len(),
        steps[j] is Succeed,
    ensures
        exists|i: int| 0 <= i < j && writes_after_eligible_dry_run(#[trigger] steps[i]),
{
    lemma_success_follows_eligible_write(recovery_start(kind), observations, steps, j);
}

/// Once a recovery has finished, no observation moves it: every later step
/// is out of order and changes nothing.
pub proof fn lemma_finished_recovery_takes_no_step(
    state: RecoveryState,
    observations: Seq<RecoveryObservation>,
    steps: Seq<RecoveryStep>,
)
    requires
        state.stage == RecoveryStage::Finished,
        recovery_run(state, observations, steps),
    ensures
        forall|i: int| 0 <= i < steps.len() ==> #[trigger] steps[i] == RecoveryStep::OutOfOrder,
    decreases observations.len(),
{
    if observations.len() > 0 {
        lemma_finished_recovery_takes_no_step(
            next_recovery_state(state, observations[0]),
            observations.drop_first(),
            steps.drop_first(),
        );
        assert forall|i: int| 0 <= i < steps.len() implies #[trigger] steps[i]
            == RecoveryStep::OutOfOrder by {
            if i > 0 {
                assert(steps[i] == steps.drop_first()[i - 1]);
            }
        }
    }
}

/// A recovery answers at most once: after a step that reports a duplicate,
/// fails or succeeds, every later step is out of order.
pub proof fn lemma_recovery_answers_once(
    state: RecoveryState,
    observations: Seq<RecoveryObservation>,
    steps: Seq<RecoveryStep>,
    i: int,
    j: int,
)
    requires
        recovery_run(state, observations, steps),
        0 <= i < j < steps.len(),
        is_outcome_step(steps[i]),
    ensures
        steps[j] == RecoveryStep::OutOfOrder,
    decreases observations.len(),
{
    let next = next_recovery_state(state, observations[0]);
    if i == 0 {
        assert(next.stage == RecoveryStage::Finished);
        lemma_finished_recovery_takes_no_step(next, observations.drop_first(), steps.drop_first());
        assert(steps[j] == steps.drop_first()[j - 1]);
    } else {
        lemma_recovery_answers_once(
            next,
            observations.drop_first(),
            steps.drop_first(),
            i - 1,
            j - 1,
        );
        assert(steps[j] == steps.drop_first()[j - 1]);
        assert(steps[i] == steps.drop_first()[i - 1]);
    }
}

} // verus!
