//! The decisions of one audit outbox drain: how long a claim lasts, what a
//! delivery attempt turns into once retries run out, what to write back, and
//! how the drain report counts each message.
use vstd::prelude::*;

verus! {

/// Which tenant's outbox stream to drain, and how.
#[derive(Debug, Clone, PartialEq, Eq)]
pub struct AuditOutboxDrainConfig {
    pub tenant_id: String,
    pub stream: String,
    pub batch_limit: i64,
    pub lease_ms: u64,
    pub retry_delay_ms: u64,
    pub max_attempts: u32,
}

impl AuditOutboxDrainConfig {
    pub fn new(
        tenant_id: String,
        stream: String,
        batch_limit: i64,
        lease_ms: u64,
        retry_delay_ms: u64,
        max_attempts: u32,
    ) -> (r: Self)
        ensures
            r.tenant_id == tenant_id,
            r.stream == stream,
            r.batch_limit == batch_limit,
            r.lease_ms == lease_ms,
            r.retry_delay_ms == retry_delay_ms,
            r.max_attempts == max_attempts,
    {
        Self { tenant_id, stream, batch_limit, lease_ms, retry_delay_ms, max_attempts }
    }
}

/// How many claimed messages ended in each way.
#[derive(Debug, Clone, PartialEq, Eq)]
pub struct AuditOutboxDrainReport {
    pub claimed: usize,
    pub sent: usize,
    pub retryable: usize,
    pub failed: usize,
    pub exhausted: usize,
    pub stale: usize,
}

/// What a dispatcher reports for one message.
#[derive(Debug, Clone, Copy, PartialEq, Eq, Structural)]
pub enum AuditOutboxDelivery {
    Sent,
    Retryable,
    Failed,
}

/// A claimed outbox message. Its payload is carried to the dispatcher as is.
#[derive(Debug, Clone)]
pub struct AuditOutboxMessage {
    pub id: i64,
    pub tenant_id: String,
    pub stream: String,
    pub aggregate_id: String,
    pub payload: serde_json::Value,
    pub attempt_count: i32,
    pub next_attempt_at_ms: i64,
}

/// The write-back for one message, guarded by its attempt and lease.
#[derive(Debug, Clone, Copy, PartialEq, Eq, Structural)]
pub enum AuditOutboxMark {
    Sent { sent_at_ms: u64 },
    Retryable { next_attempt_at_ms: u64 },
    Failed,
}

pub open spec fn saturating_add_spec(a: u64, b: u64) -> u64 {
    if a + b > u64::MAX {
        u64::MAX
    } else {
        (a + b) as u64
    }
}

/// When the claim taken at `now_ms` lapses.
pub fn drain_lease_until_ms(config: &AuditOutboxDrainConfig, now_ms: u64) -> (r: u64)
    ensures
        r == saturating_add_spec(now_ms, config.lease_ms),
{
    now_ms.saturating_add(config.lease_ms)
}

/// Retries have run out: the attempt that just failed was at least the last
/// one allowed.
pub open spec fn attempts_exhausted(attempt_count: i32, max_attempts: u32) -> bool {
    attempt_count >= 0 && attempt_count >= max_attempts
}

/// What the drain records for a delivery result (`None` when the dispatcher
/// itself failed, which counts as retryable), and whether retries ran out.
pub open spec fn effective_delivery_spec(
    delivery: Option<AuditOutboxDelivery>,
    attempt_count: i32,
    max_attempts: u32,
) -> (AuditOutboxDelivery, bool) {
    let delivered = match delivery {
        Some(d) => d,
        None => AuditOutboxDelivery::Retryable,
    };
    let exhausted = delivered == AuditOutboxDelivery::Retryable && attempts_exhausted(
        attempt_count,
        max_attempts,
    );
    (if exhausted {
        AuditOutboxDelivery::Failed
    } else {
        delivered
    }, exhausted)
}

pub fn effective_delivery(
    delivery: Option<AuditOutboxDelivery>,
    attempt_count: i32,
    max_attempts: u32,
) -> (r: (AuditOutboxDelivery, bool))
    ensures
        r == effective_delivery_spec(delivery, attempt_count, max_attempts),
{
    let delivered = match delivery {
        Some(d) => d,
        None => AuditOutboxDelivery::Retryable,
    };
    let exhausted = match delivered {
        AuditOutboxDelivery::Retryable => attempt_count >= 0 && (attempt_count as u32)
            >= max_attempts,
        _ => false,
    };
    let effective = if exhausted {
        AuditOutboxDelivery::Failed
    } else {
        delivered
    };
    (effective, exhausted)
}

/// The write-back for an effective delivery decided at `now_ms`.
pub fn plan_outbox_mark(
    config: &AuditOutboxDrainConfig,
    effective: AuditOutboxDelivery,
    now_ms: u64,
) -> (r: AuditOutboxMark)
    ensures
        match effective {
            AuditOutboxDelivery::Sent => r == AuditOutboxMark::Sent { sent_at_ms: now_ms },
            AuditOutboxDelivery::Retryable => r == AuditOutboxMark::Retryable {
                next_attempt_at_ms: saturating_add_spec(now_ms, config.retry_delay_ms),
            },
            AuditOutboxDelivery::Failed => r == AuditOutboxMark::Failed,
        },
{
    match effective {
        AuditOutboxDelivery::Sent => AuditOutboxMark::Sent { sent_at_ms: now_ms },
        AuditOutboxDelivery::Retryable => AuditOutboxMark::Retryable {
            next_attempt_at_ms: now_ms.saturating_add(config.retry_delay_ms),
        },
        AuditOutboxDelivery::Failed => AuditOutboxMark::Failed,
    }
}

impl AuditOutboxDrainReport {
    /// How many messages have been accounted for.
    pub open spec fn processed(self) -> int {
        self.sent + self.retryable + self.failed + self.stale
    }

    /// Every processed message is counted once, never more than were
    /// claimed, and only failures can be exhaustions.
    pub open spec fn well_formed(self) -> bool {
        &&& self.processed() <= self.claimed
        &&& self.exhausted <= self.failed
    }
}

/// A report for `claimed` messages, none processed yet.
pub fn start_drain_report(claimed: usize) -> (r: AuditOutboxDrainReport)
    ensures
        r.claimed == claimed,
        r.processed() == 0,
        r.exhausted == 0,
        r.well_formed(),
{
    AuditOutboxDrainReport { claimed, sent: 0, retryable: 0, failed: 0, exhausted: 0, stale: 0 }
}

/// Counts one message: stale when its write-back matched no row (another
/// worker moved it), else by its effective delivery.
pub fn record_delivery_outcome(
    report: &mut AuditOutboxDrainReport,
    effective: AuditOutboxDelivery,
    exhausted: bool,
    marked: bool,
)
    requires
        old(report).well_formed(),
        old(report).processed() < old(report).claimed,
        exhausted ==> effective == AuditOutboxDelivery::Failed,
    ensures
        final(report).well_formed(),
        final(report).claimed == old(report).claimed,
        final(report).processed() == old(report).processed() + 1,
        final(report).stale == old(report).stale + if marked { 0int } else { 1int },
        final(report).sent == old(report).sent + if marked && effective
            == AuditOutboxDelivery::Sent { 1int } else { 0int },
        final(report).retryable == old(report).retryable + if marked && effective
            == AuditOutboxDelivery::Retryable { 1int } else { 0int },
        final(report).failed == old(report).failed + if marked && effective
            == AuditOutboxDelivery::Failed { 1int } else { 0int },
        final(report).exhausted == old(report).exhausted + if marked && exhausted { 1int } else { 0int },
{
    if !marked {
        report.stale = report.stale + 1;
        return ;
    }
    match effective {
        AuditOutboxDelivery::Sent => {
            report.sent = report.sent + 1;
        },
        AuditOutboxDelivery::Retryable => {
            report.retryable = report.retryable + 1;
        },
        AuditOutboxDelivery::Failed => {
            report.failed = report.failed + 1;
            if exhausted {
                report.exhausted = report.exhausted + 1;
            }
        },
    }
}

/// How one claimed message ended: its effective delivery, whether its retries
/// ran out, and whether its write-back matched the row.
#[derive(Debug, Clone, Copy, PartialEq, Eq, Structural)]
pub struct AuditOutboxDeliveryOutcome {
    pub effective: AuditOutboxDelivery,
    pub exhausted: bool,
    pub marked: bool,
}

/// The counts `(sent, retryable, failed, exhausted, stale)` of a run of
/// outcomes: an unmatched write-back is stale; otherwise the effective
/// delivery counts, and a failure whose retries ran out is also an
/// exhaustion.
pub open spec fn outcome_counts(outcomes: Seq<AuditOutboxDeliveryOutcome>) -> (nat, nat, nat, nat, nat)
    decreases outcomes.len(),
{
    if outcomes.len() == 0 {
        (0, 0, 0, 0, 0)
    } else {
        let (sent, retryable, failed, exhausted, stale) = outcome_counts(outcomes.drop_last());
        let last = outcomes.last();
        if !last.marked {
            (sent, retryable, failed, exhausted, stale + 1)
        } else {
            match last.effective {
                AuditOutboxDelivery::Sent => (sent + 1, retryable, failed, exhausted, stale),
                AuditOutboxDelivery::Retryable => (sent, retryable + 1, failed, exhausted, stale),
                AuditOutboxDelivery::Failed => (
                    sent,
                    retryable,
                    failed + 1,
                    if last.exhausted { exhausted + 1 } else { exhausted },
                    stale,
                ),
            }
        }
    }
}

/// Outcomes whose write-back matched no row: another worker moved them.
pub open spec fn unmatched_write_back() -> spec_fn(AuditOutboxDeliveryOutcome) -> bool {
    |outcome: AuditOutboxDeliveryOutcome| !outcome.marked
}

/// Outcomes written back with `delivery` as their effective delivery.
pub open spec fn written_back_as(delivery: AuditOutboxDelivery) -> spec_fn(AuditOutboxDeliveryOutcome) -> bool {
    |outcome: AuditOutboxDeliveryOutcome| outcome.marked && outcome.effective == delivery
}

/// Outcomes written back as failures because their retries ran out.
pub open spec fn written_back_exhausted() -> spec_fn(AuditOutboxDeliveryOutcome) -> bool {
    |outcome: AuditOutboxDeliveryOutcome| outcome.marked && outcome.effective
        == AuditOutboxDelivery::Failed && outcome.exhausted
}

/// How each message of a drain is counted: a message whose write-back matched
/// no row is stale and counts as nothing else, whatever its delivery; every
/// other message counts once under its effective delivery, and a written-back
/// failure whose retries ran out is also an exhaustion.
pub proof fn lemma_outcome_counts_by_message(outcomes: Seq<AuditOutboxDeliveryOutcome>)
    ensures
        outcome_counts(outcomes).0 == outcomes.filter(written_back_as(AuditOutboxDelivery::Sent)).len(),
        outcome_counts(outcomes).1 == outcomes.filter(written_back_as(AuditOutboxDelivery::Retryable)).len(),
        outcome_counts(outcomes).2 == outcomes.filter(written_back_as(AuditOutboxDelivery::Failed)).len(),
        outcome_counts(outcomes).3 == outcomes.filter(written_back_exhausted()).len(),
        outcome_counts(outcomes).4 == outcomes.filter(unmatched_write_back()).len(),
    decreases outcomes.len(),
{
    reveal(Seq::filter);
    if outcomes.len() > 0 {
        lemma_outcome_counts_by_message(outcomes.drop_last());
    }
}

/// The report of a drain whose claimed messages ended in `outcomes`, in
/// order: every claimed message is counted once.
pub fn drain_report_of_outcomes(outcomes: &Vec<AuditOutboxDeliveryOutcome>) -> (r: AuditOutboxDrainReport)
    ensures
        r.claimed == outcomes@.len(),
        r.well_formed(),
        r.processed() == r.claimed,
        (r.sent as nat, r.retryable as nat, r.failed as nat, r.exhausted as nat, r.stale as nat)
            == outcome_counts(outcomes@),
        r.stale == outcomes@.filter(unmatched_write_back()).len(),
        r.sent == outcomes@.filter(written_back_as(AuditOutboxDelivery::Sent)).len(),
        r.retryable == outcomes@.filter(written_back_as(AuditOutboxDelivery::Retryable)).len(),
        r.failed == outcomes@.filter(written_back_as(AuditOutboxDelivery::Failed)).len(),
        r.exhausted == outcomes@.filter(written_back_exhausted()).len(),
{
    let mut report = start_drain_report(outcomes.len());
    let mut index: usize = 0;
    while index < outcomes.len()
        invariant
            index <= outcomes@.len(),
            report.claimed == outcomes@.len(),
            report.well_formed(),
            report.processed() == index,
            (report.sent as nat, report.retryable as nat, report.failed as nat, report.exhausted as nat,
                report.stale as nat) == outcome_counts(outcomes@.take(index as int)),
        decreases outcomes@.len() - index,
    {
        let outcome = outcomes[index];
        let exhausted = outcome.exhausted && outcome.effective == AuditOutboxDelivery::Failed;
        record_delivery_outcome(&mut report, outcome.effective, exhausted, outcome.marked);
        proof {
            assert(outcomes@.take(index + 1).drop_last() =~= outcomes@.take(index as int));
            assert(outcomes@.take(index + 1).last() == outcome);
        }
        index = index + 1;
    }
    proof {
        assert(outcomes@.take(index as int) =~= outcomes@);
        lemma_outcome_counts_by_message(outcomes@);
    }
    report
}

/// A message is turned into a failure only when its retries ran out, and a
/// message the dispatcher sent is always recorded as sent.
pub proof fn lemma_exhaustion_only_converts_retries(
    delivery: Option<AuditOutboxDelivery>,
    attempt_count: i32,
    max_attempts: u32,
)
    ensures
        ({
            let (effective, exhausted) = effective_delivery_spec(
                delivery,
                attempt_count,
                max_attempts,
            );
            &&& exhausted ==> effective == AuditOutboxDelivery::Failed && attempts_exhausted(
                attempt_count,
                max_attempts,
            ) && delivery != Some(AuditOutboxDelivery::Sent) && delivery != Some(
                AuditOutboxDelivery::Failed,
            )
            &&& delivery == Some(AuditOutboxDelivery::Sent) ==> effective
                == AuditOutboxDelivery::Sent && !exhausted
            &&& !attempts_exhausted(attempt_count, max_attempts) ==> !exhausted
        }),
{
}

/// After every claimed message is counted, the counts add up to the number
/// claimed.
pub proof fn lemma_drained_report_accounts_for_all(report: AuditOutboxDrainReport)
    requires
        report.well_formed(),
        report.processed() == report.claimed,
    ensures
        report.sent + report.retryable + report.failed + report.stale == report.claimed,
        report.exhausted <= report.failed,
{
}

} // verus!
