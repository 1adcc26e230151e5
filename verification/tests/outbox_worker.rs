use oar_core::audit_outbox_worker::{
    drain_lease_until_ms, drain_report_of_outcomes, effective_delivery, plan_outbox_mark,
    record_delivery_outcome, start_drain_report, AuditOutboxDelivery, AuditOutboxDeliveryOutcome, AuditOutboxDrainConfig, AuditOutboxDrainReport,
    AuditOutboxMark,
};
use oar_core::scheduler::{
    lease_acquire_after_claim_miss, scheduler_job_lease_from_stored, SchedulerJobLease,
    SchedulerLeaseAcquire, StoredSchedulerJob,
};
use oar_core::domain::{SchedulerJobKind, SchedulerJobStatus};
use oar_core::error::PostgresRepositoryError;

fn config() -> AuditOutboxDrainConfig {
    AuditOutboxDrainConfig::new(
        "tenant_1".to_string(),
        "audit-events".to_string(),
        10,
        30_000,
        5_000,
        3,
    )
}

#[test]
fn drain_config_keeps_its_arguments() {
    let config = config();
    assert_eq!(config.tenant_id, "tenant_1");
    assert_eq!(config.stream, "audit-events");
    assert_eq!(config.batch_limit, 10);
    assert_eq!(config.lease_ms, 30_000);
    assert_eq!(config.retry_delay_ms, 5_000);
    assert_eq!(config.max_attempts, 3);
}

#[test]
fn lease_end_saturates() {
    assert_eq!(drain_lease_until_ms(&config(), 1_000), 31_000);
    assert_eq!(drain_lease_until_ms(&config(), u64::MAX - 1), u64::MAX);
}

#[test]
fn retries_turn_into_failures_once_attempts_run_out() {
    assert_eq!(
        effective_delivery(Some(AuditOutboxDelivery::Retryable), 2, 3),
        (AuditOutboxDelivery::Retryable, false)
    );
    assert_eq!(
        effective_delivery(Some(AuditOutboxDelivery::Retryable), 3, 3),
        (AuditOutboxDelivery::Failed, true)
    );
    assert_eq!(effective_delivery(None, 5, 3), (AuditOutboxDelivery::Failed, true));
    assert_eq!(effective_delivery(None, 1, 3), (AuditOutboxDelivery::Retryable, false));
    assert_eq!(
        effective_delivery(Some(AuditOutboxDelivery::Sent), 9, 3),
        (AuditOutboxDelivery::Sent, false)
    );
    assert_eq!(
        effective_delivery(Some(AuditOutboxDelivery::Failed), 0, 3),
        (AuditOutboxDelivery::Failed, false)
    );
    assert_eq!(
        effective_delivery(Some(AuditOutboxDelivery::Retryable), -1, 0),
        (AuditOutboxDelivery::Retryable, false)
    );
}

#[test]
fn write_back_follows_the_effective_delivery() {
    let config = config();
    assert_eq!(
        plan_outbox_mark(&config, AuditOutboxDelivery::Sent, 100),
        AuditOutboxMark::Sent { sent_at_ms: 100 }
    );
    assert_eq!(
        plan_outbox_mark(&config, AuditOutboxDelivery::Retryable, 100),
        AuditOutboxMark::Retryable {
            next_attempt_at_ms: 5_100
        }
    );
    assert_eq!(
        plan_outbox_mark(&config, AuditOutboxDelivery::Retryable, u64::MAX),
        AuditOutboxMark::Retryable {
            next_attempt_at_ms: u64::MAX
        }
    );
    assert_eq!(
        plan_outbox_mark(&config, AuditOutboxDelivery::Failed, 100),
        AuditOutboxMark::Failed
    );
}

#[test]
fn drain_report_counts_every_claimed_message_once() {
    let mut report = start_drain_report(5);
    record_delivery_outcome(&mut report, AuditOutboxDelivery::Sent, false, true);
    record_delivery_outcome(&mut report, AuditOutboxDelivery::Retryable, false, true);
    record_delivery_outcome(&mut report, AuditOutboxDelivery::Failed, true, true);
    record_delivery_outcome(&mut report, AuditOutboxDelivery::Failed, false, true);
    record_delivery_outcome(&mut report, AuditOutboxDelivery::Sent, false, false);
    assert_eq!(
        report,
        AuditOutboxDrainReport {
            claimed: 5,
            sent: 1,
            retryable: 1,
            failed: 2,
            exhausted: 1,
            stale: 1,
        }
    );
    assert_eq!(
        report.sent + report.retryable + report.failed + report.stale,
        report.claimed
    );
}

fn job(status: SchedulerJobStatus, lease_id: Option<&str>, lease_until_ms: Option<u64>) -> StoredSchedulerJob {
    StoredSchedulerJob {
        id: "job_1".to_string(),
        tenant_id: "tenant_1".to_string(),
        job_kind: SchedulerJobKind::TokenRefreshSweep,
        status,
        next_run_at_ms: 500,
        lease_id: lease_id.map(|id| id.to_string()),
        lease_until_ms,
        attempt_count: 2,
        last_started_at_ms: None,
        last_finished_at_ms: None,
        last_safe_error_code: None,
    }
}

#[test]
fn claimed_job_becomes_a_lease() {
    let lease = scheduler_job_lease_from_stored(job(
        SchedulerJobStatus::Running,
        Some("lease_1"),
        Some(900),
    ))
    .expect("lease");
    assert_eq!(
        lease,
        SchedulerJobLease {
            id: "job_1".to_string(),
            tenant_id: "tenant_1".to_string(),
            job_kind: SchedulerJobKind::TokenRefreshSweep,
            status: SchedulerJobStatus::Running,
            attempt_count: 2,
            lease_id: "lease_1".to_string(),
            lease_until_ms: 900,
        }
    );
}

#[test]
fn claimed_job_without_lease_columns_is_refused() {
    assert!(matches!(
        scheduler_job_lease_from_stored(job(SchedulerJobStatus::Running, None, Some(900))),
        Err(PostgresRepositoryError::UnknownSchedulerJobStatus(reason))
            if reason == "running row missing lease_id"
    ));
    assert!(matches!(
        scheduler_job_lease_from_stored(job(SchedulerJobStatus::Running, Some("lease_1"), None)),
        Err(PostgresRepositoryError::UnknownSchedulerJobStatus(reason))
            if reason == "running row missing lease_until"
    ));
}

#[test]
fn claim_miss_is_explained_by_the_current_row() {
    assert_eq!(
        lease_acquire_after_claim_miss(None, 100),
        SchedulerLeaseAcquire::NotDue { next_due_ms: 100 }
    );
    assert_eq!(
        lease_acquire_after_claim_miss(Some(job(SchedulerJobStatus::Pending, None, None)), 100),
        SchedulerLeaseAcquire::NotDue { next_due_ms: 500 }
    );
    assert_eq!(
        lease_acquire_after_claim_miss(
            Some(job(SchedulerJobStatus::Running, Some("lease_1"), Some(900))),
            100
        ),
        SchedulerLeaseAcquire::Busy {
            retry_after_ms: 800
        }
    );
    assert_eq!(
        lease_acquire_after_claim_miss(
            Some(job(SchedulerJobStatus::Running, Some("lease_1"), Some(50))),
            100
        ),
        SchedulerLeaseAcquire::Busy { retry_after_ms: 0 }
    );
    assert_eq!(
        lease_acquire_after_claim_miss(Some(job(SchedulerJobStatus::Running, None, None)), 100),
        SchedulerLeaseAcquire::Busy { retry_after_ms: 0 }
    );
}

#[test]
fn drain_report_counts_every_outcome_once() {
    let outcome = |effective, exhausted, marked| AuditOutboxDeliveryOutcome {
        effective,
        exhausted,
        marked,
    };
    let report = drain_report_of_outcomes(&vec![
        outcome(AuditOutboxDelivery::Sent, false, true),
        outcome(AuditOutboxDelivery::Retryable, false, true),
        outcome(AuditOutboxDelivery::Failed, true, true),
        outcome(AuditOutboxDelivery::Failed, false, true),
        outcome(AuditOutboxDelivery::Sent, false, false),
    ]);
    assert_eq!(
        report,
        AuditOutboxDrainReport {
            claimed: 5,
            sent: 1,
            retryable: 1,
            failed: 2,
            exhausted: 1,
            stale: 1,
        }
    );
    assert_eq!(drain_report_of_outcomes(&Vec::new()).claimed, 0);
}
