//! Scheduler job leases: turning a claimed row into a lease, and explaining a
//! claim that took nothing.
use vstd::prelude::*;

use crate::domain::{SchedulerJobKind, SchedulerJobStatus};
use crate::error::{PgRepositoryResult, PostgresRepositoryError};
use crate::text::string_of;

verus! {

/// A scheduler job row.
#[derive(Debug, Clone, PartialEq, Eq)]
pub struct StoredSchedulerJob {
    pub id: String,
    pub tenant_id: String,
    pub job_kind: SchedulerJobKind,
    pub status: SchedulerJobStatus,
    pub next_run_at_ms: u64,
    pub lease_id: Option<String>,
    pub lease_until_ms: Option<u64>,
    pub attempt_count: u32,
    pub last_started_at_ms: Option<u64>,
    pub last_finished_at_ms: Option<u64>,
    pub last_safe_error_code: Option<String>,
}

/// The right to run a job until `lease_until_ms`.
#[derive(Debug, Clone, PartialEq, Eq)]
pub struct SchedulerJobLease {
    pub id: String,
    pub tenant_id: String,
    pub job_kind: SchedulerJobKind,
    pub status: SchedulerJobStatus,
    pub attempt_count: u32,
    pub lease_id: String,
    pub lease_until_ms: u64,
}

/// The answer to a lease request.
#[derive(Debug, Clone, PartialEq, Eq)]
pub enum SchedulerLeaseAcquire {
    Acquired(SchedulerJobLease),
    NotDue { next_due_ms: u64 },
    Busy { retry_after_ms: u64 },
}

/// The lease a claimed row grants; a claimed row without a lease id or a
/// lease end is reported as a running row of unknown shape.
pub fn scheduler_job_lease_from_stored(stored: StoredSchedulerJob) -> (r: PgRepositoryResult<
    SchedulerJobLease,
>)
    ensures
        match r {
            Ok(lease) => stored.lease_id == Some(lease.lease_id) && stored.lease_until_ms == Some(
                lease.lease_until_ms,
            ) && lease.id == stored.id && lease.tenant_id == stored.tenant_id && lease.job_kind
                == stored.job_kind && lease.status == stored.status && lease.attempt_count
                == stored.attempt_count,
            Err(error) => if stored.lease_id is None {
                error matches PostgresRepositoryError::UnknownSchedulerJobStatus(reason) && reason@
                    == "running row missing lease_id"@
            } else {
                stored.lease_until_ms is None && (
                error matches PostgresRepositoryError::UnknownSchedulerJobStatus(reason) && reason@
                    == "running row missing lease_until"@)
            },
        },
{
    let StoredSchedulerJob { id, tenant_id, job_kind, status, lease_id, lease_until_ms, attempt_count, .. } = stored;
    let lease_id = match lease_id {
        Some(lease_id) => lease_id,
        None => {
            return Err(
                PostgresRepositoryError::UnknownSchedulerJobStatus(
                    string_of("running row missing lease_id"),
                ),
            );
        },
    };
    let lease_until_ms = match lease_until_ms {
        Some(lease_until_ms) => lease_until_ms,
        None => {
            return Err(
                PostgresRepositoryError::UnknownSchedulerJobStatus(
                    string_of("running row missing lease_until"),
                ),
            );
        },
    };
    Ok(SchedulerJobLease { id, tenant_id, job_kind, status, attempt_count, lease_id, lease_until_ms })
}

pub open spec fn saturating_sub_spec(a: u64, b: u64) -> u64 {
    if a >= b {
        (a - b) as u64
    } else {
        0
    }
}

/// Explains a claim that took nothing at `now_ms`, from the job's current
/// row: a missing job is not due yet, a running job is busy until its lease
/// ends, and a pending job is due at its next run.
pub fn lease_acquire_after_claim_miss(stored: Option<StoredSchedulerJob>, now_ms: u64) -> (r:
    SchedulerLeaseAcquire)
    ensures
        match stored {
            None => r == SchedulerLeaseAcquire::NotDue { next_due_ms: now_ms },
            Some(job) => match job.status {
                SchedulerJobStatus::Running => r == SchedulerLeaseAcquire::Busy {
                    retry_after_ms: saturating_sub_spec(
                        match job.lease_until_ms {
                            Some(until) => until,
                            None => now_ms,
                        },
                        now_ms,
                    ),
                },
                SchedulerJobStatus::Pending => r == SchedulerLeaseAcquire::NotDue {
                    next_due_ms: job.next_run_at_ms,
                },
            },
        },
{
    match stored {
        None => SchedulerLeaseAcquire::NotDue { next_due_ms: now_ms },
        Some(job) => match job.status {
            SchedulerJobStatus::Running => {
                let until = match job.lease_until_ms {
                    Some(until) => until,
                    None => now_ms,
                };
                SchedulerLeaseAcquire::Busy { retry_after_ms: until.saturating_sub(now_ms) }
            },
            SchedulerJobStatus::Pending => SchedulerLeaseAcquire::NotDue {
                next_due_ms: job.next_run_at_ms,
            },
        },
    }
}

/// A busy answer never asks to wait past the end of the lease that holds
/// the job.
pub proof fn lemma_busy_wait_within_lease(job: StoredSchedulerJob, now_ms: u64, until: u64)
    requires
        job.status == SchedulerJobStatus::Running,
        job.lease_until_ms == Some(until),
    ensures
        now_ms + saturating_sub_spec(until, now_ms) == if until >= now_ms { until as int } else { now_ms as int },
        until <= now_ms ==> saturating_sub_spec(until, now_ms) == 0,
{
}

} // verus!
