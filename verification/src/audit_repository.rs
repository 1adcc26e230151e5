//! The audit repository's own rule before it enqueues an outbox row: a
//! payload the outbox would refuse is refused here, as a repository error
//! that carries nothing of the payload.
use vstd::prelude::*;

use crate::audit_outbox_payload::{payload_acceptable, AuditPayloadJson};
use crate::error::{PgRepositoryResult, PostgresRepositoryError};

verus! {

/// Accepts exactly the payloads the outbox may carry, and answers every other
/// payload with `UnsafeAuditOutboxPayload`.
pub fn validate_audit_outbox_payload(payload: &AuditPayloadJson) -> (r: PgRepositoryResult<()>)
    ensures
        r is Ok <==> payload_acceptable(*payload),
        r is Err ==> r->Err_0 is UnsafeAuditOutboxPayload,
{
    match crate::audit_outbox_payload::validate_audit_outbox_payload(payload) {
        Ok(()) => Ok(()),
        Err(_) => Err(PostgresRepositoryError::UnsafeAuditOutboxPayload),
    }
}

} // verus!
