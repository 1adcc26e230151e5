use vstd::prelude::*;

pub mod audit_outbox_payload;
pub mod auth_lifecycle;
pub mod audit_outbox_worker;
pub mod audit_repository;
pub mod codec;
pub mod domain;
pub mod error;
pub mod error_reasons;
pub mod execution_flow;
pub mod identity;
pub mod ledger;
pub mod operation_ledger_sql;
pub mod recovery;
pub mod recovery_flow;
pub mod recovery_report;
pub mod redaction;
pub mod repositories;
pub mod review_decision;
pub mod review_decision_flow;
pub mod review_inbox;
pub mod rows;
pub mod scheduler;
pub mod text;
pub mod token_grant;
pub mod validation;

verus! {

} // verus!
