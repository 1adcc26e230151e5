//! Identity upserts: recognising a unique-key violation from the database,
//! and turning a violated actor binding into a conflict that names it.
use vstd::prelude::*;

use crate::domain::ActorKind;
use crate::error::PostgresRepositoryError;
use crate::redaction::redacted_tenant_mismatch;
use crate::text::{str_equals, string_of};

verus! {

/// The SQLSTATE a unique-key violation carries.
pub const UNIQUE_VIOLATION_CODE: &'static str = "23505";

/// The SQLSTATE code that `sqlx::Error::as_database_error` followed by
/// `DatabaseError::code` reads from a driver error: none for an error that did
/// not come from the database. It is read from the error value alone.
pub uninterp spec fn database_error_code_of(error: sqlx::Error) -> Option<Seq<char>>;

/// The SQLSTATE code of a database error, read with
/// `sqlx::Error::as_database_error` and `DatabaseError::code`; errors that did
/// not come from the database have none. The contract claims only that the
/// code is the one named `database_error_code_of` for this error; which code a
/// given error carries is not stated, the error being opaque here.
#[verifier::external_body]
fn database_error_code(error: &sqlx::Error) -> (r: Option<String>)
    ensures
        match r {
            Some(code) => database_error_code_of(*error) == Some(code@),
            None => database_error_code_of(*error) is None,
        },
{
    match error.as_database_error() {
        Some(db_error) => match db_error.code() {
            Some(code) => Some(code.into_owned()),
            None => None,
        },
        None => None,
    }
}

/// Whether a SQLSTATE code is the unique-key violation.
pub fn is_unique_violation_code(code: Option<&str>) -> (r: bool)
    ensures
        r == (code matches Some(c) && c@ == UNIQUE_VIOLATION_CODE@),
{
    match code {
        Some(c) => str_equals(c, UNIQUE_VIOLATION_CODE),
        None => false,
    }
}

/// Whether a database call failed on a unique key: the error carries the
/// unique-violation SQLSTATE.
pub fn is_unique_violation(error: &sqlx::Error) -> (r: bool)
    ensures
        r == (database_error_code_of(*error) == Some(UNIQUE_VIOLATION_CODE@)),
{
    let code = database_error_code(error);
    match &code {
        Some(c) => is_unique_violation_code(Some(c.as_str())),
        None => is_unique_violation_code(None),
    }
}

/// After an identity upsert hit a unique key: the identity that already
/// holds the tenant's binding for this external actor decides. A different
/// identity is a binding conflict; the same identity, or none, leaves the
/// database error as it was.
pub fn lark_identity_binding_conflict(
    identity_id: &str,
    tenant_id: &str,
    actor_kind: ActorKind,
    actor_external_id: &str,
    conflicting_identity_id: Option<&str>,
) -> (r: Option<PostgresRepositoryError>)
    ensures
        r is Some <==> (conflicting_identity_id matches Some(id) && id@ != identity_id@),
        r matches Some(error) ==> (error matches PostgresRepositoryError::LarkIdentityActorExternalBindingConflict {
            tenant_id: t,
            actor_kind: k,
            actor_external_id: x,
        } && t@ == tenant_id@ && k == actor_kind && x@ == actor_external_id@),
{
    match conflicting_identity_id {
        Some(id) => {
            if str_equals(id, identity_id) {
                None
            } else {
                Some(
                    PostgresRepositoryError::LarkIdentityActorExternalBindingConflict {
                        tenant_id: string_of(tenant_id),
                        actor_kind,
                        actor_external_id: string_of(actor_external_id),
                    },
                )
            }
        },
        None => None,
    }
}

/// `sqlx::Error::RowNotFound`, the driver's error for a query that had to
/// return a row and returned none. The error is opaque here, so nothing is
/// claimed of the value.
#[verifier::external_body]
fn row_not_found() -> (r: sqlx::Error) {
    sqlx::Error::RowNotFound
}

/// Why an upsert that returns its row returned none: a row with this id
/// exists under another tenant, reported without naming that tenant, or no
/// such row exists at all.
pub fn upsert_miss_error(expected_tenant_id: &str, id_taken: bool) -> (r: PostgresRepositoryError)
    ensures
        id_taken ==> (r matches PostgresRepositoryError::TenantMismatch { field, expected, actual }
            && field@ == "tenant_id"@ && expected@ == expected_tenant_id@ && actual@
            == "<redacted>"@),
        !id_taken ==> r is Sqlx,
{
    if id_taken {
        redacted_tenant_mismatch(expected_tenant_id)
    } else {
        PostgresRepositoryError::Sqlx(row_not_found())
    }
}

} // verus!
