//! Repository handles that only hold their connection pool. They are generic
//! over the pool so that the pool type of the database driver stays outside
//! the verified code; the application instantiates them with its Postgres
//! pool.
use vstd::prelude::*;

verus! {

/// Records a user's decision on a proposed action and its effects in one transaction.
pub struct PostgresReviewDecisionUnitOfWork<P> {
    pool: P,
}

impl<P> PostgresReviewDecisionUnitOfWork<P> {
    /// The pool this handle was made with.
    pub closed spec fn held_pool(&self) -> P {
        self.pool
    }

    pub fn new(pool: P) -> (r: Self)
        ensures
            r.held_pool() == pool,
    {
        Self { pool }
    }

    pub fn pool(&self) -> (r: &P)
        ensures
            *r == self.held_pool(),
    {
        &self.pool
    }
}

/// Records the execution steps of a confirmed action in one transaction each.
pub struct PostgresExecutionUnitOfWork<P> {
    pool: P,
}

impl<P> PostgresExecutionUnitOfWork<P> {
    /// The pool this handle was made with.
    pub closed spec fn held_pool(&self) -> P {
        self.pool
    }

    pub fn new(pool: P) -> (r: Self)
        ensures
            r.held_pool() == pool,
    {
        Self { pool }
    }

    pub fn pool(&self) -> (r: &P)
        ensures
            *r == self.held_pool(),
    {
        &self.pool
    }
}

/// Stores OAR user accounts.
pub struct PostgresOarUserRepository<P> {
    pool: P,
}

impl<P> PostgresOarUserRepository<P> {
    /// The pool this handle was made with.
    pub closed spec fn held_pool(&self) -> P {
        self.pool
    }

    pub fn new(pool: P) -> (r: Self)
        ensures
            r.held_pool() == pool,
    {
        Self { pool }
    }

    pub fn pool(&self) -> (r: &P)
        ensures
            *r == self.held_pool(),
    {
        &self.pool
    }
}

} // verus!
