//! The two values that carry a pool handle: the pool as registered once at
//! startup, and the token handed to each request.
//!
//! The handle type `P` is the connection pool of the database client; cloning
//! it yields another handle to the same shared pool.

use vstd::prelude::*;

verus! {

/// The pool as the application registers it once at startup.
#[derive(Debug)]
pub struct SQLxPostgresPool<P> {
    pub client: P,
}

impl<P> SQLxPostgresPool<P> {
    /// Wraps a pool handle for registration.
    pub fn new(client: P) -> (r: Self)
        ensures
            r.client == client,
    {
        SQLxPostgresPool { client }
    }
}

/// The per-request token: a shared handle to the registered pool.
#[derive(Debug)]
pub struct SQLxPostgres<P> {
    pub poll: P,
}

} // verus!
