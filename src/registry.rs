//! The pool registry: where the startup hook leaves the pool, and where each
//! request takes its handle from.
//!
//! It moves through `Unconfigured`, then `Attaching` while a pool is being
//! opened, and ends in `Ready` with a pool or `Degraded` without one. Once
//! `Degraded`, it stays so, and every request fails to obtain a handle.

use crate::config::ConfigView;
use crate::fairing::{ConnectSettings, IgniteAction, SqlxPostgresFairing};
use crate::pool::{SQLxPostgres, SQLxPostgresPool};
use vstd::prelude::*;

verus! {

/// The registry's state over the life of the process.
pub enum PoolRegistry<P> {
    /// The startup hook has not run.
    Unconfigured,
    /// A pool is being opened from the configuration.
    Attaching,
    /// A pool is registered; requests obtain handles to it.
    Ready(SQLxPostgresPool<P>),
    /// Opening the pool failed; no pool is registered.
    Degraded,
}

/// One thing that can happen to the registry.
pub enum RegistryEvent<P> {
    /// The startup hook runs with this fairing.
    Ignite(SqlxPostgresFairing<P>),
    /// The connection attempt ended, with a pool or without.
    ConnectFinished(Option<P>),
}

/// Running the startup hook with `fairing` takes the registry from `s` to `s2`
/// and asks for a connection attempt with the options `connect`, if any.
pub open spec fn ignite_step<P: Clone>(
    s: PoolRegistry<P>,
    fairing: SqlxPostgresFairing<P>,
    s2: PoolRegistry<P>,
    connect: Option<ConfigView>,
) -> bool {
    match s {
        PoolRegistry::Unconfigured => match fairing@.pool {
            Some(p) => {
                &&& s2 matches PoolRegistry::Ready(q) && cloned(p, q.client)
                &&& connect is None
            },
            None => {
                &&& s2 is Attaching
                &&& connect == Some(fairing@.config)
            },
        },
        _ => s2 == s && connect is None,
    }
}

/// The end of a connection attempt with `outcome` takes the registry from `s`
/// to the state it returns.
pub open spec fn connect_step<P>(s: PoolRegistry<P>, outcome: Option<P>) -> PoolRegistry<P> {
    match s {
        PoolRegistry::Attaching => match outcome {
            Some(p) => PoolRegistry::Ready(SQLxPostgresPool { client: p }),
            None => PoolRegistry::Degraded,
        },
        _ => s,
    }
}

/// `e` can take the registry from `s` to `s2`.
pub open spec fn next_state<P: Clone>(
    s: PoolRegistry<P>,
    e: RegistryEvent<P>,
    s2: PoolRegistry<P>,
) -> bool {
    match e {
        RegistryEvent::Ignite(f) => exists|c: Option<ConfigView>| ignite_step(s, f, s2, c),
        RegistryEvent::ConnectFinished(o) => s2 == connect_step(s, o),
    }
}

/// `states` is a run of the registry under `events`: each state follows from
/// the one before by the event between them.
pub open spec fn is_run<P: Clone>(
    states: Seq<PoolRegistry<P>>,
    events: Seq<RegistryEvent<P>>,
) -> bool {
    &&& states.len() == events.len() + 1
    &&& forall|i: int|
        0 <= i < events.len() ==> #[trigger] next_state(states[i], events[i], states[i + 1])
}

/// `r` holds a handle to `pool`: a clone of it.
pub open spec fn is_handle_to<P: Clone>(r: Option<SQLxPostgres<P>>, pool: P) -> bool {
    r matches Some(t) && cloned(pool, t.poll)
}

/// `r` is what a request may obtain from registry `s`: a handle to the
/// registered pool when there is one, and nothing otherwise.
pub open spec fn extracted<P: Clone>(s: PoolRegistry<P>, r: Option<SQLxPostgres<P>>) -> bool {
    match s {
        PoolRegistry::Ready(pool) => is_handle_to(r, pool.client),
        _ => r is None,
    }
}

impl<P: Clone> PoolRegistry<P> {
    /// A registry before startup.
    pub fn new() -> (r: Self)
        ensures
            r is Unconfigured,
    {
        PoolRegistry::Unconfigured
    }

    /// Runs the startup hook. Before startup, an injected pool is adopted at
    /// once and nothing else is asked for; without one, the registry starts
    /// attaching and asks for a pool to be opened from the configuration. Run
    /// again later, it changes nothing.
    pub fn ignite(&mut self, fairing: &SqlxPostgresFairing<P>) -> (r: IgniteAction)
        ensures
            ignite_step(*old(self), *fairing, *final(self), r.connect_view()),
    {
        match self {
            PoolRegistry::Unconfigured => match fairing.injected_pool() {
                Some(p) => {
                    *self = PoolRegistry::Ready(SQLxPostgresPool::new(p.clone()));
                    IgniteAction::Nothing
                },
                None => {
                    *self = PoolRegistry::Attaching;
                    IgniteAction::Connect(ConnectSettings::from_config(fairing.config()))
                },
            },
            _ => IgniteAction::Nothing,
        }
    }

    /// Records the end of the connection attempt: while attaching, a pool
    /// makes the registry ready and its absence degrades it for good. In any
    /// other state it changes nothing.
    pub fn connect_finished(&mut self, outcome: Option<P>)
        ensures
            *final(self) == connect_step(*old(self), outcome),
    {
        if let PoolRegistry::Attaching = self {
            *self = match outcome {
                Some(p) => PoolRegistry::Ready(SQLxPostgresPool::new(p)),
                None => PoolRegistry::Degraded,
            };
        }
    }

    /// Whether a pool is registered.
    pub fn is_ready(&self) -> (r: bool)
        ensures
            r == (self is Ready),
    {
        match self {
            PoolRegistry::Ready(_) => true,
            _ => false,
        }
    }

    /// A request's handle to the registered pool, or `None` when there is no
    /// pool.
    pub fn extract(&self) -> (r: Option<SQLxPostgres<P>>)
        ensures
            extracted(*self, r),
    {
        match self {
            PoolRegistry::Ready(pool) => Some(SQLxPostgres { poll: pool.client.clone() }),
            _ => None,
        }
    }
}

} // verus!
