//! Laws of the registry that span several calls.

use crate::fairing::SqlxPostgresFairing;
use crate::pool::SQLxPostgres;
use crate::registry::{
    connect_step, extracted, ignite_step, is_handle_to, is_run, next_state, PoolRegistry, RegistryEvent,
};
use crate::config::ConfigView;
use vstd::prelude::*;

verus! {

proof fn lemma_settled_stays<P: Clone>(
    states: Seq<PoolRegistry<P>>,
    events: Seq<RegistryEvent<P>>,
    i: int,
)
    requires
        is_run(states, events),
        states[0] is Ready || states[0] is Degraded,
        0 <= i < states.len(),
    ensures
        states[i] == states[0],
    decreases i,
{
    if i > 0 {
        lemma_settled_stays(states, events, i - 1);
        let j = i - 1;
        assert(next_state(states[j], events[j], states[j + 1]));
    }
}

/// Once a pool has been opened, it stays registered whatever happens after,
/// and every request, at any time and however many run at once, obtains a
/// handle that is a clone of that one pool.
pub proof fn lemma_requests_share_pool<P: Clone>(
    states: Seq<PoolRegistry<P>>,
    events: Seq<RegistryEvent<P>>,
    pool: P,
)
    requires
        is_run(states, events),
        states[0] == connect_step(PoolRegistry::<P>::Attaching, Some(pool)),
    ensures
        forall|i: int| 0 <= i < states.len() ==> #[trigger] states[i] == states[0],
        forall|i: int, r: Option<SQLxPostgres<P>>|
            0 <= i < states.len() && #[trigger] extracted(states[i], r) ==> is_handle_to(r, pool),
{
    assert forall|i: int| 0 <= i < states.len() implies #[trigger] states[i] == states[0] by {
        lemma_settled_stays(states, events, i);
    }
    assert forall|i: int, r: Option<SQLxPostgres<P>>|
        0 <= i < states.len() && #[trigger] extracted(states[i], r) implies is_handle_to(r, pool) by {
        lemma_settled_stays(states, events, i);
    }
}

/// When opening the pool fails, the registry stays without a pool whatever
/// happens after, and every later request fails to obtain a handle.
pub proof fn lemma_failed_open_is_final<P: Clone>(
    states: Seq<PoolRegistry<P>>,
    events: Seq<RegistryEvent<P>>,
)
    requires
        is_run(states, events),
        states[0] == connect_step(PoolRegistry::<P>::Attaching, None),
    ensures
        forall|i: int| 0 <= i < states.len() ==> #[trigger] states[i] is Degraded,
        forall|i: int, r: Option<SQLxPostgres<P>>|
            0 <= i < states.len() && #[trigger] extracted(states[i], r) ==> r is None,
{
    assert forall|i: int| 0 <= i < states.len() implies #[trigger] states[i] is Degraded by {
        lemma_settled_stays(states, events, i);
    }
    assert forall|i: int, r: Option<SQLxPostgres<P>>|
        0 <= i < states.len() && #[trigger] extracted(states[i], r) implies r is None by {
        lemma_settled_stays(states, events, i);
    }
}

/// A fairing that carries a pool never asks for a connection attempt, whatever
/// its configuration; before startup it registers a clone of that pool.
pub proof fn lemma_injected_pool_skips_connect<P: Clone>(
    s: PoolRegistry<P>,
    fairing: SqlxPostgresFairing<P>,
    s2: PoolRegistry<P>,
    connect: Option<ConfigView>,
)
    requires
        fairing@.pool is Some,
        ignite_step(s, fairing, s2, connect),
    ensures
        connect is None,
        s is Unconfigured ==> (s2 matches PoolRegistry::Ready(q) && cloned(fairing@.pool->Some_0, q.client)),
{
}

} // verus!
