//! The observable timing behaviour of the core: which fire events a sequence
//! of zero-crossing edges produces. An edge at instant `e` arms the countdown
//! to expire at `e + delay`; the countdown completes — and the output action
//! fires — unless a later edge arrives strictly before that deadline and
//! restarts it (last edge wins).
//!
//! `fire_times` states that schedule mathematically; `simulate` drives the
//! real handlers through a whole scenario, playing the hardware's role of
//! raising edges and delivering expiries, and is proved to produce exactly
//! that schedule.

use vstd::prelude::*;

use crate::device::EdgeSource;
use crate::device::OneShotTimer;
use crate::handlers::on_timer_expiry;
use crate::handlers::on_zero_cross;
use crate::state::SharedState;

verus! {

/// The edge instants come in the order they arrived in time.
pub open spec fn time_ordered(edges: Seq<int>) -> bool {
    forall|i: int| 0 <= i < edges.len() - 1 ==> #[trigger] edges[i] <= edges[i + 1]
}

/// Whether the edge at position `i` completes its countdown. It does when it
/// is the last edge, or when the next edge arrives no earlier than its
/// deadline `edges[i] + delay`; a next edge strictly before the deadline
/// discards the countdown.
pub open spec fn edge_fires(edges: Seq<int>, delay: int, i: int) -> bool {
    i == edges.len() - 1 || edges[i] + delay <= edges[i + 1]
}

/// The fire instants settled by the first `n` edges, in time order. The edge
/// at position `i` contributes the instant `edges[i] + delay` exactly when
/// its countdown completes.
pub open spec fn fires_upto(edges: Seq<int>, delay: int, n: int) -> Seq<int>
    decreases n,
{
    if n <= 0 {
        Seq::empty()
    } else if edge_fires(edges, delay, n - 1) {
        fires_upto(edges, delay, n - 1).push(edges[n - 1] + delay)
    } else {
        fires_upto(edges, delay, n - 1)
    }
}

/// All fire instants a sequence of edges produces under phase delay `delay`.
pub open spec fn fire_times(edges: Seq<int>, delay: int) -> Seq<int> {
    fires_upto(edges, delay, edges.len() as int)
}

/// A sequence of tick counts read as mathematical instants.
pub open spec fn instants(v: Seq<u64>) -> Seq<int> {
    v.map(|i: int, t: u64| t as int)
}

proof fn lemma_instants_push(v: Seq<u64>, x: u64)
    ensures
        instants(v.push(x)) == instants(v).push(x as int),
{
    assert(instants(v.push(x)) =~= instants(v).push(x as int));
}

/// Edges spaced at least the phase delay apart each produce exactly one fire
/// event, `delay` after that edge: the fire schedule is the edge schedule
/// shifted by `delay`, one fire per edge, in order.
pub proof fn lemma_spaced_edges_fire_once_each(edges: Seq<int>, delay: int)
    requires
        forall|i: int| 0 <= i < edges.len() - 1 ==> edges[i + 1] - #[trigger] edges[i] >= delay,
    ensures
        fire_times(edges, delay) == edges.map(|i: int, e: int| e + delay),
{
    lemma_fires_upto_when_spaced(edges, delay, edges.len() as int);
    assert(edges.subrange(0, edges.len() as int) =~= edges);
}

proof fn lemma_fires_upto_when_spaced(edges: Seq<int>, delay: int, n: int)
    requires
        0 <= n <= edges.len(),
        forall|i: int| 0 <= i < edges.len() - 1 ==> edges[i + 1] - #[trigger] edges[i] >= delay,
    ensures
        fires_upto(edges, delay, n) == edges.subrange(0, n).map(|i: int, e: int| e + delay),
    decreases n,
{
    if n <= 0 {
        assert(fires_upto(edges, delay, n) =~= edges.subrange(0, n).map(
            |i: int, e: int| e + delay,
        ));
    } else {
        lemma_fires_upto_when_spaced(edges, delay, n - 1);
        assert(edge_fires(edges, delay, n - 1));
        assert(fires_upto(edges, delay, n) =~= edges.subrange(0, n).map(
            |i: int, e: int| e + delay,
        ));
    }
}

/// Two edges closer together than the phase delay produce exactly one fire
/// event, `delay` after the second edge: the first edge's countdown is
/// discarded by the re-arm (last edge wins).
pub proof fn lemma_close_edges_fire_once(e0: int, e1: int, delay: int)
    requires
        e0 <= e1,
        e1 - e0 < delay,
    ensures
        fire_times(seq![e0, e1], delay) == seq![e1 + delay],
{
    let edges = seq![e0, e1];
    assert(!edge_fires(edges, delay, 0));
    assert(edge_fires(edges, delay, 1));
    assert(fires_upto(edges, delay, 1) == fires_upto(edges, delay, 0));
    assert(fire_times(edges, delay) =~= seq![e1 + delay]);
}

/// With the phase delay configured as zero, every edge fires on its own
/// tick: the countdown neither hangs nor runs for a negative duration.
pub proof fn lemma_zero_delay_fires_on_arm_tick(edges: Seq<int>)
    requires
        time_ordered(edges),
    ensures
        fire_times(edges, 0) == edges,
{
    lemma_spaced_edges_fire_once_each(edges, 0);
    assert(edges.map(|i: int, e: int| e + 0) =~= edges);
}

/// Drive the two handlers through a whole scenario, playing the hardware's
/// role: for each edge instant, deliver the expiry of a countdown that ran
/// out before the edge (recording the fire), then raise and service the
/// edge; after the last edge, deliver the expiry of the countdown still
/// running. Returns the fire instants — exactly the `fire_times` schedule —
/// and the shared state, back to idle with nothing pending.
pub fn simulate(edges: &Vec<u64>, delay: u64) -> (r: (Vec<u64>, SharedState))
    requires
        time_ordered(instants(edges@)),
        forall|i: int| 0 <= i < edges@.len() ==> edges@[i] + delay <= u64::MAX,
    ensures
        instants(r.0@) == fire_times(instants(edges@), delay as int),
        r.1.idle(),
{
    let ghost ev = instants(edges@);
    let ghost d = delay as int;
    let mut shared = SharedState::new();
    let _installed = shared.install(EdgeSource::new(), OneShotTimer::new());
    let mut fires: Vec<u64> = Vec::new();
    let mut i: usize = 0;
    while i < edges.len()
        invariant
            ev == instants(edges@),
            d == delay as int,
            time_ordered(ev),
            forall|k: int| 0 <= k < edges@.len() ==> edges@[k] + delay <= u64::MAX,
            i <= edges.len(),
            shared.initialized(),
            !shared.zero_cross->Some_0.pending,
            !shared.timer->Some_0.pending,
            i == 0 ==> !shared.timer->Some_0.running && fires@.len() == 0,
            i > 0 ==> shared.timer->Some_0.running && shared.timer->Some_0.deadline == ev[i - 1]
                + d,
            i > 0 ==> instants(fires@) == fires_upto(ev, d, i - 1),
        decreases edges.len() - i,
    {
        let e = edges[i];
        // A countdown armed by the previous edge and already run out is
        // delivered before the new edge is seen.
        let expired_at = match shared.timer {
            Some(t) => if t.running && t.deadline <= e {
                Some(t.deadline)
            } else {
                None
            },
            None => None,
        };
        if let Some(deadline) = expired_at {
            let ghost fires_before = fires@;
            fires.push(deadline);
            proof {
                lemma_instants_push(fires_before, deadline);
            }
            match shared.timer {
                Some(mut t) => {
                    t.expire();
                    shared.timer = Some(t);
                },
                None => {},
            }
            let _fired = on_timer_expiry(&mut shared);
        }
        proof {
            if i > 0 {
                assert(instants(fires@) == fires_upto(ev, d, i as int));
            }
        }
        match shared.zero_cross {
            Some(mut z) => {
                z.detect_edge();
                shared.zero_cross = Some(z);
            },
            None => {},
        }
        let _serviced = on_zero_cross(&mut shared, e, delay);
        i += 1;
    }
    if edges.len() > 0 {
        let ghost fires_before = fires@;
        let deadline = match shared.timer {
            Some(t) => t.deadline,
            None => 0,
        };
        fires.push(deadline);
        proof {
            lemma_instants_push(fires_before, deadline);
            assert(edge_fires(ev, d, edges@.len() - 1));
        }
        match shared.timer {
            Some(mut t) => {
                t.expire();
                shared.timer = Some(t);
            },
            None => {},
        }
        let _fired = on_timer_expiry(&mut shared);
    }
    (fires, shared)
}

} // verus!
