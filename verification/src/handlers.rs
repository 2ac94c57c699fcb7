//! The two interrupt handler routines. One is bound to the edge-sensing
//! vector: on every detected zero-crossing it arms the phase-delay countdown
//! (discarding any countdown already running) and acknowledges the edge. The
//! other is bound to the timer vector: at countdown expiry it commands the
//! output action and acknowledges the timer.
//!
//! Each handler takes the shared state by exclusive borrow for its whole
//! invocation — the software model of entering a critical section — so its
//! entire effect is the single atomic transition its contract states: no
//! other access to the shared state can interleave with its field reads and
//! writes.

use vstd::prelude::*;

use crate::state::Fault;
use crate::state::Phase;
use crate::state::SharedState;

verus! {

/// The command handed back by the timer handler at countdown expiry: the
/// moment to perform the output action (e.g. pulse or toggle the drive pin)
/// has arrived. The action itself is the caller's hook — which pin, pulse or
/// toggle, and for how long are deliberately left outside the core.
#[derive(Clone, Copy, Debug, PartialEq, Eq, Structural)]
pub struct FireCommand;

/// The shared state after the edge handler ran at instant `now` with phase
/// delay `delay`: the countdown re-armed to expire at `now + delay`, the
/// edge's pending condition cleared. Meaningful when the state is
/// initialized.
pub open spec fn spec_after_edge(s: SharedState, now: u64, delay: u64) -> SharedState {
    SharedState {
        zero_cross: Some(s.zero_cross->Some_0.spec_acknowledged()),
        timer: Some(s.timer->Some_0.spec_armed(now, delay)),
    }
}

/// The shared state after the timer handler ran: the timer's pending
/// condition cleared, the countdown left alone (the handler never re-arms;
/// only a future edge starts the next countdown). Meaningful when the state
/// is initialized.
pub open spec fn spec_after_expiry(s: SharedState) -> SharedState {
    SharedState { zero_cross: s.zero_cross, timer: Some(s.timer->Some_0.spec_acknowledged()) }
}

/// Handler bound to the edge-sensing interrupt vector, invoked whenever the
/// configured falling edge is detected on the zero-cross line. It arms the
/// phase-delay countdown for `delay` ticks past `now`, unconditionally
/// overriding a countdown still running from an earlier edge (last edge
/// wins), then acknowledges the edge so the interrupt does not re-fire.
///
/// Finding a capability missing means initialization was skipped — a
/// programming invariant violation, reported as a `Fault` that leaves the
/// state untouched.
pub fn on_zero_cross(shared: &mut SharedState, now: u64, delay: u64) -> (r: Result<(), Fault>)
    requires
        now + delay <= u64::MAX,
    ensures
        old(shared).initialized() ==> {
            &&& r is Ok
            &&& *final(shared) == spec_after_edge(*old(shared), now, delay)
        },
        !old(shared).initialized() ==> {
            &&& r == Err::<(), Fault>(Fault::NotInitialized)
            &&& *final(shared) == *old(shared)
        },
{
    let mut timer = match shared.timer {
        Some(t) => t,
        None => {
            return Err(Fault::NotInitialized);
        },
    };
    let mut zero_cross = match shared.zero_cross {
        Some(z) => z,
        None => {
            return Err(Fault::NotInitialized);
        },
    };
    timer.start(now, delay);
    zero_cross.clear_interrupt();
    shared.timer = Some(timer);
    shared.zero_cross = Some(zero_cross);
    Ok(())
}

/// Handler bound to the timer interrupt vector, invoked when the armed
/// countdown reaches zero. It acknowledges the timer's pending condition and
/// hands back the command to perform the output action; it never re-arms the
/// countdown, so the next fire can only follow a future edge.
///
/// As with the edge handler, a missing capability is an initialization
/// invariant violation, reported as a `Fault` that leaves the state
/// untouched.
pub fn on_timer_expiry(shared: &mut SharedState) -> (r: Result<FireCommand, Fault>)
    ensures
        old(shared).initialized() ==> {
            &&& r == Ok::<FireCommand, Fault>(FireCommand)
            &&& *final(shared) == spec_after_expiry(*old(shared))
        },
        !old(shared).initialized() ==> {
            &&& r == Err::<FireCommand, Fault>(Fault::NotInitialized)
            &&& *final(shared) == *old(shared)
        },
{
    if shared.zero_cross.is_none() {
        return Err(Fault::NotInitialized);
    }
    let mut timer = match shared.timer {
        Some(t) => t,
        None => {
            return Err(Fault::NotInitialized);
        },
    };
    timer.clear_interrupt();
    shared.timer = Some(timer);
    Ok(FireCommand)
}

/// The shared state after a countdown expiry is delivered in full: the
/// hardware raises the timer's pending condition and stops the one-shot
/// countdown, then the timer handler acknowledges it.
pub open spec fn spec_after_fire(s: SharedState) -> SharedState {
    spec_after_expiry(
        SharedState { zero_cross: s.zero_cross, timer: Some(s.timer->Some_0.spec_expired()) },
    )
}

/// The steady-state coordinator, made explicit: from any initialized state,
/// an edge at instant `now` leaves the core ARMED with deadline
/// `now + delay` — covering both IDLE to ARMED and the ARMED to ARMED
/// re-arm — and a delivered countdown expiry returns it to IDLE.
pub proof fn lemma_coordinator_transitions(s: SharedState, now: u64, delay: u64)
    requires
        s.initialized(),
    ensures
        spec_after_edge(s, now, delay).spec_phase() == (Phase::Armed {
            deadline: (now + delay) as u64,
        }),
        spec_after_fire(s).spec_phase() == Phase::Idle,
{
}

/// One serialized handler invocation, as the mutual-exclusion discipline
/// delivers them: either the edge handler at some instant, or the timer
/// handler at countdown expiry.
#[derive(Clone, Copy, Debug, PartialEq, Eq, Structural)]
pub enum HandlerEvent {
    /// The edge handler ran, the edge having been detected at instant `now`.
    Edge { now: u64 },
    /// The timer handler ran at countdown expiry.
    Expiry,
}

/// The shared state after one serialized handler invocation.
pub open spec fn spec_after_event(s: SharedState, e: HandlerEvent, delay: u64) -> SharedState {
    match e {
        HandlerEvent::Edge { now } => spec_after_edge(s, now, delay),
        HandlerEvent::Expiry => spec_after_expiry(s),
    }
}

/// The shared state after a whole serialized run of handler invocations.
pub open spec fn spec_after_events(s: SharedState, es: Seq<HandlerEvent>, delay: u64) -> SharedState
    decreases es.len(),
{
    if es.len() == 0 {
        s
    } else {
        spec_after_events(spec_after_event(s, es[0], delay), es.drop_first(), delay)
    }
}

/// The shared-state discipline never exposes a torn state: each handler owns
/// the state exclusively for its whole invocation, so a run of invocations in
/// any arrival order is a serialized sequence of the atomic transitions the
/// handlers' contracts state — and every state in such a run, starting from
/// an initialized one, is again fully populated, so no invocation ever
/// observes a partially written state.
pub proof fn lemma_events_preserve_initialized(
    s: SharedState,
    es: Seq<HandlerEvent>,
    delay: u64,
)
    requires
        s.initialized(),
    ensures
        spec_after_events(s, es, delay).initialized(),
    decreases es.len(),
{
    if es.len() > 0 {
        lemma_events_preserve_initialized(spec_after_event(s, es[0], delay), es.drop_first(), delay);
    }
}

} // verus!
