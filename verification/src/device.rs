//! Models of the two hardware capabilities the core drives: the edge-sensing
//! input and the one-shot countdown timer. Each is reduced to the plain
//! values its interrupt handler reads and writes — a pending-interrupt flag,
//! and for the timer the countdown state — so the handlers' effect on them
//! can be stated and proved exactly.

use vstd::prelude::*;

verus! {

/// A digital input configured to raise a hardware interrupt on a falling
/// edge: the zero-cross sense line. The hardware sets the pending flag when
/// the edge is detected; the handler must clear it explicitly, or the
/// interrupt re-fires immediately.
#[derive(Clone, Copy)]
pub struct EdgeSource {
    /// The pending-interrupt condition, hardware-owned.
    pub pending: bool,
}

impl EdgeSource {
    /// The source with its pending condition cleared; everything else is
    /// unchanged (there is nothing else).
    pub open spec fn spec_acknowledged(self) -> EdgeSource {
        EdgeSource { pending: false }
    }

    /// A fresh source, no edge seen yet.
    pub fn new() -> (r: EdgeSource)
        ensures
            !r.pending,
    {
        EdgeSource { pending: false }
    }

    /// Hardware side of the model: the configured falling edge arrived and
    /// the pending condition is raised.
    pub fn detect_edge(&mut self)
        ensures
            *final(self) == (EdgeSource { pending: true }),
    {
        self.pending = true;
    }

    /// Clear the pending condition so the interrupt does not immediately
    /// re-fire. Safe to call whether or not an edge is pending.
    pub fn clear_interrupt(&mut self)
        ensures
            *final(self) == old(self).spec_acknowledged(),
    {
        self.pending = false;
    }

    /// Whether an edge is waiting to be serviced.
    pub fn is_pending(&self) -> (r: bool)
        ensures
            r == self.pending,
    {
        self.pending
    }
}

/// Acknowledging the edge source is idempotent: a second acknowledgement
/// changes nothing, and the pending condition stays cleared both times.
pub proof fn lemma_edge_acknowledge_idempotent(e: EdgeSource)
    ensures
        e.spec_acknowledged().spec_acknowledged() == e.spec_acknowledged(),
        !e.spec_acknowledged().pending,
{
}

/// A one-shot countdown timer: armed with a duration, it raises its pending
/// interrupt once when the countdown expires and stops. Re-arming while it
/// is counting discards the previous countdown — no fire events queue up.
#[derive(Clone, Copy)]
pub struct OneShotTimer {
    /// Whether a countdown is currently running.
    pub running: bool,
    /// The instant, in ticks, at which the running countdown expires.
    /// Meaningful only while `running`.
    pub deadline: u64,
    /// The pending-interrupt condition, raised at expiry.
    pub pending: bool,
}

impl OneShotTimer {
    /// The timer as it stands right after being armed at instant `now` for
    /// `delay` ticks: counting toward `now + delay`, any previous countdown
    /// discarded, the pending condition untouched.
    pub open spec fn spec_armed(self, now: u64, delay: u64) -> OneShotTimer {
        OneShotTimer { running: true, deadline: (now + delay) as u64, pending: self.pending }
    }

    /// The timer right after its countdown reached zero: stopped, with the
    /// pending condition raised.
    pub open spec fn spec_expired(self) -> OneShotTimer {
        OneShotTimer { running: false, deadline: self.deadline, pending: true }
    }

    /// The timer with its pending condition cleared; the countdown state is
    /// unchanged.
    pub open spec fn spec_acknowledged(self) -> OneShotTimer {
        OneShotTimer { running: self.running, deadline: self.deadline, pending: false }
    }

    /// A fresh timer: not counting, nothing pending.
    pub fn new() -> (r: OneShotTimer)
        ensures
            !r.running,
            !r.pending,
    {
        OneShotTimer { running: false, deadline: 0, pending: false }
    }

    /// Arm (or re-arm) the countdown: `delay` ticks from `now`. A countdown
    /// already running is discarded and restarted.
    pub fn start(&mut self, now: u64, delay: u64)
        requires
            now + delay <= u64::MAX,
        ensures
            *final(self) == old(self).spec_armed(now, delay),
    {
        self.running = true;
        self.deadline = now + delay;
    }

    /// Hardware side of the model: the countdown reached zero; the pending
    /// condition is raised and the one-shot countdown stops.
    pub fn expire(&mut self)
        ensures
            *final(self) == old(self).spec_expired(),
    {
        self.running = false;
        self.pending = true;
    }

    /// Clear the pending condition. Safe to call whether or not an expiry is
    /// pending, and never re-arms the countdown.
    pub fn clear_interrupt(&mut self)
        ensures
            *final(self) == old(self).spec_acknowledged(),
    {
        self.pending = false;
    }

    /// Whether a countdown is currently running.
    pub fn is_running(&self) -> (r: bool)
        ensures
            r == self.running,
    {
        self.running
    }

    /// Whether an expiry is waiting to be serviced.
    pub fn is_pending(&self) -> (r: bool)
        ensures
            r == self.pending,
    {
        self.pending
    }
}

/// Acknowledging the timer is idempotent: a second acknowledgement changes
/// nothing, and the pending condition stays cleared both times.
pub proof fn lemma_timer_acknowledge_idempotent(t: OneShotTimer)
    ensures
        t.spec_acknowledged().spec_acknowledged() == t.spec_acknowledged(),
        !t.spec_acknowledged().pending,
{
}

} // verus!
