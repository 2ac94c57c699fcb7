//! The process-wide shared state of the core: the two capability instances,
//! each held in an `Option` that starts empty and is populated exactly once
//! during initialization. Both interrupt handlers work on this state; a
//! handler owns it exclusively for the whole invocation (an `&mut` borrow
//! stands in for the critical section of the target), so every access it
//! makes is atomic with respect to the other handler.

use vstd::prelude::*;

use crate::device::EdgeSource;
use crate::device::OneShotTimer;

verus! {

/// Failure of the one-time initialization sequence.
#[derive(Clone, Copy, Debug, PartialEq, Eq, Structural)]
pub enum InitError {
    /// Initialization already ran: the capability instances are installed
    /// and may not be installed a second time.
    AlreadyInitialized,
}

/// Invariant violation observed by a handler at interrupt time. Once
/// initialization has completed this can never occur; it exists as a guard
/// against a programming error, not as a recoverable runtime condition.
#[derive(Clone, Copy, Debug, PartialEq, Eq, Structural)]
pub enum Fault {
    /// A capability instance was absent from the shared state: the handler
    /// ran although initialization was skipped or incomplete.
    NotInitialized,
}

/// The steady-state coordinator's state, read off the countdown: `Idle`
/// while no countdown is running, `Armed` with its expiry instant while one
/// is. An edge moves the core to `Armed` (restarting the countdown if it was
/// armed already); a delivered expiry returns it to `Idle`.
#[derive(Clone, Copy, Debug, PartialEq, Eq, Structural)]
pub enum Phase {
    /// No countdown is running; the core waits for the next edge.
    Idle,
    /// The phase-delay countdown is running and expires at `deadline`.
    Armed {
        /// The instant, in ticks, at which the countdown expires.
        deadline: u64,
    },
}

/// The shared state: one slot for each capability instance. Constructed
/// empty, populated exactly once, and thereafter always fully populated.
pub struct SharedState {
    /// The zero-cross sensing input, absent until initialization.
    pub zero_cross: Option<EdgeSource>,
    /// The phase-delay countdown timer, absent until initialization.
    pub timer: Option<OneShotTimer>,
}

impl SharedState {
    /// Neither capability is installed yet.
    pub open spec fn vacant(self) -> bool {
        self.zero_cross is None && self.timer is None
    }

    /// Both capability instances are installed: the state a handler is
    /// entitled to assume after initialization.
    pub open spec fn initialized(self) -> bool {
        self.zero_cross is Some && self.timer is Some
    }

    /// Nothing is in flight: initialized, no countdown running, no pending
    /// interrupt condition on either capability.
    pub open spec fn idle(self) -> bool {
        &&& self.initialized()
        &&& !self.zero_cross->Some_0.pending
        &&& !self.timer->Some_0.running
        &&& !self.timer->Some_0.pending
    }

    /// The coordinator state: `Armed` with the countdown's expiry instant
    /// while a countdown is running, `Idle` otherwise (also while the timer
    /// is not yet installed).
    pub open spec fn spec_phase(self) -> Phase {
        if self.timer is Some && self.timer->Some_0.running {
            Phase::Armed { deadline: self.timer->Some_0.deadline }
        } else {
            Phase::Idle
        }
    }

    /// An empty shared state, as it stands before initialization.
    pub fn new() -> (r: SharedState)
        ensures
            r.vacant(),
    {
        SharedState { zero_cross: None, timer: None }
    }

    /// Install the two capability instances, exactly once. A second call —
    /// or a call on a state already partly populated — fails and leaves the
    /// state exactly as it was: no partial population ever leaks out.
    pub fn install(&mut self, zero_cross: EdgeSource, timer: OneShotTimer) -> (r: Result<
        (),
        InitError,
    >)
        ensures
            old(self).vacant() ==> {
                &&& r is Ok
                &&& final(self).zero_cross == Some(zero_cross)
                &&& final(self).timer == Some(timer)
            },
            !old(self).vacant() ==> {
                &&& r == Err::<(), InitError>(InitError::AlreadyInitialized)
                &&& *final(self) == *old(self)
            },
    {
        if self.zero_cross.is_some() || self.timer.is_some() {
            Err(InitError::AlreadyInitialized)
        } else {
            self.zero_cross = Some(zero_cross);
            self.timer = Some(timer);
            Ok(())
        }
    }

    /// Whether both capability instances are installed.
    pub fn is_initialized(&self) -> (r: bool)
        ensures
            r == self.initialized(),
    {
        self.zero_cross.is_some() && self.timer.is_some()
    }

    /// The coordinator state, for asserting on directly.
    pub fn phase(&self) -> (r: Phase)
        ensures
            r == self.spec_phase(),
    {
        match &self.timer {
            Some(t) => if t.is_running() {
                Phase::Armed { deadline: t.deadline }
            } else {
                Phase::Idle
            },
            None => Phase::Idle,
        }
    }

    /// Whether the phase-delay countdown is currently running. `false` also
    /// when the timer is not installed.
    pub fn timer_armed(&self) -> (r: bool)
        ensures
            r == (self.timer is Some && self.timer->Some_0.running),
    {
        match &self.timer {
            Some(t) => t.is_running(),
            None => false,
        }
    }

    /// The expiry instant of the running countdown, or `None` when no
    /// countdown is running (or the timer is not installed).
    pub fn timer_deadline(&self) -> (r: Option<u64>)
        ensures
            (self.timer is Some && self.timer->Some_0.running) ==> r == Some(
                self.timer->Some_0.deadline,
            ),
            !(self.timer is Some && self.timer->Some_0.running) ==> r is None,
    {
        match &self.timer {
            Some(t) => if t.is_running() {
                Some(t.deadline)
            } else {
                None
            },
            None => None,
        }
    }

    /// Whether the timer's pending-interrupt condition is raised. `false`
    /// also when the timer is not installed.
    pub fn timer_pending(&self) -> (r: bool)
        ensures
            r == (self.timer is Some && self.timer->Some_0.pending),
    {
        match &self.timer {
            Some(t) => t.is_pending(),
            None => false,
        }
    }

    /// Whether the edge source's pending-interrupt condition is raised.
    /// `false` also when the source is not installed.
    pub fn edge_pending(&self) -> (r: bool)
        ensures
            r == (self.zero_cross is Some && self.zero_cross->Some_0.pending),
    {
        match &self.zero_cross {
            Some(z) => z.is_pending(),
            None => false,
        }
    }
}

} // verus!
