//! Core of a zero-crossing phase-control firmware: an interrupt-driven
//! state machine that, on each falling edge of the zero-cross sense line,
//! arms a one-shot countdown of the configured phase delay, and at countdown
//! expiry commands the output action that fires the switching element.
//!
//! The hardware itself (pins, timers, interrupt controllers) lives outside
//! this crate; here each capability is modelled by the plain values its
//! handler logic reads and writes, so the detection/timing/firing behaviour
//! and the shared-state discipline of the two handlers can be verified.

pub mod device;
pub mod handlers;
pub mod state;
pub mod timeline;

use vstd::prelude::*;

verus! {

/// The configured phase delay, in milliseconds: how long after a detected
/// zero-crossing the output action fires.
pub const PHASE_DELAY_MS: u64 = 500;

} // verus!
