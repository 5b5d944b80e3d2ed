//! The value shapes exchanged between the host's poll loop and the script
//! coroutine.
//!
//! The host advances work by polling; the script suspends by yielding from a
//! coroutine. Every crossing of that boundary is one of the small shapes
//! below, so the bridging decisions elsewhere in the crate can be stated and
//! proved over them.

use vstd::prelude::*;

verus! {

/// What one host-driven poll of a future reports: still pending, or done
/// with a final value.
#[derive(Debug, Clone, Copy, PartialEq, Eq)]
pub enum HostPoll<T> {
    Pending,
    Ready(T),
}

/// The two-shape value a poll-step callable hands back into the script:
/// "not ready" with no payload, or "ready" carrying the produced values.
///
/// The coroutine protocol itself exchanges only opaque value tuples, so this
/// is the single mechanism used to signal readiness across the language
/// boundary.
#[derive(Debug, Clone, Copy, PartialEq, Eq)]
pub enum StepSignal<V> {
    NotReady,
    Ready(V),
}

/// What the control loop running inside the coroutine does with one step
/// signal: suspend the coroutine (yield, no payload) or finish it with the
/// produced values.
#[derive(Debug, Clone, Copy, PartialEq, Eq)]
pub enum LoopAction<V> {
    Suspend,
    Finish(V),
}

/// The state of a script coroutine as the host observes it after a resume:
/// still resumable (it yielded), finished normally (it returned), or failed
/// (it raised an error).
#[derive(Debug, Clone, Copy, PartialEq, Eq)]
pub enum ThreadState {
    Resumable,
    Unresumable,
    Failed,
}

} // verus!
