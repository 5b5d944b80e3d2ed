//! The script thread poller's per-poll decisions.
//!
//! A poller owns one coroutine and performs exactly one resume per host poll.
//! Two decisions are made around that resume: which payload the resume
//! carries ([`next_resume_args`] — the call arguments on the first resume
//! only, nothing afterwards), and how the resume's outcome reads as future
//! readiness ([`interpret_resume`]).

use vstd::prelude::*;

use crate::outcome::{HostPoll, ThreadState};

verus! {

/// The payload one resume carries into the coroutine: the initial call
/// arguments, or nothing.
#[derive(Debug, Clone, Copy, PartialEq, Eq)]
pub enum ResumeArgs<A> {
    Initial(A),
    Empty,
}

/// Drain the pending-argument slot: the first resume carries the call
/// arguments, every later resume (driven by yields with no payload) carries
/// an empty argument set. The slot is empty afterwards in either case.
pub fn next_resume_args<A>(slot: &mut Option<A>) -> (r: ResumeArgs<A>)
    ensures
        (*final(slot)) is None,
        (*old(slot)) matches Some(a) ==> r == ResumeArgs::Initial(a),
        (*old(slot)) is None ==> r == ResumeArgs::<A>::Empty,
{
    match slot.take() {
        Some(a) => ResumeArgs::Initial(a),
        None => ResumeArgs::Empty,
    }
}

/// How one resume's outcome reads as future readiness, as a mathematical
/// function: a resume failure is final and surfaces unchanged; a successful
/// resume of a coroutine that can still be resumed means it yielded, so the
/// future is pending; a successful resume of a finished coroutine makes the
/// future ready with the coroutine's returned values. A successful resume of
/// a failed coroutine does not occur (failures surface from the resume
/// itself), so that corner is left unconstrained.
pub open spec fn interpret_resume_spec<V, E>(resumed: Result<V, E>, state: ThreadState) -> HostPoll<
    Result<V, E>,
> {
    match resumed {
        Err(e) => HostPoll::Ready(Err(e)),
        Ok(v) => match state {
            ThreadState::Resumable => HostPoll::Pending,
            ThreadState::Unresumable => HostPoll::Ready(Ok(v)),
            ThreadState::Failed => arbitrary(),
        },
    }
}

/// Reinterpret one resume's outcome as future readiness. At most one resume
/// happens per poll, and a poll that observes "pending" never re-polls
/// itself: the decision is made from this one outcome alone.
pub fn interpret_resume<V, E>(resumed: Result<V, E>, state: ThreadState) -> (r: HostPoll<
    Result<V, E>,
>)
    requires
        resumed is Ok ==> !(state is Failed),
    ensures
        r == interpret_resume_spec(resumed, state),
{
    match resumed {
        Err(e) => HostPoll::Ready(Err(e)),
        Ok(v) => match state {
            ThreadState::Resumable => HostPoll::Pending,
            ThreadState::Unresumable => HostPoll::Ready(Ok(v)),
            ThreadState::Failed => unreached(),
        },
    }
}

} // verus!
