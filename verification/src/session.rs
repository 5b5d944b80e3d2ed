//! End-to-end behavior of a bridged invocation, and the laws that hold of it.
//!
//! A bridged invocation composes the three per-step decisions: the poll-step
//! encoding of the producer's poll outcome ([`crate::adapter::encode_step`]),
//! the injected control loop ([`crate::adapter::control_loop_step`]), and the
//! poller's reading of the resume ([`crate::poller::interpret_resume`]).
//! [`forward_poll`] is that composition for a script that forwards one
//! adapted producer's values, one host poll at a time; the sequential session
//! below extends it to a script that awaits two adapted producers in turn.

use vstd::prelude::*;

use crate::adapter::{control_loop_step, control_loop_step_spec, encode_step, encode_step_spec};
use crate::outcome::{HostPoll, LoopAction, ThreadState};
use crate::poller::{interpret_resume, interpret_resume_spec};

verus! {

/// What one host poll of a forwarding bridged call reports, given what the
/// same poll's single resume observed of the producer future, as a
/// mathematical function.
pub open spec fn forward_poll_spec<V, E>(outcome: HostPoll<Result<V, E>>) -> HostPoll<
    Result<V, E>,
> {
    match encode_step_spec(outcome) {
        Err(e) => interpret_resume_spec(Err(e), ThreadState::Failed),
        Ok(signal) => match control_loop_step_spec(signal) {
            LoopAction::Suspend => HostPoll::Pending,
            LoopAction::Finish(v) => interpret_resume_spec(Ok(v), ThreadState::Unresumable),
        },
    }
}

/// One host poll of a bridged call whose script forwards a single adapted
/// producer: the resume runs the control loop, which polls the producer
/// future once (the given outcome) and either yields — observed as a pending
/// future — or ends the coroutine, normally or with the producer's error.
pub fn forward_poll<V, E>(outcome: HostPoll<Result<V, E>>) -> (r: HostPoll<Result<V, E>>)
    ensures
        r == forward_poll_spec(outcome),
{
    match encode_step(outcome) {
        // The poll-step raised the failure as an interpreter-level error: the
        // resume itself reports it, aborting the control loop.
        Err(e) => interpret_resume(Err(e), ThreadState::Failed),
        Ok(signal) => match control_loop_step(signal) {
            // The coroutine yields with no payload; the host sees a pending
            // future and will resume on its next poll.
            LoopAction::Suspend => HostPoll::Pending,
            // The coroutine returns the values; the host sees them as the
            // future's result.
            LoopAction::Finish(v) => interpret_resume(Ok(v), ThreadState::Unresumable),
        },
    }
}

/// Law: a producer that resolves immediately behaves, through the whole
/// bridge, exactly like a synchronous call — the first host poll is ready
/// with the producer's own result.
pub proof fn lemma_immediate_producer_is_synchronous<V, E>(res: Result<V, E>)
    ensures
        forward_poll_spec(HostPoll::Ready(res)) == HostPoll::Ready(res),
{
}

/// Law: a producer failure propagates unchanged as the failure of the outer
/// future, with no partial result: it is never wrapped in a ready signal
/// (the poll-step aborts the control loop instead of yielding it around).
pub proof fn lemma_failure_propagates<V, E>(e: E)
    ensures
        forward_poll_spec(HostPoll::Ready(Err::<V, E>(e))) == HostPoll::Ready(Err::<V, E>(e)),
        encode_step_spec(HostPoll::Ready(Err::<V, E>(e))) == Err::<crate::outcome::StepSignal<V>, E>(e),
{
}

/// Law: a producer that stays pending for its first `n` polls and resolves
/// at poll `n` is observed through the bridge as a future that is pending
/// for exactly those `n` host polls and then ready with the resolved value.
pub proof fn lemma_delayed_producer_propagates<V, E>(
    outcomes: Seq<HostPoll<Result<V, E>>>,
    n: int,
    v: V,
)
    requires
        0 <= n < outcomes.len(),
        forall|i: int| 0 <= i < n ==> outcomes[i] is Pending,
        outcomes[n] == HostPoll::Ready(Ok::<V, E>(v)),
    ensures
        forall|i: int| 0 <= i < n ==> forward_poll_spec(outcomes[i]) is Pending,
        forward_poll_spec(outcomes[n]) == HostPoll::Ready(Ok::<V, E>(v)),
{
}

/// Polls a forwarding bridged call to completion against a recorded trace of
/// producer poll outcomes, one host poll per outcome. The call is observed
/// pending for exactly the leading pending outcomes of the trace; it becomes
/// ready with the payload of the trace's first ready outcome, and never
/// without one.
pub fn drive_forward<V: Copy, E: Copy>(trace: &Vec<HostPoll<Result<V, E>>>) -> (r: (
    usize,
    Option<Result<V, E>>,
))
    ensures
        r.0 <= trace@.len(),
        forall|j: int| 0 <= j < r.0 ==> trace@[j] is Pending,
        r.1 matches Some(res) ==> r.0 < trace@.len() && trace@[r.0 as int] == HostPoll::Ready(res),
        r.1 is None ==> r.0 == trace@.len(),
{
    let mut i: usize = 0;
    while i < trace.len()
        invariant
            i <= trace@.len(),
            forall|j: int| 0 <= j < i ==> trace@[j] is Pending,
        decreases trace@.len() - i,
    {
        match forward_poll(trace[i]) {
            HostPoll::Pending => {
                i = i + 1;
            },
            HostPoll::Ready(res) => {
                return (i, Some(res));
            },
        }
    }
    (i, None)
}

/// Progress of a bridged call whose script awaits two adapted producers in
/// sequence: still inside the first producer's control loop, inside the
/// second one carrying the first's value, or finished.
#[derive(Debug, Clone, Copy, PartialEq, Eq)]
pub enum SeqStage<V> {
    AwaitingFirst,
    AwaitingSecond(V),
    Done,
}

/// What the coroutine does after one poll of the current stage's producer
/// future: yield (the host sees a pending future), continue within the same
/// resume into the next stage, or end with the session's result.
#[derive(Debug, PartialEq, Eq)]
pub enum SeqTurn<V, E> {
    Suspend,
    Advance,
    Complete(Result<(V, V), E>),
}

/// The stage after one poll of the current producer future, as a
/// mathematical function: pending leaves the stage unchanged (the suspension
/// is transparent), the first value is carried into the second stage, the
/// second value — or any failure — ends the session.
pub open spec fn seq_stage_spec<V, E>(
    stage: SeqStage<V>,
    outcome: HostPoll<Result<V, E>>,
) -> SeqStage<V>
    recommends
        !(stage is Done),
{
    match outcome {
        HostPoll::Pending => stage,
        HostPoll::Ready(res) => match res {
            Err(_) => SeqStage::Done,
            Ok(v) => match stage {
                SeqStage::AwaitingFirst => SeqStage::AwaitingSecond(v),
                SeqStage::AwaitingSecond(_) => SeqStage::Done,
                SeqStage::Done => SeqStage::Done,
            },
        },
    }
}

/// What the coroutine does after one poll of the current producer future, as
/// a mathematical function. Completing the first producer does not suspend:
/// the script goes straight on to the second call within the same resume.
pub open spec fn seq_turn_spec<V, E>(
    stage: SeqStage<V>,
    outcome: HostPoll<Result<V, E>>,
) -> SeqTurn<V, E>
    recommends
        !(stage is Done),
{
    match outcome {
        HostPoll::Pending => SeqTurn::Suspend,
        HostPoll::Ready(res) => match res {
            Err(e) => SeqTurn::Complete(Err(e)),
            Ok(v) => match stage {
                SeqStage::AwaitingFirst => SeqTurn::Advance,
                SeqStage::AwaitingSecond(v1) => SeqTurn::Complete(Ok((v1, v))),
                SeqStage::Done => arbitrary(),
            },
        },
    }
}

/// Advance a two-producer session by one poll of the current stage's
/// producer future. A pending poll suspends the coroutine and leaves the
/// stage as it was; the first ready value is carried into the second stage
/// within the same resume; the second ready value completes the session with
/// both values in order; a failure of either producer completes it with that
/// failure alone.
pub fn seq_session_step<V: Copy, E>(
    stage: &mut SeqStage<V>,
    outcome: HostPoll<Result<V, E>>,
) -> (r: SeqTurn<V, E>)
    requires
        !((*old(stage)) is Done),
    ensures
        *final(stage) == seq_stage_spec(*old(stage), outcome),
        r == seq_turn_spec(*old(stage), outcome),
{
    match outcome {
        HostPoll::Pending => SeqTurn::Suspend,
        HostPoll::Ready(res) => match res {
            Err(e) => {
                *stage = SeqStage::Done;
                SeqTurn::Complete(Err(e))
            },
            Ok(v) => match *stage {
                SeqStage::AwaitingFirst => {
                    *stage = SeqStage::AwaitingSecond(v);
                    SeqTurn::Advance
                },
                SeqStage::AwaitingSecond(v1) => {
                    *stage = SeqStage::Done;
                    SeqTurn::Complete(Ok((v1, v)))
                },
                SeqStage::Done => unreached(),
            },
        },
    }
}

/// Law: a script that awaits two adapted producers in sequence suspends
/// transparently while either is pending, carries the first value across the
/// stage change unchanged, and completes with exactly both values, in order,
/// only after both have resolved.
pub proof fn lemma_sequential_composition<V, E>(v1: V, v2: V)
    ensures
        seq_stage_spec::<V, E>(SeqStage::AwaitingFirst, HostPoll::Pending)
            == SeqStage::<V>::AwaitingFirst,
        seq_turn_spec::<V, E>(SeqStage::AwaitingFirst, HostPoll::Pending)
            == SeqTurn::<V, E>::Suspend,
        seq_stage_spec::<V, E>(SeqStage::AwaitingFirst, HostPoll::Ready(Ok(v1)))
            == SeqStage::AwaitingSecond(v1),
        seq_stage_spec::<V, E>(SeqStage::AwaitingSecond(v1), HostPoll::Pending)
            == SeqStage::AwaitingSecond(v1),
        seq_turn_spec::<V, E>(SeqStage::AwaitingSecond(v1), HostPoll::Pending)
            == SeqTurn::<V, E>::Suspend,
        seq_stage_spec::<V, E>(SeqStage::AwaitingSecond(v1), HostPoll::Ready(Ok(v2)))
            == SeqStage::<V>::Done,
        seq_turn_spec::<V, E>(SeqStage::AwaitingSecond(v1), HostPoll::Ready(Ok(v2)))
            == SeqTurn::<V, E>::Complete(Ok((v1, v2))),
{
}

} // verus!

