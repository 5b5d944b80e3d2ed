//! The async producer adapter: the decisions made by the poll-step callable
//! and by the control loop that the adapter injects into the script.
//!
//! An adapted producer is exposed to the script in two stages. The start
//! stage invokes the producer and hands the resulting pinned future to a
//! fresh poll-step callable. The poll-step stage polls that future exactly
//! once per call and reports the outcome into the script as a [`StepSignal`];
//! a producer failure instead propagates as an interpreter-level error, so it
//! aborts the surrounding control loop rather than being yielded around.
//! [`encode_step`] is that decision.
//!
//! The injected control loop converts repeated host polling into coroutine
//! yield points: it calls the poll-step callable, returns its values when
//! ready, and otherwise yields with no payload and loops again on
//! resumption. [`control_loop_step`] is one iteration's decision, and
//! [`control_loop_chunk`] is the exact script text installed once and shared
//! by all adapted producers.

use vstd::prelude::*;

use crate::outcome::{HostPoll, LoopAction, StepSignal};

verus! {

/// What the poll-step callable returns into the script for one poll of the
/// wrapped producer future, as a mathematical function: pending polls become
/// the "not ready" signal, success becomes the "ready" signal with the
/// values, and failure becomes an interpreter-level error.
pub open spec fn encode_step_spec<V, E>(outcome: HostPoll<Result<V, E>>) -> Result<StepSignal<V>, E> {
    match outcome {
        HostPoll::Pending => Ok(StepSignal::NotReady),
        HostPoll::Ready(res) => match res {
            Ok(v) => Ok(StepSignal::Ready(v)),
            Err(e) => Err(e),
        },
    }
}

/// Poll-step stage of the adapter: turn one poll of the owned producer
/// future into either a signal for the control loop or an error that aborts
/// the surrounding coroutine. No failure is ever carried inside the ready
/// signal, and no value is ever dropped.
pub fn encode_step<V, E>(outcome: HostPoll<Result<V, E>>) -> (r: Result<StepSignal<V>, E>)
    ensures
        r == encode_step_spec(outcome),
{
    match outcome {
        HostPoll::Pending => Ok(StepSignal::NotReady),
        HostPoll::Ready(res) => match res {
            Ok(v) => Ok(StepSignal::Ready(v)),
            Err(e) => Err(e),
        },
    }
}

/// One iteration of the injected control loop, as a mathematical function:
/// a "not ready" signal suspends the coroutine, a "ready" signal finishes it
/// with exactly the carried values.
pub open spec fn control_loop_step_spec<V>(signal: StepSignal<V>) -> LoopAction<V> {
    match signal {
        StepSignal::NotReady => LoopAction::Suspend,
        StepSignal::Ready(v) => LoopAction::Finish(v),
    }
}

/// One iteration of the injected control loop: decide from the poll-step
/// signal whether the coroutine yields (no payload) or returns the produced
/// values.
pub fn control_loop_step<V>(signal: StepSignal<V>) -> (r: LoopAction<V>)
    ensures
        r == control_loop_step_spec(signal),
{
    match signal {
        StepSignal::NotReady => LoopAction::Suspend,
        StepSignal::Ready(v) => LoopAction::Finish(v),
    }
}

/// The exact text of the script snippet that realizes the control loop
/// inside the embedded interpreter.
pub open spec fn control_loop_chunk_text() -> Seq<char> {
    "
        function(f)
            return function(...)
                local poll = f(...)
                while true do
                    local t, ready = poll()
                    if ready then
                        return table.unpack(t)
                    else
                        coroutine.yield()
                    end
                end
            end
        end
    "@
}

/// The script snippet installed once by the adapter and shared by all
/// adapted producers: applied to a start-stage callable, it builds the
/// script-visible callable that loops over the poll-step callable, yielding
/// while not ready and returning the unpacked values once ready. This is the
/// sole piece of injected script logic.
pub fn control_loop_chunk() -> (r: &'static str)
    ensures
        r@ == control_loop_chunk_text(),
{
    "
        function(f)
            return function(...)
                local poll = f(...)
                while true do
                    local t, ready = poll()
                    if ready then
                        return table.unpack(t)
                    else
                        coroutine.yield()
                    end
                end
            end
        end
    "
}

} // verus!
