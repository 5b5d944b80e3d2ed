//! The host-facing side of the bridge over the real embedded interpreter:
//! turning a script callable into a pollable call.
//!
//! [`start_call`] wraps a script callable in a fresh coroutine and returns a
//! [`CallHandle`] pre-loaded with the call arguments; [`poll_call`] advances
//! it by exactly one resume per host poll. The interpreter's own operations
//! — creating a coroutine, resuming it, reading its status — are reached
//! through the trusted wrappers below; everything decided around them is
//! verified.

use vstd::prelude::*;

use crate::outcome::{HostPoll, ThreadState};
use crate::poller::{interpret_resume, next_resume_args, ResumeArgs};

verus! {

#[verifier::external_type_specification]
#[verifier::external_body]
pub struct ExContext<'lua>(rlua::Context<'lua>);

#[verifier::external_type_specification]
#[verifier::external_body]
pub struct ExFunction<'lua>(rlua::Function<'lua>);

#[verifier::external_type_specification]
#[verifier::external_body]
pub struct ExThread<'lua>(rlua::Thread<'lua>);

#[verifier::external_type_specification]
#[verifier::external_body]
pub struct ExMultiValue<'lua>(rlua::MultiValue<'lua>);

#[verifier::external_type_specification]
#[verifier::external_body]
pub struct ExError(rlua::Error);

/// How a bridged call fails.
#[derive(Debug)]
pub enum BridgeError {
    /// The interpreter reported an error: the coroutine could not be created,
    /// or a resume raised one while script code ran — including a producer
    /// failure re-raised by an adapted callable's poll step.
    Script(rlua::Error),
    /// A resume succeeded, yet the interpreter reports the coroutine as
    /// having failed. The interpreter's contract rules this out (a failure
    /// surfaces from the resume itself), so observing it means the
    /// interpreter misbehaved; it is reported rather than trusted.
    StateMismatch,
}

/// Relies on `rlua::Context::create_thread`: wraps a Lua function into a new
/// coroutine, equivalent to `coroutine.create`.
#[verifier::external_body]
fn create_thread<'lua>(ctx: rlua::Context<'lua>, func: &rlua::Function<'lua>) -> (r: Result<
    rlua::Thread<'lua>,
    rlua::Error,
>) {
    ctx.create_thread(func.clone())
}

/// Relies on `rlua::Thread::resume`: continues the coroutine until its next
/// yield or completion, passing `args` to it, and returns the values it
/// yielded or returned — or the error it raised. What comes back depends on
/// the script, so nothing is promised of it.
#[verifier::external_body]
fn resume_values<'lua>(thread: &rlua::Thread<'lua>, args: rlua::MultiValue<'lua>) -> (r: Result<
    rlua::MultiValue<'lua>,
    rlua::Error,
>) {
    thread.resume(args)
}

/// Relies on `rlua::Thread::status`: reads the coroutine's state, one
/// variant mapped to one variant.
#[verifier::external_body]
fn read_thread_state<'lua>(thread: &rlua::Thread<'lua>) -> (r: ThreadState) {
    match thread.status() {
        rlua::ThreadStatus::Resumable => ThreadState::Resumable,
        rlua::ThreadStatus::Unresumable => ThreadState::Unresumable,
        rlua::ThreadStatus::Error => ThreadState::Failed,
    }
}

/// Relies on `rlua::MultiValue::new`: the empty value tuple, carried by every
/// resume after the first.
#[verifier::external_body]
fn empty_values<'lua>() -> (r: rlua::MultiValue<'lua>) {
    rlua::MultiValue::new()
}

/// Relies on the derived `Clone` for `rlua::Error`, a field-for-field copy
/// (shared causes stay shared), so the clone equals the original.
#[verifier::external_body]
fn clone_script_error(e: &rlua::Error) -> (r: rlua::Error)
    ensures
        r == *e,
{
    e.clone()
}

/// One script coroutine being driven to completion by host polls: the
/// coroutine handle and the argument slot for its first resume.
pub struct ThreadPoller<'lua> {
    /// The coroutine under the call.
    pub thread: rlua::Thread<'lua>,
    /// The call arguments, delivered on the first resume only: vacant from
    /// then on, as later resumes are driven by yields with no payload.
    pub pending_args: Option<rlua::MultiValue<'lua>>,
}

impl<'lua> ThreadPoller<'lua> {
    /// A poller for a fresh coroutine, with the call arguments waiting for
    /// its first resume.
    pub fn new(thread: rlua::Thread<'lua>, args: rlua::MultiValue<'lua>) -> (r: Self)
        ensures
            r.thread == thread,
            r.pending_args == Some(args),
    {
        ThreadPoller { thread, pending_args: Some(args) }
    }

    /// One host poll: exactly one resume of the coroutine — with the call
    /// arguments the first time, with no payload afterwards — whose outcome
    /// is read back as future readiness. After any poll the argument slot is
    /// vacant and the coroutine is still the same one.
    pub fn poll_once(&mut self) -> (r: HostPoll<Result<rlua::MultiValue<'lua>, BridgeError>>)
        ensures
            final(self).thread == old(self).thread,
            final(self).pending_args is None,
    {
        let payload = match next_resume_args(&mut self.pending_args) {
            ResumeArgs::Initial(args) => args,
            ResumeArgs::Empty => empty_values(),
        };
        let resumed = resume_values(&self.thread, payload);
        let state = read_thread_state(&self.thread);
        let checked: Result<rlua::MultiValue<'lua>, BridgeError> = match resumed {
            Ok(values) => match state {
                ThreadState::Failed => Err(BridgeError::StateMismatch),
                _ => Ok(values),
            },
            Err(e) => Err(BridgeError::Script(e)),
        };
        interpret_resume(checked, state)
    }
}

/// A host-pollable handle to one script invocation: either the call's
/// coroutine under a poller, or — when the coroutine could not even be
/// created — an already-failed call that reports its error on every poll.
pub enum CallHandle<'lua> {
    Failed(rlua::Error),
    Running(ThreadPoller<'lua>),
}

/// The handle that a coroutine-creation outcome gives rise to: a created
/// coroutine is put under a poller pre-loaded with the call arguments, a
/// creation failure is an already-failed call carrying exactly that error.
pub fn handle_for<'lua>(
    created: Result<rlua::Thread<'lua>, rlua::Error>,
    args: rlua::MultiValue<'lua>,
) -> (r: CallHandle<'lua>)
    ensures
        created matches Ok(t) ==> r == CallHandle::Running(
            ThreadPoller { thread: t, pending_args: Some(args) },
        ),
        created matches Err(e) ==> r == CallHandle::<'lua>::Failed(e),
{
    match created {
        Err(e) => CallHandle::Failed(e),
        Ok(thread) => CallHandle::Running(ThreadPoller::new(thread, args)),
    }
}

/// Invoke a script callable as a pollable call: wrap it in a fresh coroutine
/// and pre-load the call arguments as the first-resume payload. When the
/// interpreter cannot create the coroutine, no coroutine exists and the
/// handle is already failed; no resume has happened either way.
pub fn start_call<'lua>(
    ctx: rlua::Context<'lua>,
    func: &rlua::Function<'lua>,
    args: rlua::MultiValue<'lua>,
) -> (r: CallHandle<'lua>)
    ensures
        r matches CallHandle::Running(p) ==> p.pending_args == Some(args),
{
    handle_for(create_thread(ctx, func), args)
}

/// One host poll of a bridged call. An already-failed handle is ready with
/// its creation error, unchanged, on this and every later poll. A running
/// handle performs exactly one resume; it keeps its coroutine, and its
/// argument slot is vacant afterwards.
pub fn poll_call<'lua>(handle: &mut CallHandle<'lua>) -> (r: HostPoll<
    Result<rlua::MultiValue<'lua>, BridgeError>,
>)
    ensures
        (*old(handle)) matches CallHandle::Failed(e) ==> *final(handle) == *old(handle) && r
            == HostPoll::Ready(Err::<rlua::MultiValue<'lua>, BridgeError>(BridgeError::Script(e))),
        (*old(handle)) matches CallHandle::Running(p) ==> (*final(handle)) matches CallHandle::Running(q)
            && q.thread == p.thread && q.pending_args is None,
{
    match handle {
        CallHandle::Failed(e) => HostPoll::Ready(Err(BridgeError::Script(clone_script_error(e)))),
        CallHandle::Running(poller) => poller.poll_once(),
    }
}

} // verus!
