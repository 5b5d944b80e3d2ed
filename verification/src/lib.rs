//! Bridge between a poll-driven host scheduler and the cooperative
//! coroutines of an embedded Lua interpreter.
//!
//! The host executes work by repeatedly polling a future; the embedded
//! scripting runtime suspends only through coroutine yield and resume. This
//! crate bridges the two in both directions: a host-side asynchronous
//! producer becomes an ordinary-looking script callable whose call suspends
//! the calling coroutine ([`adapter`]), and a script callable becomes a
//! host-side pollable call whose inner suspensions propagate to the host's
//! poll loop ([`bridge`]).
//!
//! The per-step decisions of the bridge — how a poll outcome is signalled
//! into the script ([`adapter`]), what payload a resume carries and how its
//! outcome reads as future readiness ([`poller`]), and how the polling
//! context reaches code inside a resume ([`relay`]) — are stated and proved
//! here over the value shapes of [`outcome`]; [`session`] composes them and
//! proves the end-to-end laws of a bridged call.

pub mod adapter;
pub mod bridge;
pub mod outcome;
pub mod poller;
pub mod relay;
pub mod session;
