//! End-to-end tests over a real embedded interpreter: host producers adapted
//! into script callables, script functions driven as pollable calls.

use std::future::Future;
use std::pin::Pin;
use std::task::{Context as TaskContext, Poll};
use std::time::Duration;

use futures::task::noop_waker;
use rlua::{FromLuaMulti, Function, Lua, MultiValue, ToLuaMulti, Value};

use rlua_async::adapter::{control_loop_chunk, encode_step};
use rlua_async::bridge::{poll_call, start_call, BridgeError, CallHandle};
use rlua_async::outcome::{HostPoll, StepSignal};

/// Builds a script-visible callable around a host producer, the adapter's two
/// stages by hand: the start stage pins one fresh future per call, the
/// poll-step stage polls it once per call and signals the outcome into the
/// script. The poll step polls with a no-op waker, since [`drive`] re-polls
/// on its own instead of waiting to be woken.
fn adapt<'lua, F, Fut>(ctx: rlua::Context<'lua>, producer: F) -> Function<'lua>
where
    F: 'static + Send + Fn(usize) -> Fut,
    Fut: 'static + Send + Future<Output = rlua::Result<usize>>,
{
    let start = ctx
        .create_function(move |ctx, a: usize| {
            let mut fut = Box::pin(producer(a));
            ctx.create_function_mut(move |ctx, _: MultiValue| {
                let waker = noop_waker();
                let mut task_ctx = TaskContext::from_waker(&waker);
                let outcome = match fut.as_mut().poll(&mut task_ctx) {
                    Poll::Pending => HostPoll::Pending,
                    Poll::Ready(res) => HostPoll::Ready(res),
                };
                match encode_step(outcome)? {
                    StepSignal::NotReady => ToLuaMulti::to_lua_multi((Value::Nil, false), ctx),
                    StepSignal::Ready(v) => {
                        let values = ToLuaMulti::to_lua_multi(v, ctx)?.into_vec();
                        ToLuaMulti::to_lua_multi((values, true), ctx)
                    }
                }
            })
        })
        .expect("failed to create the start stage");
    ctx.load(control_loop_chunk())
        .eval::<Function>()
        .expect("failed to eval the control loop")
        .call::<_, Function>(start)
        .expect("failed to apply the control loop")
}

/// Polls a bridged call to completion, counting how often it was pending.
fn drive(mut handle: CallHandle) -> (Result<MultiValue, BridgeError>, usize) {
    let mut pendings: usize = 0;
    loop {
        match poll_call(&mut handle) {
            HostPoll::Pending => pendings += 1,
            HostPoll::Ready(res) => return (res, pendings),
        }
    }
}

#[test]
fn it_works() {
    let lua = Lua::new();

    lua.context(|lua_ctx| {
        let globals = lua_ctx.globals();

        let f = adapt(lua_ctx, |a| futures::future::ok(a + 1));
        globals.set("f", f).unwrap();

        let script = lua_ctx
            .load(r#"function(a) return f(a) - 1 end"#)
            .eval::<Function>()
            .unwrap();
        let args = ToLuaMulti::to_lua_multi(2usize, lua_ctx).unwrap();
        let (res, _) = drive(start_call(lua_ctx, &script, args));
        let out: usize =
            FromLuaMulti::from_lua_multi(res.expect("call failed"), lua_ctx).unwrap();
        assert_eq!(out, 2);
    });
}

#[test]
fn actually_doing_things() {
    let lua = Lua::new();

    lua.context(|lua_ctx| {
        let globals = lua_ctx.globals();

        let f = adapt(lua_ctx, |a| async move {
            futures_timer::Delay::new(Duration::from_millis(50)).await;
            Ok(a + 1)
        });
        globals.set("f", f).unwrap();

        let script = lua_ctx
            .load(r#"function(a) return f(a) - 1 end"#)
            .set_name(b"example")
            .expect("failed to set name")
            .eval::<Function>()
            .expect("failed to eval");
        let args = ToLuaMulti::to_lua_multi(2usize, lua_ctx).unwrap();
        let (res, pendings) = drive(start_call(lua_ctx, &script, args));
        let out: usize =
            FromLuaMulti::from_lua_multi(res.expect("failed to call"), lua_ctx).unwrap();
        assert_eq!(out, 2);
        assert!(pendings >= 1, "a delayed producer must be observed pending");
    });
}

#[test]
fn sequential_adapted_calls_complete_with_both_values() {
    let lua = Lua::new();

    lua.context(|lua_ctx| {
        let globals = lua_ctx.globals();

        let g = adapt(lua_ctx, |a| async move {
            futures_timer::Delay::new(Duration::from_millis(10)).await;
            Ok(a + 1)
        });
        globals.set("g", g).unwrap();
        let h = adapt(lua_ctx, |a| async move {
            futures_timer::Delay::new(Duration::from_millis(10)).await;
            Ok(a * 2)
        });
        globals.set("h", h).unwrap();

        let script = lua_ctx
            .load(r#"function(a) return g(a) + h(a) end"#)
            .eval::<Function>()
            .unwrap();
        let args = ToLuaMulti::to_lua_multi(2usize, lua_ctx).unwrap();
        let (res, pendings) = drive(start_call(lua_ctx, &script, args));
        let out: usize =
            FromLuaMulti::from_lua_multi(res.expect("call failed"), lua_ctx).unwrap();
        assert_eq!(out, 7);
        assert!(pendings >= 2, "the call must suspend across both producers");
    });
}

#[test]
fn producer_failure_fails_the_outer_call() {
    let lua = Lua::new();

    lua.context(|lua_ctx| {
        let globals = lua_ctx.globals();

        let f = adapt(lua_ctx, |_| {
            futures::future::err::<usize, _>(rlua::Error::RuntimeError(
                "producer failed".to_string(),
            ))
        });
        globals.set("f", f).unwrap();

        let script = lua_ctx
            .load(r#"function(a) return f(a) end"#)
            .eval::<Function>()
            .unwrap();
        let args = ToLuaMulti::to_lua_multi(2usize, lua_ctx).unwrap();
        let (res, _) = drive(start_call(lua_ctx, &script, args));
        assert!(matches!(res, Err(BridgeError::Script(_))));
    });
}

#[test]
fn dropping_a_pending_call_reclaims_cleanly() {
    let lua = Lua::new();

    lua.context(|lua_ctx| {
        let globals = lua_ctx.globals();

        let f = adapt(lua_ctx, |_| futures::future::pending::<rlua::Result<usize>>());
        globals.set("f", f).unwrap();

        let script = lua_ctx
            .load(r#"function(a) return f(a) end"#)
            .eval::<Function>()
            .unwrap();
        let args = ToLuaMulti::to_lua_multi(1usize, lua_ctx).unwrap();
        let mut handle = start_call(lua_ctx, &script, args);
        for _ in 0..3 {
            assert!(matches!(poll_call(&mut handle), HostPoll::Pending));
        }
        drop(handle);

        // the interpreter stays usable: a later bridged call still completes
        let g = adapt(lua_ctx, |a| futures::future::ok(a + 1));
        globals.set("g", g).unwrap();
        let script = lua_ctx
            .load(r#"function(a) return g(a) end"#)
            .eval::<Function>()
            .unwrap();
        let args = ToLuaMulti::to_lua_multi(1usize, lua_ctx).unwrap();
        let (res, _) = drive(start_call(lua_ctx, &script, args));
        let out: usize =
            FromLuaMulti::from_lua_multi(res.expect("call failed"), lua_ctx).unwrap();
        assert_eq!(out, 2);
    });
}

#[test]
fn plain_script_function_completes_on_the_first_poll() {
    let lua = Lua::new();

    lua.context(|lua_ctx| {
        let script = lua_ctx
            .load(r#"function(a) return a + 40 end"#)
            .eval::<Function>()
            .unwrap();
        let args = ToLuaMulti::to_lua_multi(2usize, lua_ctx).unwrap();
        let (res, pendings) = drive(start_call(lua_ctx, &script, args));
        let out: usize =
            FromLuaMulti::from_lua_multi(res.expect("call failed"), lua_ctx).unwrap();
        assert_eq!(out, 42);
        assert_eq!(pendings, 0);
    });
}

#[test]
fn creation_failure_is_an_already_failed_call() {
    let lua = Lua::new();

    lua.context(|lua_ctx| {
        // polling a failed handle reports the same error on every poll
        let handle = CallHandle::Failed(rlua::Error::RuntimeError("no coroutine".to_string()));
        let mut handle = handle;
        for _ in 0..2 {
            match poll_call(&mut handle) {
                HostPoll::Ready(Err(BridgeError::Script(rlua::Error::RuntimeError(m)))) => {
                    assert_eq!(m, "no coroutine");
                }
                _ => panic!("a failed handle must report its creation error"),
            }
        }
        let _ = lua_ctx;
    });
}
