use scriptvm::channel::oneshot;
use scriptvm::context::{failure, translate, Context, Export, Invocation, Lookup, Settled, Thrown};
use scriptvm::error::VmError;
use scriptvm::machine::{mailbox, Args, Call, Command, Function, Machine};
use scriptvm::promise::{Promise, Settlement};
use scriptvm::worker::{step, Action, Event};

fn json(n: u64) -> serde_json::Value {
    serde_json::Value::from(n)
}

#[test]
fn reverse_resolution_each_caller_once() {
    let (handle, receiver) = mailbox::<serde_json::Value>();
    let mut ctx: Context<serde_json::Value, u32> = Context::new(handle);

    let r0 = ctx.insert(10);
    let r1 = ctx.insert(11);
    let r2 = ctx.insert(12);

    // Complete in reverse order, from this (non-worker) side.
    assert!(matches!(r2.resolve(json(2)), Ok(())));
    assert!(matches!(r1.resolve(json(1)), Ok(())));
    assert!(matches!(r0.resolve(json(0)), Ok(())));

    // The worker drains three Done commands; each settles its own entry.
    for (expect_id, expect_controller) in [(2u64, 12u32), (1, 11), (0, 10)] {
        let cmd = receiver.recv().unwrap();
        match cmd {
            Command::Done(p) => {
                match ctx.done(p) {
                    Some((controller, Settlement::Fulfill(v))) => {
                        assert_eq!(controller, expect_controller);
                        assert_eq!(v, json(expect_id));
                    },
                    _ => panic!("wrong settlement"),
                }
            },
            _ => panic!("expected a Done command"),
        }
    }

    // A second settlement of an already-consumed id finds nothing.
    assert!(ctx.done(Promise::Success(2, json(9))).is_none());
}

#[test]
fn resolver_after_shutdown_yields_channel_closed() {
    let (handle, receiver) = mailbox::<serde_json::Value>();
    let mut ctx: Context<serde_json::Value, u32> = Context::new(handle);
    let resolver = ctx.insert(7);
    drop(receiver);
    match resolver.resolve(json(1)) {
        Err(VmError::ChannelClosed) => (),
        _ => panic!("expected ChannelClosed"),
    }
}

#[test]
fn rejection_settles_as_reject() {
    let (handle, receiver) = mailbox::<serde_json::Value>();
    let mut ctx: Context<serde_json::Value, u32> = Context::new(handle);
    let resolver = ctx.insert(5);
    assert!(matches!(resolver.reject(json(3)), Ok(())));
    match receiver.recv().unwrap() {
        Command::Done(p) => match ctx.done(p) {
            Some((5, Settlement::Reject(v))) => assert_eq!(v, json(3)),
            _ => panic!("wrong settlement"),
        },
        _ => panic!("expected a Done command"),
    }
}

#[test]
fn call_after_stop_is_machine_terminated() {
    let (handle, receiver) = mailbox::<serde_json::Value>();
    let function = Function { export: Export::new(0), handle: handle.clone() };
    drop(receiver);
    match function.call(json(41)) {
        Err(VmError::MachineTerminated) => (),
        _ => panic!("expected MachineTerminated"),
    }
    match handle.find("default") {
        Err(VmError::MachineTerminated) => (),
        _ => panic!("expected MachineTerminated"),
    }
    match handle.tick() {
        Err(VmError::MachineTerminated) => (),
        _ => panic!("expected MachineTerminated"),
    }
    assert_eq!(
        VmError::MachineTerminated.render(),
        "machine terminated"
    );
}

#[test]
fn find_absent_and_noncallable_fail_identically() {
    let (handle, _receiver) = mailbox::<serde_json::Value>();
    let ctx: Context<serde_json::Value, u32> = Context::new(handle);
    let absent = ctx.find("nope", Lookup::Absent);
    let noncallable = ctx.find("nope", Lookup::NotCallable);
    let a = match absent {
        Err(e) => e.render(),
        Ok(_) => panic!("expected failure"),
    };
    let b = match noncallable {
        Err(e) => e.render(),
        Ok(_) => panic!("expected failure"),
    };
    assert_eq!(a, b);
    assert_eq!(a, "nope is not a function");
}

#[test]
fn find_callable_yields_the_slot() {
    let (handle, _receiver) = mailbox::<serde_json::Value>();
    let ctx: Context<serde_json::Value, u32> = Context::new(handle);
    match ctx.find("default", Lookup::Callable(17)) {
        Ok(export) => assert_eq!(export.slot, 17),
        Err(_) => panic!("expected a handle"),
    }
}

#[test]
fn synchronous_throw_boom_reaches_the_caller() {
    let (handle, _receiver) = mailbox::<serde_json::Value>();
    let ctx: Context<serde_json::Value, u32> = Context::new(handle);
    let thrown = Thrown {
        rendered: Some("Error: boom".to_owned()),
        json: "{}".to_owned(),
    };
    let (tx, rx) = oneshot();
    assert!(ctx.call(tx, Invocation::Threw(thrown)).is_none());
    match rx.recv() {
        Err(VmError::Script(m)) => {
            assert_eq!(m, "Error: boom");
            assert!(m.contains("boom"));
        },
        _ => panic!("expected a script error"),
    }
}

#[test]
fn translate_prefers_the_errors_own_rendering() {
    let e = translate(Thrown {
        rendered: Some("Error: first".to_owned()),
        json: "\"raw\"".to_owned(),
    });
    match e {
        VmError::Script(m) => assert_eq!(m, "Error: first"),
        _ => panic!("expected a script error"),
    }
    let e = translate(Thrown { rendered: None, json: "\"raw\"".to_owned() });
    match e {
        VmError::Script(m) => assert_eq!(m, "\"raw\""),
        _ => panic!("expected a script error"),
    }
}

#[test]
fn promise_valued_call_delivers_on_settlement() {
    // A call that returns a promise delivers nothing at first; the sink
    // passes to the continuation, which fires when the promise settles.
    let (handle, _receiver) = mailbox::<serde_json::Value>();
    let ctx: Context<serde_json::Value, u32> = Context::new(handle);
    let (tx, rx) = oneshot();
    let kept = match ctx.call(tx, Invocation::Pending) {
        Some(tx) => tx,
        None => panic!("a pending promise keeps the sink"),
    };
    // `export default function(x){ return Promise.resolve(x+1); }` with 41
    // settles with 42.
    ctx.settle_call(kept, Settled::Fulfilled(json(42)));
    assert_eq!(rx.recv().unwrap(), json(42));
}

#[test]
fn rejected_promise_delivers_translated_error() {
    let (handle, _receiver) = mailbox::<serde_json::Value>();
    let ctx: Context<serde_json::Value, u32> = Context::new(handle);
    let (tx, rx) = oneshot();
    let kept = ctx.call(tx, Invocation::Pending).unwrap();
    ctx.settle_call(kept, Settled::Rejected(Thrown {
        rendered: Some("Error: later".to_owned()),
        json: "{}".to_owned(),
    }));
    match rx.recv() {
        Err(VmError::Script(m)) => assert_eq!(m, "Error: later"),
        _ => panic!("expected a script error"),
    }
}

#[test]
fn immediate_value_is_delivered_at_once() {
    let (handle, _receiver) = mailbox::<serde_json::Value>();
    let ctx: Context<serde_json::Value, u32> = Context::new(handle);
    let (tx, rx) = oneshot();
    assert!(ctx.call(tx, Invocation::Returned(json(7))).is_none());
    assert_eq!(rx.recv().unwrap(), json(7));
}

#[test]
fn expired_export_surfaces_export_gone() {
    let (handle, _receiver) = mailbox::<serde_json::Value>();
    let ctx: Context<serde_json::Value, u32> = Context::new(handle);
    let (tx, rx) = oneshot();
    assert!(ctx.call(tx, Invocation::Gone).is_none());
    match rx.recv() {
        Err(VmError::ExportGone) => (),
        _ => panic!("expected ExportGone"),
    }
    assert_eq!(VmError::ExportGone.render(), "export gone");
}

#[test]
fn abandoned_sink_is_a_silent_no_op() {
    let (tx, rx) = oneshot();
    drop(rx);
    tx.send(Ok(json(1)));
}

#[test]
fn dropped_sender_reports_channel_closed() {
    let (tx, rx) = oneshot();
    drop(tx);
    match rx.recv() {
        Err(VmError::ChannelClosed) => (),
        _ => panic!("expected ChannelClosed"),
    }
    assert_eq!(VmError::ChannelClosed.render(), "channel closed");
}

#[test]
fn two_calls_are_isolated() {
    // One call fails while another succeeds; each sink observes only its
    // own call's outcome.
    let (handle, _receiver) = mailbox::<serde_json::Value>();
    let ctx: Context<serde_json::Value, u32> = Context::new(handle);
    let (tx_a, rx_a) = oneshot();
    let (tx_b, rx_b) = oneshot();
    assert!(ctx.call(tx_a, Invocation::Threw(Thrown {
        rendered: Some("Error: boom".to_owned()),
        json: "{}".to_owned(),
    })).is_none());
    assert!(ctx.call(tx_b, Invocation::Returned(json(5))).is_none());
    assert!(rx_a.recv().is_err());
    assert_eq!(rx_b.recv().unwrap(), json(5));
}

#[test]
fn worker_step_dispatches_and_stops() {
    let (_handle, _receiver) = mailbox::<serde_json::Value>();
    match step::<serde_json::Value>(Event::Received(Command::Tick)) {
        Some(Action::Idle) => (),
        _ => panic!("Tick is inert"),
    }
    assert!(step::<serde_json::Value>(Event::Received(Command::Stop)).is_none());
    assert!(step::<serde_json::Value>(Event::Closed).is_none());
    match step::<serde_json::Value>(Event::Received(Command::Done(Promise::Success(4, json(1))))) {
        Some(Action::RunDone(Promise::Success(4, v))) => assert_eq!(v, json(1)),
        _ => panic!("Done dispatches"),
    }
    let (tx, _rx) = oneshot();
    let call = Call { export: Export::new(3), args: vec![json(1)], sender: tx };
    match step::<serde_json::Value>(Event::Received(Command::Call(call))) {
        Some(Action::RunCall(c)) => assert_eq!(c.export.slot, 3),
        _ => panic!("Call dispatches"),
    }
}

#[test]
fn machine_collects_capabilities_in_order() {
    let mut machine: Machine<u8> = Machine::new("export default function(){}".to_owned());
    assert_eq!(machine.module, "export default function(){}");
    machine.extend(1);
    machine.extend(2);
    machine.extend(3);
    assert_eq!(machine.extra, vec![1, 2, 3]);
}

#[test]
fn args_conversions() {
    assert!(().args().is_empty());
    assert_eq!(json(1).args(), vec![json(1)]);
    assert_eq!(vec![json(1), json(2)].args(), vec![json(1), json(2)]);
}

#[test]
fn startup_failure_fallback_chain() {
    let e = failure(None, Some("SyntaxError: Unexpected end of input".to_owned()));
    match e {
        VmError::Startup(m) => assert_eq!(m, "SyntaxError: Unexpected end of input"),
        _ => panic!("expected a startup failure"),
    }
    let e = failure(None, None);
    match e {
        VmError::Startup(m) => assert_eq!(m, "no exception or message"),
        _ => panic!("expected a startup failure"),
    }
}

#[test]
fn ids_are_never_reused() {
    let (handle, receiver) = mailbox::<serde_json::Value>();
    let mut ctx: Context<serde_json::Value, u32> = Context::new(handle);
    let r0 = ctx.insert(1);
    assert!(matches!(r0.resolve(json(0)), Ok(())));
    match receiver.recv().unwrap() {
        Command::Done(p) => {
            assert!(ctx.done(p).is_some());
        },
        _ => panic!("expected a Done command"),
    }
    // The table is empty again, yet the next id moves on.
    let r1 = ctx.insert(2);
    assert!(matches!(r1.resolve(json(1)), Ok(())));
    match receiver.recv().unwrap() {
        Command::Done(p) => match ctx.done(p) {
            Some((2, Settlement::Fulfill(v))) => assert_eq!(v, json(1)),
            _ => panic!("wrong settlement"),
        },
        _ => panic!("expected a Done command"),
    }
    assert!(!ctx.exhausted());
}
