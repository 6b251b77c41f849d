//! The worker loop's decisions, as pure functions from mailbox outcome to
//! action. The loop itself — blocking on the mailbox, performing engine
//! work, pumping the microtask queue after every command — is
//! execution-model plumbing outside this crate; every choice it makes is
//! decided here, under contract.

use vstd::prelude::*;
use crate::context::{call_outcome, thrown_text, Invocation};
use crate::error::{render_spec, VmError};
use crate::machine::Command;
use crate::promise::Promise;

verus! {

/// One outcome of blocking on the worker mailbox.
pub enum Event<R> {
    /// A command arrived.
    Received(Command<R>),
    /// Every handle was dropped, so no command can ever arrive again.
    Closed,
}

/// What the worker does with one mailbox outcome before its
/// unconditional microtask pump.
pub enum Action<R> {
    /// Invoke the export and route the result to the call's own sink.
    RunCall(crate::machine::Call),
    /// Look the name up and reply on the lookup's own sink.
    RunFind(crate::machine::Find),
    /// Settle the completed outcome against the correlation table.
    RunDone(Promise<R>),
    /// Nothing beyond the pump; this is how `Tick` makes progress.
    Idle,
}

/// One decision of the command loop: which operation a mailbox outcome
/// asks for. `None` ends the loop — exactly on `Stop` or a closed
/// mailbox; the worker thread then exits. After every `Some` the worker
/// performs the action and then unconditionally pumps the engine's
/// microtask queue, so pending jobs make forward progress even with no
/// call pending.
pub fn step<R>(event: Event<R>) -> (r: Option<Action<R>>)
    ensures
        match event {
            Event::Received(cmd) => match cmd {
                Command::Call(c) => r == Some(Action::<R>::RunCall(c)),
                Command::Find(f) => r == Some(Action::<R>::RunFind(f)),
                Command::Done(p) => r == Some(Action::<R>::RunDone(p)),
                Command::Tick => r == Some(Action::<R>::Idle),
                Command::Stop => r is None,
            },
            Event::Closed => r is None,
        },
{
    match event {
        Event::Received(cmd) => match cmd {
            Command::Call(c) => Some(Action::RunCall(c)),
            Command::Find(f) => Some(Action::RunFind(f)),
            Command::Done(p) => Some(Action::RunDone(p)),
            Command::Tick => Some(Action::Idle),
            Command::Stop => None,
        },
        Event::Closed => None,
    }
}

/// What one call's sink observes, stripped to its content: the converted
/// value, the rendered text of a host error, or nothing yet.
pub enum Reply {
    Value(serde_json::Value),
    Failure(Seq<char>),
    Wait,
}

/// The abstraction of an actual delivery.
pub open spec fn reply_abstraction(r: Option<Result<serde_json::Value, VmError>>) -> Reply {
    match r {
        None => Reply::Wait,
        Some(Ok(v)) => Reply::Value(v),
        Some(Err(e)) => Reply::Failure(render_spec(e)),
    }
}

/// The reply one invocation report must produce, independent of anything
/// else the worker processes.
pub open spec fn expected_reply(outcome: Invocation) -> Reply {
    match outcome {
        Invocation::Gone => Reply::Failure("export gone"@),
        Invocation::Threw(t) => Reply::Failure(thrown_text(t)),
        Invocation::Returned(v) => Reply::Value(v),
        Invocation::Pending => Reply::Wait,
    }
}

/// Any delivery the routing contract admits abstracts to the expected
/// reply of its own invocation report.
pub proof fn lemma_route_exact(outcome: Invocation, r: Option<Result<serde_json::Value, VmError>>)
    requires
        call_outcome(outcome, r),
    ensures
        reply_abstraction(r) == expected_reply(outcome),
{
}

/// The replies of a whole run of calls, each against its own invocation
/// report.
pub open spec fn run_replies(outcomes: Seq<Invocation>) -> Seq<Reply> {
    Seq::new(outcomes.len(), |i: int| expected_reply(outcomes[i]))
}

/// Distinct calls are isolated: each call's delivered reply is a function
/// of that call's own invocation report alone, so the failure of any
/// other call in the run — whatever its position or outcome — never
/// affects delivery of this one's result.
pub proof fn lemma_calls_isolated(outcomes1: Seq<Invocation>, outcomes2: Seq<Invocation>, i: int)
    requires
        0 <= i < outcomes1.len(),
        0 <= i < outcomes2.len(),
        outcomes1[i] == outcomes2[i],
    ensures
        run_replies(outcomes1)[i] == run_replies(outcomes2)[i],
{
}

} // verus!
