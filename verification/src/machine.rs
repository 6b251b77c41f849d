//! The machine's host-facing surface: the pending configuration, the
//! cloneable mailbox handle, the callable function handle, and the command
//! protocol the worker consumes.
//!
//! `Machine` collects the module source and the capabilities to install;
//! spawning the worker thread and joining it on shutdown is execution-model
//! plumbing that lives outside this crate, driven through these types.

use vstd::prelude::*;
use crate::channel::{oneshot, Rx, Tx};
use crate::context::Export;
use crate::error::VmError;
use crate::promise::Promise;

verus! {

/// One script invocation: the export to call, the converted arguments, and
/// the one-shot sink its eventual result must reach.
pub struct Call {
    pub export: Export,
    pub args: Vec<serde_json::Value>,
    pub sender: Tx,
}

/// One export lookup: the name of a top-level module binding and the sink
/// for the discovered handle.
pub struct Find {
    pub export: String,
    pub sender: crossbeam_channel::Sender<Result<Export, VmError>>,
}

/// What the worker's mailbox carries; processed strictly one at a time,
/// only by the worker thread.
pub enum Command<R> {
    Call(Call),
    Find(Find),
    Done(Promise<R>),
    Tick,
    Stop,
}

/// The pending configuration: a module source plus the capabilities to
/// install once, in registration order, before any script executes.
pub struct Machine<A> {
    pub module: String,
    pub extra: Vec<A>,
}

/// A cloneable reference to the worker's mailbox.
#[verifier::reject_recursive_types(R)]
pub struct Handle<R> {
    sender: crossbeam_channel::Sender<Command<R>>,
}

/// A discovered callable export bound to the mailbox that can invoke it.
#[verifier::reject_recursive_types(R)]
pub struct Function<R> {
    pub export: Export,
    pub handle: Handle<R>,
}

/// A value that converts into the argument vector of a call.
pub trait Args {
    fn args(self) -> Vec<serde_json::Value>;
}

impl<A> Machine<A> {
    /// A configuration with no capabilities yet.
    pub fn new(module: String) -> (r: Self)
        ensures
            r.module == module,
            r.extra@ == Seq::<A>::empty(),
    {
        Machine { module, extra: Vec::new() }
    }

    /// Registers a capability; installation happens once, in registration
    /// order, before any script executes.
    pub fn extend(&mut self, adjunct: A)
        ensures
            final(self).module == old(self).module,
            final(self).extra@ == old(self).extra@.push(adjunct),
    {
        self.extra.push(adjunct);
    }
}

/// A fresh worker mailbox: the cloneable sending handle and the receiving
/// half the worker loop drains.
pub fn mailbox<R>() -> (r: (Handle<R>, crossbeam_channel::Receiver<Command<R>>)) {
    let (sender, receiver) = crossbeam_channel::unbounded();
    (Handle { sender }, receiver)
}

impl<R> Handle<R> {
    /// Posts one command. The unbounded mailbox never blocks a sender;
    /// once the worker has exited and dropped the receiving half, every
    /// send fails as `MachineTerminated` — it never hangs.
    fn send(&self, cmd: Command<R>) -> (r: Result<(), VmError>)
        ensures
            r matches Err(e) ==> e matches VmError::MachineTerminated,
    {
        match self.sender.send(cmd) {
            Ok(()) => Ok(()),
            Err(_) => Err(VmError::MachineTerminated),
        }
    }

    /// Sends a lookup for a named export and blocks for the one-shot
    /// reply: a callable handle, or `NotAFunction` naming the export, as
    /// the worker decided it. When the worker has exited, or
    /// exits before replying, the result is `MachineTerminated` or
    /// `ChannelClosed`.
    pub fn find(&self, export: &str) -> (r: Result<Function<R>, VmError>) {
        let (sender, receiver) = crossbeam_channel::unbounded();
        match self.send(Command::Find(Find { export: export.to_owned(), sender })) {
            Ok(()) => (),
            Err(e) => {
                return Err(e);
            },
        }
        match receiver.recv() {
            Ok(Ok(found)) => Ok(Function { export: found, handle: self.clone() }),
            Ok(Err(e)) => Err(e),
            Err(_) => Err(VmError::ChannelClosed),
        }
    }

    /// Posts a completed outcome; no reply. Fails as `MachineTerminated`
    /// once the worker has exited.
    pub fn done(&self, promise: Promise<R>) -> (r: Result<(), VmError>)
        ensures
            r matches Err(e) ==> e matches VmError::MachineTerminated,
    {
        self.send(Command::Done(promise))
    }

    /// Requests a microtask pump without invoking any script.
    pub fn tick(&self) -> (r: Result<(), VmError>)
        ensures
            r matches Err(e) ==> e matches VmError::MachineTerminated,
    {
        self.send(Command::Tick)
    }

    /// Asks the worker to end its loop; its thread then exits.
    pub fn stop(&self) -> (r: Result<(), VmError>)
        ensures
            r matches Err(e) ==> e matches VmError::MachineTerminated,
    {
        self.send(Command::Stop)
    }
}

impl<R> Clone for Handle<R> {
    /// Another reference to the same mailbox.
    fn clone(&self) -> Self {
        Handle { sender: self.sender.clone() }
    }
}

impl<R> Function<R> {
    /// Sends the call and returns the receive-once handle that yields the
    /// resolved value or a translated error. Never hangs: the only failure
    /// is a mailbox whose worker has exited, reported as
    /// `MachineTerminated`.
    pub fn call<A: Args>(&self, args: A) -> (r: Result<Rx, VmError>)
        ensures
            r matches Err(e) ==> e matches VmError::MachineTerminated,
    {
        let (tx, rx) = oneshot();
        let command = Command::Call(Call {
            export: self.export.clone(),
            args: args.args(),
            sender: tx,
        });
        match self.handle.send(command) {
            Ok(()) => Ok(rx),
            Err(e) => Err(e),
        }
    }
}

impl Args for Vec<serde_json::Value> {
    fn args(self) -> Vec<serde_json::Value> {
        self
    }
}

impl Args for serde_json::Value {
    fn args(self) -> Vec<serde_json::Value> {
        let mut args = Vec::new();
        args.push(self);
        args
    }
}

impl Args for () {
    fn args(self) -> Vec<serde_json::Value> {
        Vec::new()
    }
}

} // verus!
