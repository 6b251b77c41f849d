//! The live script environment's verified half: export discovery, call
//! routing, exception translation, and settlement of completed promises.
//!
//! The engine itself runs outside this crate; each operation here takes
//! the engine's report as a plain value and decides, with an exact
//! contract, what the caller's sink observes. The correlation table is
//! passed explicitly — every operation that needs it receives the owning
//! context — so no hidden global slot is involved.

use vstd::prelude::*;
use crate::channel::Tx;
use crate::diag::{dec_spec, diag_spec, has_substring, lemma_diagnostic_names_source, Diagnostic};
use crate::error::{render_spec, VmError};
use crate::machine::Handle;
use crate::promise::{Promise, Promises, Resolver, Settlement};

verus! {

/// An owned reference to a discovered callable export. It addresses an
/// engine-side weak binding by slot and may expire independent of holder
/// lifetime; calling through an expired export fails, never faults.
#[derive(Clone, Copy)]
pub struct Export {
    pub slot: u64,
}

impl Export {
    pub fn new(slot: u64) -> (r: Self)
        ensures
            r.slot == slot,
    {
        Export { slot }
    }
}

/// The engine's report of looking a name up on the module's
/// exported-bindings object.
pub enum Lookup {
    /// The binding exists and is callable; the engine filed a weak
    /// reference to it under this slot.
    Callable(u64),
    /// The binding exists but is not callable.
    NotCallable,
    /// No binding of that name exists.
    Absent,
}

/// A thrown script value, rendered on the engine thread. When the value
/// was Error-shaped it was first rendered through its own string
/// conversion, preserving user-facing formatting; the raw structured
/// rendering is kept alongside as the fallback.
pub struct Thrown {
    /// The value's own string conversion, present exactly when the value
    /// was Error-shaped.
    pub rendered: Option<String>,
    /// The structured rendering of the raw value.
    pub json: String,
}

/// The engine's report of invoking an export.
pub enum Invocation {
    /// The weak export had expired; no script ran.
    Gone,
    /// The invocation raised synchronously.
    Threw(Thrown),
    /// The invocation returned a non-promise value, already converted.
    Returned(serde_json::Value),
    /// The invocation returned a promise; the result arrives on a later
    /// command cycle, when engine-internal progress observes it settle.
    Pending,
}

/// The engine's report of a call promise settling during normal
/// execution.
pub enum Settled {
    Fulfilled(serde_json::Value),
    Rejected(Thrown),
}

/// The text a thrown value is lifted with: its own string conversion when
/// it was Error-shaped, its structured rendering otherwise.
pub open spec fn thrown_text(t: Thrown) -> Seq<char> {
    match t.rendered {
        Some(s) => s@,
        None => t.json@,
    }
}

/// What `find` must yield for a given lookup report: a handle to the
/// filed slot, or — for an absent name and a non-callable binding alike —
/// `NotAFunction` naming the export.
pub open spec fn find_outcome(name: Seq<char>, lookup: Lookup, r: Result<Export, VmError>) -> bool {
    match lookup {
        Lookup::Callable(slot) => r matches Ok(e) && e.slot == slot,
        Lookup::NotCallable => r matches Err(e) && (e matches VmError::NotAFunction(n) && n@
            == name),
        Lookup::Absent => r matches Err(e) && (e matches VmError::NotAFunction(n) && n@ == name),
    }
}

/// What a call invocation delivers to its sink, if anything: `None`
/// exactly when the result is a still-pending promise, whose settlement
/// arrives later.
pub open spec fn call_outcome(
    outcome: Invocation,
    r: Option<Result<serde_json::Value, VmError>>,
) -> bool {
    match outcome {
        Invocation::Gone => r == Some(Err::<serde_json::Value, VmError>(VmError::ExportGone)),
        Invocation::Threw(t) => r matches Some(reply) && (reply matches Err(e) && (
        e matches VmError::Script(m) && m@ == thrown_text(t))),
        Invocation::Returned(v) => r == Some(Ok::<serde_json::Value, VmError>(v)),
        Invocation::Pending => r is None,
    }
}

/// What a settled call promise delivers to the sink the continuation
/// owns.
pub open spec fn settled_outcome(s: Settled, r: Result<serde_json::Value, VmError>) -> bool {
    match s {
        Settled::Fulfilled(v) => r == Ok::<serde_json::Value, VmError>(v),
        Settled::Rejected(t) => r matches Err(e) && (e matches VmError::Script(m) && m@
            == thrown_text(t)),
    }
}

/// Lifts a thrown value to the host error its caller sees. The rendered
/// text is the value's own string conversion when one exists, so
/// user-facing formatting survives the translation.
pub fn translate(t: Thrown) -> (r: VmError)
    ensures
        r matches VmError::Script(m) && m@ == thrown_text(t),
{
    match t.rendered {
        Some(s) => VmError::Script(s),
        None => VmError::Script(t.json),
    }
}

/// An absent name and a non-callable binding fail identically: both
/// verdicts are `NotAFunction` with the same rendered text.
pub proof fn lemma_find_uniform(
    name: Seq<char>,
    r1: Result<Export, VmError>,
    r2: Result<Export, VmError>,
)
    requires
        find_outcome(name, Lookup::Absent, r1),
        find_outcome(name, Lookup::NotCallable, r2),
    ensures
        r1 matches Err(e1) && (e1 matches VmError::NotAFunction(n1) && n1@ == name),
        r2 matches Err(e2) && (e2 matches VmError::NotAFunction(n2) && n2@ == name),
        r1 matches Err(e1) && (r2 matches Err(e2) && render_spec(e1) == render_spec(e2)),
{
}

/// The rendered text of a startup failure: the position-annotated
/// diagnostic when the engine produced one; the raw exception text when
/// position metadata is missing; a fixed placeholder when no exception or
/// message exists at all.
pub open spec fn failure_text(diag: Option<Diagnostic>, exception: Option<String>) -> Seq<char> {
    match diag {
        Some(d) => diag_spec(
            d.text@,
            d.resource@,
            d.source@,
            d.line as nat,
            d.start_column as nat,
            d.width_spec(),
        ),
        None => match exception {
            Some(s) => s@,
            None => "no exception or message"@,
        },
    }
}

/// The startup verdict for a failed compile or evaluation. It aborts the
/// whole exec attempt: no handle from that attempt becomes usable.
pub fn failure(diag: Option<Diagnostic>, exception: Option<String>) -> (r: VmError)
    ensures
        r matches VmError::Startup(s) && s@ == failure_text(diag, exception),
{
    match diag {
        Some(d) => VmError::Startup(d.render()),
        None => match exception {
            Some(s) => VmError::Startup(s),
            None => VmError::Startup("no exception or message".to_owned()),
        },
    }
}

/// A startup failure built from a diagnostic names what failed: the
/// resource name and the decimal line number both occur verbatim in its
/// text.
pub proof fn lemma_startup_names_source(d: Diagnostic, exception: Option<String>)
    ensures
        has_substring(failure_text(Some(d), exception), d.resource@),
        has_substring(failure_text(Some(d), exception), dec_spec(d.line as nat)),
{
    lemma_diagnostic_names_source(
        d.text@,
        d.resource@,
        d.source@,
        d.line as nat,
        d.start_column as nat,
        d.width_spec(),
    );
}

/// The verified half of the live script environment: the correlation
/// table, reached only through this context, and the routing decisions
/// for each command.
#[verifier::reject_recursive_types(R)]
pub struct Context<R, C> {
    promises: Promises<R, C>,
}

impl<R, C> Context<R, C> {
    /// The pending correlation entries.
    pub closed spec fn entries(&self) -> Map<u64, C> {
        self.promises.entries()
    }

    /// The next correlation id.
    pub closed spec fn next_id(&self) -> u64 {
        self.promises.next_id()
    }

    /// The table's well-formedness: every pending id was allocated below
    /// the counter.
    pub closed spec fn wf(&self) -> bool {
        self.promises.wf()
    }

    /// A fresh context with an empty correlation table, bound to the
    /// worker mailbox completions must reach.
    pub fn new(handle: Handle<R>) -> (r: Self)
        ensures
            r.wf(),
            r.entries() == Map::<u64, C>::empty(),
            r.next_id() == 0,
    {
        Context { promises: Promises::new(handle) }
    }

    /// Whether the correlation id space is exhausted; only then may
    /// `insert` not be called.
    pub fn exhausted(&self) -> (r: bool)
        ensures
            r == (self.next_id() == u64::MAX),
    {
        self.promises.exhausted()
    }

    /// Files a new pending promise's controller and returns the resolver
    /// for it; called by capability native functions running on the
    /// worker thread.
    pub fn insert(&mut self, controller: C) -> (r: Resolver<R>)
        requires
            old(self).wf(),
            old(self).next_id() < u64::MAX,
        ensures
            final(self).wf(),
            r.id() == old(self).next_id(),
            !old(self).entries().contains_key(r.id()),
            final(self).next_id() == old(self).next_id() + 1,
            final(self).entries() == old(self).entries().insert(r.id(), controller),
    {
        self.promises.insert(controller)
    }

    /// Decides a lookup: a callable binding yields a durable handle;
    /// an absent name and a non-callable binding fail identically as
    /// "not a function", naming the export.
    pub fn find(&self, name: &str, lookup: Lookup) -> (r: Result<Export, VmError>)
        ensures
            find_outcome(name@, lookup, r),
    {
        match lookup {
            Lookup::Callable(slot) => Ok(Export::new(slot)),
            Lookup::NotCallable => Err(VmError::NotAFunction(name.to_owned())),
            Lookup::Absent => Err(VmError::NotAFunction(name.to_owned())),
        }
    }

    /// Routes an invocation report to the reply its sink gets now, or to
    /// `None` when the result is a promise whose settlement arrives on a
    /// later command cycle.
    pub fn route_call(&self, outcome: Invocation) -> (r: Option<
        Result<serde_json::Value, VmError>,
    >)
        ensures
            call_outcome(outcome, r),
    {
        match outcome {
            Invocation::Gone => Some(Err(VmError::ExportGone)),
            Invocation::Threw(t) => Some(Err(translate(t))),
            Invocation::Returned(v) => Some(Ok(v)),
            Invocation::Pending => None,
        }
    }

    /// Dispatches one invocation report against the call's own sink. An
    /// immediate outcome is delivered and the sink consumed; a pending
    /// promise hands the sink back, to be owned by the engine-side
    /// continuation and released exactly once when it fires.
    pub fn call(&self, sender: Tx, outcome: Invocation) -> (r: Option<Tx>)
        ensures
            r is Some <==> outcome is Pending,
    {
        match self.route_call(outcome) {
            Some(reply) => {
                sender.send(reply);
                None
            },
            None => Some(sender),
        }
    }

    /// Converts one settlement to the reply its caller sees: a fulfilled
    /// promise delivers the converted value, a rejected one the lifted
    /// exception.
    pub fn settled_reply(&self, settled: Settled) -> (r: Result<serde_json::Value, VmError>)
        ensures
            settled_outcome(settled, r),
    {
        match settled {
            Settled::Fulfilled(v) => Ok(v),
            Settled::Rejected(t) => Err(translate(t)),
        }
    }

    /// The continuation's half of a promise-returning call: converts the
    /// settlement and releases the sink it owns, exactly once.
    pub fn settle_call(&self, sender: Tx, settled: Settled) {
        let reply = self.settled_reply(settled);
        sender.send(reply);
    }

    /// Settles a completed outcome against the table: removes exactly the
    /// addressed entry and hands its controller back for completion, or
    /// silently ignores an id already consumed or discarded.
    pub fn done(&mut self, promise: Promise<R>) -> (r: Option<(C, Settlement<R>)>)
        requires
            old(self).wf(),
        ensures
            final(self).wf(),
            final(self).next_id() == old(self).next_id(),
            ({
                let id = crate::promise::promise_id(promise);
                if old(self).entries().contains_key(id) {
                    &&& final(self).entries() == old(self).entries().remove(id)
                    &&& r == Some(
                        (old(self).entries()[id], crate::promise::promise_settlement(promise)),
                    )
                } else {
                    &&& final(self).entries() == old(self).entries()
                    &&& r is None
                }
            }),
    {
        self.promises.settle(promise)
    }
}

} // verus!
