//! The promise-correlation table and its single-use resolver handles.
//!
//! The table is owned and mutated only by the worker thread. It maps a
//! monotonically increasing correlation id — unique for the lifetime of one
//! engine instance, never reused even after removal — to the pending
//! promise's engine-side controller. A `Resolver` is the thread-transferable
//! handle that completes exactly one entry: it carries the id and a mailbox
//! clone, and completing it posts a `Done` command back to the worker.
//!
//! The controller type `C` is engine-owned and never crosses threads; the
//! payload type `R` is the owned host value that does cross threads and is
//! materialized into a script value only on the worker thread.

use vstd::prelude::*;
use std::collections::HashMap;
use crate::error::VmError;
use crate::machine::Handle;

verus! {

broadcast use vstd::std_specs::hash::group_hash_axioms;

/// A completed outcome on its way back to the worker: the correlation id
/// and the owned payload that will fulfil or reject the matching promise.
pub enum Promise<R> {
    Success(u64, R),
    Failure(u64, R),
}

/// How the worker must complete a controller removed from the table.
pub enum Settlement<R> {
    Fulfill(R),
    Reject(R),
}

/// The correlation id a completed outcome addresses.
pub open spec fn promise_id<R>(p: Promise<R>) -> u64 {
    match p {
        Promise::Success(id, _) => id,
        Promise::Failure(id, _) => id,
    }
}

/// The settlement a completed outcome asks for.
pub open spec fn promise_settlement<R>(p: Promise<R>) -> Settlement<R> {
    match p {
        Promise::Success(_, v) => Settlement::Fulfill(v),
        Promise::Failure(_, v) => Settlement::Reject(v),
    }
}

/// The spec-level effect of settling one id against a table state: the
/// controller handed back, if any, and the state left behind.
pub open spec fn settle_effect<C>(m: Map<u64, C>, id: u64) -> (Option<C>, Map<u64, C>) {
    if m.contains_key(id) {
        (Some(m[id]), m.remove(id))
    } else {
        (None, m)
    }
}

/// A capability may leave many resolvers outstanding and complete them in
/// any order — in reverse in particular: each settlement hands back
/// exactly the controller filed under its own id, untouched by the
/// settlement of any other id, and a second settlement of an id already
/// consumed finds nothing. Together with resolver ids being allocated
/// distinct, every outstanding caller is answered exactly once.
pub proof fn lemma_settlement_isolated<C>(m: Map<u64, C>, i: u64, j: u64)
    requires
        m.contains_key(i),
        m.contains_key(j),
        i != j,
    ensures
        settle_effect(m, j).0 == Some(m[j]),
        settle_effect(settle_effect(m, j).1, i).0 == Some(m[i]),
        settle_effect(settle_effect(m, i).1, i).0 == None::<C>,
{
}

/// The controllers a run of settlements hands back: one per outcome, in
/// settlement order, each against the table state the settlements before
/// it left behind.
pub open spec fn handed_back<C>(m: Map<u64, C>, ids: Seq<u64>) -> Seq<Option<C>>
    decreases ids.len(),
{
    if ids.len() == 0 {
        Seq::empty()
    } else {
        seq![settle_effect(m, ids[0]).0] + handed_back(
            settle_effect(m, ids[0]).1,
            ids.drop_first(),
        )
    }
}

/// A run of settlements hands back exactly one outcome per settlement.
pub proof fn lemma_handed_back_len<C>(m: Map<u64, C>, ids: Seq<u64>)
    ensures
        handed_back(m, ids).len() == ids.len(),
    decreases ids.len(),
{
    if ids.len() > 0 {
        lemma_handed_back_len(settle_effect(m, ids[0]).1, ids.drop_first());
    }
}

/// N outstanding entries settled in any order — in reverse in particular
/// — deliver each result to its own caller exactly once: whatever the
/// completion order, the settlement of each distinct id hands back
/// precisely the controller filed under that id.
pub proof fn lemma_each_caller_once<C>(m: Map<u64, C>, ids: Seq<u64>, i: int)
    requires
        0 <= i < ids.len(),
        forall|j: int, k: int| 0 <= j < k < ids.len() ==> ids[j] != ids[k],
        forall|j: int| 0 <= j < ids.len() ==> m.contains_key(#[trigger] ids[j]),
    ensures
        handed_back(m, ids)[i] == Some(m[ids[i]]),
    decreases ids.len(),
{
    if i == 0 {
        assert(m.contains_key(ids[0]));
    } else {
        let m1 = settle_effect(m, ids[0]).1;
        let rest = ids.drop_first();
        assert(m.contains_key(ids[0]));
        assert forall|j: int, k: int| 0 <= j < k < rest.len() implies #[trigger] rest[j]
            != #[trigger] rest[k] by {
            assert(rest[j] == ids[j + 1]);
            assert(rest[k] == ids[k + 1]);
        }
        assert forall|j: int| 0 <= j < rest.len() implies m1.contains_key(#[trigger] rest[j]) by {
            assert(rest[j] == ids[j + 1]);
            assert(ids[j + 1] != ids[0]);
            assert(m.contains_key(ids[j + 1]));
        }
        lemma_each_caller_once(m1, rest, i - 1);
        assert(rest[i - 1] == ids[i]);
        assert(ids[i] != ids[0]);
        assert(m1[ids[i]] == m[ids[i]]);
        lemma_handed_back_len(m1, rest);
        assert(handed_back(m, ids)[i] == handed_back(m1, rest)[i - 1]);
    }
}

/// The worker-owned correlation table.
#[verifier::reject_recursive_types(R)]
pub struct Promises<R, C> {
    counter: u64,
    handle: Handle<R>,
    pending: HashMap<u64, C>,
}

/// A transferable, single-use handle that completes exactly one table
/// entry by id. Both `resolve` and `reject` consume it, so completing it
/// twice is impossible at the type level.
#[verifier::reject_recursive_types(R)]
pub struct Resolver<R> {
    id: u64,
    tx: Handle<R>,
}

impl<R, C> Promises<R, C> {
    /// The pending entries, by correlation id.
    pub closed spec fn entries(&self) -> Map<u64, C> {
        self.pending@
    }

    /// The id the next insertion will take.
    pub closed spec fn next_id(&self) -> u64 {
        self.counter
    }

    /// Every pending id was allocated before the counter's current value;
    /// this is why a fresh id can never collide with a pending one.
    pub open spec fn wf(&self) -> bool {
        forall|k: u64| self.entries().contains_key(k) ==> k < self.next_id()
    }

    /// An empty table whose ids start at 0, bound to the worker mailbox
    /// that later `Done` commands must reach.
    pub fn new(handle: Handle<R>) -> (r: Self)
        ensures
            r.entries() == Map::<u64, C>::empty(),
            r.next_id() == 0,
            r.wf(),
    {
        Promises { counter: 0, handle, pending: HashMap::new() }
    }

    /// Whether the id space of this engine instance is exhausted; only
    /// then may `insert` not be called.
    pub fn exhausted(&self) -> (r: bool)
        ensures
            r == (self.next_id() == u64::MAX),
    {
        self.counter == u64::MAX
    }

    /// Allocates the next id (post-increment, never reused within the
    /// instance), stores the controller under it, and returns the resolver
    /// carrying that id and a mailbox clone. Engine-thread-only: callers
    /// hold the table by exclusive reference.
    pub fn insert(&mut self, controller: C) -> (r: Resolver<R>)
        requires
            old(self).wf(),
            old(self).next_id() < u64::MAX,
        ensures
            final(self).wf(),
            r.id() == old(self).next_id(),
            !old(self).entries().contains_key(r.id()),
            final(self).next_id() == old(self).next_id() + 1,
            final(self).entries() == old(self).entries().insert(r.id(), controller),
    {
        let id = self.counter;
        let tx = self.handle.clone();
        self.counter = self.counter + 1;
        self.pending.insert(id, controller);
        proof {
            assert forall|k: u64| #[trigger] self.entries().contains_key(k) implies k
                < self.next_id() by {
                if k != id {
                    assert(old(self).entries().contains_key(k));
                }
            }
        }
        Resolver { id, tx }
    }

    /// Removes and returns exactly the entry the outcome addresses,
    /// together with the settlement it asks for; a missing or
    /// already-consumed id is silently ignored, which tolerates races with
    /// shutdown. The counter never moves, so the id is not reused.
    pub fn settle(&mut self, promise: Promise<R>) -> (r: Option<(C, Settlement<R>)>)
        requires
            old(self).wf(),
        ensures
            final(self).wf(),
            final(self).next_id() == old(self).next_id(),
            final(self).entries() == settle_effect(old(self).entries(), promise_id(promise)).1,
            ({
                let id = promise_id(promise);
                if old(self).entries().contains_key(id) {
                    r == Some((old(self).entries()[id], promise_settlement(promise)))
                } else {
                    r is None
                }
            }),
    {
        let (id, settlement) = match promise {
            Promise::Success(id, v) => (id, Settlement::Fulfill(v)),
            Promise::Failure(id, v) => (id, Settlement::Reject(v)),
        };
        match self.pending.remove(&id) {
            Some(controller) => Some((controller, settlement)),
            None => None,
        }
    }
}

impl<R> Resolver<R> {
    /// The correlation id this handle completes.
    pub closed spec fn id(&self) -> u64 {
        self.id
    }

    /// Completes the entry with a fulfilment. Posts a `Done` command to
    /// the worker mailbox; once the worker has exited this yields
    /// `ChannelClosed`, never a fault — the in-script promise then simply
    /// stays pending, which is acceptable under shutdown.
    pub fn resolve(self, value: R) -> (r: Result<(), VmError>)
        ensures
            r matches Err(e) ==> e matches VmError::ChannelClosed,
    {
        match self.tx.done(Promise::Success(self.id, value)) {
            Ok(()) => Ok(()),
            Err(_) => Err(VmError::ChannelClosed),
        }
    }

    /// Completes the entry with a rejection; otherwise as `resolve`.
    pub fn reject(self, value: R) -> (r: Result<(), VmError>)
        ensures
            r matches Err(e) ==> e matches VmError::ChannelClosed,
    {
        match self.tx.done(Promise::Failure(self.id, value)) {
            Ok(()) => Ok(()),
            Err(_) => Err(VmError::ChannelClosed),
        }
    }
}

} // verus!
