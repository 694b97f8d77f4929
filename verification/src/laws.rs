//! The queue's ordering laws, stated and proved over its abstract model.
//!
//! `LockFreeQueue`'s contracts reduce every operation to a `Seq` transition:
//! `enqueue` pushes at the back, `dequeue` takes `dequeue_front` and leaves
//! `dequeue_rest`. The laws here are therefore stated over sequences: what a
//! run of enqueues builds, and what a run of dequeues returns.

use vstd::prelude::*;

use crate::lf_queue::dequeue_front;
use crate::lf_queue::dequeue_rest;

verus! {

/// The contents after enqueueing every value of `vs`, in order, into a queue
/// whose contents were `s`.
pub open spec fn enqueue_all<T>(s: Seq<T>, vs: Seq<T>) -> Seq<T>
    decreases vs.len(),
{
    if vs.len() == 0 {
        s
    } else {
        enqueue_all(s.push(vs[0]), vs.drop_first())
    }
}

/// The values returned by dequeuing, over and over, until the queue whose
/// contents are `s` is empty — each step taking `dequeue_front` and leaving
/// `dequeue_rest`, exactly as `dequeue`'s contract states.
pub open spec fn drained<T>(s: Seq<T>) -> Seq<T>
    decreases s.len(),
{
    if s.len() == 0 {
        Seq::empty()
    } else {
        seq![s[0]] + drained(s.drop_first())
    }
}

/// Enqueues append and do nothing else: a run of enqueues adds exactly the
/// values given, in order, at the back.
pub proof fn lemma_enqueue_all_appends<T>(s: Seq<T>, vs: Seq<T>)
    ensures
        enqueue_all(s, vs) == s + vs,
    decreases vs.len(),
{
    if vs.len() == 0 {
        assert(enqueue_all(s, vs) =~= s + vs);
    } else {
        lemma_enqueue_all_appends(s.push(vs[0]), vs.drop_first());
        assert(s.push(vs[0]) + vs.drop_first() =~= s + vs);
    }
}

/// A full drain returns exactly the queue's contents, oldest first.
pub proof fn lemma_drained_is_contents<T>(s: Seq<T>)
    ensures
        drained(s) == s,
    decreases s.len(),
{
    if s.len() == 0 {
        assert(drained(s) =~= s);
    } else {
        lemma_drained_is_contents(s.drop_first());
        assert(seq![s[0]] + s.drop_first() =~= s);
    }
}

/// The FIFO law: values enqueued into an empty queue by a single caller, with
/// no interleaved dequeues, come back out in exactly the order they went in —
/// the `k`-th dequeue returns `vs[k]` and leaves `vs.skip(k + 1)` — and once
/// all of them are out, every further dequeue returns nothing.
pub proof fn lemma_fifo<T>(vs: Seq<T>)
    ensures
        enqueue_all(Seq::<T>::empty(), vs) == vs,
        forall|k: int| 0 <= k < vs.len() ==> dequeue_front(#[trigger] vs.skip(k)) == Some(vs[k]),
        forall|k: int| 0 <= k < vs.len() ==> dequeue_rest(#[trigger] vs.skip(k)) == vs.skip(k + 1),
        drained(enqueue_all(Seq::<T>::empty(), vs)) == vs,
        dequeue_front(vs.skip(vs.len() as int)) is None,
{
    lemma_enqueue_all_appends(Seq::<T>::empty(), vs);
    assert(Seq::<T>::empty() + vs =~= vs);
    lemma_drained_is_contents(vs);
    assert forall|k: int| 0 <= k < vs.len() implies dequeue_front(#[trigger] vs.skip(k)) == Some(
        vs[k],
    ) by {
        assert(vs.skip(k)[0] == vs[k]);
    }
    assert forall|k: int| 0 <= k < vs.len() implies dequeue_rest(#[trigger] vs.skip(k)) == vs.skip(
        k + 1,
    ) by {
        assert(vs.skip(k).drop_first() =~= vs.skip(k + 1));
    }
    assert(vs.skip(vs.len() as int) =~= Seq::<T>::empty());
}

/// No loss and no duplication in a drain: the values a full drain returns
/// are, as a multiset, exactly the values that were enqueued — none dropped,
/// none handed out twice. (Stated for one enqueuer and one dequeuer, the
/// histories the sequential model can express.)
pub proof fn lemma_no_loss_no_duplication<T>(vs: Seq<T>)
    ensures
        drained(enqueue_all(Seq::<T>::empty(), vs)).to_multiset() == vs.to_multiset(),
{
    lemma_fifo(vs);
}

/// Dequeue on an empty queue is idempotent: it returns nothing and leaves
/// the queue empty, so it keeps returning nothing until an enqueue occurs.
pub proof fn lemma_empty_dequeue_idempotent<T>()
    ensures
        dequeue_front(Seq::<T>::empty()) is None,
        dequeue_rest(Seq::<T>::empty()) == Seq::<T>::empty(),
{
}

/// Only enqueued values ever surface: whatever a dequeue returns was among
/// the queue's contents — the sentinel's empty slot can never be handed out.
pub proof fn lemma_only_contents_surface<T>(s: Seq<T>, v: T)
    requires
        dequeue_front(s) == Some(v),
    ensures
        s.contains(v),
{
    assert(s[0] == v);
}

} // verus!
