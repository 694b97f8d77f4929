//! The queue itself: a singly-linked chain of nodes held in an arena of
//! stable indexed slots, with `head` and `tail` cursors into the chain.
//!
//! The chain follows the Michael–Scott design: one node of the chain is
//! always the sentinel — it carries no payload and marks the position
//! before the first live element. `head` names the current sentinel, and
//! `tail` names a node at or behind the true last node (it may lag and is
//! helped forward opportunistically). Enqueue appends with a two-phase
//! sequence (link the new node behind the true last node, then swing
//! `tail`); dequeue reads the payload out of the sentinel's successor
//! *before* publishing the new `head`, so a consumed node is never read
//! again after it is retired.
//!
//! Nodes are addressed by arena index rather than by raw address: a slot,
//! once allocated, keeps its index for as long as any cursor could still
//! name it, so a stale cursor can never be fooled by a recycled address
//! (the ABA hazard). Exclusive access through `&mut self` is what certifies
//! that no reader holds an in-flight reference, and only under that
//! certificate — and only once every slot before `head` has been consumed —
//! is the retired prefix physically freed.

use vstd::prelude::*;

verus! {

broadcast use vstd::std_specs::vec::axiom_spec_len;

/// A node's payload position. Making the sentinel an explicit `Empty` tag —
/// rather than a convention scattered across call sites — makes it
/// structurally impossible for a dequeue to surface a value that was never
/// enqueued.
#[derive(Debug)]
pub(crate) enum Slot<T> {
    /// No payload: the node is the sentinel, or has already been consumed.
    Empty,
    /// A payload that has been enqueued and not yet returned by a dequeue.
    Holding(T),
}

impl<T> Slot<T> {
    /// Moves the payload out, leaving the slot as a consumed marker.
    pub(crate) fn take(&mut self) -> (r: Option<T>)
        ensures
            *final(self) is Empty,
            *old(self) matches Slot::Holding(v) ==> r == Some(v),
            *old(self) is Empty ==> r is None,
    {
        let mut taken = Slot::Empty;
        core::mem::swap(self, &mut taken);
        match taken {
            Slot::Holding(v) => Some(v),
            Slot::Empty => None,
        }
    }
}

/// One unit of the chain: an optional payload and a link to the successor
/// node's slot index. A link, once set, is never cleared and never repointed:
/// the chain is append-only.
#[derive(Debug)]
pub(crate) struct Node<T> {
    pub(crate) slot: Slot<T>,
    pub(crate) next: Option<usize>,
}

/// A vector's length always fits a `usize`, so a slot index has room for
/// its successor.
proof fn lemma_arena_len_fits<T>(v: &Vec<T>)
    ensures
        v@.len() <= usize::MAX,
{
    assert(vstd::std_specs::vec::spec_vec_len(v) == v@.len());
}

/// What a dequeue returns when the queue's contents are `s`: the oldest
/// not-yet-returned value, or nothing if the queue is empty.
pub open spec fn dequeue_front<T>(s: Seq<T>) -> Option<T> {
    if s.len() == 0 {
        None
    } else {
        Some(s[0])
    }
}

/// What a dequeue leaves behind when the queue's contents are `s`.
pub open spec fn dequeue_rest<T>(s: Seq<T>) -> Seq<T> {
    if s.len() == 0 {
        s
    } else {
        s.drop_first()
    }
}

/// An unbounded FIFO queue: a chain of nodes in an arena of stable slots,
/// entered through the `head` (sentinel) and `tail` (last-or-lagging)
/// cursors.
///
/// Its abstract state, written `q@`, is the sequence of enqueued-and-not-yet
/// -dequeued values, oldest first.
#[derive(Debug)]
pub struct LockFreeQueue<T> {
    /// The arena. Slot indices are stable: a retired node keeps its slot
    /// until reclamation proves no cursor can still name it.
    nodes: Vec<Node<T>>,
    /// Index of the sentinel: the consumed position before the oldest live
    /// element.
    head: usize,
    /// Index of a node at or behind the true last node of the chain.
    tail: usize,
}

impl<T> View for LockFreeQueue<T> {
    type V = Seq<T>;

    /// The queue's contents: the payloads of the chain strictly after the
    /// sentinel, oldest first.
    closed spec fn view(&self) -> Seq<T> {
        Seq::new(
            (self.nodes@.len() - self.head - 1) as nat,
            |i: int| self.nodes@[self.head + 1 + i].slot->0,
        )
    }
}

impl<T> LockFreeQueue<T> {
    /// The link a fully-linked chain gives node `i`: its successor by index,
    /// or none for the true last node.
    spec fn chain_link(&self, i: int) -> Option<usize> {
        if i + 1 < self.nodes@.len() {
            Some((i + 1) as usize)
        } else {
            None
        }
    }

    /// Well-formedness of the chain:
    /// - the arena is non-empty and both cursors name slots in it, with the
    ///   sentinel at or before `tail`;
    /// - every node is linked to its successor slot and the true last node
    ///   is linked to nothing (the chain is fully reachable and acyclic);
    /// - every node strictly after the sentinel holds a payload, and the
    ///   sentinel and every retired node before it hold none.
    pub closed spec fn well_formed(&self) -> bool {
        &&& 1 <= self.nodes@.len()
        &&& self.head <= self.tail < self.nodes@.len()
        &&& forall|i: int|
            0 <= i < self.nodes@.len() ==> (#[trigger] self.nodes@[i].next) == self.chain_link(i)
        &&& forall|i: int|
            self.head < i < self.nodes@.len() ==> (#[trigger] self.nodes@[i].slot) is Holding
        &&& forall|i: int| 0 <= i <= self.head ==> (#[trigger] self.nodes@[i].slot) is Empty
    }

    /// Constructs an empty queue: a single sentinel node, with both cursors
    /// on it.
    pub fn new() -> (q: Self)
        ensures
            q.well_formed(),
            q@ == Seq::<T>::empty(),
    {
        let mut nodes: Vec<Node<T>> = Vec::new();
        nodes.push(Node { slot: Slot::Empty, next: None });
        let q = LockFreeQueue { nodes, head: 0, tail: 0 };
        proof {
            assert(q@ =~= Seq::<T>::empty());
        }
        q
    }

    /// Appends `value` at the end of the queue.
    ///
    /// Two-phase append: allocate the node's slot, walk a lagging `tail`
    /// forward to the true last node (helping), link the new node behind it,
    /// then swing `tail` onto the new node.
    pub fn enqueue(&mut self, value: T)
        requires
            old(self).well_formed(),
        ensures
            final(self).well_formed(),
            final(self)@ == old(self)@.push(value),
    {
        // Allocate the new node in its own slot, unlinked and holding the
        // value. It is not part of the chain until the link below commits.
        let new_idx = self.nodes.len();
        self.nodes.push(Node { slot: Slot::Holding(value), next: None });

        // Phase one: find the true last node of the chain. A `tail` that
        // still has a successor is lagging; help it forward and re-read.
        while self.nodes[self.tail].next.is_some()
            invariant
                self.nodes@.len() == new_idx + 1,
                1 <= new_idx,
                self.head == old(self).head,
                self.head <= self.tail < new_idx,
                forall|i: int|
                    0 <= i < new_idx - 1 ==> (#[trigger] self.nodes@[i].next) == Some(
                        (i + 1) as usize,
                    ),
                self.nodes@[new_idx - 1].next is None,
                self.nodes@[new_idx as int].next is None,
                self.nodes@[new_idx as int].slot == Slot::Holding(value),
                forall|i: int|
                    0 <= i < new_idx ==> (#[trigger] self.nodes@[i].slot) == old(
                        self,
                    ).nodes@[i].slot,
            decreases new_idx - self.tail,
        {
            let t = self.tail;
            let n = self.nodes[t].next.unwrap();
            self.tail = n;
        }

        // Phase two: `tail` now names the true last node. Link the new node
        // behind it; from this point the value is reachable from `head`.
        let t = self.tail;
        let last = &mut self.nodes[t];
        last.next = Some(new_idx);

        // Swing `tail` onto the new node. In a chain shared between threads
        // this step is best-effort (another enqueuer may already have helped
        // it past); under exclusive access it always lands.
        self.tail = new_idx;

        proof {
            assert(self@ =~= old(self)@.push(value));
        }
    }

    /// Removes and returns the oldest value in the queue, or `None` if the
    /// queue is empty.
    ///
    /// The payload is read out of the sentinel's successor *before* the new
    /// `head` is published: once `head` has advanced, the retired node may be
    /// reclaimed and must never be read again.
    pub fn dequeue(&mut self) -> (r: Option<T>)
        requires
            old(self).well_formed(),
        ensures
            final(self).well_formed(),
            r == dequeue_front(old(self)@),
            final(self)@ == dequeue_rest(old(self)@),
            r is Some <==> old(self)@.len() > 0,
    {
        loop
            invariant
                old(self).well_formed(),
                self.well_formed(),
                self.head == old(self).head,
                self.nodes@ == old(self).nodes@,
            decreases self.nodes@.len() - self.tail,
        {
            let h = self.head;
            let t = self.tail;
            let next = self.nodes[h].next;
            if h == t {
                match next {
                    None => {
                        // The sentinel is the true last node: the queue was
                        // observed empty.
                        return None;
                    },
                    Some(n) => {
                        // A node is linked behind the sentinel but `tail`
                        // still lags on it: help `tail` forward and re-read.
                        proof {
                            lemma_arena_len_fits(&self.nodes);
                            assert(self.nodes@[h as int].next == self.chain_link(h as int));
                        }
                        self.tail = n;
                    },
                }
            } else {
                // The sentinel has a successor holding the oldest value.
                // Read the payload out *before* publishing the new head.
                let n = next.unwrap();
                let successor = &mut self.nodes[n];
                let taken = successor.slot.take();

                // Publish: the successor, its payload now consumed, becomes
                // the new sentinel, and the old sentinel's slot is retired.
                self.head = n;

                proof {
                    assert(self@ =~= old(self)@.drop_first());
                }

                // Reclamation: free retired slots once no cursor can still
                // name them.
                self.reclaim_consumed();
                return taken;
            }
        }
    }

    /// Physically frees retired slots when it is provable that nothing can
    /// still name them: exclusive access (`&mut self`) certifies that no
    /// reader holds an in-flight reference into the chain, and once the
    /// queue has been observed empty every slot before the sentinel is
    /// consumed, so the whole arena collapses back to a single fresh
    /// sentinel. At every other moment retired slots are kept, so that live
    /// indices stay stable (the ABA guard).
    fn reclaim_consumed(&mut self)
        requires
            old(self).well_formed(),
        ensures
            final(self).well_formed(),
            final(self)@ == old(self)@,
    {
        if self.head == self.nodes.len() - 1 {
            // Every slot is the sentinel or a retired predecessor of it:
            // drop them all and start the arena over.
            self.nodes.clear();
            self.nodes.push(Node { slot: Slot::Empty, next: None });
            self.head = 0;
            self.tail = 0;
            proof {
                assert(self@ =~= old(self)@);
            }
        }
    }
}

impl<T> Default for LockFreeQueue<T> {
    /// Equivalent to `LockFreeQueue::new`.
    fn default() -> (q: Self)
        ensures
            q.well_formed(),
            q@ == Seq::<T>::empty(),
    {
        LockFreeQueue::new()
    }
}

} // verus!
