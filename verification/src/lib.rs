//! An unbounded first-in/first-out queue built on the Michael–Scott chain
//! protocol: a singly-linked chain of nodes entered through `head` and
//! `tail` cursors, with a sentinel node marking the position before the
//! oldest element.
//!
//! The chain discipline is the one that keeps the concurrent queue sound —
//! append-only links, a lagging `tail` helped forward, payloads read before
//! the new `head` is published, retirement separated from physical
//! reclamation, stable node indices in place of reusable addresses — and it
//! is rendered here over an arena of indexed slots, with each atomic
//! compare-and-swap step become a plain read-check-write under exclusive
//! (`&mut`) access. Every operation is specified and proved against the
//! queue's abstract contents, a sequence of values; the ordering laws
//! (first in, first out; no loss; no duplication; the sentinel never
//! surfaces) are stated and proved in `laws`.

pub mod laws;
pub mod lf_queue;

pub use lf_queue::LockFreeQueue;
