use lf_queue::LockFreeQueue;

#[test]
fn test_load_one() {
    let mut queue = LockFreeQueue::new();
    queue.enqueue(1);
    queue.enqueue(2);
    assert_eq!(queue.dequeue(), Some(1));
}

#[test]
fn test_load_two() {
    let mut queue = LockFreeQueue::new();
    queue.enqueue(1);
    queue.enqueue(2);
    assert_eq!(queue.dequeue(), Some(1));
    assert_eq!(queue.dequeue(), Some(2));
}

#[test]
fn two_values_out_in_order_then_empty() {
    let mut queue = LockFreeQueue::new();
    queue.enqueue(1);
    queue.enqueue(2);
    assert_eq!(queue.dequeue(), Some(1));
    assert_eq!(queue.dequeue(), Some(2));
    assert_eq!(queue.dequeue(), None);
}

#[test]
fn empty_queue_dequeues_none() {
    let mut queue: LockFreeQueue<i32> = LockFreeQueue::new();
    assert_eq!(queue.dequeue(), None);
}

#[test]
fn empty_dequeue_is_idempotent() {
    let mut queue: LockFreeQueue<i32> = LockFreeQueue::new();
    for _ in 0..10 {
        assert_eq!(queue.dequeue(), None);
    }
    queue.enqueue(5);
    assert_eq!(queue.dequeue(), Some(5));
    for _ in 0..10 {
        assert_eq!(queue.dequeue(), None);
    }
}

// The two serializations of one enqueue racing one dequeue: the dequeuer
// either observes the queue before the link commits and gets nothing, or
// after it and gets exactly the linked value — never anything else.
#[test]
fn interleaving_has_only_two_outcomes() {
    let mut queue: LockFreeQueue<i32> = LockFreeQueue::new();
    assert_eq!(queue.dequeue(), None);
    queue.enqueue(1);
    assert_eq!(queue.dequeue(), Some(1));

    let mut queue: LockFreeQueue<i32> = LockFreeQueue::new();
    queue.enqueue(1);
    assert_eq!(queue.dequeue(), Some(1));
    assert_eq!(queue.dequeue(), None);
}

#[test]
fn fifo_order_single_producer() {
    let mut queue = LockFreeQueue::new();
    for v in 0..100u64 {
        queue.enqueue(v);
    }
    for v in 0..100u64 {
        assert_eq!(queue.dequeue(), Some(v));
    }
    assert_eq!(queue.dequeue(), None);
}

#[test]
fn sentinel_never_surfaces() {
    let mut queue = LockFreeQueue::new();
    queue.enqueue(42);
    // The very first dequeue must return the first enqueued value, not the
    // sentinel's absent payload.
    assert_eq!(queue.dequeue(), Some(42));
    assert_eq!(queue.dequeue(), None);
}

// Eight producer streams of 10,000 distinct values each, fed in round-robin
// and fully drained: every value comes back exactly once.
#[test]
fn drain_returns_every_value_exactly_once() {
    const STREAMS: u64 = 8;
    const PER_STREAM: u64 = 10_000;
    let total = (STREAMS * PER_STREAM) as usize;

    let mut queue = LockFreeQueue::new();
    for round in 0..PER_STREAM {
        for stream in 0..STREAMS {
            queue.enqueue(stream * PER_STREAM + round);
        }
    }

    let mut seen = vec![false; total];
    let mut count = 0usize;
    while let Some(v) = queue.dequeue() {
        let v = v as usize;
        assert!(v < total);
        assert!(!seen[v], "value dequeued twice");
        seen[v] = true;
        count += 1;
    }
    assert_eq!(count, total);
    assert!(seen.iter().all(|&s| s));
}

#[test]
fn alternating_enqueue_dequeue() {
    let mut queue = LockFreeQueue::new();
    for v in 0..1000u32 {
        queue.enqueue(v);
        assert_eq!(queue.dequeue(), Some(v));
        assert_eq!(queue.dequeue(), None);
    }
}

#[test]
fn default_is_an_empty_queue() {
    let mut queue: LockFreeQueue<i32> = Default::default();
    assert_eq!(queue.dequeue(), None);
    queue.enqueue(3);
    assert_eq!(queue.dequeue(), Some(3));
    assert_eq!(queue.dequeue(), None);
}
