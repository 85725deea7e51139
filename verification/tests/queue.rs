use fire_control::queue::{AtomicQueue, Full, QUEUE_CAPACITY};

#[test]
fn test_queue_starts_empty() {
    let mut q: AtomicQueue<u64> = AtomicQueue::new();
    assert_eq!(q.pop(), None);
}

#[test]
fn test_length_reports_capacity() {
    let q: AtomicQueue<u64> = AtomicQueue::new();
    assert_eq!(q.length(), QUEUE_CAPACITY);
    assert_eq!(q.length(), 32);
}

#[test]
fn test_fifo_round_trip() {
    let mut q: AtomicQueue<u64> = AtomicQueue::new();
    for v in 0..10u64 {
        assert_eq!(q.push(v * 7 + 1), Ok(()));
    }
    for v in 0..10u64 {
        assert_eq!(q.pop(), Some(v * 7 + 1));
    }
    assert_eq!(q.pop(), None);
}

#[test]
fn test_full_round_trip_at_capacity() {
    let mut q: AtomicQueue<usize> = AtomicQueue::new();
    for v in 0..QUEUE_CAPACITY {
        assert_eq!(q.push(v), Ok(()));
    }
    for v in 0..QUEUE_CAPACITY {
        assert_eq!(q.pop(), Some(v));
    }
    assert_eq!(q.pop(), None);
}

#[test]
fn test_saturation_drops_the_extra_push() {
    let mut q: AtomicQueue<usize> = AtomicQueue::new();
    for v in 0..QUEUE_CAPACITY {
        assert_eq!(q.push(v), Ok(()));
    }
    assert_eq!(q.push(999), Err(Full {}));
    // The refused push destroyed nothing: the first 32 values are intact.
    for v in 0..QUEUE_CAPACITY {
        assert_eq!(q.pop(), Some(v));
    }
    assert_eq!(q.pop(), None);
}

#[test]
fn test_empty_pop_is_idempotent() {
    let mut q: AtomicQueue<u64> = AtomicQueue::new();
    for _ in 0..5 {
        assert_eq!(q.pop(), None);
    }
    assert_eq!(q.push(42), Ok(()));
    assert_eq!(q.pop(), Some(42));
    for _ in 0..5 {
        assert_eq!(q.pop(), None);
    }
}

#[test]
fn test_interleaved_push_pop_keeps_order() {
    let mut q: AtomicQueue<u64> = AtomicQueue::new();
    assert_eq!(q.push(1), Ok(()));
    assert_eq!(q.push(2), Ok(()));
    assert_eq!(q.pop(), Some(1));
    assert_eq!(q.push(3), Ok(()));
    assert_eq!(q.pop(), Some(2));
    assert_eq!(q.pop(), Some(3));
    assert_eq!(q.pop(), None);
}

#[test]
fn test_queue_reusable_after_saturation() {
    let mut q: AtomicQueue<u64> = AtomicQueue::new();
    // Fill, overflow, drain, and fill again: the counters keep working
    // after the queue has been full once.
    for v in 0..32u64 {
        assert_eq!(q.push(v), Ok(()));
    }
    assert_eq!(q.push(100), Err(Full {}));
    for v in 0..32u64 {
        assert_eq!(q.pop(), Some(v));
    }
    for v in 200..210u64 {
        assert_eq!(q.push(v), Ok(()));
    }
    for v in 200..210u64 {
        assert_eq!(q.pop(), Some(v));
    }
    assert_eq!(q.pop(), None);
}
