use cirque::new_producer_consumer;
use cirque::Recycler;

/// Recycler that counts its invocations and resets the payload to zero.
struct CountingRecycler {
    calls: std::rc::Rc<std::cell::Cell<usize>>,
}

impl Recycler<u64> for CountingRecycler {
    fn recycle(&mut self, item: &mut u64) {
        self.calls.set(self.calls.get() + 1);
        *item = 0;
    }
}

fn counting() -> (CountingRecycler, std::rc::Rc<std::cell::Cell<usize>>) {
    let calls = std::rc::Rc::new(std::cell::Cell::new(0));
    (CountingRecycler { calls: calls.clone() }, calls)
}

struct NoopRecycler;

impl Recycler<String> for NoopRecycler {
    fn recycle(&mut self, _item: &mut String) {}
}

impl Recycler<u64> for NoopRecycler {
    fn recycle(&mut self, _item: &mut u64) {}
}

#[test]
fn order_preserved_over_channel() {
    let (mut producer, mut consumer) = new_producer_consumer::<u64, NoopRecycler>(NoopRecycler, 4);
    for i in 0..100u64 {
        producer.push(&mut consumer, i);
    }
    for i in 0..100u64 {
        let item = consumer.pop().expect("queued item missing");
        assert_eq!(*item.as_ref(), i);
        consumer.push_back(&mut producer, item);
    }
    assert!(consumer.pop().is_none());
}

#[test]
fn conservation_under_interleaving() {
    // Every pushed item is popped exactly once, whatever the interleaving.
    let (mut producer, mut consumer) = new_producer_consumer::<u64, NoopRecycler>(NoopRecycler, 8);
    let mut next: u64 = 0;
    let mut popped: Vec<u64> = Vec::new();
    // Irregular interleaving: bursts of pushes, partial pops.
    for round in 0..10usize {
        for _ in 0..(round % 4 + 1) {
            producer.push(&mut consumer, next);
            next += 1;
        }
        for _ in 0..(round % 3) {
            if let Some(item) = consumer.pop() {
                popped.push(*item.as_ref());
                consumer.push_back(&mut producer, item);
            }
        }
        producer.drain_and_recycle();
    }
    while let Some(item) = consumer.pop() {
        popped.push(*item.as_ref());
        consumer.push_back(&mut producer, item);
    }
    let expected: Vec<u64> = (0..next).collect();
    assert_eq!(popped, expected);
}

#[test]
fn capacity_bound_after_drain() {
    let (mut producer, mut consumer) = new_producer_consumer::<u64, NoopRecycler>(NoopRecycler, 3);
    for i in 0..10u64 {
        producer.push(&mut consumer, i);
    }
    consumer.drain(&mut producer);
    producer.drain_and_recycle();
    assert_eq!(producer.recycled_count(), 3);
    assert!(producer.recycled_count() <= 3);
}

#[test]
fn node_reuse_round_trip() {
    let (mut producer, mut consumer) = new_producer_consumer::<u64, NoopRecycler>(NoopRecycler, 1);
    producer.push(&mut consumer, 10);
    assert_eq!(producer.allocation_count(), 1);
    let a = consumer.pop().expect("first item missing");
    let a_id = a.node_id();
    consumer.push_back(&mut producer, a);
    producer.drain_and_recycle();
    assert_eq!(producer.recycled_count(), 1);
    producer.push(&mut consumer, 20);
    // The node that carried the first item is reused: no new allocation.
    assert_eq!(producer.allocation_count(), 1);
    let b = consumer.pop().expect("second item missing");
    assert_eq!(b.node_id(), a_id);
    assert_eq!(*b.as_ref(), 20);
}

#[test]
fn shrink_truncates_free_list() {
    let (mut producer, mut consumer) = new_producer_consumer::<u64, NoopRecycler>(NoopRecycler, 5);
    for i in 0..5u64 {
        producer.push(&mut consumer, i);
    }
    consumer.drain(&mut producer);
    producer.drain_and_recycle();
    assert_eq!(producer.recycled_count(), 5);
    // One item left in transit must stay untouched by the tuning below.
    producer.push(&mut consumer, 99);
    producer.tune_recycling_capacity(2);
    assert_eq!(producer.recycled_count(), 2);
    let in_transit = consumer.pop().expect("item in transit lost");
    assert_eq!(*in_transit.as_ref(), 99);
}

#[test]
fn grow_keeps_free_list() {
    let (mut producer, mut consumer) = new_producer_consumer::<u64, NoopRecycler>(NoopRecycler, 2);
    for i in 0..4u64 {
        producer.push(&mut consumer, i);
    }
    consumer.drain(&mut producer);
    producer.drain_and_recycle();
    assert_eq!(producer.recycled_count(), 2);
    producer.tune_recycling_capacity(10);
    assert_eq!(producer.recycled_count(), 2);
}

#[test]
fn scenario_capacity_two() {
    let (recycler, calls) = counting();
    let (mut producer, mut consumer) = new_producer_consumer::<u64, CountingRecycler>(recycler, 2);
    producer.push(&mut consumer, 1);
    producer.push(&mut consumer, 2);
    producer.push(&mut consumer, 3);
    assert_eq!(producer.allocation_count(), 3);
    // The consumer pops all three and pushes all three back unmodified.
    for expected in 1..=3u64 {
        let item = consumer.pop().expect("queued item missing");
        assert_eq!(*item.as_ref(), expected);
        consumer.push_back(&mut producer, item);
    }
    producer.drain_and_recycle();
    // Exactly 2 nodes recycled into the free-list, 1 dropped.
    assert_eq!(producer.recycled_count(), 2);
    assert_eq!(calls.get(), 2);
    // The next 2 pushes reuse the 2 recycled nodes: no allocation.
    producer.push(&mut consumer, 4);
    producer.push(&mut consumer, 5);
    assert_eq!(producer.allocation_count(), 3);
    // The 3rd push allocates a fresh node.
    producer.push(&mut consumer, 6);
    assert_eq!(producer.allocation_count(), 4);
}

#[test]
fn pop_on_empty_returns_none() {
    let (mut producer, mut consumer) = new_producer_consumer::<u64, NoopRecycler>(NoopRecycler, 1);
    assert!(consumer.pop().is_none());
    producer.push(&mut consumer, 7);
    let item = consumer.pop().expect("queued item missing");
    consumer.push_back(&mut producer, item);
    assert!(consumer.pop().is_none());
}

#[test]
fn drain_on_empty_recycles_nothing() {
    let (recycler, calls) = counting();
    let (mut producer, mut consumer) = new_producer_consumer::<u64, CountingRecycler>(recycler, 2);
    producer.push(&mut consumer, 1);
    let item = consumer.pop().expect("queued item missing");
    consumer.push_back(&mut producer, item);
    producer.drain_and_recycle();
    assert_eq!(producer.recycled_count(), 1);
    assert_eq!(calls.get(), 1);
    // Backward queue now empty: a further drain performs no recycling and
    // leaves the free-list unchanged.
    producer.drain_and_recycle();
    assert_eq!(producer.recycled_count(), 1);
    assert_eq!(calls.get(), 1);
}

#[test]
fn capacity_zero_never_pools() {
    let (recycler, calls) = counting();
    let (mut producer, mut consumer) = new_producer_consumer::<u64, CountingRecycler>(recycler, 0);
    for i in 0..3u64 {
        producer.push(&mut consumer, i);
    }
    consumer.drain(&mut producer);
    producer.drain_and_recycle();
    assert_eq!(producer.recycled_count(), 0);
    assert_eq!(calls.get(), 0);
    producer.push(&mut consumer, 3);
    assert_eq!(producer.allocation_count(), 4);
}

#[test]
fn recycler_resets_pooled_payload() {
    let (recycler, _calls) = counting();
    let (mut producer, mut consumer) = new_producer_consumer::<u64, CountingRecycler>(recycler, 1);
    producer.push(&mut consumer, 41);
    let item = consumer.pop().expect("queued item missing");
    consumer.push_back(&mut producer, item);
    producer.drain_and_recycle();
    // The pooled node's payload was reset by the recycler; the next push
    // overwrites it with the new item.
    producer.push(&mut consumer, 42);
    let item = consumer.pop().expect("queued item missing");
    assert_eq!(*item.as_ref(), 42);
}

#[test]
fn as_mut_updates_payload_in_place() {
    let (mut producer, mut consumer) =
        new_producer_consumer::<String, NoopRecycler>(NoopRecycler, 1);
    producer.push(&mut consumer, String::from("hello"));
    let mut item = consumer.pop().expect("queued item missing");
    item.as_mut().push_str(" world");
    assert_eq!(item.as_ref(), "hello world");
    let id = item.node_id();
    consumer.push_back(&mut producer, item);
    producer.drain_and_recycle();
    producer.push(&mut consumer, String::from("again"));
    let item = consumer.pop().expect("queued item missing");
    assert_eq!(item.node_id(), id);
    assert_eq!(item.as_ref(), "again");
}

#[test]
fn dropped_lease_forces_fresh_allocation() {
    let (mut producer, mut consumer) = new_producer_consumer::<u64, NoopRecycler>(NoopRecycler, 1);
    producer.push(&mut consumer, 1);
    let item = consumer.pop().expect("queued item missing");
    drop(item);  // discarded without push_back: nothing returns to the pool
    producer.drain_and_recycle();
    assert_eq!(producer.recycled_count(), 0);
    producer.push(&mut consumer, 2);
    assert_eq!(producer.allocation_count(), 2);
}

#[test]
fn consumer_drain_flushes_in_order() {
    let (mut producer, mut consumer) = new_producer_consumer::<u64, NoopRecycler>(NoopRecycler, 8);
    for i in 0..5u64 {
        producer.push(&mut consumer, i);
    }
    consumer.drain(&mut producer);
    assert!(consumer.pop().is_none());
    // The flushed nodes come back to the producer and are all pooled.
    producer.drain_and_recycle();
    assert_eq!(producer.recycled_count(), 5);
}
