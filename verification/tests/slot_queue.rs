use ws63_rf::slot_queue::SlotQueue;

#[test]
fn consumer_does_not_overtake_a_producer_still_writing() {
    let mut queue: SlotQueue<u32> = SlotQueue::new(3);
    let first = queue.claim().unwrap();
    assert!(queue.enqueue(20));
    assert_eq!(queue.take_oldest(), None);
    assert!(queue.has_pending());
    queue.publish(first, 10);
    let oldest = queue.take_oldest().unwrap();
    assert_eq!(*queue.item(oldest), 10);
    queue.release(oldest);
    let next = queue.take_oldest().unwrap();
    assert_eq!(*queue.item(next), 20);
    queue.release(next);
    assert!(!queue.has_pending());
}

#[test]
fn claims_beyond_the_depth_are_dropped_and_counted() {
    let mut queue: SlotQueue<u32> = SlotQueue::new(1);
    assert_eq!(queue.claim(), Some(0));
    assert_eq!(queue.claim(), None);
    assert_eq!(queue.dropped(), 1);
    queue.publish(0, 5);
    assert!(!queue.enqueue(6));
    assert_eq!(queue.dropped(), 2);
}
