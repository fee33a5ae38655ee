use e_to_e_msgr::outbound::{OutboundQueue, OUTBOUND_QUEUE_CAPACITY};

#[test]
fn wire_receives_hello_then_world() {
    let mut q = OutboundQueue::new();
    assert!(q.try_enqueue("hello".to_string()).is_ok());
    assert!(q.try_enqueue("world".to_string()).is_ok());
    let wire = q.drain_to_wire();
    assert_eq!(wire, vec!["hello".to_string(), "world".to_string()]);
    assert_eq!(q.len(), 0);
}

#[test]
fn wire_order_equals_enqueue_order() {
    let mut q = OutboundQueue::new();
    let payloads: Vec<String> = (0..OUTBOUND_QUEUE_CAPACITY).map(|i| format!("m{}", i)).collect();
    for p in &payloads {
        assert!(q.try_enqueue(p.clone()).is_ok());
    }
    let wire = q.drain_to_wire();
    assert_eq!(wire, payloads);
}

#[test]
fn full_queue_hands_payload_back() {
    let mut q = OutboundQueue::new();
    for i in 0..OUTBOUND_QUEUE_CAPACITY {
        assert!(q.try_enqueue(format!("m{}", i)).is_ok());
    }
    assert_eq!(q.len(), OUTBOUND_QUEUE_CAPACITY);
    let refused = q.try_enqueue("overflow".to_string());
    assert!(matches!(refused, Err(ref p) if p == "overflow"));
    assert_eq!(q.len(), OUTBOUND_QUEUE_CAPACITY);
    // After the loop drains one payload there is room again.
    let first = q.dequeue().unwrap();
    assert_eq!(first, "m0");
    assert!(q.try_enqueue("overflow".to_string()).is_ok());
}

#[test]
fn batch_enqueue_keeps_submission_order() {
    let mut q = OutboundQueue::new();
    let payloads = vec!["hello".to_string(), "world".to_string()];
    let accepted = q.enqueue_all(&payloads);
    assert_eq!(accepted, 2);
    let wire = q.drain_to_wire();
    assert_eq!(wire, payloads);

    // A batch larger than the capacity is cut off at the full queue.
    let big: Vec<String> = (0..OUTBOUND_QUEUE_CAPACITY + 5).map(|i| format!("x{}", i)).collect();
    let accepted = q.enqueue_all(&big);
    assert_eq!(accepted, OUTBOUND_QUEUE_CAPACITY);
    assert_eq!(q.len(), OUTBOUND_QUEUE_CAPACITY);
}

#[test]
fn dequeue_is_fifo_and_empties() {
    let mut q = OutboundQueue::new();
    assert!(q.dequeue().is_none());
    assert!(q.try_enqueue("a".to_string()).is_ok());
    assert!(q.try_enqueue("b".to_string()).is_ok());
    assert_eq!(q.dequeue().unwrap(), "a");
    assert_eq!(q.dequeue().unwrap(), "b");
    assert!(q.dequeue().is_none());
}
