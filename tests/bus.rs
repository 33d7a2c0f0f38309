use todo_stream::{Bus, MutationKind, Received, SubscriptionId, TodoUpdate, BUS_CAPACITY};

fn create(id: i32) -> TodoUpdate {
    TodoUpdate::new(MutationKind::Create, id)
}

fn delete(id: i32) -> TodoUpdate {
    TodoUpdate::new(MutationKind::Delete, id)
}

#[test]
fn fan_out_reaches_every_subscriber_once() {
    let mut bus = Bus::new(BUS_CAPACITY);
    let subs: Vec<SubscriptionId> = (0..5).map(|_| bus.subscribe().unwrap()).collect();
    assert_eq!(bus.publish(create(7)), 5);
    for s in subs {
        assert_eq!(bus.recv(s), Received::Update(create(7)));
        assert_eq!(bus.recv(s), Received::Empty);
    }
}

#[test]
fn publish_without_subscribers_is_dropped() {
    let mut bus = Bus::new(BUS_CAPACITY);
    assert_eq!(bus.publish(create(1)), 0);
    let s = bus.subscribe().unwrap();
    assert_eq!(bus.recv(s), Received::Empty);
}

#[test]
fn late_subscriber_misses_past_update() {
    let mut bus = Bus::new(BUS_CAPACITY);
    let early = bus.subscribe().unwrap();
    bus.publish(create(3));
    let late = bus.subscribe().unwrap();
    assert_eq!(bus.recv(late), Received::Empty);
    assert_eq!(bus.recv(early), Received::Update(create(3)));
    bus.publish(delete(3));
    assert_eq!(bus.recv(late), Received::Update(delete(3)));
}

#[test]
fn overflow_reports_lag_then_continues() {
    let mut bus = Bus::new(BUS_CAPACITY);
    let s = bus.subscribe().unwrap();
    for i in 0..(BUS_CAPACITY as i32 + 1) {
        assert_eq!(bus.publish(create(i)), 1);
    }
    assert_eq!(bus.recv(s), Received::Lagged(1));
    for i in 1..(BUS_CAPACITY as i32 + 1) {
        assert_eq!(bus.recv(s), Received::Update(create(i)));
    }
    assert_eq!(bus.recv(s), Received::Empty);
}

#[test]
fn lag_counts_every_dropped_update() {
    let mut bus = Bus::new(2);
    let s = bus.subscribe().unwrap();
    for i in 0..5 {
        bus.publish(delete(i));
    }
    assert_eq!(bus.recv(s), Received::Lagged(3));
    assert_eq!(bus.recv(s), Received::Update(delete(3)));
    assert_eq!(bus.recv(s), Received::Update(delete(4)));
    assert_eq!(bus.recv(s), Received::Empty);
}

#[test]
fn slow_subscriber_does_not_affect_others() {
    let mut bus = Bus::new(1);
    let slow = bus.subscribe().unwrap();
    let fast = bus.subscribe().unwrap();
    bus.publish(create(1));
    assert_eq!(bus.recv(fast), Received::Update(create(1)));
    bus.publish(create(2));
    assert_eq!(bus.recv(fast), Received::Update(create(2)));
    assert_eq!(bus.recv(slow), Received::Lagged(1));
    assert_eq!(bus.recv(slow), Received::Update(create(2)));
}

#[test]
fn updates_arrive_in_publish_order() {
    let mut bus = Bus::new(BUS_CAPACITY);
    let s = bus.subscribe().unwrap();
    bus.publish(create(1));
    bus.publish(delete(1));
    bus.publish(create(2));
    assert_eq!(bus.recv(s), Received::Update(create(1)));
    assert_eq!(bus.recv(s), Received::Update(delete(1)));
    assert_eq!(bus.recv(s), Received::Update(create(2)));
}

#[test]
fn unsubscribe_discards_queue_and_closes() {
    let mut bus = Bus::new(BUS_CAPACITY);
    let a = bus.subscribe().unwrap();
    let b = bus.subscribe().unwrap();
    assert_ne!(a, b);
    bus.publish(create(9));
    assert_eq!(bus.subscriber_count(), 2);
    assert!(bus.unsubscribe(a));
    assert!(!bus.unsubscribe(a));
    assert_eq!(bus.subscriber_count(), 1);
    assert_eq!(bus.recv(a), Received::Closed);
    assert_eq!(bus.recv(b), Received::Update(create(9)));
    assert_eq!(bus.publish(create(10)), 1);
}

#[test]
fn capacity_is_kept() {
    let bus = Bus::new(BUS_CAPACITY);
    assert_eq!(bus.capacity(), 10);
    assert_eq!(bus.subscriber_count(), 0);
}
