use probe_relay::bus::{FanoutBus, Received};

fn text(i: u64) -> String {
    format!("{{\"n\":{}}}", i)
}

#[test]
fn new_bus_is_empty_and_open() {
    let bus = FanoutBus::new(100);
    assert_eq!(bus.published(), 0);
    assert_eq!(bus.capacity(), 100);
    assert!(!bus.is_closed());
}

#[test]
fn subscriber_sees_payloads_in_publish_order() {
    let mut bus = FanoutBus::new(4);
    let mut sub = bus.subscribe();
    for i in 0..3 {
        bus.publish(text(i));
    }
    for i in 0..3 {
        assert_eq!(bus.receive(&mut sub), Received::Item(text(i)));
    }
    assert_eq!(bus.receive(&mut sub), Received::Empty);
    bus.publish(text(3));
    assert_eq!(bus.receive(&mut sub), Received::Item(text(3)));
    assert_eq!(sub.cursor(), 4);
}

#[test]
fn publish_without_subscribers_succeeds() {
    let mut bus = FanoutBus::new(2);
    for i in 0..10 {
        bus.publish(text(i));
    }
    assert_eq!(bus.published(), 10);
}

#[test]
fn idle_subscriber_does_not_hold_back_publish_or_others() {
    let mut bus = FanoutBus::new(2);
    let _idle = bus.subscribe();
    let mut active = bus.subscribe();
    for i in 0..50 {
        bus.publish(text(i));
        assert_eq!(bus.receive(&mut active), Received::Item(text(i)));
    }
    assert_eq!(bus.published(), 50);
}

#[test]
fn lagging_subscriber_skips_forward_once() {
    let mut bus = FanoutBus::new(3);
    let mut sub = bus.subscribe();
    for i in 0..8 {
        bus.publish(text(i));
    }
    // 8 missed, 3 retained: 5 skipped, resuming at the oldest retained.
    assert_eq!(bus.receive(&mut sub), Received::Lagged(5));
    assert_eq!(sub.cursor(), 5);
    assert_eq!(bus.receive(&mut sub), Received::Item(text(5)));
    assert_eq!(bus.receive(&mut sub), Received::Item(text(6)));
    assert_eq!(bus.receive(&mut sub), Received::Item(text(7)));
    assert_eq!(bus.receive(&mut sub), Received::Empty);
}

#[test]
fn subscriber_exactly_at_capacity_does_not_lag() {
    let mut bus = FanoutBus::new(3);
    let mut sub = bus.subscribe();
    for i in 0..3 {
        bus.publish(text(i));
    }
    assert_eq!(bus.receive(&mut sub), Received::Item(text(0)));
}

#[test]
fn late_subscriber_does_not_see_earlier_payload() {
    let mut bus = FanoutBus::new(100);
    let mut early = bus.subscribe();
    bus.publish(String::from("R1"));
    let mut late = bus.subscribe();
    assert_eq!(bus.receive(&mut late), Received::Empty);
    bus.publish(String::from("R2"));
    assert_eq!(bus.receive(&mut late), Received::Item(String::from("R2")));
    assert_eq!(bus.receive(&mut early), Received::Item(String::from("R1")));
    assert_eq!(bus.receive(&mut early), Received::Item(String::from("R2")));
}

#[test]
fn close_is_terminal_and_idempotent() {
    let mut bus = FanoutBus::new(4);
    let mut sub = bus.subscribe();
    bus.publish(text(0));
    bus.close();
    bus.close();
    assert!(bus.is_closed());
    assert_eq!(bus.receive(&mut sub), Received::Closed);
    bus.publish(text(1));
    assert_eq!(bus.published(), 1);
    assert_eq!(bus.receive(&mut sub), Received::Closed);
}

#[test]
fn concrete_reading_arrives_unchanged() {
    let payload = "{\"timestamp\":\"2024-01-01T00:00:00Z\",\"temperature\":25.00,\"salinity\":32.50,\"turbidity\":10.00}";
    let mut bus = FanoutBus::new(100);
    let mut sub = bus.subscribe();
    bus.publish(String::from(payload));
    let frame = match bus.receive(&mut sub) {
        Received::Item(s) => s,
        other => panic!("expected one frame, got {:?}", other),
    };
    assert_eq!(bus.receive(&mut sub), Received::Empty);
    let got: serde_json::Value = serde_json::from_str(&frame).unwrap();
    assert_eq!(got["timestamp"].as_str(), Some("2024-01-01T00:00:00Z"));
    assert_eq!(got["temperature"].as_f64(), Some(25.0));
    assert_eq!(got["salinity"].as_f64(), Some(32.5));
    assert_eq!(got["turbidity"].as_f64(), Some(10.0));
    assert_eq!(got.as_object().unwrap().len(), 4);
}
