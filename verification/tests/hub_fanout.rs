use axact::hub::Channel;
use axact::snapshot::{Snapshot, TemperatureSnapshot};

fn temp_snapshot(cpu: i32) -> Snapshot {
    Snapshot::Temperature(TemperatureSnapshot {
        cpu_temp: Some(cpu),
        gpu_temp: None,
        fan_speed: None,
    })
}

// Every subscriber sees every published value, in publish order.
#[test]
fn every_subscriber_sees_every_value_in_order() {
    let mut ch = Channel::new(8);
    let a = ch.subscribe();
    let b = ch.subscribe();
    assert_ne!(a, b);
    for t in [1, 2, 3] {
        ch.publish(&temp_snapshot(t));
    }
    for id in [a, b] {
        assert_eq!(ch.receive(id), Some(temp_snapshot(1)));
        assert_eq!(ch.receive(id), Some(temp_snapshot(2)));
        assert_eq!(ch.receive(id), Some(temp_snapshot(3)));
        assert_eq!(ch.receive(id), None);
    }
}

// A subscriber added after publishing has begun observes only values
// published after its subscription.
#[test]
fn late_subscriber_sees_only_later_values() {
    let mut ch = Channel::new(8);
    let early = ch.subscribe();
    ch.publish(&temp_snapshot(1));
    ch.publish(&temp_snapshot(2));
    let late = ch.subscribe();
    ch.publish(&temp_snapshot(3));
    assert_eq!(ch.receive(late), Some(temp_snapshot(3)));
    assert_eq!(ch.receive(late), None);
    assert_eq!(ch.receive(early), Some(temp_snapshot(1)));
}

// With a bound of one, a slow subscriber keeps only the latest value.
#[test]
fn slow_subscriber_keeps_latest_value() {
    let mut ch = Channel::new(1);
    let s = ch.subscribe();
    ch.publish(&temp_snapshot(1));
    ch.publish(&temp_snapshot(2));
    ch.publish(&temp_snapshot(3));
    assert_eq!(ch.receive(s), Some(temp_snapshot(3)));
    assert_eq!(ch.receive(s), None);
}

// A full queue drops its oldest value: what remains is a contiguous,
// in-order suffix — a subsequence, never a reordering or duplication.
#[test]
fn full_queue_drops_oldest_first() {
    let mut ch = Channel::new(2);
    let s = ch.subscribe();
    for t in [1, 2, 3, 4] {
        ch.publish(&temp_snapshot(t));
    }
    assert_eq!(ch.receive(s), Some(temp_snapshot(3)));
    assert_eq!(ch.receive(s), Some(temp_snapshot(4)));
    assert_eq!(ch.receive(s), None);
}

// One subscriber's slowness never affects another.
#[test]
fn subscribers_are_independent() {
    let mut ch = Channel::new(1);
    let slow = ch.subscribe();
    let fast = ch.subscribe();
    ch.publish(&temp_snapshot(1));
    assert_eq!(ch.receive(fast), Some(temp_snapshot(1)));
    ch.publish(&temp_snapshot(2));
    assert_eq!(ch.receive(fast), Some(temp_snapshot(2)));
    // the slow subscriber only kept the latest
    assert_eq!(ch.receive(slow), Some(temp_snapshot(2)));
}

// Publishing with no subscribers is a successful no-op.
#[test]
fn publish_to_empty_channel_is_noop() {
    let mut ch = Channel::new(4);
    ch.publish(&temp_snapshot(1));
    let s = ch.subscribe();
    assert_eq!(ch.receive(s), None);
}

// After unsubscribing, the id is gone and receives nothing.
#[test]
fn unsubscribe_removes_the_subscription() {
    let mut ch = Channel::new(4);
    let a = ch.subscribe();
    let b = ch.subscribe();
    ch.publish(&temp_snapshot(1));
    ch.unsubscribe(a);
    assert_eq!(ch.receive(a), None);
    assert_eq!(ch.receive(b), Some(temp_snapshot(1)));
}

// Receiving on an id that was never handed out yields nothing.
#[test]
fn unknown_id_receives_nothing() {
    let mut ch = Channel::new(4);
    ch.publish(&temp_snapshot(1));
    assert_eq!(ch.receive(12345), None);
}
