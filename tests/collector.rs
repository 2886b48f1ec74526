use mqtt_bench::collector::{Collector, Notification, Pulled, Step};

#[test]
fn thousand_acks_reach_the_target() {
    let mut c = Collector::new(1000);
    let mut last = Step::Pull;
    for i in 0..1000 {
        assert_eq!(c.step(Pulled::Item(Notification::Other)), Step::Pull);
        last = c.step(Pulled::Item(Notification::Ack));
        if i < 999 {
            assert_eq!(last, Step::Pull);
        }
    }
    assert_eq!(last, Step::Done);
    assert_eq!(c.counter(), 1000);
    assert!(c.is_done());
}

#[test]
fn nothing_after_done_is_counted() {
    let mut c = Collector::new(2);
    c.step(Pulled::Item(Notification::Ack));
    assert_eq!(c.step(Pulled::Item(Notification::Ack)), Step::Done);
    assert_eq!(c.step(Pulled::Item(Notification::Ack)), Step::Done);
    assert_eq!(c.step(Pulled::Failed), Step::Done);
    assert_eq!(c.counter(), 2);
}

#[test]
fn other_events_and_empty_pulls_change_nothing() {
    let mut c = Collector::new(3);
    for _ in 0..50 {
        assert_eq!(c.step(Pulled::Item(Notification::Other)), Step::Pull);
        assert_eq!(c.step(Pulled::Item(Notification::Nothing)), Step::Pull);
    }
    assert_eq!(c.counter(), 0);
    assert!(!c.is_done());
}

#[test]
fn zero_target_is_done_at_once() {
    let mut c = Collector::new(0);
    assert!(c.is_done());
    assert_eq!(c.counter(), 0);
    assert_eq!(c.step(Pulled::Item(Notification::Ack)), Step::Done);
    assert_eq!(c.counter(), 0);
}

#[test]
fn stream_failure_is_handed_up() {
    let mut c = Collector::new(5);
    c.step(Pulled::Item(Notification::Ack));
    assert_eq!(c.step(Pulled::Failed), Step::Failed);
    assert_eq!(c.counter(), 1);
}

#[test]
fn stream_end_before_target() {
    let mut c = Collector::new(5);
    assert_eq!(c.step(Pulled::Closed), Step::Closed);
    assert_eq!(c.counter(), 0);
    assert_eq!(c.target(), 5);
}

#[test]
fn partial_acks_leave_the_collector_waiting() {
    let mut c = Collector::new(100);
    for _ in 0..36 {
        assert_eq!(c.step(Pulled::Item(Notification::Ack)), Step::Pull);
    }
    assert!(!c.is_done());
    assert_eq!(c.counter(), 36);
}
