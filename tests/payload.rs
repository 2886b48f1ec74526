use mqtt_bench::message::{message_payload, FILLER};
use mqtt_bench::publisher::{EmitError, Publisher, TOPIC};
use mqtt_bench::session::Delivery;

#[test]
fn first_payload_is_marker_then_filler() {
    assert_eq!(message_payload(0, 10), vec![0, 1, 1, 1, 1, 1, 1, 1, 1, 1]);
}

#[test]
fn marker_wraps_at_255() {
    assert_eq!(message_payload(254, 3), vec![254, 1, 1]);
    assert_eq!(message_payload(255, 2), vec![0, 1]);
    assert_eq!(message_payload(256, 1), vec![1]);
    assert_eq!(message_payload(1000, 2), vec![(1000 % 255) as u8, FILLER]);
}

#[test]
fn empty_payload_when_size_is_zero() {
    assert!(message_payload(7, 0).is_empty());
}

#[test]
fn every_kth_payload_has_length_and_marker() {
    let size = 5;
    for k in 0..600usize {
        let p = message_payload(k, size);
        assert_eq!(p.len(), size);
        assert_eq!(p[0], (k % 255) as u8);
        assert!(p[1..].iter().all(|b| *b == FILLER));
    }
}

#[test]
fn publisher_emits_all_when_nothing_fails() {
    let mut p = Publisher::new(4, 3);
    let mut seen = Vec::new();
    while !p.is_finished() {
        seen.push(p.next_payload());
        p.record(Ok(()));
    }
    assert_eq!(p.emitted(), 4);
    assert!(!p.has_failed());
    assert_eq!(seen, vec![vec![0, 1, 1], vec![1, 1, 1], vec![2, 1, 1], vec![3, 1, 1]]);
}

#[test]
fn publisher_stops_at_first_failure() {
    let mut p = Publisher::new(100, 10);
    let mut attempts = 0;
    while !p.is_finished() {
        attempts += 1;
        if attempts == 37 {
            p.record(Err(EmitError::SendFailed));
        } else {
            p.record(Ok(()));
        }
    }
    assert_eq!(attempts, 37);
    assert_eq!(p.emitted(), 36);
    assert!(p.has_failed());
    assert_eq!(p.count(), 100);
    assert_eq!(p.payload_size(), 10);
}

#[test]
fn publisher_with_zero_count_is_finished() {
    let p = Publisher::new(0, 10);
    assert!(p.is_finished());
    assert_eq!(p.emitted(), 0);
}

#[test]
fn next_request_is_at_least_once_and_not_retained() {
    let mut p = Publisher::new(300, 4);
    for _ in 0..256 {
        p.record(Ok(()));
    }
    let r = p.next_request();
    assert_eq!(r.topic, "hello/world");
    assert_eq!(r.topic, TOPIC);
    assert_eq!(r.delivery, Delivery::AtLeastOnce);
    assert!(!r.retain);
    assert_eq!(r.payload, vec![1, 1, 1, 1]);
}
