use std::time::Duration;
use std::time::Instant;

use aura_core::AuraError;
use aura_core::Context;
use aura_core::Publisher;
use aura_core::Subscriber;

#[test]
fn publisher_new_rejects_empty_topic() {
    let ctx = Context::new();
    let r = Publisher::new(&ctx, "");
    assert_eq!(r.err(), Some(AuraError::InvalidTopicName));
}

#[test]
fn publisher_new_rejects_relative_topic() {
    let ctx = Context::new();
    let r = Publisher::new(&ctx, "chatter");
    assert_eq!(r.err(), Some(AuraError::InvalidTopicName));
}

#[test]
fn publisher_new_accepts_absolute_topic() {
    let ctx = Context::new();
    let p = Publisher::new(&ctx, "/chatter").unwrap();
    assert_eq!(p.topic_name(), "/chatter");
}

#[test]
fn subscriber_reports_its_topic() {
    let ctx = Context::new();
    let s = Subscriber::new(&ctx, "/chatter").unwrap();
    assert_eq!(s.topic_name(), "/chatter");
}

#[test]
fn two_subscribers_each_receive_one_publish() {
    let ctx = Context::new();
    let s1 = Subscriber::new(&ctx, "/chatter").unwrap();
    let s2 = Subscriber::new(&ctx, "/chatter").unwrap();
    let p = Publisher::new(&ctx, "/chatter").unwrap();
    p.publish("hello".to_string()).unwrap();
    let m1 = s1.recv_timeout(Duration::from_secs(1)).unwrap();
    assert_eq!(m1.topic, "/chatter");
    assert_eq!(m1.data, "hello");
    let m2 = s2.recv_timeout(Duration::from_secs(1)).unwrap();
    assert_eq!(m2.topic, "/chatter");
    assert_eq!(m2.data, "hello");
}

#[test]
fn publish_without_subscribers_succeeds() {
    let ctx = Context::new();
    let p2 = Publisher::new(&ctx, "/unused").unwrap();
    assert!(p2.publish("x".to_string()).is_ok());
}

#[test]
fn no_retroactive_delivery() {
    let ctx = Context::new();
    let s0 = Subscriber::new(&ctx, "/t").unwrap();
    let p = Publisher::new(&ctx, "/t").unwrap();
    p.publish("early".to_string()).unwrap();
    let late = Subscriber::new(&ctx, "/t").unwrap();
    assert_eq!(late.recv_timeout(Duration::from_millis(100)).err(), Some(AuraError::Timeout));
    assert_eq!(s0.recv_timeout(Duration::from_secs(1)).unwrap().data, "early");
}

#[test]
fn fan_out_reaches_every_subscriber() {
    let ctx = Context::new();
    let subs: Vec<Subscriber> = (0..3).map(|_| Subscriber::new(&ctx, "/t").unwrap()).collect();
    let p = Publisher::new(&ctx, "/t").unwrap();
    p.publish("x".to_string()).unwrap();
    for s in &subs {
        let m = s.recv_timeout(Duration::from_secs(1)).unwrap();
        assert_eq!(m.topic, "/t");
        assert_eq!(m.data, "x");
        // exactly one copy each
        assert_eq!(s.recv_timeout(Duration::from_millis(100)).err(), Some(AuraError::Timeout));
    }
}

#[test]
fn partial_failure_is_isolated() {
    let ctx = Context::new();
    let s1 = Subscriber::new(&ctx, "/t").unwrap();
    let s2 = Subscriber::new(&ctx, "/t").unwrap();
    drop(s1);
    let p = Publisher::new(&ctx, "/t").unwrap();
    assert!(p.publish("m".to_string()).is_ok());
    assert_eq!(s2.recv_timeout(Duration::from_secs(1)).unwrap().data, "m");
}

#[test]
fn timeout_is_bounded() {
    let ctx = Context::new();
    let s = Subscriber::new(&ctx, "/quiet").unwrap();
    let d = Duration::from_millis(200);
    let start = Instant::now();
    let r = s.recv_timeout(d);
    let elapsed = start.elapsed();
    assert_eq!(r.err(), Some(AuraError::Timeout));
    assert!(elapsed >= d);
    assert!(elapsed < Duration::from_secs(5));
}

#[test]
fn interleaved_publish_loses_and_duplicates_nothing() {
    let ctx = Context::new();
    let s = Subscriber::new(&ctx, "/t").unwrap();
    let publishers: Vec<Publisher> =
        (0..3).map(|_| Publisher::new(&ctx, "/t").unwrap()).collect();
    let k = 10;
    for j in 0..k {
        for (i, p) in publishers.iter().enumerate() {
            p.publish(format!("{}-{}", i, j)).unwrap();
        }
    }
    // Exactly 3 * k messages arrive, and each publisher's own messages
    // arrive in its program order.
    let mut last: Vec<i64> = vec![-1, -1, -1];
    for _ in 0..(3 * k) {
        let m = s.recv_timeout(Duration::from_secs(1)).unwrap();
        let mut parts = m.data.split('-');
        let i: usize = parts.next().unwrap().parse().unwrap();
        let j: i64 = parts.next().unwrap().parse().unwrap();
        assert!(j > last[i]);
        last[i] = j;
    }
    assert_eq!(s.recv_timeout(Duration::from_millis(100)).err(), Some(AuraError::Timeout));
    assert_eq!(last, vec![i64::from(k) - 1; 3]);
}

#[test]
fn messages_arrive_in_order() {
    let ctx = Context::new();
    let s = Subscriber::new(&ctx, "/seq").unwrap();
    let p = Publisher::new(&ctx, "/seq").unwrap();
    for i in 0..5 {
        p.publish(format!("{}", i)).unwrap();
    }
    for i in 0..5 {
        assert_eq!(s.recv_timeout(Duration::from_secs(1)).unwrap().data, format!("{}", i));
    }
}

#[test]
fn contexts_are_isolated_buses() {
    let ctx1 = Context::new();
    let ctx2 = Context::new();
    let s = Subscriber::new(&ctx1, "/t").unwrap();
    let p = Publisher::new(&ctx2, "/t").unwrap();
    p.publish("x".to_string()).unwrap();
    assert_eq!(s.recv_timeout(Duration::from_millis(100)).err(), Some(AuraError::Timeout));
}

#[test]
fn subscriber_construction_skips_name_validation() {
    // Deliberate asymmetry with publisher construction: no format check.
    let ctx = Context::new();
    assert!(Subscriber::new(&ctx, "chatter").is_ok());
    assert!(Subscriber::new(&ctx, "").is_ok());
}
