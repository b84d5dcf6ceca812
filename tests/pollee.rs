use async_io_core::events::{Events, IN, OUT, HUP};
use async_io_core::pollee::Pollee;
use async_io_core::poller::PollerCore;

fn ev(bits: u32) -> Events {
    Events::from_bits(bits)
}

#[test]
fn poll_reports_masked_events() {
    let mut p: Pollee<u32> = Pollee::new(ev(IN | HUP));
    assert_eq!(p.poll_by(ev(IN | OUT), None), ev(IN));
    assert_eq!(p.subscriber_count(), 0);
}

#[test]
fn poll_with_poller_subscribes_once() {
    let mut p: Pollee<u32> = Pollee::new(Events::empty());
    assert_eq!(p.poll_by(ev(IN), Some((1, 10))), Events::empty());
    assert_eq!(p.poll_by(ev(OUT), Some((1, 11))), Events::empty());
    assert_eq!(p.subscriber_count(), 1);
    assert_eq!(*p.subscriber(0), 11);
    assert_eq!(p.position(1), Some(0));
}

#[test]
fn add_events_wakes_only_interested() {
    let mut p: Pollee<u32> = Pollee::new(Events::empty());
    p.poll_by(ev(IN), Some((1, 10)));
    p.poll_by(ev(OUT), Some((2, 20)));
    p.poll_by(ev(IN | OUT), Some((3, 30)));
    assert_eq!(p.add_events(ev(IN)), vec![0, 2]);
    assert_eq!(p.events(), ev(IN));
    assert_eq!(p.subscriber_count(), 3);
    assert_eq!(p.add_events(ev(OUT)), vec![1, 2]);
    assert_eq!(p.events(), ev(IN | OUT));
}

#[test]
fn del_events_wakes_nobody() {
    let mut p: Pollee<u32> = Pollee::new(ev(IN | OUT));
    p.poll_by(ev(IN), Some((1, 10)));
    p.del_events(ev(IN));
    assert_eq!(p.events(), ev(OUT));
    assert_eq!(p.subscriber_count(), 1);
}

#[test]
fn reset_events_wakes_on_new_bits_only() {
    let mut p: Pollee<u32> = Pollee::new(ev(IN));
    p.poll_by(ev(IN), Some((1, 10)));
    p.poll_by(ev(OUT), Some((2, 20)));
    assert_eq!(p.reset_events(ev(IN | OUT)), vec![1]);
    assert_eq!(p.events(), ev(IN | OUT));
    assert_eq!(p.reset_events(ev(IN)), Vec::<usize>::new());
}

#[test]
fn unsubscribe_removes_subscription() {
    let mut p: Pollee<u32> = Pollee::new(Events::empty());
    p.poll_by(ev(IN), Some((1, 10)));
    p.poll_by(ev(IN), Some((2, 20)));
    assert!(p.unsubscribe(1));
    assert!(!p.unsubscribe(1));
    assert_eq!(p.position(1), None);
    assert_eq!(p.subscriber_count(), 1);
    assert_eq!(*p.subscriber(0), 20);
    assert_eq!(p.add_events(ev(IN)), vec![0]);
}

#[test]
fn edge_after_subscription_wakes_poller() {
    let mut p: Pollee<u32> = Pollee::new(Events::empty());
    let ready = p.poll_by(ev(IN | OUT), Some((5, 50)));
    assert!(!ready.contains(ev(IN)));
    let woken = p.add_events(ev(IN | HUP));
    assert_eq!(woken.len(), 1);
    assert_eq!(*p.subscriber(woken[0]), 50);
}

#[test]
fn poller_records_each_pollee_once() {
    let mut q = PollerCore::new(9);
    assert!(q.record(100));
    assert!(q.record(200));
    assert!(!q.record(100));
    assert_eq!(q.pollees(), &vec![100, 200]);
    assert!(q.is_recorded(200));
    assert!(!q.is_recorded(300));
    assert_eq!(q.id(), 9);
}

#[test]
fn dropping_poller_leaves_no_subscription() {
    let mut a: Pollee<u32> = Pollee::new(Events::empty());
    let mut b: Pollee<u32> = Pollee::new(Events::empty());
    let mut q = PollerCore::new(4);
    a.poll_by(ev(IN), Some((q.id(), 40)));
    q.record(1);
    b.poll_by(ev(OUT), Some((q.id(), 40)));
    q.record(2);
    for pid in q.pollees().clone() {
        let pollee = if pid == 1 { &mut a } else { &mut b };
        assert!(pollee.unsubscribe(q.id()));
    }
    assert_eq!(a.subscriber_count(), 0);
    assert_eq!(b.subscriber_count(), 0);
    assert!(a.add_events(ev(IN)).is_empty());
    assert!(b.add_events(ev(OUT)).is_empty());
}
