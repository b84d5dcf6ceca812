use async_io_core::errno::Errno;
use async_io_core::events::{Events, StatusFlags, IN, O_NONBLOCK, OUT};
use async_io_core::file_io::{
    first_nonempty, is_nonblocking, should_io_return, IoAction, IoLoop, IoPhase,
};
use async_io_core::pollee::Pollee;
use async_io_core::waiter::{WaiterCore, WaiterState};

fn ev(bits: u32) -> Events {
    Events::from_bits(bits)
}

#[test]
fn nonblocking_flag_is_read() {
    assert!(is_nonblocking(StatusFlags::from_bits(O_NONBLOCK)));
    assert!(is_nonblocking(StatusFlags::from_bits(O_NONBLOCK | 0o2)));
    assert!(!is_nonblocking(StatusFlags::empty()));
    assert!(!is_nonblocking(StatusFlags::from_bits(0o2000)));
}

#[test]
fn should_io_return_cases() {
    assert!(should_io_return(&Err(Errno::EAGAIN), true));
    assert!(!should_io_return(&Err(Errno::EAGAIN), false));
    assert!(should_io_return(&Err(Errno::EINTR), false));
    assert!(should_io_return(&Ok(0), false));
}

#[test]
fn first_nonempty_picks_first_buffer_with_room() {
    assert_eq!(first_nonempty(&vec![0, 0, 4, 2]), Some(2));
    assert_eq!(first_nonempty(&vec![3]), Some(0));
    assert_eq!(first_nonempty(&vec![0, 0]), None);
    assert_eq!(first_nonempty(&vec![]), None);
}

#[test]
fn fast_path_success_returns_at_once() {
    let mut l = IoLoop::new(StatusFlags::empty(), ev(IN));
    assert!(matches!(l.on_io_result(Ok(5)), IoAction::Return(Ok(5))));
    assert_eq!(l.phase, IoPhase::Done);
}

#[test]
fn terminal_error_propagates() {
    let mut l = IoLoop::new(StatusFlags::empty(), ev(OUT));
    assert!(matches!(l.on_io_result(Err(Errno::EBADF)), IoAction::Return(Err(Errno::EBADF))));
}

#[test]
fn nonblocking_would_block_is_returned() {
    let mut p: Pollee<u32> = Pollee::new(Events::empty());
    let mut l = IoLoop::new(StatusFlags::from_bits(O_NONBLOCK), ev(IN));
    assert!(l.nonblocking);
    let a = l.on_io_result(Err(Errno::EAGAIN));
    assert!(matches!(a, IoAction::Return(Err(Errno::EAGAIN))));
    assert_eq!(p.subscriber_count(), 0);
    assert_eq!(p.poll_by(ev(IN), None), Events::empty());
}

#[test]
fn blocking_read_waits_for_edge_then_reads() {
    let mut file: Pollee<u64> = Pollee::new(Events::empty());
    let mut waiter: WaiterCore<&str> = WaiterCore::new();
    let mut l = IoLoop::new(StatusFlags::empty(), ev(IN));

    let a = l.on_io_result(Err(Errno::EAGAIN));
    assert!(matches!(a, IoAction::Subscribe(m) if m == ev(IN)));
    let events = file.poll_by(ev(IN), Some((1, 1)));
    assert_eq!(events, Events::empty());
    assert!(matches!(l.on_polled(events), IoAction::Wait));
    assert!(!waiter.poll_wait("task"));
    assert_eq!(waiter.state(), WaiterState::Waiting);

    let woken = file.add_events(ev(IN));
    assert_eq!(woken, vec![0]);
    assert_eq!(*file.subscriber(0), 1);
    assert_eq!(waiter.wake(), (Some(()), Some("task")));
    assert!(waiter.poll_wait("task"));
    assert!(file.unsubscribe(1));

    assert!(matches!(l.on_woken(), IoAction::Subscribe(_)));
    let events = file.poll_by(ev(IN), Some((2, 2)));
    assert_eq!(events, ev(IN));
    assert!(matches!(l.on_polled(events), IoAction::TryIo));
    assert!(matches!(l.on_io_result(Ok(8)), IoAction::Return(Ok(8))));
    assert_eq!(l.phase, IoPhase::Done);
}

#[test]
fn cancelled_read_leaves_no_subscriber() {
    let mut file: Pollee<u64> = Pollee::new(Events::empty());
    let mut waiter: WaiterCore<&str> = WaiterCore::new();
    let mut l = IoLoop::new(StatusFlags::empty(), ev(IN));
    l.on_io_result(Err(Errno::EAGAIN));
    let events = file.poll_by(ev(IN), Some((1, 1)));
    l.on_polled(events);
    assert!(!waiter.poll_wait("task"));

    waiter.cancel_wait();
    file.unsubscribe(1);
    assert_eq!(waiter.state(), WaiterState::Idle);
    assert!(waiter.raw_waker.is_none());
    assert_eq!(file.subscriber_count(), 0);
    assert!(file.add_events(ev(IN)).is_empty());
}

#[test]
fn retry_that_still_would_block_waits() {
    let mut l = IoLoop::new(StatusFlags::empty(), ev(OUT));
    l.on_io_result(Err(Errno::EAGAIN));
    assert!(matches!(l.on_polled(ev(OUT)), IoAction::TryIo));
    assert!(matches!(l.on_io_result(Err(Errno::EAGAIN)), IoAction::Wait));
    assert_eq!(l.phase, IoPhase::Waiting);
    assert!(matches!(l.on_woken(), IoAction::Subscribe(m) if m == ev(OUT)));
}

#[test]
fn two_readers_both_woken_by_one_edge() {
    let mut file: Pollee<u64> = Pollee::new(Events::empty());
    let mut t1 = IoLoop::new(StatusFlags::empty(), ev(IN));
    let mut t2 = IoLoop::new(StatusFlags::empty(), ev(IN));
    t1.on_io_result(Err(Errno::EAGAIN));
    t2.on_io_result(Err(Errno::EAGAIN));
    let e1 = file.poll_by(ev(IN), Some((1, 1)));
    let e2 = file.poll_by(ev(IN), Some((2, 2)));
    assert!(matches!(t1.on_polled(e1), IoAction::Wait));
    assert!(matches!(t2.on_polled(e2), IoAction::Wait));
    let woken = file.add_events(ev(IN));
    assert_eq!(woken, vec![0, 1]);
    assert_eq!(*file.subscriber(0), 1);
    assert_eq!(*file.subscriber(1), 2);
}
