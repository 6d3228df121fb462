//! Tests of the lock-held channel state operations, driven directly.

use std::sync::atomic::{AtomicUsize, Ordering};
use std::sync::Arc;
use std::task::{Wake, Waker};

use mpmc::mpmc::{Channel, ChannelRecvError, ChannelSendError};

struct CountingWake {
    count: AtomicUsize,
}

impl Wake for CountingWake {
    fn wake(self: Arc<Self>) {
        self.count.fetch_add(1, Ordering::SeqCst);
    }
}

fn counting_waker() -> (Arc<CountingWake>, Waker) {
    let state = Arc::new(CountingWake { count: AtomicUsize::new(0) });
    let waker = Waker::from(state.clone());
    (state, waker)
}

#[test]
fn send_then_recv_returns_same_value() {
    let mut chan = Channel::new(4);
    assert_eq!(chan.send("hello".to_string()), Ok(()));
    assert_eq!(chan.recv(), Ok("hello".to_string()));
}

#[test]
fn sends_with_space_all_succeed_without_suspending() {
    let mut chan = Channel::new(5);
    for i in 0..5 {
        assert_eq!(chan.send(format!("msg-{i}")), Ok(()));
    }
    assert_eq!(chan.sender_wakers.len(), 0);
    assert_eq!(chan.buffer.len(), 5);
}

#[test]
fn send_on_full_buffer_reports_full() {
    let mut chan = Channel::new(1);
    assert_eq!(chan.send("a".to_string()), Ok(()));
    assert_eq!(chan.send("b".to_string()), Err(ChannelSendError::Full));
}

#[test]
fn send_on_closed_channel_reports_closed() {
    let mut chan = Channel::new(1);
    chan.close();
    assert_eq!(chan.send("a".to_string()), Err(ChannelSendError::Closed));
}

#[test]
fn recv_on_empty_open_channel_reports_empty() {
    let mut chan = Channel::new(1);
    assert_eq!(chan.recv(), Err(ChannelRecvError::Empty));
}

#[test]
fn values_come_out_in_fifo_order() {
    let mut chan = Channel::new(3);
    assert_eq!(chan.send("one".to_string()), Ok(()));
    assert_eq!(chan.send("two".to_string()), Ok(()));
    assert_eq!(chan.send("three".to_string()), Ok(()));
    assert_eq!(chan.recv(), Ok("one".to_string()));
    assert_eq!(chan.recv(), Ok("two".to_string()));
    assert_eq!(chan.recv(), Ok("three".to_string()));
}

#[test]
fn closed_channel_drains_in_order_then_reports_closed() {
    let mut chan = Channel::new(3);
    assert_eq!(chan.send("a".to_string()), Ok(()));
    assert_eq!(chan.send("b".to_string()), Ok(()));
    chan.close();
    assert_eq!(chan.recv(), Ok("a".to_string()));
    assert_eq!(chan.recv(), Ok("b".to_string()));
    assert_eq!(chan.recv(), Err(ChannelRecvError::Closed));
    assert_eq!(chan.recv(), Err(ChannelRecvError::Closed));
}

#[test]
fn capacity_zero_rejects_every_immediate_send() {
    let mut chan = Channel::new(0);
    assert_eq!(chan.send("a".to_string()), Err(ChannelSendError::Full));
    assert_eq!(chan.recv(), Err(ChannelRecvError::Empty));
}

#[test]
fn recv_wakes_longest_waiting_sender() {
    let mut chan = Channel::new(1);
    assert_eq!(chan.send("a".to_string()), Ok(()));
    let (first, first_waker) = counting_waker();
    let (second, second_waker) = counting_waker();
    chan.register_sender_waker(first_waker);
    chan.register_sender_waker(second_waker);
    assert_eq!(chan.recv(), Ok("a".to_string()));
    assert_eq!(first.count.load(Ordering::SeqCst), 1);
    assert_eq!(second.count.load(Ordering::SeqCst), 0);
    assert_eq!(chan.sender_wakers.len(), 1);
}

#[test]
fn send_wakes_longest_waiting_receiver() {
    let mut chan = Channel::new(1);
    let (first, first_waker) = counting_waker();
    let (second, second_waker) = counting_waker();
    chan.register_receiver_waker(first_waker);
    chan.register_receiver_waker(second_waker);
    assert_eq!(chan.send("a".to_string()), Ok(()));
    assert_eq!(first.count.load(Ordering::SeqCst), 1);
    assert_eq!(second.count.load(Ordering::SeqCst), 0);
    assert_eq!(chan.receiver_wakers.len(), 1);
}

#[test]
fn close_wakes_every_registered_waiter() {
    let mut chan = Channel::new(1);
    let (s1, s1_waker) = counting_waker();
    let (s2, s2_waker) = counting_waker();
    let (r1, r1_waker) = counting_waker();
    chan.register_sender_waker(s1_waker);
    chan.register_sender_waker(s2_waker);
    chan.register_receiver_waker(r1_waker);
    chan.close();
    assert_eq!(s1.count.load(Ordering::SeqCst), 1);
    assert_eq!(s2.count.load(Ordering::SeqCst), 1);
    assert_eq!(r1.count.load(Ordering::SeqCst), 1);
    assert_eq!(chan.sender_wakers.len(), 0);
    assert_eq!(chan.receiver_wakers.len(), 0);
    assert!(chan.closed);
}

#[test]
fn last_sender_detach_closes_and_wakes_all() {
    let mut chan = Channel::new(1);
    chan.inc_senders();
    chan.inc_senders();
    let (r1, r1_waker) = counting_waker();
    chan.register_receiver_waker(r1_waker);
    chan.dec_senders();
    assert!(!chan.closed);
    assert_eq!(r1.count.load(Ordering::SeqCst), 0);
    chan.dec_senders();
    assert!(chan.closed);
    assert_eq!(r1.count.load(Ordering::SeqCst), 1);
    assert_eq!(chan.receiver_wakers.len(), 0);
}

#[test]
fn last_receiver_detach_closes_the_channel() {
    let mut chan = Channel::new(1);
    chan.inc_receivers();
    assert!(!chan.closed);
    chan.dec_receivers();
    assert!(chan.closed);
}

#[test]
fn draining_a_closed_channel_still_wakes_senders() {
    let mut chan = Channel::new(1);
    assert_eq!(chan.send("a".to_string()), Ok(()));
    let (s1, s1_waker) = counting_waker();
    chan.register_sender_waker(s1_waker);
    chan.inc_senders();
    chan.inc_receivers();
    chan.dec_senders();
    assert!(chan.closed);
    assert_eq!(s1.count.load(Ordering::SeqCst), 1);
    assert_eq!(chan.recv(), Ok("a".to_string()));
    assert_eq!(chan.recv(), Err(ChannelRecvError::Closed));
}
