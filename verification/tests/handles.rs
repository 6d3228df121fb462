//! Tests of the endpoint handles and the suspend-resume protocol, driven
//! synchronously by polling with counting wakers.

use std::sync::atomic::{AtomicUsize, Ordering};
use std::sync::Arc;
use std::task::{Wake, Waker};

use mpmc::mpmc::{channel, RecvPoll, SendPoll};

struct CountingWake {
    count: AtomicUsize,
}

impl Wake for CountingWake {
    fn wake(self: Arc<Self>) {
        self.count.fetch_add(1, Ordering::SeqCst);
    }
}

fn counting_waker() -> (Arc<CountingWake>, Waker) {
    let state = Arc::new(CountingWake { count: AtomicUsize::new(0) });
    let waker = Waker::from(state.clone());
    (state, waker)
}

fn noop_waker() -> Waker {
    counting_waker().1
}

#[test]
fn capacity_one_delivers_two_values_in_order() {
    let (tx, rx) = channel(1);

    // First send fits; the second finds the buffer full and suspends.
    assert!(matches!(tx.poll_send("A".to_string(), noop_waker()), SendPoll::Resolved(Ok(()))));
    let (sender_wake, sender_waker) = counting_waker();
    assert!(matches!(tx.poll_send("B".to_string(), sender_waker), SendPoll::Suspended));
    assert_eq!(sender_wake.count.load(Ordering::SeqCst), 0);

    // Receiving "A" frees the slot and wakes the suspended sender, which
    // retries and succeeds; the receiver then observes "B".
    match rx.poll_recv(noop_waker()) {
        RecvPoll::Resolved(Ok(value)) => assert_eq!(value, "A"),
        _ => panic!("expected a value"),
    }
    assert_eq!(sender_wake.count.load(Ordering::SeqCst), 1);
    assert!(matches!(tx.poll_send("B".to_string(), noop_waker()), SendPoll::Resolved(Ok(()))));
    match rx.poll_recv(noop_waker()) {
        RecvPoll::Resolved(Ok(value)) => assert_eq!(value, "B"),
        _ => panic!("expected a value"),
    }
}

#[test]
fn recv_on_empty_open_channel_suspends_until_send() {
    let (tx, rx) = channel(1);
    let (recv_wake, recv_waker) = counting_waker();
    assert!(matches!(rx.poll_recv(recv_waker), RecvPoll::Suspended));
    assert_eq!(recv_wake.count.load(Ordering::SeqCst), 0);

    assert!(matches!(tx.poll_send("v".to_string(), noop_waker()), SendPoll::Resolved(Ok(()))));
    assert_eq!(recv_wake.count.load(Ordering::SeqCst), 1);
    match rx.poll_recv(noop_waker()) {
        RecvPoll::Resolved(Ok(value)) => assert_eq!(value, "v"),
        _ => panic!("expected a value"),
    }
}

#[test]
fn three_producers_two_consumers_deliver_every_value_once() {
    let (tx, rx) = channel(10);
    let senders = vec![tx.clone(), tx.clone(), tx];
    let rx2 = rx.clone();

    let mut sent = Vec::new();
    for (idx, sender) in senders.iter().enumerate() {
        for val in 0..2 {
            let value = format!("{val}-from-tx-{idx:0>2}");
            assert!(matches!(
                sender.poll_send(value.clone(), noop_waker()),
                SendPoll::Resolved(Ok(()))
            ));
            sent.push(value);
        }
    }
    for sender in senders {
        sender.close();
    }

    let mut received = Vec::new();
    let receivers = [rx, rx2];
    let mut closed_seen = 0;
    let mut turn = 0;
    while closed_seen < 2 {
        let receiver = &receivers[turn % 2];
        turn += 1;
        match receiver.poll_recv(noop_waker()) {
            RecvPoll::Resolved(Ok(value)) => received.push(value),
            RecvPoll::Resolved(Err(_)) => closed_seen += 1,
            RecvPoll::Suspended => panic!("a closed channel must not suspend"),
        }
    }
    assert_eq!(received, sent);
}

#[test]
fn closing_all_senders_wakes_suspended_receivers() {
    let (tx, rx) = channel(1);
    let (recv_wake, recv_waker) = counting_waker();
    assert!(matches!(rx.poll_recv(recv_waker), RecvPoll::Suspended));

    tx.close();
    assert_eq!(recv_wake.count.load(Ordering::SeqCst), 1);
    assert!(matches!(rx.poll_recv(noop_waker()), RecvPoll::Resolved(Err(_))));
}

#[test]
fn closing_all_receivers_wakes_suspended_senders() {
    let (tx, rx) = channel(1);
    assert!(matches!(tx.poll_send("a".to_string(), noop_waker()), SendPoll::Resolved(Ok(()))));
    let (send_wake, send_waker) = counting_waker();
    assert!(matches!(tx.poll_send("b".to_string(), send_waker), SendPoll::Suspended));

    rx.close();
    assert_eq!(send_wake.count.load(Ordering::SeqCst), 1);
    assert!(matches!(tx.poll_send("b".to_string(), noop_waker()), SendPoll::Resolved(Err(_))));
}

#[test]
fn cloned_sender_keeps_channel_open() {
    let (tx, rx) = channel(2);
    let tx2 = tx.clone();
    tx.close();
    assert!(matches!(tx2.poll_send("still".to_string(), noop_waker()), SendPoll::Resolved(Ok(()))));
    tx2.close();
    // All senders are gone: the buffered value drains, then the error.
    match rx.poll_recv(noop_waker()) {
        RecvPoll::Resolved(Ok(value)) => assert_eq!(value, "still"),
        _ => panic!("expected the buffered value"),
    }
    assert!(matches!(rx.poll_recv(noop_waker()), RecvPoll::Resolved(Err(_))));
}

#[test]
fn closed_error_carries_its_message() {
    let (tx, rx) = channel(1);
    rx.close();
    match tx.poll_send("a".to_string(), noop_waker()) {
        SendPoll::Resolved(Err(e)) => assert_eq!(e.message(), "channel closed"),
        _ => panic!("a closed channel must reject the send"),
    }
}

#[test]
fn send_on_capacity_zero_suspends() {
    let (tx, _rx) = channel(0);
    let (send_wake, send_waker) = counting_waker();
    assert!(matches!(tx.poll_send("a".to_string(), send_waker), SendPoll::Suspended));
    assert_eq!(send_wake.count.load(Ordering::SeqCst), 0);
}
