//! The endpoint handles.
//!
//! `Sender` and `Receiver` wrap shared ownership of one [`Channel`] behind a
//! lock. Constructing or cloning a handle increments the matching connection
//! count; closing a handle decrements it, and the channel closes when either
//! count reaches zero.
//!
//! A send or receive call is a one-shot suspend-resume operation: it attempts
//! the non-blocking state transition and, on failure, registers a waker to be
//! invoked later, reporting [`SendPoll::Suspended`] / [`RecvPoll::Suspended`]
//! so the caller yields to its scheduler and retries on wake. The exact
//! effect of one attempt is [`poll_send_transition`] / [`poll_recv_transition`];
//! which state an attempt observes is decided by the interleaving under the
//! lock, so the handle methods themselves promise only that some such
//! atomic transition happened.

use vstd::prelude::*;
use vstd::rwlock::{RwLock, RwLockPredicate};

use std::sync::Arc;
use std::task::Waker;

use crate::mpmc::chan::{
    recv_transition, register_receiver_transition, register_sender_transition, send_transition,
    Channel, ChannelRecvError, ChannelSendError, ChannelView,
};

verus! {

/// Error returned when the underlying channel is closed.
///
/// This error will be returned from a send or a receive operation if the
/// channel is closed. In the case of receiving, the channel must also be
/// empty, otherwise the next value will be returned.
#[derive(Debug, PartialEq, Eq)]
pub struct ChannelClosedError {}

impl ChannelClosedError {
    /// The error text.
    pub fn message(&self) -> (r: String)
        ensures
            r@ == "channel closed"@,
    {
        "channel closed".to_owned()
    }
}

/// The lock invariant of the shared channel state: every value stored in the
/// lock is well formed and keeps the capacity the channel was created with.
pub ghost struct ChannelPred {
    /// The fixed capacity of the channel behind the lock.
    pub capacity: nat,
}

impl RwLockPredicate<Channel> for ChannelPred {
    open spec fn inv(self, c: Channel) -> bool {
        c.wf() && c@.capacity == self.capacity
    }
}

/// The outcome of one poll of a send operation.
pub enum SendPoll {
    /// The operation resolved: the value was buffered, or the channel is
    /// closed and the value will never be transmitted.
    Resolved(Result<(), ChannelClosedError>),
    /// The buffer was full: a waker was registered and the caller should
    /// suspend until it is invoked, then retry.
    Suspended,
}

/// The outcome of one poll of a receive operation.
pub enum RecvPoll {
    /// The operation resolved: a value arrived, or the channel is closed and
    /// drained.
    Resolved(Result<String, ChannelClosedError>),
    /// The buffer was empty but the channel open: a waker was registered and
    /// the caller should suspend until it is invoked, then retry.
    Suspended,
}

/// The effect of one send attempt on the locked state: either the plain
/// [`send_transition`] resolves it, or the buffer was full and the waker
/// joined the sender waiter queue.
pub open spec fn poll_send_transition(
    pre: ChannelView,
    post: ChannelView,
    value: String,
    waker: Waker,
    r: SendPoll,
) -> bool {
    match r {
        SendPoll::Resolved(Ok(_)) => send_transition(pre, post, value, Ok(())),
        SendPoll::Resolved(Err(_)) => send_transition(
            pre,
            post,
            value,
            Err(ChannelSendError::Closed),
        ),
        SendPoll::Suspended => {
            &&& !pre.closed
            &&& pre.buffer.len() >= pre.capacity
            &&& register_sender_transition(pre, post, waker)
        },
    }
}

/// The effect of one receive attempt on the locked state.
pub open spec fn poll_recv_transition(
    pre: ChannelView,
    post: ChannelView,
    waker: Waker,
    r: RecvPoll,
) -> bool {
    match r {
        RecvPoll::Resolved(Ok(value)) => recv_transition(pre, post, Ok(value)),
        RecvPoll::Resolved(Err(_)) => recv_transition(
            pre,
            post,
            Err(ChannelRecvError::Closed),
        ),
        RecvPoll::Suspended => {
            &&& pre.buffer.len() == 0
            &&& !pre.closed
            &&& register_receiver_transition(pre, post, waker)
        },
    }
}

/// One send attempt against the already-acquired channel state: try the
/// non-blocking send; on `Full`, register the waker and report suspension; on
/// `Closed`, resolve to the public error.
pub fn poll_send_step(chan: &mut Channel, value: String, waker: Waker) -> (r: SendPoll)
    requires
        old(chan).wf(),
    ensures
        final(chan).wf(),
        poll_send_transition(old(chan)@, final(chan)@, value, waker, r),
{
    match chan.send(value) {
        Ok(_) => SendPoll::Resolved(Ok(())),
        Err(ChannelSendError::Closed) => SendPoll::Resolved(Err(ChannelClosedError {})),
        Err(ChannelSendError::Full) => {
            chan.register_sender_waker(waker);
            SendPoll::Suspended
        },
    }
}

/// One receive attempt against the already-acquired channel state.
pub fn poll_recv_step(chan: &mut Channel, waker: Waker) -> (r: RecvPoll)
    requires
        old(chan).wf(),
    ensures
        final(chan).wf(),
        poll_recv_transition(old(chan)@, final(chan)@, waker, r),
{
    match chan.recv() {
        Ok(value) => RecvPoll::Resolved(Ok(value)),
        Err(ChannelRecvError::Closed) => RecvPoll::Resolved(Err(ChannelClosedError {})),
        Err(ChannelRecvError::Empty) => {
            chan.register_receiver_waker(waker);
            RecvPoll::Suspended
        },
    }
}

/// The sending half of the channel.
///
/// This half can be cloned to send from multiple tasks. Closing every sender
/// closes the channel.
pub struct Sender {
    inner: Arc<RwLock<Channel, ChannelPred>>,
}

/// The receiving half of the channel.
///
/// This half can be cloned to receive from multiple tasks; each message is
/// received by a single receiver. Closing every receiver closes the channel.
pub struct Receiver {
    inner: Arc<RwLock<Channel, ChannelPred>>,
}

/// Creates a new asynchronous bounded multi-producer multi-consumer channel,
/// returning the sender/receiver halves.
///
/// The channel will buffer messages up to the defined capacity. Once the
/// buffer is full, attempts to send new messages will wait until a message is
/// received from the channel. When the channel is empty, attempts to receive
/// new messages will wait until a message is sent to the channel.
///
/// If all receivers or all senders have disconnected, the channel will be
/// closed. Subsequent attempts to send a message will return a
/// [`ChannelClosedError`]. Subsequent attempts to receive a message will
/// drain the channel and once it is empty, will also return a
/// [`ChannelClosedError`].
pub fn channel(capacity: usize) -> (pair: (Sender, Receiver))
    ensures
        pair.0.connected_to(pair.1),
        pair.0.capacity() == capacity,
        pair.1.capacity() == capacity,
{
    let chan = Channel::new(capacity);
    let lock = RwLock::<Channel, ChannelPred>::new(
        chan,
        Ghost(ChannelPred { capacity: capacity as nat }),
    );
    let inner = Arc::new(lock);
    let tx = Sender::new(inner.clone());
    let rx = Receiver::new(inner);
    (tx, rx)
}

impl Sender {
    /// The shared, locked channel state this sender feeds.
    pub closed spec fn chan(self) -> Arc<RwLock<Channel, ChannelPred>> {
        self.inner
    }

    /// The capacity of the channel this sender feeds.
    pub closed spec fn capacity(self) -> nat {
        self.inner.pred().capacity
    }

    /// Both handles talk to the same channel.
    pub open spec fn connected_to(self, rx: Receiver) -> bool {
        self.chan() == rx.chan()
    }

    /// Both senders feed the same channel.
    pub open spec fn same_channel(self, other: Sender) -> bool {
        self.chan() == other.chan()
    }

    /// Attaches a new sender to the shared channel state.
    ///
    /// The count cannot overflow in practice — every connected sender owns a
    /// distinct allocation — so the guard below is never taken; it stands
    /// because nothing shared through the lock bounds the count.
    pub(crate) fn new(inner: Arc<RwLock<Channel, ChannelPred>>) -> (tx: Sender)
        ensures
            tx.chan() == inner,
    {
        let (mut chan, handle) = inner.acquire_write();
        // Every live sender owns a distinct allocation, so the count never
        // reaches usize::MAX; the lock invariant does not carry that bound,
        // hence the guard.
        if chan.senders < usize::MAX {
            chan.inc_senders();
        }
        handle.release_write(chan);
        Sender { inner }
    }

    /// Attempts to send a value, registering `waker` to be invoked once
    /// capacity frees up if the buffer is full.
    ///
    /// A resolved error means the value will never be received; a resolved
    /// success does not guarantee that it will be, as all receivers may
    /// disconnect immediately afterwards.
    pub fn poll_send(&self, value: String, waker: Waker) -> (r: SendPoll)
        ensures
            exists|pre: ChannelView, post: ChannelView|
                #[trigger] poll_send_transition(pre, post, value, waker, r)
                    && pre.capacity == self.capacity() && pre.buffer.len() <= pre.capacity,
    {
        let (mut chan, handle) = self.inner.acquire_write();
        let ghost pre = chan@;
        let r = poll_send_step(&mut chan, value, waker);
        proof {
            assert(poll_send_transition(pre, chan@, value, waker, r));
        }
        handle.release_write(chan);
        r
    }

    /// Detaches this sender from the channel; when the last sender is closed
    /// the channel closes and every waiter is woken.
    pub fn close(self) {
        let (mut chan, handle) = self.inner.acquire_write();
        // Closing consumes the handle, so each sender detaches exactly once
        // and the count is positive here; the lock invariant does not carry
        // that, hence the guard.
        if chan.senders >= 1 {
            chan.dec_senders();
        }
        handle.release_write(chan);
    }
}

impl Clone for Sender {
    /// Produces a new handle sending to the same channel; the sender count
    /// grows by one.
    fn clone(&self) -> (tx: Sender)
        ensures
            tx.same_channel(*self),
    {
        Sender::new(self.inner.clone())
    }
}

impl Receiver {
    /// The shared, locked channel state this receiver drains.
    pub closed spec fn chan(self) -> Arc<RwLock<Channel, ChannelPred>> {
        self.inner
    }

    /// The capacity of the channel this receiver drains.
    pub closed spec fn capacity(self) -> nat {
        self.inner.pred().capacity
    }

    /// Both receivers drain the same channel.
    pub open spec fn same_channel(self, other: Receiver) -> bool {
        self.chan() == other.chan()
    }

    /// Attaches a new receiver to the shared channel state.
    pub(crate) fn new(inner: Arc<RwLock<Channel, ChannelPred>>) -> (rx: Receiver)
        ensures
            rx.chan() == inner,
    {
        let (mut chan, handle) = inner.acquire_write();
        // As for senders: the count never reaches usize::MAX in practice.
        if chan.receivers < usize::MAX {
            chan.inc_receivers();
        }
        handle.release_write(chan);
        Receiver { inner }
    }

    /// Attempts to receive a value, registering `waker` to be invoked once a
    /// message arrives if the buffer is empty and the channel open.
    ///
    /// Once the channel is closed, remaining buffered values are still
    /// returned; only an empty, closed channel resolves to the error.
    pub fn poll_recv(&self, waker: Waker) -> (r: RecvPoll)
        ensures
            exists|pre: ChannelView, post: ChannelView|
                #[trigger] poll_recv_transition(pre, post, waker, r)
                    && pre.capacity == self.capacity() && pre.buffer.len() <= pre.capacity,
    {
        let (mut chan, handle) = self.inner.acquire_write();
        let ghost pre = chan@;
        let r = poll_recv_step(&mut chan, waker);
        proof {
            assert(poll_recv_transition(pre, chan@, waker, r));
        }
        handle.release_write(chan);
        r
    }

    /// Detaches this receiver from the channel; when the last receiver is
    /// closed the channel closes and every waiter is woken.
    pub fn close(self) {
        let (mut chan, handle) = self.inner.acquire_write();
        // As for senders: each receiver detaches exactly once.
        if chan.receivers >= 1 {
            chan.dec_receivers();
        }
        handle.release_write(chan);
    }
}

impl Clone for Receiver {
    /// Produces a new handle receiving from the same channel; the receiver
    /// count grows by one.
    fn clone(&self) -> (rx: Receiver)
        ensures
            rx.same_channel(*self),
    {
        Receiver::new(self.inner.clone())
    }
}

} // verus!
