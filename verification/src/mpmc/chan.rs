//! The shared channel state.
//!
//! `Channel` is the single source of truth for the message buffer, the
//! capacity, the lifecycle counters and the two FIFO waiter queues. It is a
//! sync object: every method returns immediately, and the endpoint handles
//! serialize all access through one lock so that each read-modify-write
//! sequence here is atomic with respect to other callers.
//!
//! Every operation's effect is captured by a transition relation over
//! [`ChannelView`], the mathematical model of the state; the proved laws in
//! [`crate::mpmc::laws`] are stated over these relations.

use vstd::prelude::*;

use std::collections::VecDeque;
use std::task::Waker;

verus! {

/// Error returned by [`Channel::send`].
#[derive(Debug, PartialEq, Eq)]
pub enum ChannelSendError {
    /// The buffer is at capacity; the send may be retried once space frees up.
    Full,
    /// The channel is closed; the value will never be transmitted.
    Closed,
}

/// Error returned by [`Channel::recv`].
#[derive(Debug, PartialEq, Eq)]
pub enum ChannelRecvError {
    /// The buffer is empty but the channel is open; the receive may be retried.
    Empty,
    /// The buffer is empty and the channel is closed; nothing will arrive.
    Closed,
}

/// Mathematical model of the channel state.
pub ghost struct ChannelView {
    /// The buffered messages, oldest first.
    pub buffer: Seq<String>,
    /// The fixed bound on the buffer length.
    pub capacity: nat,
    /// Whether either side has fully disconnected; never reverts to false.
    pub closed: bool,
    /// The number of connected senders.
    pub senders: nat,
    /// The number of connected receivers.
    pub receivers: nat,
    /// Wakers of suspended send operations, longest-waiting first.
    pub sender_waiters: Seq<Waker>,
    /// Wakers of suspended receive operations, longest-waiting first.
    pub receiver_waiters: Seq<Waker>,
}

/// A waiter queue after waking its front entry: the longest-waiting waker is
/// removed (and invoked); an empty queue stays empty.
pub open spec fn waiters_after_wake_one(q: Seq<Waker>) -> Seq<Waker> {
    if q.len() > 0 {
        q.drop_first()
    } else {
        q
    }
}

/// The capacity, the closed flag and both lifecycle counters are unchanged.
pub open spec fn same_lifecycle(pre: ChannelView, post: ChannelView) -> bool {
    &&& post.capacity == pre.capacity
    &&& post.closed == pre.closed
    &&& post.senders == pre.senders
    &&& post.receivers == pre.receivers
}

/// The effect of [`Channel::send`]: on a closed channel it fails with
/// `Closed`; on a full one with `Full`; otherwise the value is appended to
/// the buffer tail and the longest-waiting receiver is woken.
pub open spec fn send_transition(
    pre: ChannelView,
    post: ChannelView,
    value: String,
    r: Result<(), ChannelSendError>,
) -> bool {
    match r {
        Ok(_) => {
            &&& !pre.closed
            &&& pre.buffer.len() < pre.capacity
            &&& post.buffer == pre.buffer.push(value)
            &&& post.sender_waiters == pre.sender_waiters
            &&& post.receiver_waiters == waiters_after_wake_one(pre.receiver_waiters)
            &&& same_lifecycle(pre, post)
        },
        Err(ChannelSendError::Full) => {
            &&& !pre.closed
            &&& pre.buffer.len() >= pre.capacity
            &&& post == pre
        },
        Err(ChannelSendError::Closed) => {
            &&& pre.closed
            &&& post == pre
        },
    }
}

/// The effect of [`Channel::recv`]: a non-empty buffer yields its head and
/// wakes the longest-waiting sender, even on a closed channel; an empty
/// buffer fails with `Empty` while open and `Closed` once closed.
pub open spec fn recv_transition(
    pre: ChannelView,
    post: ChannelView,
    r: Result<String, ChannelRecvError>,
) -> bool {
    match r {
        Ok(value) => {
            &&& pre.buffer.len() > 0
            &&& value == pre.buffer.first()
            &&& post.buffer == pre.buffer.drop_first()
            &&& post.sender_waiters == waiters_after_wake_one(pre.sender_waiters)
            &&& post.receiver_waiters == pre.receiver_waiters
            &&& same_lifecycle(pre, post)
        },
        Err(ChannelRecvError::Empty) => {
            &&& pre.buffer.len() == 0
            &&& !pre.closed
            &&& post == pre
        },
        Err(ChannelRecvError::Closed) => {
            &&& pre.buffer.len() == 0
            &&& pre.closed
            &&& post == pre
        },
    }
}

/// The effect of [`Channel::register_sender_waker`]: the waker joins the tail
/// of the sender waiter queue; nothing else changes.
pub open spec fn register_sender_transition(
    pre: ChannelView,
    post: ChannelView,
    waker: Waker,
) -> bool {
    &&& post.sender_waiters == pre.sender_waiters.push(waker)
    &&& post.receiver_waiters == pre.receiver_waiters
    &&& post.buffer == pre.buffer
    &&& same_lifecycle(pre, post)
}

/// The effect of [`Channel::register_receiver_waker`].
pub open spec fn register_receiver_transition(
    pre: ChannelView,
    post: ChannelView,
    waker: Waker,
) -> bool {
    &&& post.receiver_waiters == pre.receiver_waiters.push(waker)
    &&& post.sender_waiters == pre.sender_waiters
    &&& post.buffer == pre.buffer
    &&& same_lifecycle(pre, post)
}

/// The effect of [`Channel::wake_next_sender`]: the longest-waiting sender
/// waker, if any, is removed and invoked; nothing else changes.
pub open spec fn wake_sender_transition(pre: ChannelView, post: ChannelView) -> bool {
    &&& post.sender_waiters == waiters_after_wake_one(pre.sender_waiters)
    &&& post.receiver_waiters == pre.receiver_waiters
    &&& post.buffer == pre.buffer
    &&& same_lifecycle(pre, post)
}

/// The effect of [`Channel::wake_next_receiver`].
pub open spec fn wake_receiver_transition(pre: ChannelView, post: ChannelView) -> bool {
    &&& post.receiver_waiters == waiters_after_wake_one(pre.receiver_waiters)
    &&& post.sender_waiters == pre.sender_waiters
    &&& post.buffer == pre.buffer
    &&& same_lifecycle(pre, post)
}

/// The effect of [`Channel::close`]: the channel is closed and every waiter
/// of both kinds is woken (each suspended operation re-checks the state and
/// observes closure); the buffer and the counters are untouched.
pub open spec fn close_transition(pre: ChannelView, post: ChannelView) -> bool {
    &&& post.closed
    &&& post.sender_waiters.len() == 0
    &&& post.receiver_waiters.len() == 0
    &&& post.buffer == pre.buffer
    &&& post.capacity == pre.capacity
    &&& post.senders == pre.senders
    &&& post.receivers == pre.receivers
}

/// The effect of [`Channel::inc_senders`].
pub open spec fn sender_attach_transition(pre: ChannelView, post: ChannelView) -> bool {
    &&& post.senders == pre.senders + 1
    &&& post.receivers == pre.receivers
    &&& post.capacity == pre.capacity
    &&& post.closed == pre.closed
    &&& post.buffer == pre.buffer
    &&& post.sender_waiters == pre.sender_waiters
    &&& post.receiver_waiters == pre.receiver_waiters
}

/// The effect of [`Channel::inc_receivers`].
pub open spec fn receiver_attach_transition(pre: ChannelView, post: ChannelView) -> bool {
    &&& post.receivers == pre.receivers + 1
    &&& post.senders == pre.senders
    &&& post.capacity == pre.capacity
    &&& post.closed == pre.closed
    &&& post.buffer == pre.buffer
    &&& post.sender_waiters == pre.sender_waiters
    &&& post.receiver_waiters == pre.receiver_waiters
}

/// The effect of [`Channel::dec_senders`]: the count drops by one; when it
/// reaches zero the channel closes and every waiter is woken.
pub open spec fn sender_detach_transition(pre: ChannelView, post: ChannelView) -> bool {
    &&& pre.senders >= 1
    &&& post.senders == pre.senders - 1
    &&& post.receivers == pre.receivers
    &&& post.capacity == pre.capacity
    &&& post.buffer == pre.buffer
    &&& if pre.senders == 1 {
        &&& post.closed
        &&& post.sender_waiters.len() == 0
        &&& post.receiver_waiters.len() == 0
    } else {
        &&& post.closed == pre.closed
        &&& post.sender_waiters == pre.sender_waiters
        &&& post.receiver_waiters == pre.receiver_waiters
    }
}

/// The effect of [`Channel::dec_receivers`].
pub open spec fn receiver_detach_transition(pre: ChannelView, post: ChannelView) -> bool {
    &&& pre.receivers >= 1
    &&& post.receivers == pre.receivers - 1
    &&& post.senders == pre.senders
    &&& post.capacity == pre.capacity
    &&& post.buffer == pre.buffer
    &&& if pre.receivers == 1 {
        &&& post.closed
        &&& post.sender_waiters.len() == 0
        &&& post.receiver_waiters.len() == 0
    } else {
        &&& post.closed == pre.closed
        &&& post.sender_waiters == pre.sender_waiters
        &&& post.receiver_waiters == pre.receiver_waiters
    }
}

/// The inner mpmc channel implementation.
///
/// This is a sync object: all methods return immediately. The endpoint
/// handles keep one `Channel` behind a lock and hold it to [`Channel::wf`].
pub struct Channel {
    /// The message buffer.
    pub buffer: VecDeque<String>,
    /// The capacity of the channel: this many messages can be buffered before
    /// sending will error.
    pub capacity: usize,
    /// Indicates when the channel has been closed.
    pub closed: bool,
    /// The number of connected `Sender`s.
    pub senders: usize,
    /// The number of connected `Receiver`s.
    pub receivers: usize,
    /// A queue of wakers for senders awaiting free capacity in the channel.
    pub sender_wakers: VecDeque<Waker>,
    /// A queue of wakers for receivers awaiting a new message in the channel.
    pub receiver_wakers: VecDeque<Waker>,
}

impl View for Channel {
    type V = ChannelView;

    open spec fn view(&self) -> ChannelView {
        ChannelView {
            buffer: self.buffer@,
            capacity: self.capacity as nat,
            closed: self.closed,
            senders: self.senders as nat,
            receivers: self.receivers as nat,
            sender_waiters: self.sender_wakers@,
            receiver_waiters: self.receiver_wakers@,
        }
    }
}

impl Channel {
    /// The channel invariant: the buffer never exceeds the capacity.
    pub open spec fn wf(self) -> bool {
        self@.buffer.len() <= self@.capacity
    }

    /// Creates an open, empty channel with no connected endpoints and no
    /// waiters.
    pub fn new(capacity: usize) -> (c: Channel)
        ensures
            c.wf(),
            c@.capacity == capacity,
            c@.buffer == Seq::<String>::empty(),
            !c@.closed,
            c@.senders == 0,
            c@.receivers == 0,
            c@.sender_waiters == Seq::<Waker>::empty(),
            c@.receiver_waiters == Seq::<Waker>::empty(),
    {
        Channel {
            buffer: VecDeque::with_capacity(capacity),
            capacity,
            closed: false,
            senders: 0,
            receivers: 0,
            sender_wakers: VecDeque::new(),
            receiver_wakers: VecDeque::new(),
        }
    }

    /// Sends a message across the channel.
    ///
    /// If the message can be sent, the next receiver waker in the queue (if
    /// any) will be woken as there is now an additional message which can be
    /// received.
    ///
    /// An error will be returned if the channel is full or closed.
    pub fn send(&mut self, value: String) -> (r: Result<(), ChannelSendError>)
        requires
            old(self).wf(),
        ensures
            final(self).wf(),
            send_transition(old(self)@, final(self)@, value, r),
    {
        if self.closed {
            return Err(ChannelSendError::Closed);
        }
        if self.buffer.len() < self.capacity {
            self.buffer.push_back(value);
            self.wake_next_receiver();
            Ok(())
        } else {
            Err(ChannelSendError::Full)
        }
    }

    /// Receives a message from the channel.
    ///
    /// If a message can be received, then the next sender waker in the queue
    /// (if any) will be woken as there is now additional free capacity to
    /// send another message.
    ///
    /// An error will be returned if the channel is empty. The error will
    /// depend on whether the channel is also closed.
    pub fn recv(&mut self) -> (r: Result<String, ChannelRecvError>)
        requires
            old(self).wf(),
        ensures
            final(self).wf(),
            recv_transition(old(self)@, final(self)@, r),
    {
        match self.buffer.pop_front() {
            Some(value) => {
                self.wake_next_sender();
                Ok(value)
            },
            None => {
                if !self.closed {
                    Err(ChannelRecvError::Empty)
                } else {
                    Err(ChannelRecvError::Closed)
                }
            },
        }
    }

    /// Registers a waker to be woken when capacity is available.
    ///
    /// Senders are woken in FIFO order.
    pub fn register_sender_waker(&mut self, waker: Waker)
        ensures
            register_sender_transition(old(self)@, final(self)@, waker),
    {
        self.sender_wakers.push_back(waker);
    }

    /// Registers a waker to be woken when a message is available.
    ///
    /// Receivers are woken in FIFO order.
    pub fn register_receiver_waker(&mut self, waker: Waker)
        ensures
            register_receiver_transition(old(self)@, final(self)@, waker),
    {
        self.receiver_wakers.push_back(waker);
    }

    /// Wakes the sender at the front of the queue.
    ///
    /// If no sender wakers are registered, this method does nothing.
    pub fn wake_next_sender(&mut self)
        ensures
            wake_sender_transition(old(self)@, final(self)@),
    {
        match self.sender_wakers.pop_front() {
            Some(waker) => waker.wake(),
            None => {},
        }
    }

    /// Wakes the receiver at the front of the queue.
    ///
    /// If no receiver wakers are registered, this method does nothing.
    pub fn wake_next_receiver(&mut self)
        ensures
            wake_receiver_transition(old(self)@, final(self)@),
    {
        match self.receiver_wakers.pop_front() {
            Some(waker) => waker.wake(),
            None => {},
        }
    }

    /// Increment the sender count.
    pub fn inc_senders(&mut self)
        requires
            old(self).senders < usize::MAX,
        ensures
            sender_attach_transition(old(self)@, final(self)@),
    {
        self.senders = self.senders + 1;
    }

    /// Decrement the sender count.
    ///
    /// If the count reaches zero, close the channel.
    pub fn dec_senders(&mut self)
        requires
            old(self).senders >= 1,
        ensures
            sender_detach_transition(old(self)@, final(self)@),
    {
        self.senders = self.senders - 1;
        if self.senders == 0 {
            self.close();
        }
    }

    /// Increment the receiver count.
    pub fn inc_receivers(&mut self)
        requires
            old(self).receivers < usize::MAX,
        ensures
            receiver_attach_transition(old(self)@, final(self)@),
    {
        self.receivers = self.receivers + 1;
    }

    /// Decrement the receiver count.
    ///
    /// If the count reaches zero, close the channel.
    pub fn dec_receivers(&mut self)
        requires
            old(self).receivers >= 1,
        ensures
            receiver_detach_transition(old(self)@, final(self)@),
    {
        self.receivers = self.receivers - 1;
        if self.receivers == 0 {
            self.close();
        }
    }

    /// Close the channel.
    ///
    /// All sender and receiver wakers which have been registered, but not yet
    /// woken will get woken now.
    pub fn close(&mut self)
        ensures
            close_transition(old(self)@, final(self)@),
    {
        self.closed = true;
        let ghost snap = *self;
        while self.sender_wakers.len() > 0
            invariant
                self.closed == snap.closed,
                self.buffer == snap.buffer,
                self.capacity == snap.capacity,
                self.senders == snap.senders,
                self.receivers == snap.receivers,
                self.receiver_wakers == snap.receiver_wakers,
            decreases self.sender_wakers@.len(),
        {
            match self.sender_wakers.pop_front() {
                Some(waker) => waker.wake(),
                None => {},
            }
        }
        while self.receiver_wakers.len() > 0
            invariant
                self.closed == snap.closed,
                self.buffer == snap.buffer,
                self.capacity == snap.capacity,
                self.senders == snap.senders,
                self.receivers == snap.receivers,
                self.sender_wakers@.len() == 0,
            decreases self.receiver_wakers@.len(),
        {
            match self.receiver_wakers.pop_front() {
                Some(waker) => waker.wake(),
                None => {},
            }
        }
    }
}

} // verus!
