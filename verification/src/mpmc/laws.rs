//! Proved properties that relate several channel operations.
//!
//! The laws are stated over [`ChannelView`] and the transition relations that
//! the exec operations in [`crate::mpmc::chan`] and [`crate::mpmc::handle`]
//! ensure, so each law holds of any run of those operations, however the
//! concurrent callers interleave under the lock.

use vstd::prelude::*;

use std::task::Waker;

use crate::mpmc::chan::{
    close_transition, receiver_attach_transition, receiver_detach_transition, recv_transition,
    register_receiver_transition, register_sender_transition, send_transition,
    sender_attach_transition, sender_detach_transition, waiters_after_wake_one,
    wake_receiver_transition, wake_sender_transition, ChannelRecvError, ChannelSendError,
    ChannelView,
};
use crate::mpmc::handle::{
    poll_recv_transition, poll_send_transition, ChannelClosedError, RecvPoll, SendPoll,
};

verus! {

/// One channel operation of a trace, with its observed result.
pub enum ChanOp {
    /// A send attempt of the value, with its result.
    Sent(String, Result<(), ChannelSendError>),
    /// A receive attempt, with its result.
    Received(Result<String, ChannelRecvError>),
    /// A suspended send registered its waker.
    RegisteredSender(Waker),
    /// A suspended receive registered its waker.
    RegisteredReceiver(Waker),
    /// The longest-waiting sender, if any, was woken.
    WokeSender,
    /// The longest-waiting receiver, if any, was woken.
    WokeReceiver,
    /// A sender handle attached.
    AttachedSender,
    /// A receiver handle attached.
    AttachedReceiver,
    /// A sender handle detached.
    DetachedSender,
    /// A receiver handle detached.
    DetachedReceiver,
    /// The channel was closed outright.
    ClosedDown,
}

/// The transition relation of one operation.
pub open spec fn op_transition(pre: ChannelView, post: ChannelView, op: ChanOp) -> bool {
    match op {
        ChanOp::Sent(value, r) => send_transition(pre, post, value, r),
        ChanOp::Received(r) => recv_transition(pre, post, r),
        ChanOp::RegisteredSender(w) => register_sender_transition(pre, post, w),
        ChanOp::RegisteredReceiver(w) => register_receiver_transition(pre, post, w),
        ChanOp::WokeSender => wake_sender_transition(pre, post),
        ChanOp::WokeReceiver => wake_receiver_transition(pre, post),
        ChanOp::AttachedSender => sender_attach_transition(pre, post),
        ChanOp::AttachedReceiver => receiver_attach_transition(pre, post),
        ChanOp::DetachedSender => sender_detach_transition(pre, post),
        ChanOp::DetachedReceiver => receiver_detach_transition(pre, post),
        ChanOp::ClosedDown => close_transition(pre, post),
    }
}

/// A trace: `states` records the channel state before and after each of the
/// `ops`, and consecutive states are linked by the operation between them.
pub open spec fn valid_trace(states: Seq<ChannelView>, ops: Seq<ChanOp>) -> bool {
    &&& states.len() == ops.len() + 1
    &&& forall|i: int|
        0 <= i < ops.len() ==> op_transition(states[i], states[i + 1], #[trigger] ops[i])
}

/// The values carried by the successful sends of a trace, in order.
pub open spec fn sent_values(ops: Seq<ChanOp>) -> Seq<String>
    decreases ops.len(),
{
    if ops.len() == 0 {
        Seq::empty()
    } else {
        match ops.last() {
            ChanOp::Sent(value, r) => if r is Ok {
                sent_values(ops.drop_last()).push(value)
            } else {
                sent_values(ops.drop_last())
            },
            _ => sent_values(ops.drop_last()),
        }
    }
}

/// The values handed out by the successful receives of a trace, in order.
pub open spec fn received_values(ops: Seq<ChanOp>) -> Seq<String>
    decreases ops.len(),
{
    if ops.len() == 0 {
        Seq::empty()
    } else {
        match ops.last() {
            ChanOp::Received(r) => match r {
                Ok(value) => received_values(ops.drop_last()).push(value),
                Err(_) => received_values(ops.drop_last()),
            },
            _ => received_values(ops.drop_last()),
        }
    }
}

/// Law: a send on an open channel with free space succeeds immediately — the
/// value goes to the buffer tail and no suspension happens (the sender waiter
/// queue is untouched).
pub proof fn lemma_send_with_space_succeeds(
    pre: ChannelView,
    post: ChannelView,
    value: String,
    r: Result<(), ChannelSendError>,
)
    requires
        send_transition(pre, post, value, r),
        !pre.closed,
        pre.buffer.len() < pre.capacity,
    ensures
        r is Ok,
        post.buffer == pre.buffer.push(value),
        post.sender_waiters == pre.sender_waiters,
{
}

/// Law: in any run of sends each of which starts on an open channel with
/// free space, every send succeeds, without suspending.
pub proof fn lemma_send_run_succeeds(
    states: Seq<ChannelView>,
    values: Seq<String>,
    results: Seq<Result<(), ChannelSendError>>,
)
    requires
        states.len() == values.len() + 1,
        results.len() == values.len(),
        forall|i: int|
            0 <= i < values.len() ==> send_transition(
                states[i],
                states[i + 1],
                #[trigger] values[i],
                results[i],
            ),
        forall|i: int|
            0 <= i < values.len() ==> !(#[trigger] states[i]).closed && states[i].buffer.len()
                < states[i].capacity,
    ensures
        forall|i: int| 0 <= i < results.len() ==> (#[trigger] results[i]) is Ok,
        forall|i: int|
            0 <= i < values.len() ==> (#[trigger] states[i]).sender_waiters == states[
                i + 1
            ].sender_waiters,
{
    assert forall|i: int| 0 <= i < results.len() implies (#[trigger] results[i]) is Ok by {
        lemma_send_with_space_succeeds(states[i], states[i + 1], values[i], results[i]);
    }
    assert forall|i: int|
        0 <= i < values.len() implies (#[trigger] states[i]).sender_waiters == states[
        i + 1
    ].sender_waiters by {
        lemma_send_with_space_succeeds(states[i], states[i + 1], values[i], results[i]);
    }
}

/// Law: a send attempt against a full, open channel suspends — the waker
/// joins the tail of the sender waiter queue — and once a receive has freed a
/// slot (waking the longest-waiting sender), the retried send completes
/// successfully with the same value, unmodified, at the buffer tail.
pub proof fn lemma_full_send_suspends_then_succeeds(
    s0: ChannelView,
    s1: ChannelView,
    s2: ChannelView,
    s3: ChannelView,
    value: String,
    waker: Waker,
    p: SendPoll,
    rr: Result<String, ChannelRecvError>,
    sr: Result<(), ChannelSendError>,
)
    requires
        !s0.closed,
        s0.buffer.len() == s0.capacity,
        s0.capacity >= 1,
        poll_send_transition(s0, s1, value, waker, p),
        recv_transition(s1, s2, rr),
        send_transition(s2, s3, value, sr),
    ensures
        p is Suspended,
        s1.sender_waiters == s0.sender_waiters.push(waker),
        rr is Ok,
        s2.sender_waiters == waiters_after_wake_one(s1.sender_waiters),
        sr is Ok,
        s3.buffer.len() > 0 && s3.buffer.last() == value,
{
}

/// Law: a receive attempt against an empty, open channel suspends — the
/// waker joins the tail of the receiver waiter queue — and once a send has
/// buffered a value (waking the longest-waiting receiver), the retried
/// receive returns exactly the value sent.
pub proof fn lemma_empty_recv_suspends_then_receives(
    s0: ChannelView,
    s1: ChannelView,
    s2: ChannelView,
    s3: ChannelView,
    waker: Waker,
    value: String,
    p: RecvPoll,
    sr: Result<(), ChannelSendError>,
    rr: Result<String, ChannelRecvError>,
)
    requires
        s0.buffer.len() == 0,
        !s0.closed,
        s0.capacity >= 1,
        poll_recv_transition(s0, s1, waker, p),
        send_transition(s1, s2, value, sr),
        recv_transition(s2, s3, rr),
    ensures
        p is Suspended,
        s1.receiver_waiters == s0.receiver_waiters.push(waker),
        sr is Ok,
        s2.receiver_waiters == waiters_after_wake_one(s1.receiver_waiters),
        rr == Ok::<String, ChannelRecvError>(value),
{
    assert(s2.buffer.first() == value);
}

/// Law: a successful send immediately followed by a receive on a previously
/// empty, open channel with capacity at least one is an identity round trip:
/// the receive returns exactly the value sent and the buffer is empty again.
pub proof fn lemma_send_recv_round_trip(
    s0: ChannelView,
    s1: ChannelView,
    s2: ChannelView,
    value: String,
    sr: Result<(), ChannelSendError>,
    rr: Result<String, ChannelRecvError>,
)
    requires
        !s0.closed,
        s0.buffer.len() == 0,
        s0.capacity >= 1,
        send_transition(s0, s1, value, sr),
        recv_transition(s1, s2, rr),
    ensures
        sr is Ok,
        rr == Ok::<String, ChannelRecvError>(value),
        s2.buffer == s0.buffer,
{
    assert(s1.buffer.first() == value);
    assert(s2.buffer =~= s0.buffer);
}

/// Law: closing is irreversible — no operation reverts `closed` to false.
pub proof fn lemma_closed_is_monotonic(pre: ChannelView, post: ChannelView, op: ChanOp)
    requires
        op_transition(pre, post, op),
        pre.closed,
    ensures
        post.closed,
{
}

/// Law: every operation preserves the channel invariant that the buffer
/// never exceeds the capacity.
pub proof fn lemma_capacity_bound_preserved(pre: ChannelView, post: ChannelView, op: ChanOp)
    requires
        op_transition(pre, post, op),
        pre.buffer.len() <= pre.capacity,
    ensures
        post.buffer.len() <= post.capacity,
{
}

/// Law (conservation, FIFO): across any interleaving of channel operations,
/// the values received so far followed by what is still buffered are exactly
/// the initial buffer followed by the values successfully sent. Messages come
/// out in the order they went in: none reordered, none duplicated, none lost.
pub proof fn lemma_fifo_conservation(states: Seq<ChannelView>, ops: Seq<ChanOp>)
    requires
        valid_trace(states, ops),
    ensures
        received_values(ops) + states.last().buffer == states.first().buffer + sent_values(ops),
    decreases ops.len(),
{
    if ops.len() == 0 {
        assert(received_values(ops) + states.last().buffer =~= states.first().buffer
            + sent_values(ops));
    } else {
        let n = ops.len() - 1;
        let states0 = states.drop_last();
        let ops0 = ops.drop_last();
        assert forall|i: int|
            0 <= i < ops0.len() implies op_transition(
            states0[i],
            states0[i + 1],
            #[trigger] ops0[i],
        ) by {
            assert(op_transition(states[i], states[i + 1], ops[i]));
        }
        lemma_fifo_conservation(states0, ops0);
        assert(states0.first() == states.first());
        assert(states0.last() == states[n]);
        assert(op_transition(states[n], states[n + 1], ops[n]));
        let rv0 = received_values(ops0);
        let sv0 = sent_values(ops0);
        match ops[n] {
            ChanOp::Sent(value, r) => {
                if r is Ok {
                    assert(sent_values(ops) == sv0.push(value));
                    assert(received_values(ops) == rv0);
                    assert(states.last().buffer == states[n].buffer.push(value));
                    assert(rv0 + states[n].buffer.push(value) =~= (rv0 + states[n].buffer).push(
                        value,
                    ));
                    assert(states.first().buffer + sv0.push(value) =~= (states.first().buffer
                        + sv0).push(value));
                    assert(received_values(ops) + states.last().buffer =~= states.first().buffer
                        + sent_values(ops));
                } else {
                    assert(received_values(ops) + states.last().buffer =~= states.first().buffer
                        + sent_values(ops));
                }
            },
            ChanOp::Received(r) => match r {
                Ok(value) => {
                    assert(states[n].buffer == seq![value] + states.last().buffer);
                    assert(received_values(ops) + states.last().buffer =~= states.first().buffer
                        + sent_values(ops));
                },
                Err(_) => {
                    assert(received_values(ops) + states.last().buffer =~= states.first().buffer
                        + sent_values(ops));
                },
            },
            _ => {
                assert(states.last().buffer == states[n].buffer);
                assert(received_values(ops) + states.last().buffer =~= states.first().buffer
                    + sent_values(ops));
            },
        }
    }
}

/// Law: in a trace that starts with an empty buffer, the received values are
/// a prefix of the successfully sent values — receivers observe the sent
/// order, however many producers and consumers interleave.
pub proof fn lemma_received_prefix_of_sent(states: Seq<ChannelView>, ops: Seq<ChanOp>)
    requires
        valid_trace(states, ops),
        states.first().buffer.len() == 0,
    ensures
        received_values(ops) == sent_values(ops).take(received_values(ops).len() as int),
{
    lemma_fifo_conservation(states, ops);
    assert(sent_values(ops) =~= received_values(ops) + states.last().buffer);
    assert(received_values(ops) =~= sent_values(ops).take(received_values(ops).len() as int));
}

/// Law: a trace that begins and ends with an empty buffer delivers exactly
/// the successfully sent values — each exactly once, in sending order.
pub proof fn lemma_all_sent_received(states: Seq<ChannelView>, ops: Seq<ChanOp>)
    requires
        valid_trace(states, ops),
        states.first().buffer.len() == 0,
        states.last().buffer.len() == 0,
    ensures
        received_values(ops) == sent_values(ops),
{
    lemma_fifo_conservation(states, ops);
    assert(received_values(ops) =~= sent_values(ops));
}

/// Law: once the channel is closed nothing enters the buffer any more, and
/// receives drain the remaining buffered values in order.
pub proof fn lemma_drain_after_close(states: Seq<ChannelView>, ops: Seq<ChanOp>)
    requires
        valid_trace(states, ops),
        states.first().closed,
    ensures
        sent_values(ops).len() == 0,
        received_values(ops) == states.first().buffer.take(received_values(ops).len() as int),
{
    assert forall|i: int| 0 <= i < states.len() implies (#[trigger] states[i]).closed by {
        lemma_closed_propagates(states, ops, i);
    }
    lemma_sent_values_empty_when_closed(states, ops);
    lemma_fifo_conservation(states, ops);
    assert(states.first().buffer =~= received_values(ops) + states.last().buffer);
    assert(received_values(ops) =~= states.first().buffer.take(
        received_values(ops).len() as int,
    ));
}

/// In a trace whose first state is closed, every state is closed.
proof fn lemma_closed_propagates(states: Seq<ChannelView>, ops: Seq<ChanOp>, i: int)
    requires
        valid_trace(states, ops),
        states.first().closed,
        0 <= i < states.len(),
    ensures
        states[i].closed,
    decreases i,
{
    if i > 0 {
        lemma_closed_propagates(states, ops, i - 1);
        assert(op_transition(states[i - 1], states[i], ops[i - 1]));
        lemma_closed_is_monotonic(states[i - 1], states[i], ops[i - 1]);
    }
}

/// On a trace all of whose states are closed, no send succeeds.
proof fn lemma_sent_values_empty_when_closed(states: Seq<ChannelView>, ops: Seq<ChanOp>)
    requires
        valid_trace(states, ops),
        forall|i: int| 0 <= i < states.len() ==> (#[trigger] states[i]).closed,
    ensures
        sent_values(ops).len() == 0,
    decreases ops.len(),
{
    if ops.len() > 0 {
        let n = ops.len() - 1;
        let states0 = states.drop_last();
        let ops0 = ops.drop_last();
        assert forall|i: int|
            0 <= i < ops0.len() implies op_transition(
            states0[i],
            states0[i + 1],
            #[trigger] ops0[i],
        ) by {
            assert(op_transition(states[i], states[i + 1], ops[i]));
        }
        lemma_sent_values_empty_when_closed(states0, ops0);
        assert(op_transition(states[n], states[n + 1], ops[n]));
    }
}

/// Law: a receive on a closed channel still returns the oldest buffered
/// value while any remain; only once the buffer is empty does it return the
/// closed error — and then always that error.
pub proof fn lemma_recv_on_closed(
    pre: ChannelView,
    post: ChannelView,
    r: Result<String, ChannelRecvError>,
)
    requires
        recv_transition(pre, post, r),
        pre.closed,
    ensures
        pre.buffer.len() > 0 ==> r == Ok::<String, ChannelRecvError>(pre.buffer.first()),
        pre.buffer.len() == 0 ==> r == Err::<String, ChannelRecvError>(ChannelRecvError::Closed),
{
}

/// Law: when the last sender or the last receiver detaches, the channel
/// closes and both waiter queues are drained — every suspended operation has
/// been woken, so none is left permanently stuck.
pub proof fn lemma_last_detach_wakes_all(pre: ChannelView, post: ChannelView, op: ChanOp)
    requires
        op_transition(pre, post, op),
        (op is DetachedSender && pre.senders == 1) || (op is DetachedReceiver && pre.receivers
            == 1),
    ensures
        post.closed,
        post.sender_waiters.len() == 0,
        post.receiver_waiters.len() == 0,
        post.buffer == pre.buffer,
{
}

/// Law: a woken operation that retries on a closed channel resolves at once —
/// a send attempt to the closed error, a receive attempt to a remaining
/// buffered value or, once the buffer is drained, to the closed error. No
/// attempt suspends again on a closed channel.
pub proof fn lemma_poll_on_closed_resolves(
    pre: ChannelView,
    post1: ChannelView,
    post2: ChannelView,
    value: String,
    w1: Waker,
    w2: Waker,
    sp: SendPoll,
    rp: RecvPoll,
)
    requires
        pre.closed,
        poll_send_transition(pre, post1, value, w1, sp),
        poll_recv_transition(pre, post2, w2, rp),
    ensures
        sp matches SendPoll::Resolved(r) && r is Err,
        rp matches RecvPoll::Resolved(r) && (pre.buffer.len() > 0 ==> r == Ok::<
            String,
            ChannelClosedError,
        >(pre.buffer.first())) && (pre.buffer.len() == 0 ==> r is Err),
{
}

} // verus!
