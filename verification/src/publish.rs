//! The overflow policy of every producer.
//!
//! A producer first tries to send. If the channel is full it discards the
//! whole backlog and sends the fresh value with the channel's timeout: under
//! sustained overload the newest data matters more than a complete record.
//! The timed send is driven from outside, one attempt at a time, so that
//! nothing here ever waits.

use crate::channel::{after_send, BoundedChannel, ChannelError};
use crate::queues::CHANNEL_CAPACITY;
use crate::sample::Message;
use vstd::prelude::*;

verus! {

/// Where a timed send stands after one attempt.
#[derive(Clone, Copy, Debug, PartialEq, Eq)]
pub enum SendPoll {
    /// The send is over: the value is queued, or the time ran out and the
    /// value is dropped.
    Ready(Result<(), ChannelError>),
    /// The channel is full and there is time left: try again once a slot
    /// may be free or the time has run out.
    Pending,
}

/// What the first step of the policy did.
#[derive(Clone, Copy, Debug, PartialEq, Eq, Structural)]
pub enum Offer {
    /// There was room and the value is queued.
    Queued,
    /// The channel was full; its backlog is discarded and the value is
    /// still to be sent.
    Flushed,
}

/// How a publish went.
#[derive(Clone, Copy, Debug, PartialEq, Eq)]
pub enum Published {
    /// There was room and the value is queued behind the others.
    Sent,
    /// The channel was full and its backlog is discarded; the timed send of
    /// the value has made its first attempt, with this result.
    Recovered(SendPoll),
}

/// The answer of one attempt of a timed send on a channel that holds `queue`,
/// `elapsed_ms` after the send began.
pub open spec fn send_poll_result<T>(
    queue: Seq<T>,
    capacity: nat,
    timeout_ms: u64,
    elapsed_ms: u64,
) -> SendPoll {
    if queue.len() < capacity {
        SendPoll::Ready(Ok(()))
    } else if elapsed_ms >= timeout_ms {
        SendPoll::Ready(Err(ChannelError::Timeout))
    } else {
        SendPoll::Pending
    }
}

/// The answer of the policy's first step on a channel that holds `queue`.
pub open spec fn offer_result<T>(queue: Seq<T>, capacity: nat) -> Offer {
    if queue.len() < capacity {
        Offer::Queued
    } else {
        Offer::Flushed
    }
}

/// What a channel holds after the policy's first step.
pub open spec fn after_offer<T>(queue: Seq<T>, capacity: nat, value: T) -> Seq<T> {
    if queue.len() < capacity {
        queue.push(value)
    } else {
        Seq::empty()
    }
}

/// The answer of a publish on a channel that holds `queue`.
pub open spec fn publish_result<T>(queue: Seq<T>, capacity: nat, timeout_ms: u64) -> Published {
    if queue.len() < capacity {
        Published::Sent
    } else {
        Published::Recovered(send_poll_result(Seq::<T>::empty(), capacity, timeout_ms, 0))
    }
}

/// What a channel holds after a publish of `value`.
pub open spec fn after_publish<T>(queue: Seq<T>, capacity: nat, value: T) -> Seq<T> {
    if queue.len() < capacity {
        queue.push(value)
    } else {
        after_send(Seq::empty(), capacity, value)
    }
}

/// What a channel holds after `values` were published one by one.
pub open spec fn after_publishes<T>(queue: Seq<T>, capacity: nat, values: Seq<T>) -> Seq<T>
    decreases values.len(),
{
    if values.len() == 0 {
        queue
    } else {
        after_publishes(after_publish(queue, capacity, values[0]), capacity, values.drop_first())
    }
}

/// One attempt of a send that may wait up to the channel's timeout, made
/// `elapsed_ms` after the send began. The value is queued if there is room,
/// even when the time has run out; otherwise the channel stays as it is.
pub fn poll_send<T: Message>(
    channel: &mut BoundedChannel<T>,
    value: T,
    elapsed_ms: u64,
) -> (r: SendPoll)
    ensures
        r == send_poll_result(
            old(channel)@,
            CHANNEL_CAPACITY as nat,
            T::spec_send_timeout_ms(),
            elapsed_ms,
        ),
        final(channel)@ == after_send(old(channel)@, CHANNEL_CAPACITY as nat, value),
{
    match channel.try_send(value) {
        Ok(()) => SendPoll::Ready(Ok(())),
        Err(_) => {
            if elapsed_ms >= channel.send_timeout_ms() {
                SendPoll::Ready(Err(ChannelError::Timeout))
            } else {
                SendPoll::Pending
            }
        },
    }
}

/// The policy's first step: send `value` if there is room, else discard
/// everything that is queued.
pub fn offer<T: Message>(channel: &mut BoundedChannel<T>, value: T) -> (r: Offer)
    ensures
        r == offer_result(old(channel)@, CHANNEL_CAPACITY as nat),
        final(channel)@ == after_offer(old(channel)@, CHANNEL_CAPACITY as nat, value),
{
    match channel.try_send(value) {
        Ok(()) => Offer::Queued,
        Err(_) => {
            channel.clear();
            Offer::Flushed
        },
    }
}

/// Publishes `value` under the overflow policy, up to the point where the
/// timed send would have to wait.
pub fn publish<T: Message>(channel: &mut BoundedChannel<T>, value: T) -> (r: Published)
    ensures
        r == publish_result(
            old(channel)@,
            CHANNEL_CAPACITY as nat,
            T::spec_send_timeout_ms(),
        ),
        final(channel)@ == after_publish(
            old(channel)@,
            CHANNEL_CAPACITY as nat,
            value,
        ),
{
    match offer(channel, value) {
        Offer::Queued => Published::Sent,
        Offer::Flushed => Published::Recovered(poll_send(channel, value, 0)),
    }
}

/// A publish is the first step followed, after a flush, by the first attempt
/// of the timed send.
pub proof fn law_publish_is_offer_then_send<T>(
    queue: Seq<T>,
    capacity: nat,
    timeout_ms: u64,
    value: T,
)
    ensures
        offer_result(queue, capacity) == Offer::Queued ==> publish_result(
            queue,
            capacity,
            timeout_ms,
        ) == Published::Sent && after_publish(queue, capacity, value) == after_offer(
            queue,
            capacity,
            value,
        ),
        offer_result(queue, capacity) == Offer::Flushed ==> publish_result(
            queue,
            capacity,
            timeout_ms,
        ) == Published::Recovered(
            send_poll_result(after_offer(queue, capacity, value), capacity, timeout_ms, 0),
        ) && after_publish(queue, capacity, value) == after_send(
            after_offer(queue, capacity, value),
            capacity,
            value,
        ),
{
}

/// Nothing is lost while the consumer keeps up: values published to a channel
/// with room for all of them are queued behind what was there, in the order
/// published.
pub proof fn law_publishes_that_fit_lose_nothing<T>(queue: Seq<T>, capacity: nat, values: Seq<T>)
    requires
        queue.len() + values.len() <= capacity,
    ensures
        after_publishes(queue, capacity, values) == queue + values,
    decreases values.len(),
{
    if values.len() == 0 {
        assert(queue + values =~= queue);
    } else {
        let next = after_publish(queue, capacity, values[0]);
        law_publishes_that_fit_lose_nothing(next, capacity, values.drop_first());
        assert(next + values.drop_first() =~= queue + values);
    }
}

/// A publish to a channel at capacity leaves the new value alone in it: the
/// backlog is gone and the timed send succeeds at its first attempt.
pub proof fn law_overflow_keeps_newest<T>(
    queue: Seq<T>,
    capacity: nat,
    timeout_ms: u64,
    value: T,
)
    requires
        queue.len() >= capacity,
        capacity > 0,
    ensures
        publish_result(queue, capacity, timeout_ms) == Published::Recovered(
            SendPoll::Ready(Ok(())),
        ),
        after_publish(queue, capacity, value) == seq![value],
{
    assert(Seq::<T>::empty().push(value) =~= seq![value]);
}

/// A timed send that finds the channel full fails with `Timeout` exactly
/// when its time has run out, waits otherwise, and leaves the channel as it
/// is either way.
pub proof fn law_full_send_times_out<T>(
    queue: Seq<T>,
    capacity: nat,
    timeout_ms: u64,
    elapsed_ms: u64,
    value: T,
)
    requires
        queue.len() >= capacity,
    ensures
        elapsed_ms >= timeout_ms ==> send_poll_result(queue, capacity, timeout_ms, elapsed_ms)
            == SendPoll::Ready(Err(ChannelError::Timeout)),
        elapsed_ms < timeout_ms ==> send_poll_result(queue, capacity, timeout_ms, elapsed_ms)
            == SendPoll::Pending,
        after_send(queue, capacity, value) == queue,
{
}

} // verus!
