//! The bounded channel: what it holds, what each operation does to it, and
//! the laws that follow.
//!
//! A channel is described by the sequence of messages queued in it, oldest
//! first, and by its capacity.

use crate::queues::{telemetry_queue_clear, telemetry_queue_len, telemetry_queue_new};
use crate::queues::telemetry_queue_try_receive;
use crate::queues::{telemetry_queue_try_send, telemetry_queued, TelemetryQueue, CHANNEL_CAPACITY};
use crate::sample::{BaroData, ImuData, Message};
use std::marker::PhantomData;
use vstd::pervasive::unreached;
use vstd::prelude::*;

verus! {

/// Why a channel operation did not go through.
#[derive(Clone, Copy, Debug, PartialEq, Eq, Structural)]
pub enum ChannelError {
    /// The channel holds as many messages as its capacity allows.
    Full,
    /// The channel holds no message.
    Empty,
    /// No slot became free before the send's time ran out.
    Timeout,
}

/// What a non-blocking send answers on a channel that holds `queue`.
pub open spec fn send_result<T>(queue: Seq<T>, capacity: nat) -> Result<(), ChannelError> {
    if queue.len() < capacity {
        Ok(())
    } else {
        Err(ChannelError::Full)
    }
}

/// What a channel holds after a non-blocking send of `value`.
pub open spec fn after_send<T>(queue: Seq<T>, capacity: nat, value: T) -> Seq<T> {
    if queue.len() < capacity {
        queue.push(value)
    } else {
        queue
    }
}

/// What a non-blocking receive answers on a channel that holds `queue`.
pub open spec fn receive_result<T>(queue: Seq<T>) -> Result<T, ChannelError> {
    if queue.len() > 0 {
        Ok(queue[0])
    } else {
        Err(ChannelError::Empty)
    }
}

/// What a channel holds after a non-blocking receive.
pub open spec fn after_receive<T>(queue: Seq<T>) -> Seq<T> {
    if queue.len() > 0 {
        queue.drop_first()
    } else {
        queue
    }
}

/// What a channel holds after it was cleared.
pub open spec fn after_clear<T>(queue: Seq<T>) -> Seq<T> {
    Seq::empty()
}

/// What a channel holds after `values` were sent one by one.
pub open spec fn after_sends<T>(queue: Seq<T>, capacity: nat, values: Seq<T>) -> Seq<T>
    decreases values.len(),
{
    if values.len() == 0 {
        queue
    } else {
        after_sends(after_send(queue, capacity, values[0]), capacity, values.drop_first())
    }
}

/// What a channel holds after `count` receives.
pub open spec fn after_receives<T>(queue: Seq<T>, count: nat) -> Seq<T>
    decreases count,
{
    if count == 0 {
        queue
    } else {
        after_receives(after_receive(queue), (count - 1) as nat)
    }
}

/// A fixed-capacity queue of one message type whose operations never wait.
///
/// The storage could hold any telemetry; a channel only ever puts its own
/// kind of message in, so only that kind comes out.
pub struct BoundedChannel<T: Message> {
    queue: TelemetryQueue,
    message: PhantomData<T>,
}

/// Raw barometric samples on their way to the log.
pub type BaroDataChannel = BoundedChannel<BaroData>;

/// Filtered altitudes on their way to the control task.
pub type AltitudeChannel = BoundedChannel<u32>;

/// Raw inertial samples on their way to the log.
pub type ImuDataChannel = BoundedChannel<ImuData>;

impl<T: Message> View for BoundedChannel<T> {
    type V = Seq<T>;

    /// The queued messages, oldest first.
    closed spec fn view(&self) -> Seq<T> {
        Seq::new(
            telemetry_queued(self.queue).len(),
            |i: int| T::spec_from_telemetry(telemetry_queued(self.queue)[i])->0,
        )
    }
}

impl<T: Message> BoundedChannel<T> {
    #[verifier::type_invariant]
    spec fn well_formed(self) -> bool {
        &&& telemetry_queued(self.queue).len() <= CHANNEL_CAPACITY
        &&& forall|i: int|
            0 <= i < telemetry_queued(self.queue).len() ==> T::spec_from_telemetry(
                #[trigger] telemetry_queued(self.queue)[i],
            ) is Some
    }

    /// An empty channel.
    pub fn new() -> (channel: Self)
        ensures
            channel@ == Seq::<T>::empty(),
    {
        let channel = BoundedChannel { queue: telemetry_queue_new(), message: PhantomData };
        assert(channel@ =~= Seq::<T>::empty());
        channel
    }

    /// The capacity; a channel never holds more.
    pub fn capacity(&self) -> (n: usize)
        ensures
            n == CHANNEL_CAPACITY,
            self@.len() <= n,
    {
        proof {
            use_type_invariant(self);
        }
        CHANNEL_CAPACITY
    }

    /// The number of messages queued.
    pub fn len(&self) -> (n: usize)
        ensures
            n == self@.len(),
            n <= CHANNEL_CAPACITY,
    {
        proof {
            use_type_invariant(self);
        }
        telemetry_queue_len(&self.queue)
    }

    /// How long a send on this channel may wait for a free slot.
    pub fn send_timeout_ms(&self) -> (ms: u64)
        ensures
            ms == T::spec_send_timeout_ms(),
    {
        T::send_timeout_ms()
    }

    /// Queues `value` behind the others, or fails with `Full` and leaves the
    /// channel as it was.
    pub fn try_send(&mut self, value: T) -> (r: Result<(), ChannelError>)
        ensures
            r == send_result(old(self)@, CHANNEL_CAPACITY as nat),
            final(self)@ == after_send(old(self)@, CHANNEL_CAPACITY as nat, value),
    {
        proof {
            use_type_invariant(&*self);
            value.lemma_from_to_telemetry();
        }
        let r = match telemetry_queue_try_send(&mut self.queue, value.to_telemetry()) {
            Ok(()) => Ok(()),
            Err(_) => Err(ChannelError::Full),
        };
        assert(self@ =~= after_send(old(self)@, CHANNEL_CAPACITY as nat, value));
        r
    }

    /// Takes the oldest message out, or fails with `Empty`.
    pub fn try_receive(&mut self) -> (r: Result<T, ChannelError>)
        ensures
            r == receive_result(old(self)@),
            final(self)@ == after_receive(old(self)@),
    {
        proof {
            use_type_invariant(&*self);
        }
        let r = match telemetry_queue_try_receive(&mut self.queue) {
            Some(telemetry) => {
                match T::from_telemetry(telemetry) {
                    Some(message) => Ok(message),
                    None => unreached(),
                }
            },
            None => Err(ChannelError::Empty),
        };
        assert(self@ =~= after_receive(old(self)@));
        r
    }

    /// Discards every queued message.
    pub fn clear(&mut self)
        ensures
            final(self)@ == after_clear(old(self)@),
    {
        telemetry_queue_clear(&mut self.queue);
        assert(self@ =~= Seq::<T>::empty());
    }
}

/// Sends that fit are queued behind what was there, in the order sent.
pub proof fn lemma_sends_append<T>(queue: Seq<T>, capacity: nat, values: Seq<T>)
    requires
        queue.len() + values.len() <= capacity,
    ensures
        after_sends(queue, capacity, values) == queue + values,
    decreases values.len(),
{
    if values.len() == 0 {
        assert(queue + values =~= queue);
    } else {
        let next = after_send(queue, capacity, values[0]);
        lemma_sends_append(next, capacity, values.drop_first());
        assert(next + values.drop_first() =~= queue + values);
    }
}

/// Receives take messages from the front, as many as were asked for.
pub proof fn lemma_receives_skip<T>(queue: Seq<T>, count: nat)
    requires
        count <= queue.len(),
    ensures
        after_receives(queue, count) == queue.skip(count as int),
    decreases count,
{
    if count == 0 {
        assert(queue.skip(0) =~= queue);
    } else {
        lemma_receives_skip(after_receive(queue), (count - 1) as nat);
        assert(queue.drop_first().skip(count - 1) =~= queue.skip(count as int));
    }
}

/// First in, first out: when `values` are sent to a channel with room for
/// all of them, the receives that follow return what was queued before and
/// then `values`, each in the order sent, and after the last one the channel
/// is empty.
pub proof fn law_fifo_order<T>(queue: Seq<T>, capacity: nat, values: Seq<T>, k: nat)
    requires
        queue.len() + values.len() <= capacity,
        k <= queue.len() + values.len(),
    ensures
        k < queue.len() + values.len() ==> receive_result(
            after_receives(after_sends(queue, capacity, values), k),
        ) == Ok::<T, ChannelError>((queue + values)[k as int]),
        k == queue.len() + values.len() ==> receive_result(
            after_receives(after_sends(queue, capacity, values), k),
        ) == Err::<T, ChannelError>(ChannelError::Empty),
{
    lemma_sends_append(queue, capacity, values);
    lemma_receives_skip(queue + values, k);
}

/// A send to a channel at capacity fails with `Full` and changes nothing.
pub proof fn law_full_send_rejected<T>(queue: Seq<T>, capacity: nat, value: T)
    requires
        queue.len() >= capacity,
    ensures
        send_result(queue, capacity) == Err::<(), ChannelError>(ChannelError::Full),
        after_send(queue, capacity, value) == queue,
{
}

/// After a clear the next receive finds the channel empty, whatever it held.
pub proof fn law_clear_then_receive_is_empty<T>(queue: Seq<T>)
    ensures
        receive_result(after_clear(queue)) == Err::<T, ChannelError>(ChannelError::Empty),
        after_receive(after_clear(queue)) == Seq::<T>::empty(),
{
}

} // verus!
