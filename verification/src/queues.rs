//! The storage behind every channel.
//!
//! A queue keeps its messages in an `embassy_sync` channel guarded by a
//! `NoopRawMutex`. Nothing in this file is proved: every contract below is
//! taken from that crate's source, for a queue that is reached through an
//! exclusive reference only, so that no other task can touch it during a
//! call and no waker is ever registered with it.

use crate::sample::Telemetry;
use embassy_sync::blocking_mutex::raw::NoopRawMutex;
use embassy_sync::channel::{Channel, TryReceiveError, TrySendError};
use vstd::prelude::*;

verus! {

/// Number of messages that a queue can hold.
pub const CHANNEL_CAPACITY: usize = 4;

/// A `Channel<NoopRawMutex, Telemetry, 4>`.
#[verifier::external_body]
pub struct TelemetryQueue {
    inner: Channel<NoopRawMutex, Telemetry, CHANNEL_CAPACITY>,
}

/// The messages that wait in the queue, oldest first: the contents of the
/// channel's deque from front to back.
pub uninterp spec fn telemetry_queued(queue: TelemetryQueue) -> Seq<Telemetry>;

/// `Channel::new`: the new channel holds nothing.
#[verifier::external_body]
pub(crate) fn telemetry_queue_new() -> (queue: TelemetryQueue)
    ensures
        telemetry_queued(queue) == Seq::<Telemetry>::empty(),
{
    TelemetryQueue { inner: Channel::new() }
}

/// `Channel::len`: the number of messages queued.
#[verifier::external_body]
pub(crate) fn telemetry_queue_len(queue: &TelemetryQueue) -> (n: usize)
    ensures
        n == telemetry_queued(*queue).len(),
{
    queue.inner.len()
}

/// `Channel::try_send`: with fewer than four messages queued, `value` is
/// pushed at the back; with four, the queue stays as it is and `value` comes
/// back as the error. The call does not unwind.
#[verifier::external_body]
pub(crate) fn telemetry_queue_try_send(queue: &mut TelemetryQueue, value: Telemetry) -> (r: Result<
    (),
    Telemetry,
>)
    ensures
        telemetry_queued(*old(queue)).len() < CHANNEL_CAPACITY ==> r is Ok && telemetry_queued(
            *final(queue),
        ) == telemetry_queued(*old(queue)).push(value),
        telemetry_queued(*old(queue)).len() >= CHANNEL_CAPACITY ==> r is Err && r->Err_0 == value
            && telemetry_queued(*final(queue)) == telemetry_queued(*old(queue)),
    no_unwind
{
    match queue.inner.try_send(value) {
        Ok(()) => Ok(()),
        Err(TrySendError::Full(value)) => Err(value),
    }
}

/// `Channel::try_receive`: the front message is popped and returned; an
/// empty queue stays empty and nothing is returned. The call does not unwind.
#[verifier::external_body]
pub(crate) fn telemetry_queue_try_receive(queue: &mut TelemetryQueue) -> (r: Option<Telemetry>)
    ensures
        telemetry_queued(*old(queue)).len() > 0 ==> r == Some(telemetry_queued(*old(queue))[0])
            && telemetry_queued(*final(queue)) == telemetry_queued(*old(queue)).drop_first(),
        telemetry_queued(*old(queue)).len() == 0 ==> r is None && telemetry_queued(*final(queue))
            == telemetry_queued(*old(queue)),
    no_unwind
{
    match queue.inner.try_receive() {
        Ok(message) => Some(message),
        Err(TryReceiveError::Empty) => None,
    }
}

/// `Channel::clear`: afterwards the queue holds nothing. The call does not
/// unwind.
#[verifier::external_body]
pub(crate) fn telemetry_queue_clear(queue: &mut TelemetryQueue)
    ensures
        telemetry_queued(*final(queue)) == Seq::<Telemetry>::empty(),
    no_unwind
{
    queue.inner.clear()
}

} // verus!
