//! The control task's cycle.
//!
//! Each cycle toggles the liveness indicator and then looks once, without
//! waiting, for a filtered altitude. The task keeps its own cadence whether
//! or not a value was there, and takes at most one value per cycle however
//! many are queued.

use crate::channel::{after_receive, receive_result, AltitudeChannel};
use vstd::prelude::*;

verus! {

/// Time between two cycles of the control task.
pub const CONTROL_PERIOD_MS: u64 = 100;

/// The control task and the output that it owns.
#[derive(Clone, Copy, Debug, PartialEq, Eq, Structural)]
pub struct ControlTask {
    indicator_high: bool,
}

/// What one cycle of the control task decided.
#[derive(Clone, Copy, Debug, PartialEq, Eq)]
pub struct ControlCycle {
    /// The level to drive the indicator to.
    pub indicator_high: bool,
    /// The filtered altitude that was waiting, if any, in metres as the bits
    /// of a single.
    pub altitude: Option<u32>,
    /// How long the task sleeps before its next cycle.
    pub sleep_ms: u64,
}

/// The value that one look at a channel holding `queue` finds.
pub open spec fn polled<T>(queue: Seq<T>) -> Option<T> {
    match receive_result(queue) {
        Ok(value) => Some(value),
        Err(_) => None,
    }
}

impl ControlTask {
    /// The level that the indicator was last driven to.
    pub closed spec fn spec_indicator_high(&self) -> bool {
        self.indicator_high
    }

    /// A task whose indicator starts high.
    pub fn new() -> (task: Self)
        ensures
            task.spec_indicator_high(),
    {
        ControlTask { indicator_high: true }
    }

    /// The level that the indicator was last driven to.
    pub fn indicator_high(&self) -> (high: bool)
        ensures
            high == self.spec_indicator_high(),
    {
        self.indicator_high
    }

    /// One cycle: toggles the indicator, takes the oldest filtered altitude
    /// if one is queued, and sleeps for the control period either way.
    pub fn cycle(&mut self, altitude: &mut AltitudeChannel) -> (done: ControlCycle)
        ensures
            done.indicator_high == !old(self).spec_indicator_high(),
            final(self).spec_indicator_high() == done.indicator_high,
            done.altitude == polled(old(altitude)@),
            final(altitude)@ == after_receive(old(altitude)@),
            done.sleep_ms == CONTROL_PERIOD_MS,
    {
        self.indicator_high = !self.indicator_high;
        let altitude = match altitude.try_receive() {
            Ok(value) => Some(value),
            Err(_) => None,
        };
        ControlCycle { indicator_high: self.indicator_high, altitude, sleep_ms: CONTROL_PERIOD_MS }
    }
}

/// A cycle takes at most one value: whatever was queued behind the oldest
/// is still there afterwards, in its order.
pub proof fn law_control_takes_at_most_one<T>(queue: Seq<T>)
    ensures
        queue.len() > 0 ==> polled(queue) == Some(queue[0]) && after_receive(queue)
            == queue.skip(1),
        queue.len() == 0 ==> polled(queue) == None::<T> && after_receive(queue) == queue,
{
    if queue.len() > 0 {
        assert(queue.drop_first() =~= queue.skip(1));
    }
}

} // verus!
