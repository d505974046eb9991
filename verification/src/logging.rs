//! The logging task's byte budget.
//!
//! Each cycle the task empties both raw channels, adds the encoded size of
//! every sample it took to a running counter, and asks for one flush of
//! storage once the counter has reached the flush size. A flush takes
//! exactly the flush size off the counter; what lies above it carries over.

use crate::channel::{BaroDataChannel, BoundedChannel, ImuDataChannel};
use crate::queues::CHANNEL_CAPACITY;
use crate::sample::{BaroData, ImuData, Message};
use vstd::prelude::*;

verus! {

/// Time between two cycles of the logging task.
pub const LOG_PERIOD_MS: u64 = 50;

/// Encoded size of one barometric sample.
pub const BARO_RECORD_BYTES: u16 = 12;

/// Encoded size of one inertial sample.
pub const IMU_RECORD_BYTES: u16 = 40;

/// Bytes written by one flush.
pub const FLUSH_BYTES: u16 = 256;

/// The sizes that the budget counts with.
#[derive(Clone, Copy, Debug, PartialEq, Eq, Structural)]
pub struct LogPolicy {
    /// Bytes added for each barometric sample.
    pub baro_record_bytes: u16,
    /// Bytes added for each inertial sample.
    pub imu_record_bytes: u16,
    /// Counter value from which a flush is due, and the bytes one flush takes.
    pub flush_bytes: u16,
}

/// What one cycle of the logging task did.
#[derive(Clone, Copy, Debug, PartialEq, Eq, Structural)]
pub struct LogCycle {
    /// Barometric samples taken from their channel.
    pub baro_samples: usize,
    /// Inertial samples taken from their channel.
    pub imu_samples: usize,
    /// Whether storage is to be flushed now.
    pub flush: bool,
    /// How long the task sleeps before its next cycle.
    pub sleep_ms: u64,
}

/// The running byte counter of the logging task.
#[derive(Clone, Copy, Debug, PartialEq, Eq, Structural)]
pub struct LogBudget {
    policy: LogPolicy,
    buf_index: u16,
}

/// Whether a counter that stands at `total` asks for a flush.
pub open spec fn flush_due(total: int, flush_bytes: int) -> bool {
    total >= flush_bytes
}

/// Where a counter that stands at `total` is left by the flush decision.
pub open spec fn after_flush(total: int, flush_bytes: int) -> int {
    if total >= flush_bytes {
        total - flush_bytes
    } else {
        total
    }
}

/// Where the counter stands once it has taken `baro_samples` barometric and
/// `imu_samples` inertial samples in.
pub open spec fn drained_total(budget: LogBudget, baro_samples: nat, imu_samples: nat) -> int {
    budget.spec_buf_index() + baro_samples * budget.spec_policy().baro_record_bytes + imu_samples
        * budget.spec_policy().imu_record_bytes
}

/// Whether the counter, which is sixteen bits wide, can take that many
/// samples in.
pub open spec fn cycle_fits(budget: LogBudget, baro_samples: nat, imu_samples: nat) -> bool {
    drained_total(budget, baro_samples, imu_samples) <= u16::MAX
}

/// Where a cycle leaves the counter that finds `baro_samples` and
/// `imu_samples` waiting.
pub open spec fn counter_after_cycle(
    budget: LogBudget,
    baro_samples: nat,
    imu_samples: nat,
) -> int {
    after_flush(
        drained_total(budget, baro_samples, imu_samples),
        budget.spec_policy().flush_bytes as int,
    )
}

/// What a cycle reports that finds `baro_samples` and `imu_samples` waiting.
pub open spec fn cycle_result(budget: LogBudget, baro_samples: nat, imu_samples: nat) -> LogCycle {
    LogCycle {
        baro_samples: baro_samples as usize,
        imu_samples: imu_samples as usize,
        flush: flush_due(
            drained_total(budget, baro_samples, imu_samples),
            budget.spec_policy().flush_bytes as int,
        ),
        sleep_ms: LOG_PERIOD_MS,
    }
}

impl LogPolicy {
    /// Twelve bytes for a barometric sample, forty for an inertial one, and a
    /// flush at 256.
    pub open spec fn spec_standard() -> LogPolicy {
        LogPolicy {
            baro_record_bytes: BARO_RECORD_BYTES,
            imu_record_bytes: IMU_RECORD_BYTES,
            flush_bytes: FLUSH_BYTES,
        }
    }

    /// Twelve bytes for a barometric sample, forty for an inertial one, and a
    /// flush at 256.
    #[verifier::when_used_as_spec(spec_standard)]
    pub fn standard() -> (policy: Self)
        ensures
            policy == Self::spec_standard(),
    {
        LogPolicy {
            baro_record_bytes: BARO_RECORD_BYTES,
            imu_record_bytes: IMU_RECORD_BYTES,
            flush_bytes: FLUSH_BYTES,
        }
    }
}

impl LogBudget {
    /// The counter's value.
    pub closed spec fn spec_buf_index(&self) -> u16 {
        self.buf_index
    }

    /// The sizes counted with.
    pub closed spec fn spec_policy(&self) -> LogPolicy {
        self.policy
    }

    /// A counter at zero.
    pub fn new(policy: LogPolicy) -> (budget: Self)
        ensures
            budget.spec_buf_index() == 0,
            budget.spec_policy() == policy,
    {
        LogBudget { policy, buf_index: 0 }
    }

    /// The counter's value.
    pub fn buf_index(&self) -> (bytes: u16)
        ensures
            bytes == self.spec_buf_index(),
    {
        self.buf_index
    }

    /// The sizes counted with.
    pub fn policy(&self) -> (policy: LogPolicy)
        ensures
            policy == self.spec_policy(),
    {
        self.policy
    }

    /// Adds the encoded size of one consumed sample.
    pub fn record(&mut self, bytes: u16)
        requires
            old(self).spec_buf_index() + bytes <= u16::MAX,
        ensures
            final(self).spec_buf_index() == old(self).spec_buf_index() + bytes,
            final(self).spec_policy() == old(self).spec_policy(),
    {
        self.buf_index = self.buf_index + bytes;
    }

    /// The flush decision: a flush is due once the counter has reached the
    /// flush size, and takes exactly that size off it.
    pub fn settle(&mut self) -> (flush: bool)
        ensures
            flush == flush_due(
                old(self).spec_buf_index() as int,
                old(self).spec_policy().flush_bytes as int,
            ),
            final(self).spec_buf_index() == after_flush(
                old(self).spec_buf_index() as int,
                old(self).spec_policy().flush_bytes as int,
            ),
            final(self).spec_policy() == old(self).spec_policy(),
    {
        if self.buf_index >= self.policy.flush_bytes {
            self.buf_index = self.buf_index - self.policy.flush_bytes;
            true
        } else {
            false
        }
    }

    /// Receives from `channel` until it is empty and adds `record_bytes` for
    /// each message taken. Returns how many there were.
    pub fn drain<T: Message>(
        &mut self,
        channel: &mut BoundedChannel<T>,
        record_bytes: u16,
    ) -> (count: usize)
        requires
            old(self).spec_buf_index() + old(channel)@.len() * record_bytes <= u16::MAX,
        ensures
            count == old(channel)@.len(),
            final(channel)@ == Seq::<T>::empty(),
            final(self).spec_buf_index() == old(self).spec_buf_index() + count * record_bytes,
            final(self).spec_policy() == old(self).spec_policy(),
    {
        let ghost start = channel@;
        let capacity = channel.capacity();
        let mut count: usize = 0;
        loop
            invariant
                start == old(channel)@,
                start.len() <= capacity,
                count <= start.len(),
                channel@ == start.skip(count as int),
                self.buf_index == old(self).buf_index + count * record_bytes,
                self.policy == old(self).policy,
                old(self).buf_index + start.len() * record_bytes <= u16::MAX,
            decreases start.len() - count,
        {
            match channel.try_receive() {
                Ok(_) => {
                    proof {
                        assert(start.skip(count as int).drop_first() =~= start.skip(count + 1));
                        assert((count + 1) * record_bytes == count * record_bytes + record_bytes)
                            by (nonlinear_arith);
                        assert((count + 1) * record_bytes <= start.len() * record_bytes)
                            by (nonlinear_arith)
                            requires
                                count + 1 <= start.len(),
                        ;
                    }
                    self.buf_index = self.buf_index + record_bytes;
                    count = count + 1;
                },
                Err(_) => {
                    proof {
                        assert(start.skip(count as int).len() == 0);
                        assert(channel@ =~= Seq::<T>::empty());
                    }
                    return count;
                },
            }
        }
    }

    /// One cycle of the logging task: empties the barometric channel, then
    /// the inertial one, then takes the flush decision.
    pub fn cycle(&mut self, baro: &mut BaroDataChannel, imu: &mut ImuDataChannel) -> (done: LogCycle)
        requires
            cycle_fits(*old(self), old(baro)@.len(), old(imu)@.len()),
        ensures
            done == cycle_result(*old(self), old(baro)@.len(), old(imu)@.len()),
            final(baro)@ == Seq::<BaroData>::empty(),
            final(imu)@ == Seq::<ImuData>::empty(),
            final(self).spec_buf_index() == counter_after_cycle(
                *old(self),
                old(baro)@.len(),
                old(imu)@.len(),
            ),
            final(self).spec_policy() == old(self).spec_policy(),
    {
        let ghost imu_waiting = imu@.len();
        let ghost baro_waiting = baro@.len();
        let baro_bytes = self.policy.baro_record_bytes;
        let imu_bytes = self.policy.imu_record_bytes;
        proof {
            assert(imu_waiting * imu_bytes >= 0) by (nonlinear_arith);
            assert(baro_waiting * baro_bytes >= 0) by (nonlinear_arith);
        }
        let baro_samples = self.drain(baro, baro_bytes);
        let imu_samples = self.drain(imu, imu_bytes);
        let flush = self.settle();
        LogCycle { baro_samples, imu_samples, flush, sleep_ms: LOG_PERIOD_MS }
    }

    /// One cycle of the logging task where the counter has room for what
    /// waits in the two channels; otherwise nothing is touched and nothing
    /// is returned.
    pub fn checked_cycle(
        &mut self,
        baro: &mut BaroDataChannel,
        imu: &mut ImuDataChannel,
    ) -> (done: Option<LogCycle>)
        ensures
            cycle_fits(*old(self), old(baro)@.len(), old(imu)@.len()) ==> {
                &&& done == Some(cycle_result(*old(self), old(baro)@.len(), old(imu)@.len()))
                &&& final(self).spec_buf_index() == counter_after_cycle(
                    *old(self),
                    old(baro)@.len(),
                    old(imu)@.len(),
                )
                &&& final(baro)@ == Seq::<BaroData>::empty()
                &&& final(imu)@ == Seq::<ImuData>::empty()
            },
            !cycle_fits(*old(self), old(baro)@.len(), old(imu)@.len()) ==> {
                &&& done is None
                &&& final(self).spec_buf_index() == old(self).spec_buf_index()
                &&& final(baro)@ == old(baro)@
                &&& final(imu)@ == old(imu)@
            },
            final(self).spec_policy() == old(self).spec_policy(),
    {
        let baro_waiting = baro.len();
        let imu_waiting = imu.len();
        let baro_bytes = self.policy.baro_record_bytes;
        let imu_bytes = self.policy.imu_record_bytes;
        assert(baro_waiting * baro_bytes <= 4 * 0xffff) by (nonlinear_arith)
            requires
                baro_waiting <= 4,
                baro_bytes <= 0xffff,
        ;
        assert(imu_waiting * imu_bytes <= 4 * 0xffff) by (nonlinear_arith)
            requires
                imu_waiting <= 4,
                imu_bytes <= 0xffff,
        ;
        let total: u64 = self.buf_index as u64 + baro_waiting as u64 * baro_bytes as u64
            + imu_waiting as u64 * imu_bytes as u64;
        if total <= u16::MAX as u64 {
            Some(self.cycle(baro, imu))
        } else {
            None
        }
    }
}

/// A counter below the flush size stays below it over a cycle that takes in
/// no more than the flush size.
pub proof fn law_budget_stays_below_flush(budget: LogBudget, baro_samples: nat, imu_samples: nat)
    requires
        budget.spec_buf_index() < budget.spec_policy().flush_bytes,
        baro_samples * budget.spec_policy().baro_record_bytes + imu_samples
            * budget.spec_policy().imu_record_bytes <= budget.spec_policy().flush_bytes,
    ensures
        0 <= counter_after_cycle(budget, baro_samples, imu_samples)
            < budget.spec_policy().flush_bytes,
{
    let policy = budget.spec_policy();
    assert(baro_samples * policy.baro_record_bytes >= 0) by (nonlinear_arith);
    assert(imu_samples * policy.imu_record_bytes >= 0) by (nonlinear_arith);
}

/// With the standard sizes a counter below 256 always has room for two full
/// channels, and the cycle leaves it below 256 again: the logging task can
/// run for ever.
pub proof fn law_standard_cycle_always_fits(budget: LogBudget, baro_samples: nat, imu_samples: nat)
    requires
        budget.spec_policy() == LogPolicy::spec_standard(),
        budget.spec_buf_index() < FLUSH_BYTES,
        baro_samples <= CHANNEL_CAPACITY,
        imu_samples <= CHANNEL_CAPACITY,
    ensures
        cycle_fits(budget, baro_samples, imu_samples),
        0 <= counter_after_cycle(budget, baro_samples, imu_samples) < FLUSH_BYTES,
{
}

} // verus!
