//! The cycles of the two acquisition tasks.
//!
//! The barometer task publishes each raw sample for the log and the filtered
//! altitude for the control task; the inertial task publishes each raw
//! sample. Both publish under the overflow policy and then sleep for a fixed
//! period.

use crate::channel::{AltitudeChannel, BaroDataChannel, ImuDataChannel};
use crate::publish::{after_publish, publish, publish_result, Published, SendPoll};
use crate::queues::CHANNEL_CAPACITY;
use crate::sample::{BaroData, ImuData, BARO_SEND_TIMEOUT_MS, IMU_SEND_TIMEOUT_MS};
use vstd::prelude::*;

verus! {

/// Time between two barometric samples.
pub const BARO_PERIOD_MS: u64 = 500;

/// Time between two inertial samples.
pub const IMU_PERIOD_MS: u64 = 500;

/// What one cycle of the barometer task did.
#[derive(Clone, Copy, Debug, PartialEq, Eq)]
pub struct BaroCycle {
    /// How the raw sample was published.
    pub raw: Published,
    /// How the filtered altitude was published.
    pub altitude: Published,
    /// How long the task sleeps before its next cycle.
    pub sleep_ms: u64,
}

/// What one cycle of the inertial task did.
#[derive(Clone, Copy, Debug, PartialEq, Eq)]
pub struct ImuCycle {
    /// How the raw sample was published.
    pub raw: Published,
    /// How long the task sleeps before its next cycle.
    pub sleep_ms: u64,
}

/// One cycle of the barometer task, from the sample that was acquired and the
/// altitude that the filter gave for it, in metres as the bits of a single.
/// Neither publish is left waiting.
pub fn baro_cycle(
    raw: &mut BaroDataChannel,
    altitude: &mut AltitudeChannel,
    sample: BaroData,
    filtered: u32,
) -> (done: BaroCycle)
    ensures
        done.raw == publish_result(
            old(raw)@,
            CHANNEL_CAPACITY as nat,
            BARO_SEND_TIMEOUT_MS,
        ),
        final(raw)@ == after_publish(old(raw)@, CHANNEL_CAPACITY as nat, sample),
        done.altitude == publish_result(
            old(altitude)@,
            CHANNEL_CAPACITY as nat,
            BARO_SEND_TIMEOUT_MS,
        ),
        final(altitude)@ == after_publish(
            old(altitude)@,
            CHANNEL_CAPACITY as nat,
            filtered,
        ),
        done.raw != Published::Recovered(SendPoll::Pending),
        done.altitude != Published::Recovered(SendPoll::Pending),
        done.sleep_ms == BARO_PERIOD_MS,
{
    let raw_done = publish(raw, sample);
    let altitude_done = publish(altitude, filtered);
    BaroCycle { raw: raw_done, altitude: altitude_done, sleep_ms: BARO_PERIOD_MS }
}

/// One cycle of the inertial task, from the sample that was acquired. The
/// publish is not left waiting.
pub fn imu_cycle(raw: &mut ImuDataChannel, sample: ImuData) -> (done: ImuCycle)
    ensures
        done.raw == publish_result(
            old(raw)@,
            CHANNEL_CAPACITY as nat,
            IMU_SEND_TIMEOUT_MS,
        ),
        final(raw)@ == after_publish(old(raw)@, CHANNEL_CAPACITY as nat, sample),
        done.raw != Published::Recovered(SendPoll::Pending),
        done.sleep_ms == IMU_PERIOD_MS,
{
    let raw_done = publish(raw, sample);
    ImuCycle { raw: raw_done, sleep_ms: IMU_PERIOD_MS }
}

} // verus!
