//! Time-stamped sensor readings as they travel through the channels.
//!
//! A reading is an IEEE-754 single; a sample carries it as that number's bit
//! pattern, so a sample is a plain value that is copied unchanged from
//! producer to consumer.

use vstd::prelude::*;

verus! {

/// Number of distinct values of the wrapping microsecond counter.
pub const TIMESTAMP_MODULUS: u64 = 0x1_0000_0000;

/// How long a send of a barometric sample or of a filtered altitude may wait.
pub const BARO_SEND_TIMEOUT_MS: u64 = 200;

/// How long a send of an inertial sample may wait.
pub const IMU_SEND_TIMEOUT_MS: u64 = 50;

/// Time stamped barometer data structure.
#[derive(Clone, Copy, Debug, PartialEq, Eq)]
pub struct BaroData {
    /// Pressure in hPa, as the bits of a single.
    pub pressure: u32,
    /// Temperature in degrees Celsius, as the bits of a single.
    pub temperature: u32,
    /// Monotonic microseconds, wrapped to 32 bits.
    pub time_stamp: u32,
}

/// Time stamped imu data structure.
#[derive(Clone, Copy, Debug, PartialEq, Eq)]
pub struct ImuData {
    /// Acceleration per axis, each as the bits of a single.
    pub acceleration: [u32; 3],
    /// Angular rate per axis, each as the bits of a single.
    pub gyro: [u32; 3],
    /// Magnetic field per axis, each as the bits of a single.
    pub mag: [u32; 3],
    /// Monotonic microseconds, wrapped to 32 bits.
    pub time_stamp: u32,
}

/// Anything that a channel's storage can hold.
#[derive(Clone, Copy, Debug, PartialEq, Eq)]
pub enum Telemetry {
    /// A raw barometric sample.
    Baro(BaroData),
    /// A raw inertial sample.
    Imu(ImuData),
    /// A filtered altitude in metres, as the bits of a single.
    Altitude(u32),
}

/// A message type of a channel: one kind of telemetry.
pub trait Message: Copy {
    /// How long a send of such a message may wait for a free slot, in
    /// milliseconds.
    spec fn spec_send_timeout_ms() -> u64;

    /// The message as the storage holds it.
    spec fn spec_to_telemetry(self) -> Telemetry;

    /// The message that the storage holds, if it is of this kind.
    spec fn spec_from_telemetry(telemetry: Telemetry) -> Option<Self>;

    /// What was wrapped comes out unchanged.
    proof fn lemma_from_to_telemetry(self)
        ensures
            Self::spec_from_telemetry(self.spec_to_telemetry()) == Some(self),
    ;

    /// How long a send of such a message may wait for a free slot.
    fn send_timeout_ms() -> (ms: u64)
        ensures
            ms == Self::spec_send_timeout_ms(),
    ;

    /// The message as the storage holds it.
    fn to_telemetry(self) -> (telemetry: Telemetry)
        ensures
            telemetry == self.spec_to_telemetry(),
    ;

    /// The message that the storage holds, if it is of this kind.
    fn from_telemetry(telemetry: Telemetry) -> (message: Option<Self>)
        ensures
            message == Self::spec_from_telemetry(telemetry),
    ;
}

impl Message for BaroData {
    open spec fn spec_send_timeout_ms() -> u64 {
        BARO_SEND_TIMEOUT_MS
    }

    open spec fn spec_to_telemetry(self) -> Telemetry {
        Telemetry::Baro(self)
    }

    open spec fn spec_from_telemetry(telemetry: Telemetry) -> Option<Self> {
        match telemetry {
            Telemetry::Baro(sample) => Some(sample),
            _ => None,
        }
    }

    proof fn lemma_from_to_telemetry(self) {
    }

    fn send_timeout_ms() -> (ms: u64) {
        BARO_SEND_TIMEOUT_MS
    }

    fn to_telemetry(self) -> (telemetry: Telemetry) {
        Telemetry::Baro(self)
    }

    fn from_telemetry(telemetry: Telemetry) -> (message: Option<Self>) {
        match telemetry {
            Telemetry::Baro(sample) => Some(sample),
            _ => None,
        }
    }
}

impl Message for ImuData {
    open spec fn spec_send_timeout_ms() -> u64 {
        IMU_SEND_TIMEOUT_MS
    }

    open spec fn spec_to_telemetry(self) -> Telemetry {
        Telemetry::Imu(self)
    }

    open spec fn spec_from_telemetry(telemetry: Telemetry) -> Option<Self> {
        match telemetry {
            Telemetry::Imu(sample) => Some(sample),
            _ => None,
        }
    }

    proof fn lemma_from_to_telemetry(self) {
    }

    fn send_timeout_ms() -> (ms: u64) {
        IMU_SEND_TIMEOUT_MS
    }

    fn to_telemetry(self) -> (telemetry: Telemetry) {
        Telemetry::Imu(self)
    }

    fn from_telemetry(telemetry: Telemetry) -> (message: Option<Self>) {
        match telemetry {
            Telemetry::Imu(sample) => Some(sample),
            _ => None,
        }
    }
}

/// A filtered altitude in metres, as the bits of a single.
impl Message for u32 {
    open spec fn spec_send_timeout_ms() -> u64 {
        BARO_SEND_TIMEOUT_MS
    }

    open spec fn spec_to_telemetry(self) -> Telemetry {
        Telemetry::Altitude(self)
    }

    open spec fn spec_from_telemetry(telemetry: Telemetry) -> Option<Self> {
        match telemetry {
            Telemetry::Altitude(bits) => Some(bits),
            _ => None,
        }
    }

    proof fn lemma_from_to_telemetry(self) {
    }

    fn send_timeout_ms() -> (ms: u64) {
        BARO_SEND_TIMEOUT_MS
    }

    fn to_telemetry(self) -> (telemetry: Telemetry) {
        Telemetry::Altitude(self)
    }

    fn from_telemetry(telemetry: Telemetry) -> (message: Option<Self>) {
        match telemetry {
            Telemetry::Altitude(bits) => Some(bits),
            _ => None,
        }
    }
}

/// The time stamp of a sample taken `micros` microseconds after start: the
/// free-running counter wraps at 2^32.
pub fn time_stamp_from_micros(micros: u64) -> (stamp: u32)
    ensures
        stamp == micros % TIMESTAMP_MODULUS,
{
    (micros % TIMESTAMP_MODULUS) as u32
}

} // verus!
