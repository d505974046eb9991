//! Concurrency and data-flow core of a small flight computer.
//!
//! Sensor tasks publish time-stamped samples on bounded channels, a control
//! task polls the filtered altitude, and a logging task drains the raw
//! channels into a byte budget that decides when storage is flushed. Every
//! operation here returns at once: waiting is left to the scheduler that
//! drives these functions.

pub mod acquisition;
pub mod channel;
pub mod control;
pub mod history;
pub mod logging;
pub mod publish;
pub mod queues;
pub mod sample;

pub use crate::sample::{BaroData, ImuData};
