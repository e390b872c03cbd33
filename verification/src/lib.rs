//! Hardware-metrics sampling core.
//!
//! A host loop queries the operating system once per cycle and hands what it
//! read to a [`MetricsSampler`] as [`Readings`].  The sampler turns them into a
//! [`Snapshot`]: the mean CPU load, the temperature of the first CPU sensor
//! that reports a positive value, and the disks in enumeration order.
//!
//! All quantities are fixed-point integers in thousandths of their unit, so
//! every contract is stated over mathematical integers and sequences.

pub mod disk;
pub mod load;
pub mod sampler;
pub mod sensor;
pub mod units;

pub use disk::{DiskInfo, DiskKind};
pub use sampler::{MetricsSampler, Readings, Snapshot};
pub use sensor::SensorReading;
pub use units::{Celsius, Percent};
