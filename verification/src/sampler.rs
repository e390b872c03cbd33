//! The sampler: one [`Snapshot`] per sampling cycle.

use vstd::prelude::*;
use crate::disk::{DiskInfo, DiskInfoView};
use crate::load::{average_load, mean};
use crate::sensor::{
    cpu_temperature, first_cpu_temperature, lemma_first_cpu_temperature, qualifies, SensorReading,
    SensorReadingView,
};
use crate::units::{Celsius, Percent};

verus! {

/// What one cycle's queries of the operating system returned, each list in
/// enumeration order.
#[derive(Debug, PartialEq, Eq)]
pub struct Readings {
    /// The instantaneous utilisation of each logical CPU.
    pub cpu_usage: Vec<Percent>,
    /// The temperature sensors.
    pub sensors: Vec<SensorReading>,
    /// The storage volumes.
    pub disks: Vec<DiskInfo>,
}

/// The mathematical model of [`Readings`].
pub struct ReadingsView {
    pub cpu_usage: Seq<int>,
    pub sensors: Seq<SensorReadingView>,
    pub disks: Seq<DiskInfoView>,
}

impl View for Readings {
    type V = ReadingsView;

    open spec fn view(&self) -> ReadingsView {
        ReadingsView {
            cpu_usage: self.cpu_usage.deep_view(),
            sensors: self.sensors.deep_view(),
            disks: self.disks.deep_view(),
        }
    }
}

impl Clone for Readings {
    fn clone(&self) -> (copy: Readings)
        ensures
            copy@ == self@,
    {
        let cpu_usage = self.cpu_usage.clone();
        let sensors = self.sensors.clone();
        let disks = self.disks.clone();
        proof {
            assert(cpu_usage.deep_view() =~= self.cpu_usage.deep_view());
            assert(sensors.deep_view() =~= self.sensors.deep_view());
            assert(disks.deep_view() =~= self.disks.deep_view());
        }
        Readings { cpu_usage, sensors, disks }
    }
}

/// The telemetry of one sampling cycle.  A snapshot is made by
/// [`MetricsSampler::sample`] and cannot be changed afterwards.
#[derive(Debug, PartialEq, Eq)]
pub struct Snapshot {
    cpu_load_percent: Option<Percent>,
    cpu_temperature_celsius: Option<Celsius>,
    disks: Vec<DiskInfo>,
}

/// The mathematical model of a [`Snapshot`].
pub struct SnapshotView {
    pub cpu_load_percent: Option<int>,
    pub cpu_temperature_celsius: Option<int>,
    pub disks: Seq<DiskInfoView>,
}

impl View for Snapshot {
    type V = SnapshotView;

    closed spec fn view(&self) -> SnapshotView {
        SnapshotView {
            cpu_load_percent: self.cpu_load_percent.deep_view(),
            cpu_temperature_celsius: self.cpu_temperature_celsius.deep_view(),
            disks: self.disks.deep_view(),
        }
    }
}

impl Clone for Snapshot {
    fn clone(&self) -> (copy: Snapshot)
        ensures
            copy@ == self@,
    {
        proof {
            use_type_invariant(self);
        }
        let disks = self.disks.clone();
        proof {
            assert(disks.deep_view() =~= self.disks.deep_view());
        }
        Snapshot {
            cpu_load_percent: self.cpu_load_percent,
            cpu_temperature_celsius: self.cpu_temperature_celsius,
            disks,
        }
    }
}

impl Snapshot {
    /// A temperature is only ever reported when it is strictly positive.
    #[verifier::type_invariant]
    spec fn temperature_is_positive(&self) -> bool {
        self.cpu_temperature_celsius matches Some(t) ==> t@ > 0
    }

    /// Mean utilisation over all logical CPUs; `None` until a cycle has seen
    /// one.
    pub fn cpu_load_percent(&self) -> (load: Option<Percent>)
        ensures
            load.deep_view() == self@.cpu_load_percent,
    {
        self.cpu_load_percent
    }

    /// Temperature of the first CPU sensor with a positive value.
    pub fn cpu_temperature_celsius(&self) -> (temperature: Option<Celsius>)
        ensures
            temperature.deep_view() == self@.cpu_temperature_celsius,
            temperature matches Some(t) ==> t@ > 0,
    {
        proof {
            use_type_invariant(self);
        }
        self.cpu_temperature_celsius
    }

    /// The storage volumes, in enumeration order.
    pub fn disks(&self) -> (disks: &Vec<DiskInfo>)
        ensures
            disks.deep_view() == self@.disks,
    {
        &self.disks
    }
}

/// The load a cycle reports: the mean of its readings, or, when it has none,
/// the load carried over from the cycle before.
pub open spec fn next_load(carried: Option<int>, cpu_usage: Seq<int>) -> Option<int> {
    if cpu_usage.len() > 0 {
        Some(mean(cpu_usage))
    } else {
        carried
    }
}

/// The snapshot a cycle produces from the carried load and its readings.
pub open spec fn snapshot_of(carried: Option<int>, readings: ReadingsView) -> SnapshotView {
    SnapshotView {
        cpu_load_percent: next_load(carried, readings.cpu_usage),
        cpu_temperature_celsius: first_cpu_temperature(readings.sensors),
        disks: readings.disks,
    }
}

/// Turns the readings of each cycle into a snapshot, remembering the last
/// load between cycles.
pub struct MetricsSampler {
    cpu_load: Option<Percent>,
}

impl MetricsSampler {
    /// The load that the next cycle falls back on.
    pub closed spec fn carried_load(&self) -> Option<int> {
        self.cpu_load.deep_view()
    }

    /// A sampler that has not seen any cycle yet.
    pub fn new() -> (sampler: MetricsSampler)
        ensures
            sampler.carried_load() is None,
    {
        MetricsSampler { cpu_load: None }
    }

    /// The load reported by the last cycle.
    pub fn cpu_load(&self) -> (load: Option<Percent>)
        ensures
            load.deep_view() == self.carried_load(),
    {
        self.cpu_load
    }

    /// Runs one sampling cycle on what the operating system returned.
    pub fn sample(&mut self, readings: Readings) -> (snapshot: Snapshot)
        ensures
            snapshot@ == snapshot_of(old(self).carried_load(), readings@),
            final(self).carried_load() == snapshot@.cpu_load_percent,
    {
        match average_load(&readings.cpu_usage) {
            Some(load) => {
                self.cpu_load = Some(load);
            },
            None => {},
        }
        let cpu_temperature_celsius = cpu_temperature(&readings.sensors);
        proof {
            lemma_first_cpu_temperature(readings.sensors.deep_view());
        }
        Snapshot { cpu_load_percent: self.cpu_load, cpu_temperature_celsius, disks: readings.disks }
    }
}

impl Default for MetricsSampler {
    fn default() -> (sampler: MetricsSampler)
        ensures
            sampler.carried_load() is None,
    {
        MetricsSampler::new()
    }
}

/// A cycle that sees at least one CPU reports the mean of the readings,
/// whatever load was carried into it.
pub proof fn lemma_load_is_mean_of_readings(carried: Option<int>, readings: ReadingsView)
    requires
        readings.cpu_usage.len() > 0,
    ensures
        snapshot_of(carried, readings).cpu_load_percent == Some(mean(readings.cpu_usage)),
{
}

/// A cycle that sees no CPU reports the load of the cycle before it, and
/// hands the same load on to the next.
pub proof fn lemma_load_is_carried_over(
    carried: Option<int>,
    before: ReadingsView,
    now: ReadingsView,
)
    requires
        now.cpu_usage.len() == 0,
    ensures
        snapshot_of(carried, now).cpu_load_percent == carried,
        snapshot_of(snapshot_of(carried, before).cpu_load_percent, now).cpu_load_percent
            == snapshot_of(carried, before).cpu_load_percent,
{
}

/// The temperature is never carried over: whatever the cycles before it
/// reported, a cycle reports no temperature exactly when none of its own
/// sensors qualifies.
pub proof fn lemma_temperature_is_overwritten(carried: Option<int>, readings: ReadingsView)
    ensures
        snapshot_of(carried, readings).cpu_temperature_celsius is None <==> forall|i: int|
            0 <= i < readings.sensors.len() ==> !qualifies(#[trigger] readings.sensors[i]),
{
    lemma_first_cpu_temperature(readings.sensors);
}

/// A reported temperature is strictly positive.
pub proof fn lemma_temperature_is_positive(carried: Option<int>, readings: ReadingsView)
    ensures
        snapshot_of(carried, readings).cpu_temperature_celsius matches Some(t) ==> t > 0,
{
    lemma_first_cpu_temperature(readings.sensors);
}

/// When every enumeration comes back empty the cycle still yields a
/// snapshot: the carried load, no temperature and no disks.
pub proof fn lemma_snapshot_of_empty_readings(carried: Option<int>, readings: ReadingsView)
    requires
        readings.cpu_usage.len() == 0,
        readings.sensors.len() == 0,
        readings.disks.len() == 0,
    ensures
        snapshot_of(carried, readings) == (SnapshotView {
            cpu_load_percent: carried,
            cpu_temperature_celsius: None,
            disks: Seq::empty(),
        }),
{
    assert(readings.disks =~= Seq::empty());
}

/// Sampling the same readings twice in a row yields the same snapshot twice.
pub proof fn lemma_sampling_is_idempotent(carried: Option<int>, readings: ReadingsView)
    ensures
        snapshot_of(snapshot_of(carried, readings).cpu_load_percent, readings) == snapshot_of(
            carried,
            readings,
        ),
{
}

} // verus!
