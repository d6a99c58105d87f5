//! The snapshot of a host: what one aggregation pass hands back.
//!
//! Every quantity is an integer in a fixed unit: utilization in hundredths of
//! a percent, temperatures in thousandths of a degree Celsius, load averages
//! in hundredths, memory and disk space in bytes, clock rates in Hz. A field
//! that no sensor could fill holds zero or the empty string, never nothing.
use vstd::prelude::*;

verus! {

/// Full utilization of a core, in hundredths of a percent.
pub const FULL_UTILIZATION: u32 = 10000;

/// One processor core.
pub struct ProcessorCore {
    pub name: String,
    /// Hundredths of a percent, from 0 to `FULL_UTILIZATION`.
    pub utilization: u32,
    /// Hz; 0 where unknown.
    pub frequency: u64,
    /// Thousandths of a degree Celsius; 0 where unknown.
    pub temperature: i64,
}

/// The capacity of one mounted filesystem, in bytes.
pub struct Filesystem {
    pub mount_point: String,
    pub available_space: u64,
    pub total_space: u64,
}

/// The reading of one thermal sensor.
pub struct Temperature {
    pub component_name: String,
    /// Thousandths of a degree Celsius.
    pub temp: i64,
}

/// Memory counters in bytes, each as the system reports it: `used_ram` is
/// not derived from the other two.
#[derive(Clone, Copy, Debug, PartialEq, Eq, Structural)]
pub struct MemorySummary {
    pub free_ram: u64,
    pub total_ram: u64,
    pub used_ram: u64,
}

/// Load averages over one, five and fifteen minutes, in hundredths.
#[derive(Clone, Copy, Debug, PartialEq, Eq, Structural)]
pub struct LoadAverage {
    pub one: u64,
    pub five: u64,
    pub fifteen: u64,
}

/// The names of the host, its kernel and its operating system.
pub struct HostIdentity {
    pub system_name: String,
    pub kernel_version: String,
    pub os_version: String,
}

/// Everything one aggregation pass learned of the host.
pub struct Snapshot {
    pub processor_cores: Vec<ProcessorCore>,
    pub memory: MemorySummary,
    pub disks: Vec<Filesystem>,
    pub load_average: LoadAverage,
    pub temperatures: Vec<Temperature>,
    pub identity: HostIdentity,
}

impl ProcessorCore {
    pub open spec fn wf(&self) -> bool {
        self.utilization <= FULL_UTILIZATION
    }
}

impl Filesystem {
    /// Never more space available than there is, where both are known.
    pub open spec fn wf(&self) -> bool {
        self.available_space != 0 && self.total_space != 0 ==> self.available_space
            <= self.total_space
    }

    /// A filesystem entry from the two counters its mount reports; where they
    /// disagree, the available space is cut down to the total.
    pub fn new(mount_point: String, available_space: u64, total_space: u64) -> (r: Filesystem)
        ensures
            r.mount_point == mount_point,
            r.total_space == total_space,
            r.available_space == (if total_space != 0 && available_space > total_space {
                total_space
            } else {
                available_space
            }),
            r.wf(),
    {
        let available_space = if total_space != 0 && available_space > total_space {
            total_space
        } else {
            available_space
        };
        Filesystem { mount_point, available_space, total_space }
    }
}

impl MemorySummary {
    pub open spec fn spec_zero() -> MemorySummary {
        MemorySummary { free_ram: 0, total_ram: 0, used_ram: 0 }
    }

    /// All counters zero: what stands where memory cannot be read.
    #[verifier::when_used_as_spec(spec_zero)]
    pub fn zero() -> (r: MemorySummary)
        ensures
            r == MemorySummary::spec_zero(),
    {
        MemorySummary { free_ram: 0, total_ram: 0, used_ram: 0 }
    }
}

impl LoadAverage {
    pub open spec fn spec_zero() -> LoadAverage {
        LoadAverage { one: 0, five: 0, fifteen: 0 }
    }

    /// All averages zero: what stands where the load cannot be read.
    #[verifier::when_used_as_spec(spec_zero)]
    pub fn zero() -> (r: LoadAverage)
        ensures
            r == LoadAverage::spec_zero(),
    {
        LoadAverage { one: 0, five: 0, fifteen: 0 }
    }
}

impl Snapshot {
    /// Every core's utilization lies within 0..=100 %, and no filesystem has
    /// more space available than in total.
    pub open spec fn wf(&self) -> bool {
        &&& forall|i: int|
            0 <= i < self.processor_cores@.len() ==> (#[trigger] self.processor_cores@[i]).wf()
        &&& forall|i: int| 0 <= i < self.disks@.len() ==> (#[trigger] self.disks@[i]).wf()
    }
}

} // verus!
