//! The sensor adapters and the aggregation pass.
//!
//! Each adapter takes what its source delivered, or `None` where the source
//! is absent, unreadable or refused, and always returns a well-formed value:
//! the reading where there is one, the zero or empty value where there is
//! not. No adapter looks at another's reading, so one missing sensor never
//! keeps the others from reporting.
use vstd::prelude::*;
use crate::parse::{parse_frequency_hz, parse_millidegrees, frequency_hz_of, millidegrees_of};
use crate::snapshot::{
    ProcessorCore,
    Filesystem,
    Temperature,
    MemorySummary,
    LoadAverage,
    HostIdentity,
    Snapshot,
    FULL_UTILIZATION,
};

verus! {

/// What the processor source says of one core.
pub struct CoreReading {
    pub name: String,
    /// Utilization as measured, in hundredths of a percent; it may stray out
    /// of range.
    pub usage: i64,
    /// The text of the core's `scaling_cur_freq` file, if it could be read.
    pub frequency_text: Option<String>,
}

/// Load averages as measured, in hundredths.
#[derive(Clone, Copy, Debug, PartialEq, Eq, Structural)]
pub struct LoadReading {
    pub one: i64,
    pub five: i64,
    pub fifteen: i64,
}

/// Available and total bytes of a filesystem, as its mount reports them.
#[derive(Clone, Copy, Debug, PartialEq, Eq, Structural)]
pub struct SpaceReading {
    pub available: u64,
    pub total: u64,
}

/// Everything the sensors delivered in one pass; `None` marks a source that
/// was unavailable.
pub struct Readings {
    pub cores: Option<Vec<CoreReading>>,
    /// The text of the thermal zone's `temp` file, shared by all cores.
    pub zone_temperature_text: Option<String>,
    pub memory: Option<MemorySummary>,
    pub load: Option<LoadReading>,
    pub components: Option<Vec<Temperature>>,
    /// The space on the root filesystem.
    pub root_space: Option<SpaceReading>,
    pub system_name: Option<String>,
    pub kernel_version: Option<String>,
    pub os_version: Option<String>,
}

/// A measured utilization brought into 0..=100 %.
pub open spec fn clamped_usage(usage: i64) -> u32 {
    if usage < 0 {
        0
    } else if usage > FULL_UTILIZATION {
        FULL_UTILIZATION
    } else {
        usage as u32
    }
}

/// The clock rate of a core whose frequency file held `text`.
pub open spec fn frequency_of(text: Option<String>) -> u64 {
    match text {
        Some(t) => frequency_hz_of(t@),
        None => 0,
    }
}

/// The temperature of a thermal zone whose `temp` file held `text`.
pub open spec fn zone_temperature_of(text: Option<String>) -> i64 {
    match text {
        Some(t) => millidegrees_of(t@),
        None => 0,
    }
}

/// `c` is the entry for the core read as `r`, with the zone reading `zone`.
pub open spec fn core_from(c: ProcessorCore, r: CoreReading, zone: Option<String>) -> bool {
    &&& c.name@ == r.name@
    &&& c.utilization == clamped_usage(r.usage)
    &&& c.frequency == frequency_of(r.frequency_text)
    &&& c.temperature == zone_temperature_of(zone)
}

/// `v` is the core list for the readings `cores` and `zone`.
pub open spec fn cores_from(
    v: Seq<ProcessorCore>,
    cores: Option<Vec<CoreReading>>,
    zone: Option<String>,
) -> bool {
    match cores {
        Some(rs) => v.len() == rs@.len() && forall|i: int|
            0 <= i < v.len() ==> core_from(#[trigger] v[i], rs@[i], zone),
        None => v.len() == 0,
    }
}

pub open spec fn load_value(x: i64) -> u64 {
    if x < 0 {
        0
    } else {
        x as u64
    }
}

/// The load averages for the reading `r`.
pub open spec fn load_from(r: Option<LoadReading>) -> LoadAverage {
    match r {
        Some(l) => LoadAverage {
            one: load_value(l.one),
            five: load_value(l.five),
            fifteen: load_value(l.fifteen),
        },
        None => LoadAverage::spec_zero(),
    }
}

/// The memory summary for the reading `r`.
pub open spec fn memory_from(r: Option<MemorySummary>) -> MemorySummary {
    match r {
        Some(m) => m,
        None => MemorySummary::spec_zero(),
    }
}

/// `v` lists the thermal sensors read as `r`, in their order.
pub open spec fn temperatures_from(v: Seq<Temperature>, r: Option<Vec<Temperature>>) -> bool {
    match r {
        Some(ts) => v.len() == ts@.len() && forall|i: int|
            0 <= i < v.len() ==> (#[trigger] v[i]).component_name@ == ts@[i].component_name@
                && v[i].temp == ts@[i].temp,
        None => v.len() == 0,
    }
}

/// The available space kept for a filesystem whose mount reported `s`.
pub open spec fn kept_available(s: SpaceReading) -> u64 {
    if s.total != 0 && s.available > s.total {
        s.total
    } else {
        s.available
    }
}

/// `v` lists the root filesystem read as `r`: one entry mounted at `/`, or
/// none where it could not be read.
pub open spec fn disks_from(v: Seq<Filesystem>, r: Option<SpaceReading>) -> bool {
    match r {
        Some(s) => {
            &&& v.len() == 1
            &&& v[0].mount_point@ == seq!['/']
            &&& v[0].available_space == kept_available(s)
            &&& v[0].total_space == s.total
        },
        None => v.len() == 0,
    }
}

/// The text a name source reported, or the empty text.
pub open spec fn name_of(r: Option<String>) -> Seq<char> {
    match r {
        Some(s) => s@,
        None => Seq::empty(),
    }
}

/// `h` names the host as the three sources reported it.
pub open spec fn identity_from(
    h: HostIdentity,
    system_name: Option<String>,
    kernel_version: Option<String>,
    os_version: Option<String>,
) -> bool {
    &&& h.system_name@ == name_of(system_name)
    &&& h.kernel_version@ == name_of(kernel_version)
    &&& h.os_version@ == name_of(os_version)
}

/// `s` is the snapshot that the readings `r` make.
pub open spec fn snapshot_from(s: Snapshot, r: Readings) -> bool {
    &&& cores_from(s.processor_cores@, r.cores, r.zone_temperature_text)
    &&& s.memory == memory_from(r.memory)
    &&& s.load_average == load_from(r.load)
    &&& temperatures_from(s.temperatures@, r.components)
    &&& disks_from(s.disks@, r.root_space)
    &&& identity_from(s.identity, r.system_name, r.kernel_version, r.os_version)
}

/// The text a name source reported, or the empty text.
fn text_or_empty(r: &Option<String>) -> (t: String)
    ensures
        t@ == name_of(*r),
{
    match r {
        Some(s) => s.clone(),
        None => String::new(),
    }
}

/// A measured utilization brought into 0..=100 %.
pub fn clamp_usage(usage: i64) -> (r: u32)
    ensures
        r == clamped_usage(usage),
        r <= FULL_UTILIZATION,
{
    if usage < 0 {
        0
    } else if usage > FULL_UTILIZATION as i64 {
        FULL_UTILIZATION
    } else {
        usage as u32
    }
}

/// The processor adapter: one entry per core that the source listed, each
/// with its clock rate and the zone temperature; no entries where the source
/// is unavailable.
pub fn processor_cores(cores: &Option<Vec<CoreReading>>, zone_text: &Option<String>) -> (r: Vec<
    ProcessorCore,
>)
    ensures
        cores_from(r@, *cores, *zone_text),
        forall|i: int| 0 <= i < r@.len() ==> (#[trigger] r@[i]).wf(),
{
    let temperature = match zone_text {
        Some(t) => parse_millidegrees(t.as_str()),
        None => 0,
    };
    let mut out: Vec<ProcessorCore> = Vec::new();
    match cores {
        Some(rs) => {
            let n = rs.len();
            for k in 0..n
                invariant
                    n == rs@.len(),
                    out@.len() == k,
                    temperature == zone_temperature_of(*zone_text),
                    forall|i: int|
                        0 <= i < k ==> core_from(#[trigger] out@[i], rs@[i], *zone_text)
                            && out@[i].wf(),
            {
                let reading = &rs[k];
                let frequency = match &reading.frequency_text {
                    Some(t) => parse_frequency_hz(t.as_str()),
                    None => 0,
                };
                out.push(
                    ProcessorCore {
                        name: reading.name.clone(),
                        utilization: clamp_usage(reading.usage),
                        frequency,
                        temperature,
                    },
                );
            }
        },
        None => {},
    }
    out
}

/// The memory adapter: the counters as reported, or all zero.
pub fn memory_summary(reading: Option<MemorySummary>) -> (r: MemorySummary)
    ensures
        r == memory_from(reading),
{
    match reading {
        Some(m) => m,
        None => MemorySummary::zero(),
    }
}

/// The load-average adapter: the three averages, none below zero, or all
/// zero where the source is unavailable.
pub fn load_average(reading: Option<LoadReading>) -> (r: LoadAverage)
    ensures
        r == load_from(reading),
{
    match reading {
        Some(l) => LoadAverage {
            one: if l.one < 0 {
                0
            } else {
                l.one as u64
            },
            five: if l.five < 0 {
                0
            } else {
                l.five as u64
            },
            fifteen: if l.fifteen < 0 {
                0
            } else {
                l.fifteen as u64
            },
        },
        None => LoadAverage::zero(),
    }
}

/// The thermal adapter: one entry per sensor reported, in order; none where
/// the source is unavailable.
pub fn thermal_readings(reading: &Option<Vec<Temperature>>) -> (r: Vec<Temperature>)
    ensures
        temperatures_from(r@, *reading),
{
    let mut out: Vec<Temperature> = Vec::new();
    match reading {
        Some(ts) => {
            let n = ts.len();
            for k in 0..n
                invariant
                    n == ts@.len(),
                    out@.len() == k,
                    forall|i: int|
                        0 <= i < k ==> (#[trigger] out@[i]).component_name@
                            == ts@[i].component_name@ && out@[i].temp == ts@[i].temp,
            {
                out.push(
                    Temperature { component_name: ts[k].component_name.clone(), temp: ts[k].temp },
                );
            }
        },
        None => {},
    }
    out
}

/// The filesystem adapter: the root filesystem, or no entry where its
/// capacity could not be read.
pub fn filesystems(root_space: Option<SpaceReading>) -> (r: Vec<Filesystem>)
    ensures
        disks_from(r@, root_space),
        forall|i: int| 0 <= i < r@.len() ==> (#[trigger] r@[i]).wf(),
{
    let mut out: Vec<Filesystem> = Vec::new();
    match root_space {
        Some(s) => {
            let root = String::from_str("/");
            proof {
                reveal_strlit("/");
                assert(root@ =~= seq!['/']);
            }
            out.push(Filesystem::new(root, s.available, s.total));
        },
        None => {},
    }
    out
}

/// The identity adapter: each name as reported, or empty.
pub fn host_identity(
    system_name: &Option<String>,
    kernel_version: &Option<String>,
    os_version: &Option<String>,
) -> (r: HostIdentity)
    ensures
        identity_from(r, *system_name, *kernel_version, *os_version),
{
    HostIdentity {
        system_name: text_or_empty(system_name),
        kernel_version: text_or_empty(kernel_version),
        os_version: text_or_empty(os_version),
    }
}

/// One aggregation pass: each adapter in turn (processor, memory, load
/// average, thermal, filesystem, identity), assembled into one snapshot.
/// Where a source is unavailable its field holds the zero or empty value and
/// every other field is still filled from its own reading.
pub fn collect(readings: &Readings) -> (r: Snapshot)
    ensures
        snapshot_from(r, *readings),
        r.wf(),
        readings.cores is None ==> r.processor_cores@.len() == 0,
        readings.zone_temperature_text is None ==> forall|i: int|
            0 <= i < r.processor_cores@.len() ==> (#[trigger] r.processor_cores@[i]).temperature
                == 0,
        readings.memory is None ==> r.memory == MemorySummary::spec_zero(),
        readings.load is None ==> r.load_average == LoadAverage::spec_zero(),
        readings.components is None ==> r.temperatures@.len() == 0,
        readings.root_space is None ==> r.disks@.len() == 0,
        readings.system_name is None ==> r.identity.system_name@.len() == 0,
        readings.kernel_version is None ==> r.identity.kernel_version@.len() == 0,
        readings.os_version is None ==> r.identity.os_version@.len() == 0,
{
    let processor_cores = processor_cores(&readings.cores, &readings.zone_temperature_text);
    let memory = memory_summary(readings.memory);
    let load_average = load_average(readings.load);
    let temperatures = thermal_readings(&readings.components);
    let disks = filesystems(readings.root_space);
    let identity = host_identity(
        &readings.system_name,
        &readings.kernel_version,
        &readings.os_version,
    );
    Snapshot { processor_cores, memory, disks, load_average, temperatures, identity }
}

} // verus!
