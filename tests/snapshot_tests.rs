use sysview::endpoint::{answer_query, QueryError};
use sysview::sensors::{
    clamp_usage, collect, filesystems, host_identity, load_average, memory_summary,
    processor_cores, thermal_readings, CoreReading, LoadReading, Readings, SpaceReading,
};
use sysview::snapshot::{Filesystem, LoadAverage, MemorySummary, Temperature, FULL_UTILIZATION};

const GIB: u64 = 1024 * 1024 * 1024;

fn core_reading(name: &str, usage: i64) -> CoreReading {
    CoreReading { name: name.to_string(), usage, frequency_text: None }
}

fn full_readings() -> Readings {
    Readings {
        cores: Some(vec![
            CoreReading { name: "cpu0".to_string(), usage: 1234, frequency_text: Some("1800000\n".to_string()) },
            CoreReading { name: "cpu1".to_string(), usage: 10001, frequency_text: None },
        ]),
        zone_temperature_text: Some("51000\n".to_string()),
        memory: Some(MemorySummary { free_ram: 10, total_ram: 40, used_ram: 25 }),
        load: Some(LoadReading { one: 150, five: 75, fifteen: 5 }),
        components: Some(vec![
            Temperature { component_name: "acpitz".to_string(), temp: 40000 },
            Temperature { component_name: "nvme".to_string(), temp: -1000 },
        ]),
        root_space: Some(SpaceReading { available: 5, total: 9 }),
        system_name: Some("Linux".to_string()),
        kernel_version: Some("6.1.0".to_string()),
        os_version: Some("Linux 12 Debian".to_string()),
    }
}

#[test]
fn four_core_host_scenario() {
    let readings = Readings {
        cores: Some(vec![core_reading("cpu0", 1000), core_reading("cpu1", 2000), core_reading("cpu2", 3000), core_reading("cpu3", 4000)]),
        zone_temperature_text: None,
        memory: Some(MemorySummary { free_ram: 100, total_ram: 400, used_ram: 300 }),
        load: Some(LoadReading { one: 10, five: 20, fifteen: 30 }),
        components: None,
        root_space: Some(SpaceReading { available: 50 * GIB, total: 100 * GIB }),
        system_name: None,
        kernel_version: None,
        os_version: None,
    };
    let s = collect(&readings);
    assert_eq!(s.processor_cores.len(), 4);
    let expected = [1000u32, 2000, 3000, 4000];
    for (i, c) in s.processor_cores.iter().enumerate() {
        assert_eq!(c.name, format!("cpu{}", i));
        assert_eq!(c.utilization, expected[i]);
        assert_eq!(c.temperature, 0);
        assert_eq!(c.frequency, 0);
    }
    assert_eq!(s.memory, MemorySummary { free_ram: 100, total_ram: 400, used_ram: 300 });
    assert_eq!(s.disks.len(), 1);
    assert_eq!(s.disks[0].mount_point, "/");
    assert_eq!(s.disks[0].available_space, 50 * GIB);
    assert_eq!(s.disks[0].total_space, 100 * GIB);
    assert_eq!(s.load_average, LoadAverage { one: 10, five: 20, fifteen: 30 });
    assert!(s.temperatures.is_empty());
}

#[test]
fn full_readings_fill_every_field() {
    let s = collect(&full_readings());
    assert_eq!(s.processor_cores.len(), 2);
    assert_eq!(s.processor_cores[0].name, "cpu0");
    assert_eq!(s.processor_cores[0].utilization, 1234);
    assert_eq!(s.processor_cores[0].frequency, 1_800_000_000);
    assert_eq!(s.processor_cores[0].temperature, 51000);
    assert_eq!(s.processor_cores[1].utilization, FULL_UTILIZATION);
    assert_eq!(s.processor_cores[1].frequency, 0);
    assert_eq!(s.processor_cores[1].temperature, 51000);
    assert_eq!(s.memory, MemorySummary { free_ram: 10, total_ram: 40, used_ram: 25 });
    assert_eq!(s.load_average, LoadAverage { one: 150, five: 75, fifteen: 5 });
    assert_eq!(s.temperatures.len(), 2);
    assert_eq!(s.temperatures[1].component_name, "nvme");
    assert_eq!(s.temperatures[1].temp, -1000);
    assert_eq!(s.disks[0].available_space, 5);
    assert_eq!(s.identity.system_name, "Linux");
    assert_eq!(s.identity.kernel_version, "6.1.0");
    assert_eq!(s.identity.os_version, "Linux 12 Debian");
}

#[test]
fn unsupported_memory_defaults_and_rest_is_filled() {
    let mut r = full_readings();
    r.memory = None;
    let s = collect(&r);
    assert_eq!(s.memory, MemorySummary { free_ram: 0, total_ram: 0, used_ram: 0 });
    assert_eq!(s.processor_cores.len(), 2);
    assert_eq!(s.load_average, LoadAverage { one: 150, five: 75, fifteen: 5 });
    assert_eq!(s.temperatures.len(), 2);
    assert_eq!(s.disks.len(), 1);
    assert_eq!(s.identity.os_version, "Linux 12 Debian");
}

#[test]
fn unsupported_thermal_zone_gives_zero_core_temperature() {
    let mut r = full_readings();
    r.zone_temperature_text = None;
    let s = collect(&r);
    assert_eq!(s.processor_cores[0].temperature, 0);
    assert_eq!(s.processor_cores[0].frequency, 1_800_000_000);
    assert_eq!(s.memory.total_ram, 40);
}

#[test]
fn every_source_unsupported_gives_defaults() {
    let r = Readings {
        cores: None,
        zone_temperature_text: None,
        memory: None,
        load: None,
        components: None,
        root_space: None,
        system_name: None,
        kernel_version: None,
        os_version: None,
    };
    let s = collect(&r);
    assert!(s.processor_cores.is_empty());
    assert_eq!(s.memory, MemorySummary::zero());
    assert_eq!(s.load_average, LoadAverage::zero());
    assert!(s.temperatures.is_empty());
    assert!(s.disks.is_empty());
    assert_eq!(s.identity.system_name, "");
    assert_eq!(s.identity.kernel_version, "");
    assert_eq!(s.identity.os_version, "");
}

#[test]
fn utilization_is_kept_within_percent_range() {
    assert_eq!(clamp_usage(-5), 0);
    assert_eq!(clamp_usage(0), 0);
    assert_eq!(clamp_usage(5000), 5000);
    assert_eq!(clamp_usage(10000), 10000);
    assert_eq!(clamp_usage(12000), 10000);
    let cores = processor_cores(&Some(vec![core_reading("a", -1), core_reading("b", 99999)]), &None);
    assert_eq!(cores[0].utilization, 0);
    assert_eq!(cores[1].utilization, FULL_UTILIZATION);
}

#[test]
fn available_space_never_exceeds_total() {
    let d = filesystems(Some(SpaceReading { available: 120, total: 100 }));
    assert_eq!(d.len(), 1);
    assert_eq!(d[0].available_space, 100);
    assert_eq!(d[0].total_space, 100);
    let z = filesystems(Some(SpaceReading { available: 120, total: 0 }));
    assert_eq!(z[0].available_space, 120);
    assert!(filesystems(None).is_empty());
    let f = Filesystem::new("/data".to_string(), 7, 3);
    assert_eq!(f.available_space, 3);
    assert_eq!(f.mount_point, "/data");
}

#[test]
fn load_average_is_never_negative() {
    assert_eq!(load_average(Some(LoadReading { one: -3, five: 0, fifteen: 42 })), LoadAverage { one: 0, five: 0, fifteen: 42 });
    assert_eq!(load_average(None), LoadAverage { one: 0, five: 0, fifteen: 0 });
}

#[test]
fn memory_counters_are_kept_as_reported() {
    let m = MemorySummary { free_ram: 100, total_ram: 400, used_ram: 250 };
    assert_eq!(memory_summary(Some(m)), m);
    assert_eq!(memory_summary(None), MemorySummary::zero());
}

#[test]
fn thermal_sensors_keep_their_order() {
    let t = thermal_readings(&Some(vec![
        Temperature { component_name: "b".to_string(), temp: 2 },
        Temperature { component_name: "a".to_string(), temp: 1 },
    ]));
    assert_eq!(t.len(), 2);
    assert_eq!(t[0].component_name, "b");
    assert_eq!(t[1].temp, 1);
    assert!(thermal_readings(&None).is_empty());
}

#[test]
fn identity_defaults_to_empty() {
    let h = host_identity(&Some("host".to_string()), &None, &Some("os".to_string()));
    assert_eq!(h.system_name, "host");
    assert_eq!(h.kernel_version, "");
    assert_eq!(h.os_version, "os");
}

#[test]
fn poisoned_guard_fails_the_query() {
    let r = answer_query(&Err(QueryError::GuardPoisoned));
    assert!(matches!(r, Err(QueryError::GuardPoisoned)));
}

#[test]
fn usable_guard_answers_with_snapshot() {
    let r = answer_query(&Ok(full_readings()));
    match r {
        Ok(s) => {
            assert_eq!(s.processor_cores.len(), 2);
            assert_eq!(s.memory.used_ram, 25);
        }
        Err(_) => panic!("expected a snapshot"),
    }
}
