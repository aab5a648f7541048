use unifi_exporter::metrics::{map_device, Metric, Reading};
use unifi_exporter::registry::MetricsExporter;
use unifi_exporter::telemetry::{DeviceStats, Interfaces, RadioStats, RawFloat, UplinkStats};

fn float_reading(x: f64) -> Reading {
    Reading::Real(RawFloat { bits: x.to_bits() })
}

fn stats(cpu: f64, mem: f64, uptime: u64, tx: u64, rx: u64) -> DeviceStats {
    DeviceStats {
        cpu_utilization_pct: RawFloat { bits: cpu.to_bits() },
        interfaces: Interfaces { radios: None },
        last_heartbeat_at: "2024-01-01T00:00:00Z".to_string(),
        load_average_15_min: RawFloat { bits: 0.15f64.to_bits() },
        load_average_1_min: RawFloat { bits: 0.01f64.to_bits() },
        load_average_5_min: RawFloat { bits: 0.05f64.to_bits() },
        memory_utilization_pct: RawFloat { bits: mem.to_bits() },
        next_heartbeat_at: "2024-01-01T00:00:30Z".to_string(),
        uplink: UplinkStats { rx_rate_bps: rx, tx_rate_bps: tx },
        uptime_sec: uptime,
    }
}

#[test]
fn mapper_gives_one_observation_per_family_in_order() {
    let obs = map_device("ap-lobby", &stats(12.5, 40.25, 3600, 1000, 2000));
    assert_eq!(obs.len(), 8);
    let metrics: Vec<Metric> = obs.iter().map(|o| o.metric).collect();
    assert_eq!(metrics, Metric::all());
    assert!(obs.iter().all(|o| o.device == "ap-lobby"));
    assert_eq!(obs[0].value, float_reading(12.5));
    assert_eq!(obs[1].value, float_reading(40.25));
    assert_eq!(obs[2].value, Reading::Count(3600));
    assert_eq!(obs[3].value, float_reading(0.01));
    assert_eq!(obs[4].value, float_reading(0.05));
    assert_eq!(obs[5].value, float_reading(0.15));
    assert_eq!(obs[6].value, Reading::Count(1000));
    assert_eq!(obs[7].value, Reading::Count(2000));
}

#[test]
fn mapper_ignores_radios() {
    let mut with_radios = stats(1.0, 2.0, 3, 4, 5);
    with_radios.interfaces.radios = Some(vec![RadioStats {
        frequency_ghz: RawFloat { bits: 5.0f64.to_bits() },
        tx_retries_pct: RawFloat { bits: 1.5f64.to_bits() },
    }]);
    let a = map_device("sw", &with_radios);
    let b = map_device("sw", &stats(1.0, 2.0, 3, 4, 5));
    let va: Vec<(Metric, String, Reading)> =
        a.into_iter().map(|o| (o.metric, o.device, o.value)).collect();
    let vb: Vec<(Metric, String, Reading)> =
        b.into_iter().map(|o| (o.metric, o.device, o.value)).collect();
    assert_eq!(va, vb);
}

#[test]
fn mapping_twice_gives_identical_observations() {
    let s = stats(12.5, 40.0, 77, 8, 9);
    let a: Vec<(Metric, String, Reading)> =
        map_device("gw", &s).into_iter().map(|o| (o.metric, o.device, o.value)).collect();
    let b: Vec<(Metric, String, Reading)> =
        map_device("gw", &s).into_iter().map(|o| (o.metric, o.device, o.value)).collect();
    assert_eq!(a, b);
}

#[test]
fn metric_names_are_the_exposed_families() {
    let names: Vec<&str> = Metric::all().iter().map(|m| m.name()).collect();
    assert_eq!(
        names,
        vec![
            "cpu_utilization_pct",
            "memory_utilization_pct",
            "uptime_seconds",
            "load_average_1min",
            "load_average_5min",
            "load_average_15min",
            "uplink_tx_rate_bps",
            "uplink_rx_rate_bps",
        ]
    );
}

#[test]
fn new_table_is_empty() {
    let t = MetricsExporter::new();
    assert!(t.series().is_empty());
    assert_eq!(t.value_of(Metric::CpuUtilization, "ap"), None);
}

#[test]
fn gauges_overwrite_rather_than_accumulate() {
    let mut t = MetricsExporter::new();
    t.update_device_metrics("ap", &stats(10.0, 20.0, 100, 1, 2));
    t.update_device_metrics("ap", &stats(11.0, 21.0, 200, 3, 4));
    assert_eq!(t.series().len(), 8);
    assert_eq!(t.value_of(Metric::CpuUtilization, "ap"), Some(float_reading(11.0)));
    assert_eq!(t.value_of(Metric::Uptime, "ap"), Some(Reading::Count(200)));
    assert_eq!(t.value_of(Metric::UplinkRxRate, "ap"), Some(Reading::Count(4)));
}

#[test]
fn recording_the_same_device_twice_changes_nothing() {
    let mut t = MetricsExporter::new();
    let s = stats(10.0, 20.0, 100, 1, 2);
    t.update_device_metrics("ap", &s);
    let once: Vec<(Metric, String, Reading)> =
        t.series().iter().map(|x| (x.metric, x.device.clone(), x.value)).collect();
    t.update_device_metrics("ap", &s);
    let twice: Vec<(Metric, String, Reading)> =
        t.series().iter().map(|x| (x.metric, x.device.clone(), x.value)).collect();
    assert_eq!(once, twice);
}

#[test]
fn three_devices_make_twenty_four_series() {
    let mut t = MetricsExporter::new();
    t.update_device_metrics("ap-lobby", &stats(12.5, 30.0, 10, 1, 2));
    t.update_device_metrics("ap-office", &stats(7.25, 31.0, 20, 3, 4));
    t.update_device_metrics("gw", &stats(55.0, 32.0, 30, 5, 6));
    assert_eq!(t.series().len(), 24);
    assert_eq!(t.value_of(Metric::CpuUtilization, "ap-lobby"), Some(float_reading(12.5)));
    assert_eq!(t.value_of(Metric::CpuUtilization, "ap-office"), Some(float_reading(7.25)));
    assert_eq!(t.value_of(Metric::UplinkTxRate, "gw"), Some(Reading::Count(5)));
}

#[test]
fn record_adds_a_single_series() {
    let mut t = MetricsExporter::new();
    t.record(unifi_exporter::metrics::Observation {
        metric: Metric::Uptime,
        device: "sw".to_string(),
        value: Reading::Count(9),
    });
    assert_eq!(t.series().len(), 1);
    assert_eq!(t.value_of(Metric::Uptime, "sw"), Some(Reading::Count(9)));
    assert_eq!(t.value_of(Metric::CpuUtilization, "sw"), None);
}
