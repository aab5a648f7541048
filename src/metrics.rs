//! The metric mapper and the gauge table: each device's statistics become one
//! observation per metric, and the table keeps the latest value of every
//! (metric, device) series.

use crate::telemetry::{DeviceStats, RawFloat};
use vstd::prelude::*;

verus! {

/// The metric families, registered once, in this order.
#[derive(Debug, Clone, Copy, PartialEq, Eq, Structural)]
pub enum Metric {
    CpuUtilization,
    MemoryUtilization,
    Uptime,
    LoadAverage1Min,
    LoadAverage5Min,
    LoadAverage15Min,
    UplinkTxRate,
    UplinkRxRate,
}

/// The value of one observation: a reading that arrived as a float, or an
/// integer count that the encoder widens to a float.
#[derive(Debug, Clone, Copy, PartialEq, Eq, Structural)]
pub enum Reading {
    Real(RawFloat),
    Count(u64),
}

/// The families in registration order.
pub open spec fn all_metrics() -> Seq<Metric> {
    seq![
        Metric::CpuUtilization,
        Metric::MemoryUtilization,
        Metric::Uptime,
        Metric::LoadAverage1Min,
        Metric::LoadAverage5Min,
        Metric::LoadAverage15Min,
        Metric::UplinkTxRate,
        Metric::UplinkRxRate,
    ]
}

/// The name under which a family is exposed.
pub open spec fn metric_name(m: Metric) -> Seq<char> {
    match m {
        Metric::CpuUtilization => "cpu_utilization_pct"@,
        Metric::MemoryUtilization => "memory_utilization_pct"@,
        Metric::Uptime => "uptime_seconds"@,
        Metric::LoadAverage1Min => "load_average_1min"@,
        Metric::LoadAverage5Min => "load_average_5min"@,
        Metric::LoadAverage15Min => "load_average_15min"@,
        Metric::UplinkTxRate => "uplink_tx_rate_bps"@,
        Metric::UplinkRxRate => "uplink_rx_rate_bps"@,
    }
}

/// The field of the statistics that a family reports.
pub open spec fn metric_reading(m: Metric, stats: DeviceStats) -> Reading {
    match m {
        Metric::CpuUtilization => Reading::Real(stats.cpu_utilization_pct),
        Metric::MemoryUtilization => Reading::Real(stats.memory_utilization_pct),
        Metric::Uptime => Reading::Count(stats.uptime_sec),
        Metric::LoadAverage1Min => Reading::Real(stats.load_average_1_min),
        Metric::LoadAverage5Min => Reading::Real(stats.load_average_5_min),
        Metric::LoadAverage15Min => Reading::Real(stats.load_average_15_min),
        Metric::UplinkTxRate => Reading::Count(stats.uplink.tx_rate_bps),
        Metric::UplinkRxRate => Reading::Count(stats.uplink.rx_rate_bps),
    }
}

impl Metric {
    /// The exposed name of the family.
    pub fn name(&self) -> (r: &'static str)
        ensures
            r@ == metric_name(*self),
    {
        match self {
            Metric::CpuUtilization => "cpu_utilization_pct",
            Metric::MemoryUtilization => "memory_utilization_pct",
            Metric::Uptime => "uptime_seconds",
            Metric::LoadAverage1Min => "load_average_1min",
            Metric::LoadAverage5Min => "load_average_5min",
            Metric::LoadAverage15Min => "load_average_15min",
            Metric::UplinkTxRate => "uplink_tx_rate_bps",
            Metric::UplinkRxRate => "uplink_rx_rate_bps",
        }
    }

    /// The help text of the family.
    pub fn help(&self) -> &'static str {
        match self {
            Metric::CpuUtilization => "CPU usage (%)",
            Metric::MemoryUtilization => "Memory usage (%)",
            Metric::Uptime => "Uptime in seconds",
            Metric::LoadAverage1Min => "Load avg over 1min",
            Metric::LoadAverage5Min => "Load avg over 5min",
            Metric::LoadAverage15Min => "Load avg over 15min",
            Metric::UplinkTxRate => "Uplink TX rate in bps",
            Metric::UplinkRxRate => "Uplink RX rate in bps",
        }
    }

    /// Every family, in registration order.
    pub fn all() -> (r: Vec<Metric>)
        ensures
            r@ == all_metrics(),
    {
        let r = vec![
            Metric::CpuUtilization,
            Metric::MemoryUtilization,
            Metric::Uptime,
            Metric::LoadAverage1Min,
            Metric::LoadAverage5Min,
            Metric::LoadAverage15Min,
            Metric::UplinkTxRate,
            Metric::UplinkRxRate,
        ];
        assert(r@ =~= all_metrics());
        r
    }
}

/// One value of one family for one device label.
#[derive(Debug, Clone)]
pub struct Observation {
    pub metric: Metric,
    pub device: String,
    pub value: Reading,
}

/// An observation as a (family, label, value) triple.
pub open spec fn observation_view(o: Observation) -> (Metric, Seq<char>, Reading) {
    (o.metric, o.device@, o.value)
}

/// The observations of a sequence, as triples.
pub open spec fn observations_view(s: Seq<Observation>) -> Seq<(Metric, Seq<char>, Reading)> {
    s.map_values(|o: Observation| observation_view(o))
}

/// What the mapper makes of one device: each family in registration order,
/// labelled with the device, valued from the statistics.
pub open spec fn device_observations(label: Seq<char>, stats: DeviceStats) -> Seq<
    (Metric, Seq<char>, Reading),
> {
    all_metrics().map_values(|m: Metric| (m, label, metric_reading(m, stats)))
}

fn observe(metric: Metric, device_name: &str, value: Reading) -> (r: Observation)
    ensures
        observation_view(r) == (metric, device_name@, value),
{
    Observation { metric, device: String::from_str(device_name), value }
}

/// Maps a device's statistics to one observation per family, labelled with
/// `device_name`. Optional parts of the statistics, such as radios, are not read.
pub fn map_device(device_name: &str, stats: &DeviceStats) -> (r: Vec<Observation>)
    ensures
        observations_view(r@) == device_observations(device_name@, *stats),
{
    let mut r: Vec<Observation> = Vec::new();
    r.push(observe(Metric::CpuUtilization, device_name, Reading::Real(stats.cpu_utilization_pct)));
    r.push(
        observe(Metric::MemoryUtilization, device_name, Reading::Real(stats.memory_utilization_pct)),
    );
    r.push(observe(Metric::Uptime, device_name, Reading::Count(stats.uptime_sec)));
    r.push(observe(Metric::LoadAverage1Min, device_name, Reading::Real(stats.load_average_1_min)));
    r.push(observe(Metric::LoadAverage5Min, device_name, Reading::Real(stats.load_average_5_min)));
    r.push(
        observe(Metric::LoadAverage15Min, device_name, Reading::Real(stats.load_average_15_min)),
    );
    r.push(observe(Metric::UplinkTxRate, device_name, Reading::Count(stats.uplink.tx_rate_bps)));
    r.push(observe(Metric::UplinkRxRate, device_name, Reading::Count(stats.uplink.rx_rate_bps)));
    assert(observations_view(r@) =~= device_observations(device_name@, *stats));
    r
}

/// Mapping keeps no state: two mappings of the same label and statistics give
/// the same observations.
pub proof fn lemma_mapping_repeatable(
    label: Seq<char>,
    stats: DeviceStats,
    first: Seq<Observation>,
    second: Seq<Observation>,
)
    requires
        observations_view(first) == device_observations(label, stats),
        observations_view(second) == device_observations(label, stats),
    ensures
        observations_view(first) == observations_view(second),
        first.len() == second.len(),
        forall|i: int|
            0 <= i < first.len() ==> #[trigger] observation_view(first[i]) == observation_view(
                second[i],
            ),
{
    assert(observations_view(first).len() == first.len());
    assert(observations_view(second).len() == second.len());
    assert forall|i: int| 0 <= i < first.len() implies #[trigger] observation_view(first[i])
        == observation_view(second[i]) by {
        assert(observations_view(first)[i] == observations_view(second)[i]);
    }
}

} // verus!
