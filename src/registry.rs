//! The gauge table: the latest value of every (family, device label) series.
//! Values are overwritten, never accumulated, and a series stays once it has
//! been recorded, with its last value, until the process ends.

use crate::metrics::{
    device_observations, map_device, observation_view, observations_view, Metric, Observation,
    Reading,
};
use crate::telemetry::DeviceStats;
use vstd::prelude::*;

verus! {

/// A series key: the family and the device label.
pub type SeriesKey = (Metric, Seq<char>);

/// One series of the table.
#[derive(Debug, Clone)]
pub struct Series {
    pub metric: Metric,
    pub device: String,
    pub value: Reading,
}

pub open spec fn series_key(s: Series) -> SeriesKey {
    (s.metric, s.device@)
}

/// The table after recording `obs` into `m` in order: each observation
/// overwrites the value of its series.
pub open spec fn recorded(
    m: Map<SeriesKey, Reading>,
    obs: Seq<(Metric, Seq<char>, Reading)>,
) -> Map<SeriesKey, Reading>
    decreases obs.len(),
{
    if obs.len() == 0 {
        m
    } else {
        let o = obs.last();
        recorded(m, obs.drop_last()).insert((o.0, o.1), o.2)
    }
}

/// The index of the last observation of series `k` in `obs`, or -1.
pub open spec fn last_index_of(obs: Seq<(Metric, Seq<char>, Reading)>, k: SeriesKey) -> int
    decreases obs.len(),
{
    if obs.len() == 0 {
        -1
    } else if (obs.last().0, obs.last().1) == k {
        obs.len() - 1
    } else {
        last_index_of(obs.drop_last(), k)
    }
}

/// The table of gauges, keyed by family and device label.
pub struct MetricsExporter {
    series: Vec<Series>,
}

impl View for MetricsExporter {
    type V = Map<SeriesKey, Reading>;

    closed spec fn view(&self) -> Map<SeriesKey, Reading> {
        Map::new(
            |k: SeriesKey|
                exists|i: int| 0 <= i < self.series@.len() && series_key(self.series@[i]) == k,
            |k: SeriesKey|
                self.series@[choose|i: int|
                    0 <= i < self.series@.len() && series_key(self.series@[i]) == k].value,
        )
    }
}

impl MetricsExporter {
    /// No two entries of the table share a series key.
    pub closed spec fn wf(&self) -> bool {
        forall|i: int, j: int|
            0 <= i < j < self.series@.len() ==> series_key(self.series@[i]) != series_key(
                self.series@[j],
            )
    }

    proof fn lemma_entry(&self, i: int)
        requires
            self.wf(),
            0 <= i < self.series@.len(),
        ensures
            self@.contains_key(series_key(self.series@[i])),
            self@[series_key(self.series@[i])] == self.series@[i].value,
    {
        let k = series_key(self.series@[i]);
        assert(self@.contains_key(k));
        let j = choose|j: int| 0 <= j < self.series@.len() && series_key(self.series@[j]) == k;
        assert(series_key(self.series@[j]) == k);
        if j < i {
            assert(series_key(self.series@[j]) != series_key(self.series@[i]));
        } else if i < j {
            assert(series_key(self.series@[i]) != series_key(self.series@[j]));
        }
    }

    /// An empty table: the families are fixed, no series exists yet.
    pub fn new() -> (r: MetricsExporter)
        ensures
            r.wf(),
            r@ == Map::<SeriesKey, Reading>::empty(),
    {
        let r = MetricsExporter { series: Vec::new() };
        assert(r@ =~= Map::<SeriesKey, Reading>::empty());
        r
    }

    /// The series of the table, each once, for an encoder to write out.
    pub fn series(&self) -> (r: &Vec<Series>)
        requires
            self.wf(),
        ensures
            forall|i: int|
                0 <= i < r@.len() ==> self@.contains_key(#[trigger] series_key(r@[i]))
                    && self@[series_key(r@[i])] == r@[i].value,
            forall|i: int, j: int|
                0 <= i < j < r@.len() ==> series_key(r@[i]) != series_key(r@[j]),
            forall|k: SeriesKey|
                self@.contains_key(k) ==> exists|i: int|
                    0 <= i < r@.len() && #[trigger] series_key(r@[i]) == k,
    {
        proof {
            assert forall|i: int| 0 <= i < self.series@.len() implies self@.contains_key(
                #[trigger] series_key(self.series@[i]),
            ) && self@[series_key(self.series@[i])] == self.series@[i].value by {
                self.lemma_entry(i);
            }
        }
        &self.series
    }

    /// The current value of one series, if it has been recorded.
    pub fn value_of(&self, metric: Metric, device: &str) -> (r: Option<Reading>)
        requires
            self.wf(),
        ensures
            r == (if self@.contains_key((metric, device@)) {
                Some(self@[(metric, device@)])
            } else {
                None
            }),
    {
        let key = String::from_str(device);
        match self.find(metric, &key) {
            Some(i) => {
                proof {
                    self.lemma_entry(i as int);
                }
                Some(self.series[i].value)
            },
            None => None,
        }
    }

    fn find(&self, metric: Metric, device: &String) -> (r: Option<usize>)
        requires
            self.wf(),
        ensures
            r matches Some(i) ==> i < self.series@.len() && series_key(self.series@[i as int]) == (
            metric, device@),
            r is None ==> !self@.contains_key((metric, device@)),
    {
        let mut i: usize = 0;
        while i < self.series.len()
            invariant
                i <= self.series@.len(),
                forall|j: int| 0 <= j < i ==> series_key(self.series@[j]) != (metric, device@),
            decreases self.series@.len() - i,
        {
            if self.series[i].metric == metric && self.series[i].device == *device {
                return Some(i);
            }
            i += 1;
        }
        None
    }

    /// Sets the value of one series, adding the series where it is new.
    pub fn record(&mut self, obs: Observation)
        requires
            old(self).wf(),
        ensures
            final(self).wf(),
            final(self)@ == old(self)@.insert((obs.metric, obs.device@), obs.value),
    {
        let ghost k = (obs.metric, obs.device@);
        let ghost before = *self;
        match self.find(obs.metric, &obs.device) {
            Some(i) => {
                let entry = Series { metric: obs.metric, device: obs.device, value: obs.value };
                self.series.set(i, entry);
                proof {
                    assert(self.wf());
                    assert forall|k2: SeriesKey| #[trigger]
                        self@.contains_key(k2) == before@.insert(k, obs.value).contains_key(k2)
                        && (self@.contains_key(k2) ==> self@[k2] == before@.insert(
                        k,
                        obs.value,
                    )[k2]) by {
                        if self@.contains_key(k2) {
                            let j = choose|j: int|
                                0 <= j < self.series@.len() && series_key(self.series@[j]) == k2;
                            self.lemma_entry(j);
                            if j != i {
                                before.lemma_entry(j);
                            } else {
                                before.lemma_entry(i as int);
                            }
                        }
                        if before@.contains_key(k2) {
                            let j = choose|j: int|
                                0 <= j < before.series@.len() && series_key(before.series@[j])
                                    == k2;
                            self.lemma_entry(j);
                        }
                        if k2 == k {
                            self.lemma_entry(i as int);
                        }
                    }
                    assert(self@ =~= before@.insert(k, obs.value));
                }
            },
            None => {
                let entry = Series { metric: obs.metric, device: obs.device, value: obs.value };
                self.series.push(entry);
                proof {
                    let n = before.series@.len() as int;
                    assert(series_key(self.series@[n]) == k);
                    assert(self.wf());
                    assert forall|k2: SeriesKey| #[trigger]
                        self@.contains_key(k2) == before@.insert(k, obs.value).contains_key(k2)
                        && (self@.contains_key(k2) ==> self@[k2] == before@.insert(
                        k,
                        obs.value,
                    )[k2]) by {
                        if self@.contains_key(k2) {
                            let j = choose|j: int|
                                0 <= j < self.series@.len() && series_key(self.series@[j]) == k2;
                            self.lemma_entry(j);
                            if j < n {
                                before.lemma_entry(j);
                            }
                        }
                        if before@.contains_key(k2) {
                            let j = choose|j: int|
                                0 <= j < before.series@.len() && series_key(before.series@[j])
                                    == k2;
                            self.lemma_entry(j);
                        }
                        if k2 == k {
                            self.lemma_entry(n);
                        }
                    }
                    assert(self@ =~= before@.insert(k, obs.value));
                }
            },
        }
    }

    /// Records each observation in order, overwriting the value of its series.
    pub fn record_all(&mut self, observations: &Vec<Observation>)
        requires
            old(self).wf(),
        ensures
            final(self).wf(),
            final(self)@ == recorded(old(self)@, observations_view(observations@)),
    {
        let ghost obs = observations_view(observations@);
        let ghost start = self@;
        let mut i: usize = 0;
        while i < observations.len()
            invariant
                i <= observations@.len(),
                obs == observations_view(observations@),
                self.wf(),
                self@ == recorded(start, obs.take(i as int)),
            decreases observations@.len() - i,
        {
            let o = Observation {
                metric: observations[i].metric,
                device: observations[i].device.clone(),
                value: observations[i].value,
            };
            self.record(o);
            proof {
                assert(obs.take(i + 1).drop_last() =~= obs.take(i as int));
                assert(obs[i as int] == observation_view(observations@[i as int]));
            }
            i += 1;
        }
        assert(obs.take(i as int) =~= obs);
    }

    /// Sets the series of one device from its statistics: one value per family,
    /// labelled with `device_name`.
    pub fn update_device_metrics(&mut self, device_name: &str, stats: &DeviceStats)
        requires
            old(self).wf(),
        ensures
            final(self).wf(),
            final(self)@ == recorded(old(self)@, device_observations(device_name@, *stats)),
    {
        let observations = map_device(device_name, stats);
        self.record_all(&observations);
    }
}

/// Where series `k` ends up after recording: the value of its last
/// observation, or what the table held before where `obs` does not observe it.
pub proof fn lemma_recorded_lookup(
    m: Map<SeriesKey, Reading>,
    obs: Seq<(Metric, Seq<char>, Reading)>,
    k: SeriesKey,
)
    ensures
        -1 <= last_index_of(obs, k) < obs.len(),
        last_index_of(obs, k) >= 0 ==> (obs[last_index_of(obs, k)].0, obs[last_index_of(obs, k)].1)
            == k,
        recorded(m, obs).contains_key(k) == (m.contains_key(k) || last_index_of(obs, k) >= 0),
        last_index_of(obs, k) >= 0 ==> recorded(m, obs)[k] == obs[last_index_of(obs, k)].2,
        last_index_of(obs, k) < 0 && m.contains_key(k) ==> recorded(m, obs)[k] == m[k],
    decreases obs.len(),
{
    if obs.len() > 0 {
        lemma_recorded_lookup(m, obs.drop_last(), k);
    }
}

/// Recording never drops a series: every series of the table is still there
/// afterwards, and one that no observation names keeps its last value. A
/// device missing from a later cycle therefore keeps its stale series.
pub proof fn lemma_series_persist(m: Map<SeriesKey, Reading>, obs: Seq<(Metric, Seq<char>, Reading)>)
    ensures
        forall|k: SeriesKey| #[trigger]
            m.contains_key(k) ==> recorded(m, obs).contains_key(k),
        forall|k: SeriesKey|
            m.contains_key(k) && (forall|i: int|
                0 <= i < obs.len() ==> (#[trigger] obs[i].0, obs[i].1) != k) ==> #[trigger] recorded(
                m,
                obs,
            )[k] == m[k],
{
    assert forall|k: SeriesKey| #[trigger] m.contains_key(k) implies recorded(m, obs).contains_key(
        k,
    ) by {
        lemma_recorded_lookup(m, obs, k);
    }
    assert forall|k: SeriesKey|
        m.contains_key(k) && (forall|i: int|
            0 <= i < obs.len() ==> (#[trigger] obs[i].0, obs[i].1) != k) implies #[trigger] recorded(
        m,
        obs,
    )[k] == m[k] by {
        lemma_recorded_lookup(m, obs, k);
        if last_index_of(obs, k) >= 0 {
            let j = last_index_of(obs, k);
            assert((obs[j].0, obs[j].1) != k);
        }
    }
}

/// Gauges, not counters: recording the same observations a second time leaves
/// the table as the first recording left it.
pub proof fn lemma_recording_idempotent(
    m: Map<SeriesKey, Reading>,
    obs: Seq<(Metric, Seq<char>, Reading)>,
)
    ensures
        recorded(recorded(m, obs), obs) == recorded(m, obs),
{
    let once = recorded(m, obs);
    let twice = recorded(once, obs);
    assert forall|k: SeriesKey| #[trigger] twice.contains_key(k) == once.contains_key(k) && (
    twice.contains_key(k) ==> twice[k] == once[k]) by {
        lemma_recorded_lookup(m, obs, k);
        lemma_recorded_lookup(once, obs, k);
    }
    assert(twice =~= once);
}

} // verus!
