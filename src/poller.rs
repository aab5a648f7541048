//! The polling cycle as a state machine. The caller performs each action it
//! returns (a request, rendering, a pause) and hands the outcome back as the
//! next event; every decision of the cycle is taken here.

use crate::client::{ClientError, ClientView, UnifiClient};
use crate::metrics::{device_observations, Reading};
use crate::registry::{lemma_series_persist, recorded, MetricsExporter, SeriesKey};
use crate::snapshot::SnapshotCache;
use crate::telemetry::{first_site_id, Device, DeviceStats, DevicesResponse, SitesResponse};
use vstd::prelude::*;

verus! {

/// Where the cycle stands; each phase but `Idle` waits for the answer to one action.
#[derive(Debug, Clone, Copy, PartialEq, Eq, Structural)]
pub enum Phase {
    /// Between cycles, waiting for `Tick`.
    Idle,
    /// Waiting for the sites collection, to resolve the site identifier.
    Resolving,
    /// Waiting for the device list.
    Listing,
    /// Waiting for the liveness check that follows a refused credential.
    Revalidating,
    /// Waiting for the statistics of the device at index `next`.
    Fetching { next: usize },
    /// Waiting for the rendering of the gauge table.
    Rendering,
    /// Discovery failed before the site was ever resolved; the process ends.
    Stopped,
}

/// How the last cycle ended.
#[derive(Debug, Clone, Copy, PartialEq, Eq, Structural)]
pub enum CycleOutcome {
    /// Every listed device was recorded and the rendering published.
    Complete,
    /// Some devices were skipped; the others were recorded and published.
    Partial,
    /// No device was recorded, so nothing was published.
    NothingRecorded,
    /// Discovery, listing or rendering failed; nothing was published.
    Failed,
}

/// What the caller reports back.
pub enum Event {
    /// The pause is over (or the process has just started): begin a cycle.
    Tick,
    Sites(Result<SitesResponse, ClientError>),
    Devices(Result<DevicesResponse, ClientError>),
    Liveness(Result<(), ClientError>),
    Stats(Result<DeviceStats, ClientError>),
    /// The rendered gauge table, or `None` where the encoder failed.
    Rendered(Option<String>),
}

/// What the caller is to do next.
#[derive(Debug)]
pub enum Action {
    /// GET the sites collection and report `Event::Sites`.
    FetchSites,
    /// GET the device list and report `Event::Devices`.
    ListDevices,
    /// GET the liveness endpoint and report `Event::Liveness`.
    CheckLiveness,
    /// GET the statistics of this device and report `Event::Stats`.
    FetchStats { device_id: String },
    /// Render the gauge table and report `Event::Rendered`.
    Render,
    /// Serve `publish` from now on where it is given, pause, then report `Event::Tick`.
    Sleep { publish: Option<String> },
    /// Stop the process with a failure status.
    Exit,
}

/// An action, with its texts as sequences.
pub enum ActionView {
    FetchSites,
    ListDevices,
    CheckLiveness,
    FetchStats(Seq<char>),
    Render,
    Sleep(Option<Seq<char>>),
    Exit,
}

pub open spec fn action_view(a: Action) -> ActionView {
    match a {
        Action::FetchSites => ActionView::FetchSites,
        Action::ListDevices => ActionView::ListDevices,
        Action::CheckLiveness => ActionView::CheckLiveness,
        Action::FetchStats { device_id } => ActionView::FetchStats(device_id@),
        Action::Render => ActionView::Render,
        Action::Sleep { publish } => ActionView::Sleep(
            match publish {
                Some(t) => Some(t@),
                None => None,
            },
        ),
        Action::Exit => ActionView::Exit,
    }
}

/// The state of the poller.
pub struct PollerView {
    pub client: ClientView,
    /// The gauge table.
    pub gauges: Map<SeriesKey, Reading>,
    /// The content of the snapshot cache.
    pub snapshot: Seq<char>,
    pub phase: Phase,
    /// The devices listed in this cycle, as (identifier, label).
    pub devices: Seq<(Seq<char>, Seq<char>)>,
    /// Devices of this cycle recorded so far.
    pub recorded: nat,
    /// Devices of this cycle skipped so far.
    pub skipped: nat,
    /// Whether this cycle has spent its one revalidation.
    pub reauth_used: bool,
    /// Whether a site identifier was ever resolved.
    pub started: bool,
    pub outcome: Option<CycleOutcome>,
}

pub open spec fn device_keys(d: Seq<Device>) -> Seq<(Seq<char>, Seq<char>)> {
    d.map_values(|x: Device| (x.id@, x.name@))
}

/// The state before the first cycle.
pub open spec fn initial_state(client: ClientView) -> PollerView {
    PollerView {
        client,
        gauges: Map::empty(),
        snapshot: Seq::empty(),
        phase: Phase::Idle,
        devices: Seq::empty(),
        recorded: 0,
        skipped: 0,
        reauth_used: false,
        started: client.site is Some,
        outcome: None,
    }
}

/// The consistency of a state: what each phase may assume.
pub open spec fn state_wf(s: PollerView) -> bool {
    &&& s.devices.len() <= usize::MAX
    &&& s.client.site is Some ==> s.started
    &&& (s.phase is Listing || s.phase is Revalidating) ==> s.client.site is Some
    &&& s.phase is Revalidating ==> s.reauth_used
    &&& (s.phase is Resolving || s.phase is Listing || s.phase is Revalidating) ==> s.recorded == 0
        && s.skipped == 0
    &&& s.phase matches Phase::Fetching { next } ==> next < s.devices.len() && s.recorded
        + s.skipped == next && s.client.site is Some
    &&& s.phase is Rendering ==> s.recorded > 0 && s.recorded + s.skipped == s.devices.len()
}

/// The action that a phase waits on the answer to.
pub open spec fn pending_action(s: PollerView) -> ActionView {
    match s.phase {
        Phase::Idle => ActionView::Sleep(None),
        Phase::Resolving => ActionView::FetchSites,
        Phase::Listing => ActionView::ListDevices,
        Phase::Revalidating => ActionView::CheckLiveness,
        Phase::Fetching { next } => ActionView::FetchStats(s.devices[next as int].0),
        Phase::Rendering => ActionView::Render,
        Phase::Stopped => ActionView::Exit,
    }
}

/// Whether `e` is the answer that phase `p` waits for.
pub open spec fn answers(p: Phase, e: Event) -> bool {
    match p {
        Phase::Idle => e is Tick,
        Phase::Resolving => e is Sites,
        Phase::Listing => e is Devices,
        Phase::Revalidating => e is Liveness,
        Phase::Fetching { .. } => e is Stats,
        Phase::Rendering => e is Rendered,
        Phase::Stopped => false,
    }
}

pub open spec fn begin_discovery(s: PollerView) -> (PollerView, ActionView) {
    (PollerView { phase: Phase::Resolving, ..s }, ActionView::FetchSites)
}

pub open spec fn begin_listing(s: PollerView) -> (PollerView, ActionView) {
    (PollerView { phase: Phase::Listing, ..s }, ActionView::ListDevices)
}

/// The cycle ends without publishing.
pub open spec fn end_cycle(s: PollerView, outcome: CycleOutcome) -> (PollerView, ActionView) {
    (PollerView { phase: Phase::Idle, outcome: Some(outcome), ..s }, ActionView::Sleep(None))
}

/// Goes on with the device at index `i`, or, past the last one, renders where
/// a device was recorded and ends the cycle otherwise.
pub open spec fn fetch_from(s: PollerView, i: nat) -> (PollerView, ActionView) {
    if i < s.devices.len() {
        (
            PollerView { phase: Phase::Fetching { next: i as usize }, ..s },
            ActionView::FetchStats(s.devices[i as int].0),
        )
    } else if s.recorded > 0 {
        (PollerView { phase: Phase::Rendering, ..s }, ActionView::Render)
    } else {
        end_cycle(s, CycleOutcome::NothingRecorded)
    }
}

/// One transition of the cycle. An event that does not answer the pending
/// action changes nothing, and the pending action is asked for again.
pub open spec fn next(s: PollerView, e: Event) -> (PollerView, ActionView) {
    match (s.phase, e) {
        (Phase::Idle, Event::Tick) => {
            let c = PollerView {
                devices: Seq::empty(),
                recorded: 0,
                skipped: 0,
                reauth_used: false,
                ..s
            };
            if c.client.site is Some {
                begin_listing(c)
            } else {
                begin_discovery(c)
            }
        },
        (Phase::Resolving, Event::Sites(r)) => {
            let id = match r {
                Ok(resp) => first_site_id(resp),
                Err(_) => None,
            };
            match id {
                Some(id) => begin_listing(
                    PollerView {
                        client: ClientView { site: Some(id), ..s.client },
                        started: true,
                        ..s
                    },
                ),
                None => if s.started {
                    end_cycle(s, CycleOutcome::Failed)
                } else {
                    (
                        PollerView {
                            phase: Phase::Stopped,
                            outcome: Some(CycleOutcome::Failed),
                            ..s
                        },
                        ActionView::Exit,
                    )
                },
            }
        },
        (Phase::Listing, Event::Devices(r)) => match r {
            Ok(resp) => fetch_from(PollerView { devices: device_keys(resp.data@), ..s }, 0),
            Err(err) => if err is AuthExpired && !s.reauth_used {
                (
                    PollerView { phase: Phase::Revalidating, reauth_used: true, ..s },
                    ActionView::CheckLiveness,
                )
            } else {
                end_cycle(s, CycleOutcome::Failed)
            },
        },
        (Phase::Revalidating, Event::Liveness(r)) => match r {
            Ok(_) => begin_listing(s),
            Err(_) => begin_discovery(
                PollerView { client: ClientView { site: None, ..s.client }, ..s },
            ),
        },
        (Phase::Fetching { next }, Event::Stats(r)) => match r {
            Ok(stats) => fetch_from(
                PollerView {
                    gauges: recorded(
                        s.gauges,
                        device_observations(s.devices[next as int].1, stats),
                    ),
                    recorded: s.recorded + 1,
                    ..s
                },
                next as nat + 1,
            ),
            Err(_) => fetch_from(PollerView { skipped: s.skipped + 1, ..s }, next as nat + 1),
        },
        (Phase::Rendering, Event::Rendered(t)) => match t {
            Some(t) => if t@.len() > 0 {
                (
                    PollerView {
                        phase: Phase::Idle,
                        snapshot: t@,
                        outcome: Some(
                            if s.skipped == 0 {
                                CycleOutcome::Complete
                            } else {
                                CycleOutcome::Partial
                            },
                        ),
                        ..s
                    },
                    ActionView::Sleep(Some(t@)),
                )
            } else {
                end_cycle(s, CycleOutcome::Failed)
            },
            None => end_cycle(s, CycleOutcome::Failed),
        },
        _ => (s, pending_action(s)),
    }
}

/// The snapshot is replaced only by the text of a render that answered a cycle
/// in which at least one device was recorded, and only where that text is not
/// empty; the same text is handed out for serving. Any other step, a failed or
/// empty cycle among them, leaves the snapshot exactly as it was.
pub proof fn lemma_snapshot_only_from_published_render(s: PollerView, e: Event)
    requires
        state_wf(s),
    ensures
        next(s, e).0.snapshot != s.snapshot ==> s.phase is Rendering && s.recorded > 0,
        next(s, e).0.snapshot != s.snapshot ==> (e matches Event::Rendered(Some(t)) && t@.len() > 0
            && next(s, e).0.snapshot == t@ && next(s, e).1 == ActionView::Sleep(Some(t@))),
        next(s, e).1 matches ActionView::Sleep(Some(t)) ==> t == next(s, e).0.snapshot,
{
}

/// The state after handing `events` to the poller in order.
pub open spec fn run(s: PollerView, events: Seq<Event>) -> PollerView
    decreases events.len(),
{
    if events.len() == 0 {
        s
    } else {
        next(run(s, events.drop_last()), events.last()).0
    }
}

/// Over any run of steps, the snapshot is either what it was at the start or
/// the non-empty text of one of the renders handed in.
pub proof fn lemma_snapshot_is_some_published_render(s: PollerView, events: Seq<Event>)
    requires
        state_wf(s),
        forall|i: int| 0 <= i < events.len() ==> event_valid(#[trigger] events[i]),
    ensures
        state_wf(run(s, events)),
        run(s, events).snapshot == s.snapshot || exists|i: int|
            0 <= i < events.len() && (#[trigger] events[i] matches Event::Rendered(Some(t)) && t@.len()
                > 0 && t@ == run(s, events).snapshot),
    decreases events.len(),
{
    if events.len() > 0 {
        let prefix = events.drop_last();
        assert(event_valid(events[events.len() - 1]));
        assert forall|i: int| 0 <= i < prefix.len() implies event_valid(#[trigger] prefix[i]) by {
            assert(prefix[i] == events[i]);
        }
        lemma_snapshot_is_some_published_render(s, prefix);
        let before = run(s, prefix);
        lemma_step_keeps_wf(before, events.last());
        lemma_snapshot_only_from_published_render(before, events.last());
        if run(s, events).snapshot != before.snapshot {
            assert(events[events.len() - 1] == events.last());
        } else if run(s, events).snapshot != s.snapshot {
            let i = choose|i: int|
                0 <= i < prefix.len() && (#[trigger] prefix[i] matches Event::Rendered(Some(t))
                    && t@.len() > 0 && t@ == before.snapshot);
            assert(events[i] == prefix[i]);
        }
    }
}

/// What holds of every event a caller can build: a device list, being a
/// `Vec`, is no longer than `usize::MAX`.
pub open spec fn event_valid(e: Event) -> bool {
    e matches Event::Devices(Ok(resp)) ==> resp.data@.len() <= usize::MAX
}

/// Every step keeps the consistency of the state.
pub proof fn lemma_step_keeps_wf(s: PollerView, e: Event)
    requires
        state_wf(s),
        event_valid(e),
    ensures
        state_wf(next(s, e).0),
{
}

/// A series, once recorded, stays in the table across steps and cycles; only
/// the device whose statistics have just arrived has its series changed. A
/// device that vanishes from the device list keeps its last values.
pub proof fn lemma_series_never_dropped(s: PollerView, e: Event)
    requires
        state_wf(s),
    ensures
        forall|k: SeriesKey| #[trigger] s.gauges.contains_key(k) ==> next(s, e).0.gauges.contains_key(k),
        forall|k: SeriesKey|
            s.gauges.contains_key(k) && !(s.phase matches Phase::Fetching { next } && k.1 == s.devices[next as int].1)
                ==> #[trigger] next(s, e).0.gauges[k] == s.gauges[k],
{
    match (s.phase, e) {
        (Phase::Fetching { next }, Event::Stats(Ok(stats))) => {
            let obs = device_observations(s.devices[next as int].1, stats);
            lemma_series_persist(s.gauges, obs);
            assert forall|k: SeriesKey|
                s.gauges.contains_key(k) && k.1 != s.devices[next as int].1 implies #[trigger] recorded(s.gauges, obs)[k] == s.gauges[k] by {
                assert forall|i: int| 0 <= i < obs.len() implies (#[trigger] obs[i].0, obs[i].1) != k by {
                    assert(obs[i].1 == s.devices[next as int].1);
                }
            }
        },
        _ => {},
    }
}

/// One device's failure does not end the cycle: the gauge table and the
/// snapshot are left as they were, the device is counted as skipped, and the
/// cycle goes on with the next device, or renders what the other devices
/// recorded, or ends without publishing where none was recorded. A cycle that
/// publishes after a skip is marked partial.
pub proof fn lemma_device_failure_isolated(s: PollerView, err: ClientError)
    requires
        state_wf(s),
        s.phase is Fetching,
    ensures
        ({
            let (t, a) = next(s, Event::Stats(Err(err)));
            let i = s.phase->next as int;
            &&& t.gauges == s.gauges
            &&& t.snapshot == s.snapshot
            &&& t.skipped == s.skipped + 1
            &&& t.recorded == s.recorded
            &&& i + 1 < s.devices.len() ==> t.phase == Phase::Fetching { next: (i + 1) as usize }
                && a == ActionView::FetchStats(s.devices[i + 1].0)
            &&& i + 1 == s.devices.len() && s.recorded > 0 ==> t.phase is Rendering && a is Render
            &&& i + 1 == s.devices.len() && s.recorded == 0 ==> t.phase is Idle && t.outcome
                == Some(CycleOutcome::NothingRecorded)
        }),
        forall|t: String|
            s.skipped > 0 && s.phase is Rendering && t@.len() > 0 ==> next(s, Event::Rendered(Some(t))).0.outcome
                == Some(CycleOutcome::Partial),
{
}

/// A refused credential on the device list, the first in its cycle, leads to
/// one liveness check in the same cycle; a second refusal in the cycle ends it.
pub proof fn lemma_auth_expiry_revalidates(s: PollerView)
    requires
        state_wf(s),
        s.phase is Listing,
    ensures
        !s.reauth_used ==> next(s, Event::Devices(Err(ClientError::AuthExpired))).1 is CheckLiveness
            && next(s, Event::Devices(Err(ClientError::AuthExpired))).0.reauth_used,
        s.reauth_used ==> next(s, Event::Devices(Err(ClientError::AuthExpired))).0.phase is Idle
            && next(s, Event::Devices(Err(ClientError::AuthExpired))).1 == ActionView::Sleep(None),
{
}

/// At most one liveness check per cycle: a newly asked check spends the
/// cycle's one revalidation, and that is given back only by the `Tick` that
/// starts the next cycle.
pub proof fn lemma_one_revalidation_per_cycle(s: PollerView, e: Event)
    requires
        state_wf(s),
    ensures
        next(s, e).1 is CheckLiveness && !(s.phase is Revalidating) ==> !s.reauth_used
            && next(s, e).0.reauth_used,
        s.reauth_used && !next(s, e).0.reauth_used ==> s.phase is Idle && e is Tick,
{
}

/// No request that needs the site identifier is asked for while it is unset:
/// discovery always comes first.
pub proof fn lemma_site_requests_follow_discovery(s: PollerView, e: Event)
    requires
        state_wf(s),
    ensures
        next(s, e).1 is ListDevices || next(s, e).1 is FetchStats ==> next(s, e).0.client.site is Some,
{
}

/// Only discovery that fails before a site was ever resolved stops the
/// process: every other failure ends at most the current cycle.
pub proof fn lemma_only_first_discovery_is_fatal(s: PollerView, e: Event)
    requires
        state_wf(s),
    ensures
        next(s, e).0.phase is Stopped && !(s.phase is Stopped) ==> s.phase is Resolving
            && !s.started,
        next(s, e).1 is Exit ==> next(s, e).0.phase is Stopped,
        s.phase is Resolving && !s.started && (e matches Event::Sites(r) && (r is Err || (
        r matches Ok(resp) && first_site_id(resp) is None))) ==> next(s, e).1 is Exit,
{
}

/// The measure of how far a cycle is from its end: whether the revalidation
/// is still available, then the stage, then the devices still to fetch.
pub open spec fn cycle_measure(s: PollerView) -> (int, int, int) {
    (
        if s.reauth_used { 0 } else { 1 },
        match s.phase {
            Phase::Revalidating => 5,
            Phase::Resolving => 4,
            Phase::Listing => 3,
            Phase::Fetching { .. } => 2,
            Phase::Rendering => 1,
            _ => 0,
        },
        match s.phase {
            Phase::Fetching { next } => s.devices.len() - next,
            _ => 0,
        },
    )
}

pub open spec fn measure_below(a: (int, int, int), b: (int, int, int)) -> bool {
    a.0 < b.0 || (a.0 == b.0 && (a.1 < b.1 || (a.1 == b.1 && 0 <= a.2 < b.2)))
}

/// A cycle cannot go round forever: every answered step of a running cycle
/// either ends it (idle or stopped) or strictly lowers its measure, which
/// cannot fall for ever.
pub proof fn lemma_cycle_progresses(s: PollerView, e: Event)
    requires
        state_wf(s),
        !(s.phase is Idle),
        !(s.phase is Stopped),
        answers(s.phase, e),
    ensures
        next(s, e).0.phase is Idle || next(s, e).0.phase is Stopped || measure_below(
            cycle_measure(next(s, e).0),
            cycle_measure(s),
        ),
{
}

/// The poller: session, gauge table, snapshot cache and the state of the cycle.
pub struct Poller {
    client: UnifiClient,
    exporter: MetricsExporter,
    cache: SnapshotCache,
    phase: Phase,
    devices: Vec<Device>,
    recorded: usize,
    skipped: usize,
    reauth_used: bool,
    started: bool,
    outcome: Option<CycleOutcome>,
}

impl View for Poller {
    type V = PollerView;

    closed spec fn view(&self) -> PollerView {
        PollerView {
            client: self.client@,
            gauges: self.exporter@,
            snapshot: self.cache@,
            phase: self.phase,
            devices: device_keys(self.devices@),
            recorded: self.recorded as nat,
            skipped: self.skipped as nat,
            reauth_used: self.reauth_used,
            started: self.started,
            outcome: self.outcome,
        }
    }
}

impl Poller {
    /// The internal consistency of a poller.
    pub closed spec fn wf(&self) -> bool {
        self.exporter.wf() && state_wf(self@)
    }

    /// A poller for `client`, idle before its first cycle, with an empty gauge
    /// table and an empty snapshot.
    pub fn new(client: UnifiClient) -> (r: Poller)
        ensures
            r.wf(),
            r@ == initial_state(client@),
    {
        let started = client.is_ready();
        let r = Poller {
            client,
            exporter: MetricsExporter::new(),
            cache: SnapshotCache::new(),
            phase: Phase::Idle,
            devices: Vec::new(),
            recorded: 0,
            skipped: 0,
            reauth_used: false,
            started,
            outcome: None,
        };
        assert(r@.devices =~= Seq::<(Seq<char>, Seq<char>)>::empty());
        r
    }

    /// The session with the controller.
    pub fn client(&self) -> (r: &UnifiClient)
        ensures
            r@ == self@.client,
    {
        &self.client
    }

    /// The gauge table, for rendering.
    pub fn exporter(&self) -> (r: &MetricsExporter)
        requires
            self.wf(),
        ensures
            r@ == self@.gauges,
            r.wf(),
    {
        &self.exporter
    }

    /// The text to serve: the last published rendering, empty before the first.
    pub fn snapshot_text(&self) -> (r: &str)
        ensures
            r@ == self@.snapshot,
    {
        self.cache.text()
    }

    /// The current phase.
    pub fn phase(&self) -> (r: Phase)
        ensures
            r == self@.phase,
    {
        self.phase
    }

    /// How the last cycle ended, if one has.
    pub fn last_outcome(&self) -> (r: Option<CycleOutcome>)
        ensures
            r == self@.outcome,
    {
        self.outcome
    }

    fn begin_discovery(&mut self) -> (a: Action)
        requires
            old(self).exporter.wf(),
            old(self)@.recorded == 0 && old(self)@.skipped == 0,
            old(self)@.devices.len() <= usize::MAX,
            old(self)@.client.site is None,
        ensures
            final(self).wf(),
            (final(self)@, action_view(a)) == begin_discovery(old(self)@),
    {
        self.phase = Phase::Resolving;
        Action::FetchSites
    }

    fn begin_listing(&mut self) -> (a: Action)
        requires
            old(self).exporter.wf(),
            old(self)@.recorded == 0 && old(self)@.skipped == 0,
            old(self)@.devices.len() <= usize::MAX,
            old(self)@.client.site is Some,
            old(self)@.started,
        ensures
            final(self).wf(),
            (final(self)@, action_view(a)) == begin_listing(old(self)@),
    {
        self.phase = Phase::Listing;
        Action::ListDevices
    }

    fn end_cycle(&mut self, outcome: CycleOutcome) -> (a: Action)
        requires
            old(self).wf(),
        ensures
            final(self).wf(),
            (final(self)@, action_view(a)) == end_cycle(old(self)@, outcome),
    {
        self.phase = Phase::Idle;
        self.outcome = Some(outcome);
        Action::Sleep { publish: None }
    }

    fn fetch_from(&mut self, i: usize) -> (a: Action)
        requires
            old(self).exporter.wf(),
            i <= old(self)@.devices.len(),
            old(self)@.recorded + old(self)@.skipped == i,
            old(self)@.client.site is Some,
            old(self)@.started,
        ensures
            final(self).wf(),
            (final(self)@, action_view(a)) == fetch_from(old(self)@, i as nat),
    {
        if i < self.devices.len() {
            self.phase = Phase::Fetching { next: i };
            Action::FetchStats { device_id: self.devices[i].id.clone() }
        } else if self.recorded > 0 {
            self.phase = Phase::Rendering;
            Action::Render
        } else {
            self.phase = Phase::Idle;
            self.outcome = Some(CycleOutcome::NothingRecorded);
            Action::Sleep { publish: None }
        }
    }

    fn pending(&self) -> (a: Action)
        requires
            self.wf(),
        ensures
            action_view(a) == pending_action(self@),
    {
        match self.phase {
            Phase::Idle => Action::Sleep { publish: None },
            Phase::Resolving => Action::FetchSites,
            Phase::Listing => Action::ListDevices,
            Phase::Revalidating => Action::CheckLiveness,
            Phase::Fetching { next } => Action::FetchStats {
                device_id: self.devices[next].id.clone(),
            },
            Phase::Rendering => Action::Render,
            Phase::Stopped => Action::Exit,
        }
    }

    /// Takes the outcome of the last action and returns the next one.
    pub fn step(&mut self, event: Event) -> (a: Action)
        requires
            old(self).wf(),
        ensures
            final(self).wf(),
            (final(self)@, action_view(a)) == next(old(self)@, event),
    {
        match (self.phase, event) {
            (Phase::Idle, Event::Tick) => {
                self.devices = Vec::new();
                self.recorded = 0;
                self.skipped = 0;
                self.reauth_used = false;
                assert(self@.devices =~= Seq::<(Seq<char>, Seq<char>)>::empty());
                if self.client.is_ready() {
                    self.begin_listing()
                } else {
                    self.begin_discovery()
                }
            },
            (Phase::Resolving, Event::Sites(r)) => {
                let set = match r {
                    Ok(resp) => self.client.set_site_from(&resp),
                    Err(e) => Err(e),
                };
                match set {
                    Ok(()) => {
                        self.started = true;
                        self.begin_listing()
                    },
                    Err(_) => {
                        if self.started {
                            self.end_cycle(CycleOutcome::Failed)
                        } else {
                            self.phase = Phase::Stopped;
                            self.outcome = Some(CycleOutcome::Failed);
                            Action::Exit
                        }
                    },
                }
            },
            (Phase::Listing, Event::Devices(r)) => match r {
                Ok(resp) => {
                    let count = resp.data.len();
                    assert(device_keys(resp.data@).len() == count);
                    self.devices = resp.data;
                    self.fetch_from(0)
                },
                Err(err) => {
                    let expired = match err {
                        ClientError::AuthExpired => true,
                        _ => false,
                    };
                    if expired && !self.reauth_used {
                        self.phase = Phase::Revalidating;
                        self.reauth_used = true;
                        Action::CheckLiveness
                    } else {
                        self.end_cycle(CycleOutcome::Failed)
                    }
                },
            },
            (Phase::Revalidating, Event::Liveness(r)) => match r {
                Ok(_) => self.begin_listing(),
                Err(_) => {
                    self.client.reset();
                    self.begin_discovery()
                },
            },
            (Phase::Fetching { next }, Event::Stats(r)) => {
                // The counters stay below the device count, which fits in a usize.
                let count = self.devices.len();
                assert(self@.devices.len() == count);
                match r {
                Ok(stats) => {
                    self.exporter.update_device_metrics(self.devices[next].name.as_str(), &stats);
                    self.recorded = self.recorded + 1;
                    self.fetch_from(next + 1)
                },
                Err(_) => {
                    self.skipped = self.skipped + 1;
                    self.fetch_from(next + 1)
                },
                }
            },
            (Phase::Rendering, Event::Rendered(t)) => match t {
                Some(t) => {
                    if t.as_str().is_empty() {
                        self.end_cycle(CycleOutcome::Failed)
                    } else {
                        let published = t.clone();
                        self.cache.publish(published);
                        self.phase = Phase::Idle;
                        self.outcome = Some(
                            if self.skipped == 0 {
                                CycleOutcome::Complete
                            } else {
                                CycleOutcome::Partial
                            },
                        );
                        Action::Sleep { publish: Some(t) }
                    }
                },
                None => self.end_cycle(CycleOutcome::Failed),
            },
            _ => self.pending(),
        }
    }
}

} // verus!
