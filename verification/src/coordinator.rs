//! The coordinator's decision core: refreshing the registry from freshly
//! read component state, running the strategies, routing commands to their
//! wire form, counting what was sent, deriving per-component metrics, and
//! assembling reports. The surrounding loop — timers, reads and writes —
//! lives outside the library and calls these steps in order.

use vstd::prelude::*;
use crate::ecosystem::{AnalysisData, AnalysisRegion, Command, ComponentData, ComponentInfo,
    ComponentRegistry, ComponentStatus, ComponentType, EcosystemReport, EcosystemState,
    ExplorerRecommendation, HealthStatus, Metrics, spec_parse_command, spec_mutator_string,
    spec_explorer_string, spec_registry_find};
use crate::analysis::{EcosystemAnalyzer, info_wf, metrics_wf, params_wf, registry_wf};
use crate::strategies::{MutationStrategy, StrategyAction, RandomPulseStrategy,
    ColorCyclerStrategy, FractalRotationStrategy, DynamicMutationStrategy,
    IntelligentAnalysisStrategy, count_eligible, spec_find_strategy};
use crate::fixed::{valid_ts, clamp_i64, MAX_EPOCH};
use crate::text::{str_eq_chars, spec_int_chars, push_int_digits};
use crate::external::now_epoch_seconds;
use vstd::string::{StrSliceExecFns, StringExecFns};

verus! {

/// The wall clock, forced into the timestamp range the library accepts.
pub fn current_time() -> (now: i64)
    ensures
        valid_ts(now as int),
{
    let t = now_epoch_seconds();
    clamp_i64(t, 0, MAX_EPOCH)
}

/// The number of components reporting `Running`.
pub open spec fn count_running(s: Seq<ComponentInfo>) -> int
    decreases s.len(),
{
    if s.len() == 0 {
        0
    } else {
        count_running(s.drop_last()) + if s.last().status is Running {
            1int
        } else {
            0int
        }
    }
}

/// The commands carried by those recommendations that parse, in order.
pub open spec fn spec_parsed_commands(s: Seq<ExplorerRecommendation>) -> Seq<Command>
    decreases s.len(),
{
    if s.len() == 0 {
        seq![]
    } else {
        spec_parsed_commands(s.drop_last()) + (match spec_parse_command(
            s.last().recommendation@,
        ) {
            Some(c) => seq![c],
            None => seq![],
        })
    }
}

/// Freshness of a state file that was modified `age_seconds` ago, against
/// the acceptable age: healthy within it, stale within twice it, unhealthy
/// beyond that.
pub open spec fn spec_classify_freshness(age: int, max_age: int) -> HealthStatus {
    if age <= max_age {
        HealthStatus::Healthy
    } else if age <= 2 * max_age {
        HealthStatus::Stale
    } else {
        HealthStatus::Unhealthy
    }
}

pub fn classify_freshness(age_seconds: i64, max_age_seconds: i64) -> (r: HealthStatus)
    requires
        0 <= max_age_seconds <= MAX_EPOCH,
        -MAX_EPOCH <= age_seconds <= MAX_EPOCH,
    ensures
        r == spec_classify_freshness(age_seconds as int, max_age_seconds as int),
{
    if age_seconds <= max_age_seconds {
        HealthStatus::Healthy
    } else if age_seconds <= 2 * max_age_seconds {
        HealthStatus::Stale
    } else {
        HealthStatus::Unhealthy
    }
}

/// Freshness summary of one component's state file.
pub struct ComponentHealth {
    pub status: HealthStatus,
    pub last_update: Option<i64>,
    pub age_seconds: Option<i64>,
    pub message: String,
}

pub struct HealthEntry {
    pub name: String,
    pub health: ComponentHealth,
}

/// Freshness summaries of the known component state files.
pub struct ComponentHealthReport {
    pub timestamp: i64,
    pub components: Vec<HealthEntry>,
}

pub open spec fn spec_missing_message(filename: Seq<char>) -> Seq<char> {
    "Archivo "@ + filename + " no encontrado"@
}

pub open spec fn spec_age_message(filename: Seq<char>, age: int) -> Seq<char> {
    "Archivo "@ + filename + " actualizado hace "@ + spec_int_chars(age) + " segundos"@
}

/// Freshness summary of one state file: `modified` is when it was last
/// written, or nothing when it does not exist.
pub fn component_health(
    filename: &str,
    modified: Option<i64>,
    now: i64,
    max_age_seconds: i64,
) -> (r: ComponentHealth)
    requires
        valid_ts(now as int),
        0 <= max_age_seconds <= MAX_EPOCH,
        match modified {
            Some(m) => valid_ts(m as int),
            None => true,
        },
    ensures
        match modified {
            Some(m) => {
                &&& r.status == spec_classify_freshness(now - m, max_age_seconds as int)
                &&& r.last_update == Some(m)
                &&& r.age_seconds == Some((now - m) as i64)
                &&& r.message@ == spec_age_message(filename@, now - m)
            },
            None => {
                &&& r.status == HealthStatus::Missing
                &&& r.last_update is None
                &&& r.age_seconds is None
                &&& r.message@ == spec_missing_message(filename@)
            },
        },
{
    match modified {
        Option::Some(m) => {
            let age = now - m;
            let mut message = String::from_str("Archivo ");
            message.append(filename);
            message.append(" actualizado hace ");
            push_int_digits(&mut message, age);
            message.append(" segundos");
            ComponentHealth {
                status: classify_freshness(age, max_age_seconds),
                last_update: Some(m),
                age_seconds: Some(age),
                message,
            }
        },
        Option::None => {
            let mut message = String::from_str("Archivo ");
            message.append(filename);
            message.append(" no encontrado");
            ComponentHealth {
                status: HealthStatus::Missing,
                last_update: None,
                age_seconds: None,
                message,
            }
        },
    }
}

/// The freshness report over the two known state files: the mutator's is
/// acceptable for 30 seconds, the explorer's for 60.
pub fn check_component_health(
    now: i64,
    mutator_modified: Option<i64>,
    explorer_modified: Option<i64>,
) -> (r: ComponentHealthReport)
    requires
        valid_ts(now as int),
        match mutator_modified {
            Some(m) => valid_ts(m as int),
            None => true,
        },
        match explorer_modified {
            Some(m) => valid_ts(m as int),
            None => true,
        },
    ensures
        r.timestamp == now,
        r.components@.len() == 2,
        r.components@[0].name@ == "FractalMutator"@,
        r.components@[1].name@ == "FractalExplorer"@,
        r.components@[0].health.status == (match mutator_modified {
            Some(m) => spec_classify_freshness(now - m, 30),
            None => HealthStatus::Missing,
        }),
        r.components@[1].health.status == (match explorer_modified {
            Some(m) => spec_classify_freshness(now - m, 60),
            None => HealthStatus::Missing,
        }),
{
    let mutator = component_health("fractal_params.json", mutator_modified, now, 30);
    let explorer = component_health("explorer_status.json", explorer_modified, now, 60);
    let mut components: Vec<HealthEntry> = Vec::new();
    components.push(HealthEntry { name: String::from_str("FractalMutator"), health: mutator });
    components.push(HealthEntry { name: String::from_str("FractalExplorer"), health: explorer });
    ComponentHealthReport { timestamp: now, components }
}

/// Turns the explorer's status counters into an analysis record with
/// synthetic metrics, as the registry stores them. Counters are stored
/// scaled by 1000; the interest score is already a milli value.
pub fn explorer_status_to_analysis(
    timestamp: i64,
    component: String,
    status: &str,
    total_scans: i32,
    regions_discovered: i32,
    average_interest_score: i64,
    uptime_seconds: i64,
    current_resolution: i32,
) -> (r: AnalysisData)
    requires
        valid_ts(timestamp as int),
        -MAX_EPOCH <= uptime_seconds <= MAX_EPOCH,
        -MAX_PARAM_SCORE <= average_interest_score <= MAX_PARAM_SCORE,
    ensures
        r.timestamp == timestamp,
        r.region == AnalysisRegion::default_spec(),
        r.fractal_type == 0,
        r.max_iterations == 0,
        r.metrics.lookup("total_scans"@) == Some((total_scans * 1000) as i64),
        r.metrics.lookup("regions_discovered"@) == Some((regions_discovered * 1000) as i64),
        r.metrics.lookup("average_interest_score"@) == Some(average_interest_score),
        r.metrics.lookup("uptime_seconds"@) == Some((uptime_seconds * 1000) as i64),
        r.metrics.lookup("current_resolution"@) == Some((current_resolution * 1000) as i64),
        r.recommendation@ == "Explorer "@ + status@ + " - "@ + spec_int_chars(
            total_scans as int,
        ) + " escaneos completados"@,
        r.component@ == component@,
        metrics_wf(&r.metrics),
        r.metrics.entries@.len() == 5,
        forall|k2: Seq<char>|
            k2 != "total_scans"@ && k2 != "regions_discovered"@ && k2
                != "average_interest_score"@ && k2 != "uptime_seconds"@ && k2
                != "current_resolution"@ ==> #[trigger] r.metrics.lookup(k2) is None,
{
    proof {
        reveal_strlit("total_scans");
        reveal_strlit("regions_discovered");
        reveal_strlit("average_interest_score");
        reveal_strlit("uptime_seconds");
        reveal_strlit("current_resolution");
        assert("total_scans"@.len() == 11);
        assert("regions_discovered"@.len() == 18);
        assert("average_interest_score"@.len() == 22);
        assert("uptime_seconds"@.len() == 14);
        assert("current_resolution"@.len() == 18);
        assert("regions_discovered"@[0] == 'r' && "current_resolution"@[0] == 'c');
        assert("total_scans"@ != "regions_discovered"@);
        assert("total_scans"@ != "average_interest_score"@);
        assert("total_scans"@ != "uptime_seconds"@);
        assert("total_scans"@ != "current_resolution"@);
        assert("regions_discovered"@ != "average_interest_score"@);
        assert("regions_discovered"@ != "uptime_seconds"@);
        assert("regions_discovered"@ != "current_resolution"@);
        assert("average_interest_score"@ != "uptime_seconds"@);
        assert("average_interest_score"@ != "current_resolution"@);
        assert("uptime_seconds"@ != "current_resolution"@);
    }
    let mut metrics = Metrics::new();
    let ghost m0 = metrics;
    proof {
        assert forall|k2: Seq<char>| #[trigger] m0.lookup(k2) is None by {
            assert(m0.entries@.len() == 0);
        }
    }
    metrics.set(String::from_str("total_scans"), (total_scans as i64) * 1000);
    let ghost m1 = metrics;
    metrics.set(String::from_str("regions_discovered"), (regions_discovered as i64) * 1000);
    let ghost m2 = metrics;
    metrics.set(String::from_str("average_interest_score"), average_interest_score);
    let ghost m3 = metrics;
    metrics.set(String::from_str("uptime_seconds"), uptime_seconds * 1000);
    let ghost m4 = metrics;
    metrics.set(String::from_str("current_resolution"), (current_resolution as i64) * 1000);
    proof {
        assert(metrics.entries@.len() == 5);
        assert forall|k2: Seq<char>|
            k2 != "total_scans"@ && k2 != "regions_discovered"@ && k2
                != "average_interest_score"@ && k2 != "uptime_seconds"@ && k2
                != "current_resolution"@ implies #[trigger] metrics.lookup(k2) is None by {
            assert(metrics.lookup(k2) == m4.lookup(k2));
            assert(m4.lookup(k2) == m3.lookup(k2));
            assert(m3.lookup(k2) == m2.lookup(k2));
            assert(m2.lookup(k2) == m1.lookup(k2));
            assert(m1.lookup(k2) == m0.lookup(k2));
        }
    }
    let mut recommendation = String::from_str("Explorer ");
    recommendation.append(status);
    recommendation.append(" - ");
    push_int_digits(&mut recommendation, total_scans as i64);
    recommendation.append(" escaneos completados");
    AnalysisData {
        timestamp,
        region: AnalysisRegion::default(),
        fractal_type: 0,
        max_iterations: 0,
        metrics,
        recommendation,
        component,
    }
}

/// Bound on an interest score handed in from outside, in milli units.
pub const MAX_PARAM_SCORE: i64 = 1_000_000_000;

/// The coordinator's own state: the registry, the strategy set in its fixed
/// registration order, the analyzer, and the session counters.
pub struct EcosystemCoordinator {
    pub components: ComponentRegistry,
    pub strategies: Vec<MutationStrategy>,
    pub analyzer: EcosystemAnalyzer,
    pub session_id: u128,
    pub start_time: i64,
    pub total_commands: u64,
    pub last_mutation: Option<i64>,
}

impl EcosystemCoordinator {
    pub open spec fn wf(&self) -> bool {
        &&& registry_wf(&self.components)
        &&& crate::ecosystem::registry_unique(self.components.entries@)
        &&& self.components.entries@.len() <= 2
        &&& forall|i: int|
            0 <= i < self.components.entries@.len() ==> (#[trigger] self.components.entries@[
                i
            ]).name@ == "FractalMutator"@ || self.components.entries@[i].name@
                == "FractalExplorer"@
        &&& self.analyzer.wf()
        &&& forall|i: int|
            0 <= i < self.strategies@.len() ==> (#[trigger] self.strategies@[i]).wf()
        &&& valid_ts(self.start_time as int)
        &&& match self.last_mutation {
            Some(t) => valid_ts(t as int),
            None => true,
        }
    }

    /// A fresh coordinator for a new session: a random session identity,
    /// the clock as its start time, and the five strategies in
    /// registration order.
    pub fn new() -> (r: EcosystemCoordinator)
        ensures
            r.wf(),
            r.components.entries@.len() == 0,
            r.strategies@.len() == 5,
            r.total_commands == 0,
            r.last_mutation is None,
            forall|i: int| 0 <= i < 5 ==> (#[trigger] r.strategies@[i]).spec_enabled(),
    {
        let session_id = crate::external::fresh_session_id();
        let start_time = current_time();
        EcosystemCoordinator::with_session(session_id, start_time)
    }

    /// A fresh coordinator with a given session identity and start time,
    /// and the five strategies in registration order.
    pub fn with_session(session_id: u128, start_time: i64) -> (r: EcosystemCoordinator)
        requires
            valid_ts(start_time as int),
        ensures
            r.wf(),
            r.components.entries@.len() == 0,
            r.strategies@.len() == 5,
            r.strategies@[0] is RandomPulse,
            r.strategies@[1] is ColorCycler,
            r.strategies@[2] is FractalRotation,
            r.strategies@[3] is DynamicMutation,
            r.strategies@[4] is IntelligentAnalysis,
            forall|i: int| 0 <= i < 5 ==> (#[trigger] r.strategies@[i]).spec_enabled(),
            r.session_id == session_id,
            r.start_time == start_time,
            r.total_commands == 0,
            r.last_mutation is None,
    {
        let mut strategies: Vec<MutationStrategy> = Vec::new();
        strategies.push(MutationStrategy::RandomPulse(RandomPulseStrategy::new()));
        strategies.push(MutationStrategy::ColorCycler(ColorCyclerStrategy::new()));
        strategies.push(MutationStrategy::FractalRotation(FractalRotationStrategy::new()));
        strategies.push(MutationStrategy::DynamicMutation(DynamicMutationStrategy::new()));
        strategies.push(
            MutationStrategy::IntelligentAnalysis(IntelligentAnalysisStrategy::new()),
        );
        EcosystemCoordinator {
            components: ComponentRegistry::new(),
            strategies,
            analyzer: EcosystemAnalyzer::new(),
            session_id,
            start_time,
            total_commands: 0,
            last_mutation: None,
        }
    }

    /// Records a freshly read mutator state in the registry.
    pub fn insert_mutator_state(&mut self, state: crate::ecosystem::FractalState, now: i64)
        requires
            old(self).wf(),
            valid_ts(now as int),
            params_wf(state.parameters),
            -1_000_000_000 <= state.fractal_type <= 1_000_000_000,
        ensures
            final(self).wf(),
            ({
                let f = final(self).components.find("FractalMutator"@);
                &&& f is Some
                &&& final(self).components.entries@[f->0].name@ == "FractalMutator"@
                &&& final(self).components.entries@[f->0].component_type == ComponentType::Mutator
                &&& final(self).components.entries@[f->0].status == ComponentStatus::Running
                &&& final(self).components.entries@[f->0].last_seen == now
                &&& final(self).components.entries@[f->0].data == Some(
                    ComponentData::Fractal(state),
                )
                &&& final(self).components.entries@[f->0].metrics.entries@.len() == 0
            }),
            forall|n2: Seq<char>|
                n2 != "FractalMutator"@ ==> #[trigger] final(self).components.find(n2) == old(self).components.find(n2),
            forall|n2: Seq<char>|
                n2 != "FractalMutator"@ && #[trigger] old(self).components.find(n2) is Some
                    ==> final(self).components.entries@[old(self).components.find(n2)->0]
                    == old(self).components.entries@[old(self).components.find(n2)->0],
            final(self).strategies == old(self).strategies,
            final(self).analyzer == old(self).analyzer,
            final(self).session_id == old(self).session_id,
            final(self).start_time == old(self).start_time,
            final(self).total_commands == old(self).total_commands,
            final(self).last_mutation == old(self).last_mutation,
    {
        let info = ComponentInfo {
            name: String::from_str("FractalMutator"),
            component_type: ComponentType::Mutator,
            status: ComponentStatus::Running,
            last_seen: now,
            data: Some(ComponentData::Fractal(state)),
            metrics: Metrics::new(),
        };
        proof {
            let s = self.components.entries@;
            crate::ecosystem::lemma_registry_find_props(s, "FractalMutator"@);
            if spec_registry_find(s, "FractalMutator"@) is None && s.len() >= 2 {
                assert(s[0].name@ == "FractalExplorer"@);
                assert(s[1].name@ == "FractalExplorer"@);
                assert(false);
            }
        }
        self.components.insert(info);
    }

    /// Records a freshly read explorer status in the registry.
    pub fn insert_explorer_status(&mut self, analysis: AnalysisData, now: i64)
        requires
            old(self).wf(),
            valid_ts(now as int),
            valid_ts(analysis.timestamp as int),
            metrics_wf(&analysis.metrics),
        ensures
            final(self).wf(),
            ({
                let f = final(self).components.find("FractalExplorer"@);
                &&& f is Some
                &&& final(self).components.entries@[f->0].name@ == "FractalExplorer"@
                &&& final(self).components.entries@[f->0].component_type
                    == ComponentType::Analyzer
                &&& final(self).components.entries@[f->0].status == ComponentStatus::Running
                &&& final(self).components.entries@[f->0].last_seen == now
                &&& final(self).components.entries@[f->0].data == Some(
                    ComponentData::Analysis(analysis),
                )
                &&& final(self).components.entries@[f->0].metrics.entries@.len() == 0
            }),
            forall|n2: Seq<char>|
                n2 != "FractalExplorer"@ ==> #[trigger] final(self).components.find(n2) == old(self).components.find(n2),
            forall|n2: Seq<char>|
                n2 != "FractalExplorer"@ && #[trigger] old(self).components.find(n2) is Some
                    ==> final(self).components.entries@[old(self).components.find(n2)->0]
                    == old(self).components.entries@[old(self).components.find(n2)->0],
            final(self).strategies == old(self).strategies,
            final(self).analyzer == old(self).analyzer,
            final(self).total_commands == old(self).total_commands,
            final(self).last_mutation == old(self).last_mutation,
            final(self).start_time == old(self).start_time,
            final(self).session_id == old(self).session_id,
    {
        let info = ComponentInfo {
            name: String::from_str("FractalExplorer"),
            component_type: ComponentType::Analyzer,
            status: ComponentStatus::Running,
            last_seen: now,
            data: Some(ComponentData::Analysis(analysis)),
            metrics: Metrics::new(),
        };
        proof {
            let s = self.components.entries@;
            crate::ecosystem::lemma_registry_find_props(s, "FractalExplorer"@);
            if spec_registry_find(s, "FractalExplorer"@) is None && s.len() >= 2 {
                assert(s[0].name@ == "FractalMutator"@);
                assert(s[1].name@ == "FractalMutator"@);
                assert(false);
            }
        }
        self.components.insert(info);
    }

    /// Replaces the explorer's payload with a freshly read detailed
    /// analysis, when the explorer is known; otherwise changes nothing.
    pub fn attach_explorer_analysis(&mut self, analysis: AnalysisData)
        requires
            old(self).wf(),
            valid_ts(analysis.timestamp as int),
            metrics_wf(&analysis.metrics),
        ensures
            final(self).wf(),
            old(self).components.find("FractalExplorer"@) is None ==> *final(self) == *old(self),
            old(self).components.find("FractalExplorer"@) is Some ==> ({
                let j = old(self).components.find("FractalExplorer"@)->0;
                &&& final(self).components.entries@.len() == old(self).components.entries@.len()
                &&& final(self).components.entries@[j].data == Some(
                    ComponentData::Analysis(analysis),
                )
                &&& final(self).components.entries@[j].name@ == old(self).components.entries@[j].name@
                &&& final(self).components.entries@[j].component_type == old(self).components.entries@[j].component_type
                &&& final(self).components.entries@[j].status == old(self).components.entries@[j].status
                &&& final(self).components.entries@[j].last_seen == old(self).components.entries@[j].last_seen
                &&& crate::ecosystem::metrics_equal(
                    &final(self).components.entries@[j].metrics,
                    &old(self).components.entries@[j].metrics,
                )
                &&& forall|k: int|
                    0 <= k < old(self).components.entries@.len() && k != j ==> final(self).components.entries@[k] == old(self).components.entries@[k]
            }),
            final(self).strategies == old(self).strategies,
            final(self).analyzer == old(self).analyzer,
            final(self).total_commands == old(self).total_commands,
            final(self).last_mutation == old(self).last_mutation,
            final(self).start_time == old(self).start_time,
            final(self).session_id == old(self).session_id,
    {
        let n = self.components.entries.len();
        let mut j: usize = 0;
        while j < n
            invariant
                j <= n,
                n == self.components.entries@.len(),
                old(self).wf(),
                valid_ts(analysis.timestamp as int),
                metrics_wf(&analysis.metrics),
                *self == *old(self),
                forall|k: int|
                    0 <= k < j ==> (#[trigger] self.components.entries@[k]).name@
                        != "FractalExplorer"@,
            decreases n - j,
        {
            let hit = str_eq_chars(self.components.entries[j].name.as_str(), "FractalExplorer");
            if hit {
                proof {
                    crate::ecosystem::lemma_registry_find_hit(
                        self.components.entries@,
                        j as int,
                        "FractalExplorer"@,
                    );
                }
                let e = &self.components.entries[j];
                let replacement = ComponentInfo {
                    name: e.name.clone(),
                    component_type: e.component_type,
                    status: e.status,
                    last_seen: e.last_seen,
                    data: Some(ComponentData::Analysis(analysis)),
                    metrics: e.metrics.duplicate(),
                };
                proof {
                    assert(info_wf(&self.components.entries@[j as int]));
                    crate::analysis::lemma_metrics_equal_wf(
                        &replacement.metrics,
                        &self.components.entries@[j as int].metrics,
                    );
                    assert(info_wf(&replacement));
                }
                let ghost pre = self.components.entries@;
                self.components.entries[j] = replacement;
                proof {
                    assert forall|x: int| 0 <= x < self.components.entries@.len() implies (
                    #[trigger] self.components.entries@[x]).name@ == pre[x].name@ by {
                        if x != j as int {
                            assert(self.components.entries@[x] == pre[x]);
                        }
                    }
                    assert forall|a: int, b: int|
                        0 <= a < b < self.components.entries@.len() implies (
                    #[trigger] self.components.entries@[a]).name@ != (
                    #[trigger] self.components.entries@[b]).name@ by {
                        assert(pre[a].name@ != pre[b].name@);
                    }
                }
                return;
            }
            j = j + 1;
        }
        proof {
            crate::ecosystem::lemma_registry_find_none(
                self.components.entries@,
                "FractalExplorer"@,
            );
        }
    }

    /// Consults every strategy once, in registration order: an eligible
    /// strategy executes, its action is collected, and its timer is
    /// stamped. A strategy that is not eligible stays untouched.
    pub fn evaluate_strategies(&mut self, state: &EcosystemState, now: i64) -> (actions: Vec<
        StrategyAction,
    >)
        requires
            old(self).wf(),
            registry_wf(&state.components),
            valid_ts(now as int),
        ensures
            final(self).wf(),
            final(self).strategies@.len() == old(self).strategies@.len(),
            actions@.len() as int == count_eligible(old(self).strategies@, state, now as int),
            forall|i: int|
                0 <= i < old(self).strategies@.len() && !(#[trigger] old(self).strategies@[i]).spec_should_execute(state, now as int) ==> final(self).strategies@[i] == old(self).strategies@[i],
            forall|i: int|
                0 <= i < old(self).strategies@.len() && (#[trigger] old(self).strategies@[i]).spec_should_execute(state, now as int) ==> final(self).strategies@[i].spec_last_execution() == Some(now),
            forall|i: int|
                0 <= i < old(self).strategies@.len() && (#[trigger] old(self).strategies@[i]).spec_should_execute(state, now as int)
                    ==> crate::strategies::strategy_cycle_post(
                    old(self).strategies@[i],
                    final(self).strategies@[i],
                    actions@[count_eligible(old(self).strategies@.take(i), state, now as int)],
                    state,
                    now,
                ),
            final(self).components == old(self).components,
            final(self).analyzer == old(self).analyzer,
            final(self).total_commands == old(self).total_commands,
            final(self).last_mutation == old(self).last_mutation,
            final(self).start_time == old(self).start_time,
            final(self).session_id == old(self).session_id,
    {
        let n = self.strategies.len();
        let mut actions: Vec<StrategyAction> = Vec::new();
        let mut i: usize = 0;
        while i < n
            invariant
                i <= n,
                n == self.strategies@.len(),
                n == old(self).strategies@.len(),
                self.wf(),
                registry_wf(&state.components),
                valid_ts(now as int),
                actions@.len() as int == count_eligible(
                    old(self).strategies@.take(i as int),
                    state,
                    now as int,
                ),
                forall|k: int|
                    i <= k < n ==> #[trigger] self.strategies@[k] == old(self).strategies@[k],
                forall|k: int|
                    0 <= k < i && !(#[trigger] old(self).strategies@[k]).spec_should_execute(
                        state,
                        now as int,
                    ) ==> self.strategies@[k] == old(self).strategies@[k],
                forall|k: int|
                    0 <= k < i && (#[trigger] old(self).strategies@[k]).spec_should_execute(
                        state,
                        now as int,
                    ) ==> self.strategies@[k].spec_last_execution() == Some(now),
                forall|k: int|
                    0 <= k < i && (#[trigger] old(self).strategies@[k]).spec_should_execute(
                        state,
                        now as int,
                    ) ==> count_eligible(old(self).strategies@.take(k), state, now as int)
                        < actions@.len() && crate::strategies::strategy_cycle_post(
                        old(self).strategies@[k],
                        self.strategies@[k],
                        actions@[count_eligible(old(self).strategies@.take(k), state, now as int)],
                        state,
                        now,
                    ),
                self.components == old(self).components,
                self.analyzer == old(self).analyzer,
                self.total_commands == old(self).total_commands,
                self.last_mutation == old(self).last_mutation,
                self.start_time == old(self).start_time,
                self.session_id == old(self).session_id,
            decreases n - i,
        {
            proof {
                assert(old(self).strategies@.take(i as int + 1).drop_last() =~= old(
                    self,
                ).strategies@.take(i as int));
                assert(old(self).strategies@.take(i as int + 1).last() == old(
                    self,
                ).strategies@[i as int]);
                assert forall|k: int| 0 <= k <= n implies 0 <= #[trigger] count_eligible(
                    old(self).strategies@.take(k),
                    state,
                    now as int,
                ) <= k by {
                    crate::strategies::lemma_count_eligible_len(
                        old(self).strategies@.take(k),
                        state,
                        now as int,
                    );
                }
            }
            let eligible = self.strategies[i].should_execute(state, now);
            if eligible {
                let a = self.strategies[i].execute(state);
                let ghost mid = self.strategies@[i as int];
                actions.push(a);
                self.strategies[i].mark_executed(now);
                proof {
                    crate::strategies::lemma_marked_stamp(old(self).strategies@[i as int], now);
                    assert(self.strategies@[i as int] == crate::strategies::spec_marked(
                        mid,
                        now,
                    ));
                    assert(crate::strategies::strategy_cycle_post(
                        old(self).strategies@[i as int],
                        self.strategies@[i as int],
                        a,
                        state,
                        now,
                    ));
                }
            }
            i = i + 1;
        }
        proof {
            assert(old(self).strategies@.take(n as int) =~= old(self).strategies@);
        }
        actions
    }

    /// The wire form of a command for a named component; unknown targets
    /// get nothing.
    pub fn encode_for_target(target: &str, command: &Command) -> (r: Option<String>)
        ensures
            target@ == "FractalMutator"@ ==> r is Some && r->0@ == spec_mutator_string(*command),
            target@ == "FractalExplorer"@ ==> r is Some && r->0@ == spec_explorer_string(
                *command,
            ),
            target@ != "FractalMutator"@ && target@ != "FractalExplorer"@ ==> r is None,
    {
        proof {
            reveal_strlit("FractalMutator");
            reveal_strlit("FractalExplorer");
            assert("FractalMutator"@.len() == 14);
            assert("FractalExplorer"@.len() == 15);
        }
        if str_eq_chars(target, "FractalMutator") {
            Some(command.to_mutator_string())
        } else if str_eq_chars(target, "FractalExplorer") {
            Some(command.to_explorer_string())
        } else {
            None
        }
    }

    /// Accounts for one dispatched command: counts it, and remembers the
    /// time of the last mutation command.
    pub fn record_sent(&mut self, command: &Command, now: i64)
        requires
            old(self).wf(),
            valid_ts(now as int),
            old(self).total_commands < u64::MAX,
        ensures
            final(self).wf(),
            final(self).total_commands == old(self).total_commands + 1,
            final(self).last_mutation == if *command is Mutate {
                Some(now)
            } else {
                old(self).last_mutation
            },
            final(self).components == old(self).components,
            final(self).strategies == old(self).strategies,
            final(self).analyzer == old(self).analyzer,
            final(self).start_time == old(self).start_time,
            final(self).session_id == old(self).session_id,
    {
        self.total_commands = self.total_commands + 1;
        if matches!(command, Command::Mutate) {
            self.last_mutation = Some(now);
        }
    }

    /// The commands asked for by a batch of inbound recommendations, in
    /// order; unrecognized or malformed recommendations are dropped.
    pub fn process_recommendations(recommendations: &Vec<ExplorerRecommendation>) -> (r: Vec<
        Command,
    >)
        ensures
            r@ == spec_parsed_commands(recommendations@),
    {
        let n = recommendations.len();
        let mut r: Vec<Command> = Vec::new();
        let mut i: usize = 0;
        while i < n
            invariant
                i <= n,
                n == recommendations@.len(),
                r@ == spec_parsed_commands(recommendations@.take(i as int)),
            decreases n - i,
        {
            proof {
                assert(recommendations@.take(i as int + 1).drop_last() =~= recommendations@.take(
                    i as int,
                ));
                assert(recommendations@.take(i as int + 1).last() == recommendations@[i as int]);
            }
            match recommendations[i].parse_as_command() {
                Option::Some(c) => {
                    r.push(c);
                    proof {
                        assert(r@ =~= spec_parsed_commands(recommendations@.take(i as int + 1)));
                    }
                },
                Option::None => {
                    proof {
                        assert(r@ =~= spec_parsed_commands(recommendations@.take(i as int + 1)));
                    }
                },
            }
            i = i + 1;
        }
        proof {
            assert(recommendations@.take(n as int) =~= recommendations@);
        }
        r
    }

    /// Refreshes each component's derived metrics: the session uptime, and
    /// for the mutator its echoed zoom and iteration count.
    pub fn update_metrics(&mut self, now: i64)
        requires
            old(self).wf(),
            valid_ts(now as int),
        ensures
            final(self).wf(),
            final(self).components.entries@.len() == old(self).components.entries@.len(),
            forall|k: int|
                0 <= k < old(self).components.entries@.len() ==> {
                    let pre = #[trigger] old(self).components.entries@[k];
                    let post = final(self).components.entries@[k];
                    &&& post.name@ == pre.name@
                    &&& post.component_type == pre.component_type
                    &&& post.status == pre.status
                    &&& post.last_seen == pre.last_seen
                    &&& crate::ecosystem::data_equal(&post.data, &pre.data)
                    &&& post.metrics.lookup("uptime_seconds"@) == Some(
                        ((now - old(self).start_time) * 1000) as i64,
                    )
                    &&& (match pre.data {
                        Some(ComponentData::Fractal(f)) => post.metrics.lookup("zoom"@) == Some(
                            f.parameters.zoom,
                        ) && post.metrics.lookup("iterations"@) == Some(
                            (f.parameters.max_iterations * 1000) as i64,
                        ),
                        _ => true,
                    })
                    &&& (forall|k2: Seq<char>|
                        k2 != "uptime_seconds"@ && k2 != "zoom"@ && k2 != "iterations"@
                            ==> #[trigger] post.metrics.lookup(k2) == pre.metrics.lookup(k2))
                },
            final(self).strategies == old(self).strategies,
            final(self).analyzer == old(self).analyzer,
            final(self).total_commands == old(self).total_commands,
            final(self).last_mutation == old(self).last_mutation,
            final(self).start_time == old(self).start_time,
            final(self).session_id == old(self).session_id,
    {
        let n = self.components.entries.len();
        let uptime = now - self.start_time;
        proof {
            reveal_strlit("uptime_seconds");
            reveal_strlit("zoom");
            reveal_strlit("iterations");
            assert("uptime_seconds"@.len() == 14);
            assert("zoom"@.len() == 4);
            assert("iterations"@.len() == 10);
        }
        let mut k: usize = 0;
        while k < n
            invariant
                k <= n,
                n == self.components.entries@.len(),
                n == old(self).components.entries@.len(),
                self.wf(),
                old(self).wf(),
                uptime == now - self.start_time,
                self.start_time == old(self).start_time,
                -MAX_EPOCH <= uptime <= MAX_EPOCH,
                valid_ts(now as int),
                forall|j: int|
                    k <= j < n ==> #[trigger] self.components.entries@[j] == old(
                        self,
                    ).components.entries@[j],
                forall|j: int|
                    0 <= j < k ==> {
                        let pre = #[trigger] old(self).components.entries@[j];
                        let post = self.components.entries@[j];
                        &&& post.name@ == pre.name@
                        &&& post.component_type == pre.component_type
                        &&& post.status == pre.status
                        &&& post.last_seen == pre.last_seen
                        &&& crate::ecosystem::data_equal(&post.data, &pre.data)
                        &&& post.metrics.lookup("uptime_seconds"@) == Some(
                            ((now - old(self).start_time) * 1000) as i64,
                        )
                        &&& (match pre.data {
                            Some(ComponentData::Fractal(f)) => post.metrics.lookup("zoom"@)
                                == Some(f.parameters.zoom) && post.metrics.lookup("iterations"@)
                                == Some((f.parameters.max_iterations * 1000) as i64),
                            _ => true,
                        })
                        &&& (forall|k2: Seq<char>|
                            k2 != "uptime_seconds"@ && k2 != "zoom"@ && k2 != "iterations"@
                                ==> #[trigger] post.metrics.lookup(k2) == pre.metrics.lookup(k2))
                    },
                self.strategies == old(self).strategies,
                self.analyzer == old(self).analyzer,
                self.total_commands == old(self).total_commands,
                self.last_mutation == old(self).last_mutation,
                self.session_id == old(self).session_id,
            decreases n - k,
        {
            proof {
                reveal_strlit("uptime_seconds");
                reveal_strlit("zoom");
                reveal_strlit("iterations");
                assert("uptime_seconds"@.len() == 14);
                assert("zoom"@.len() == 4);
                assert("iterations"@.len() == 10);
                assert(info_wf(&self.components.entries@[k as int]));
            }
            let mut entry = self.components.entries[k].duplicate();
            let ghost source = self.components.entries@[k as int];
            let ghost g0 = entry.metrics;
            proof {
                crate::analysis::lemma_info_equal_wf(
                    &entry,
                    &self.components.entries@[k as int],
                );
            }
            entry.metrics.set(String::from_str("uptime_seconds"), uptime * 1000);
            let ghost g1 = entry.metrics;
            let data_values: Option<(i64, i32)> = match &entry.data {
                Option::Some(ComponentData::Fractal(f)) => Some(
                    (f.parameters.zoom, f.parameters.max_iterations),
                ),
                _ => None,
            };
            match data_values {
                Option::Some((zoom, iterations)) => {
                    entry.metrics.set(String::from_str("zoom"), zoom);
                    let ghost g2 = entry.metrics;
                    proof {
                        assert("zoom"@ != "uptime_seconds"@);
                    }
                    entry.metrics.set(String::from_str("iterations"), (iterations as i64) * 1000);
                    proof {
                        assert("iterations"@ != "zoom"@ && "iterations"@ != "uptime_seconds"@);
                        assert forall|k2: Seq<char>|
                            k2 != "uptime_seconds"@ && k2 != "zoom"@ && k2 != "iterations"@
                                implies #[trigger] entry.metrics.lookup(k2)
                                == source.metrics.lookup(k2) by {
                            assert(entry.metrics.lookup(k2) == g2.lookup(k2));
                            assert(g2.lookup(k2) == g1.lookup(k2));
                            assert(g1.lookup(k2) == g0.lookup(k2));
                            crate::ecosystem::lemma_metrics_equal_lookup(
                                &g0,
                                &source.metrics,
                                k2,
                            );
                        }
                    }
                },
                Option::None => {
                    proof {
                        assert forall|k2: Seq<char>|
                            k2 != "uptime_seconds"@ && k2 != "zoom"@ && k2 != "iterations"@
                                implies #[trigger] entry.metrics.lookup(k2)
                                == source.metrics.lookup(k2) by {
                            assert(entry.metrics.lookup(k2) == g1.lookup(k2));
                            assert(g1.lookup(k2) == g0.lookup(k2));
                            crate::ecosystem::lemma_metrics_equal_lookup(
                                &g0,
                                &source.metrics,
                                k2,
                            );
                        }
                    }
                },
            }
            let ghost pre = self.components.entries@;
            self.components.entries[k] = entry;
            proof {
                assert forall|x: int| 0 <= x < self.components.entries@.len() implies (
                #[trigger] self.components.entries@[x]).name@ == pre[x].name@ by {
                    if x != k as int {
                        assert(self.components.entries@[x] == pre[x]);
                    }
                }
                assert forall|a: int, b: int|
                    0 <= a < b < self.components.entries@.len() implies (
                #[trigger] self.components.entries@[a]).name@ != (
                #[trigger] self.components.entries@[b]).name@ by {
                    assert(pre[a].name@ != pre[b].name@);
                }
            }
            k = k + 1;
        }
    }

    /// Assembles the structured report: session identity, uptime, command
    /// count, how many components run, and a value copy of the registry.
    pub fn build_report(&self, now: i64) -> (r: EcosystemReport)
        requires
            self.wf(),
            valid_ts(now as int),
        ensures
            r.session_id == self.session_id,
            r.timestamp == now,
            r.uptime_seconds == now - self.start_time,
            r.total_commands == self.total_commands,
            r.active_components as int == count_running(self.components.entries@),
            crate::ecosystem::registry_equal(&r.components, &self.components),
    {
        let n = self.components.entries.len();
        let mut active: usize = 0;
        let mut i: usize = 0;
        while i < n
            invariant
                i <= n,
                n == self.components.entries@.len(),
                active as int == count_running(self.components.entries@.take(i as int)),
                active <= i,
            decreases n - i,
        {
            proof {
                assert(self.components.entries@.take(i as int + 1).drop_last()
                    =~= self.components.entries@.take(i as int));
                assert(self.components.entries@.take(i as int + 1).last()
                    == self.components.entries@[i as int]);
            }
            if matches!(self.components.entries[i].status, ComponentStatus::Running) {
                active = active + 1;
            }
            i = i + 1;
        }
        proof {
            assert(self.components.entries@.take(n as int) =~= self.components.entries@);
        }
        EcosystemReport {
            session_id: self.session_id,
            timestamp: now,
            uptime_seconds: now - self.start_time,
            total_commands: self.total_commands,
            active_components: active,
            components: self.components.duplicate(),
        }
    }

    /// Routes a reconfiguration action to the named strategy; unknown
    /// names change nothing.
    pub fn modify_strategy(&mut self, strategy_name: &str, modification: crate::strategies::StrategyModification)
        requires
            old(self).wf(),
        ensures
            final(self).wf(),
            final(self).strategies@.len() == old(self).strategies@.len(),
            match spec_find_strategy(old(self).strategies@, strategy_name@) {
                Some(j) => final(self).strategies@[j] == crate::strategies::spec_modified(
                    old(self).strategies@[j],
                    modification,
                ) && forall|i: int|
                    0 <= i < old(self).strategies@.len() && i != j
                        ==> #[trigger] final(self).strategies@[i] == old(self).strategies@[i],
                None => final(self).strategies@ == old(self).strategies@,
            },
            final(self).components == old(self).components,
            final(self).analyzer == old(self).analyzer,
            final(self).total_commands == old(self).total_commands,
            final(self).last_mutation == old(self).last_mutation,
            final(self).start_time == old(self).start_time,
            final(self).session_id == old(self).session_id,
    {
        let n = self.strategies.len();
        let mut i: usize = 0;
        while i < n
            invariant
                i <= n,
                n == self.strategies@.len(),
                n == old(self).strategies@.len(),
                self.wf(),
                self.strategies@ == old(self).strategies@,
                forall|k: int|
                    0 <= k < i ==> (#[trigger] old(self).strategies@[k]).spec_name()
                        != strategy_name@,
                self.components == old(self).components,
                self.analyzer == old(self).analyzer,
                self.total_commands == old(self).total_commands,
                self.last_mutation == old(self).last_mutation,
                self.start_time == old(self).start_time,
                self.session_id == old(self).session_id,
            decreases n - i,
        {
            let name = self.strategies[i].name();
            if str_eq_chars(name, strategy_name) {
                proof {
                    crate::strategies::lemma_find_strategy_hit(
                        old(self).strategies@,
                        i as int,
                        strategy_name@,
                    );
                }
                self.strategies[i].apply_modification(modification);
                return;
            }
            i = i + 1;
        }
        proof {
            crate::strategies::lemma_find_strategy_none(old(self).strategies@, strategy_name@);
        }
    }
}

} // verus!
