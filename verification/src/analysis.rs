//! The analysis engine: converts the component registry into a health score
//! and an activity level, keeps a bounded history of snapshots, and derives
//! trend statistics and advisories from it. All scores are milli
//! fixed-point: 1000 stands for 1.0.

use vstd::prelude::*;
use crate::ecosystem::{ComponentStatus, ActivityLevel, FractalParameters, FractalState,
    AnalysisData, ComponentData, ComponentInfo, ComponentRegistry, Metrics, MetricEntry,
    EcosystemState, spec_metric_lookup, spec_registry_find, registry_equal};
use crate::fixed::{valid_ts, spec_clamp, tdiv, clamp_i64, div_trunc, MAX_METRIC, MAX_PARAM};

verus! {

/// Upper bound on the history length.
pub const MAX_HISTORY: usize = 100;

/// Registry sizes the analyzer accepts; keeps every sum inside `i64`.
pub const MAX_COMPONENTS: usize = 1_000_000;

/// Largest magnitude of a derived mutation rate, in milli units.
pub const MAX_RATE: i64 = 200_000_000_000_000;

/// One history record, taken once per analysis cycle.
#[derive(Clone, Copy, Debug, PartialEq, Eq, Structural)]
pub struct EcosystemSnapshot {
    pub timestamp: i64,
    pub health_score: i64,
    pub activity_level: ActivityLevel,
    pub component_count: usize,
    pub mutation_rate: i64,
    pub analysis_quality: i64,
}

pub open spec fn snapshot_wf(s: EcosystemSnapshot) -> bool {
    &&& 0 <= s.health_score <= 1000
    &&& valid_ts(s.timestamp as int)
    &&& -MAX_RATE <= s.mutation_rate <= MAX_RATE
    &&& -MAX_METRIC <= s.analysis_quality <= MAX_METRIC
}

/// Bounds under which the analyzer's arithmetic cannot overflow.
pub open spec fn params_wf(p: FractalParameters) -> bool {
    &&& -MAX_PARAM <= p.mutation_strength <= MAX_PARAM
    &&& -MAX_PARAM <= p.auto_mutate_speed <= MAX_PARAM
    &&& -MAX_METRIC <= p.zoom <= MAX_METRIC
}

pub open spec fn metrics_wf(m: &Metrics) -> bool {
    forall|i: int|
        0 <= i < m.entries@.len() ==> -MAX_METRIC <= (#[trigger] m.entries@[i]).value
            <= MAX_METRIC
}

pub open spec fn data_wf(d: &Option<ComponentData>) -> bool {
    match d {
        Option::None => true,
        Option::Some(ComponentData::Fractal(f)) => params_wf(f.parameters)
            && -1_000_000_000 <= f.fractal_type <= 1_000_000_000,
        Option::Some(ComponentData::Analysis(a)) => valid_ts(a.timestamp as int) && metrics_wf(
            &a.metrics,
        ),
    }
}

pub open spec fn info_wf(c: &ComponentInfo) -> bool {
    &&& valid_ts(c.last_seen as int)
    &&& data_wf(&c.data)
    &&& metrics_wf(&c.metrics)
}

pub open spec fn registry_wf(r: &ComponentRegistry) -> bool {
    &&& r.entries@.len() <= MAX_COMPONENTS
    &&& forall|i: int| 0 <= i < r.entries@.len() ==> info_wf(&(#[trigger] r.entries@[i]))
}

/// A looked-up metric of a well-formed map stays in range.
proof fn lemma_metric_lookup_in_range(s: Seq<MetricEntry>, k: Seq<char>)
    requires
        forall|i: int| 0 <= i < s.len() ==> -MAX_METRIC <= (#[trigger] s[i]).value <= MAX_METRIC,
    ensures
        match spec_metric_lookup(s, k) {
            Some(v) => -MAX_METRIC <= v <= MAX_METRIC,
            None => true,
        },
    decreases s.len(),
{
    if s.len() > 0 && s[0].key@ != k {
        assert(forall|i: int| 0 <= i < s.len() - 1 ==> s.drop_first()[i] == s[i + 1]);
        lemma_metric_lookup_in_range(s.drop_first(), k);
    }
}

/// Equal metric maps are equally well-formed.
pub proof fn lemma_metrics_equal_wf(a: &Metrics, b: &Metrics)
    requires
        crate::ecosystem::metrics_equal(a, b),
        metrics_wf(b),
    ensures
        metrics_wf(a),
{
}

/// Equal component records are equally well-formed.
pub proof fn lemma_info_equal_wf(a: &ComponentInfo, b: &ComponentInfo)
    requires
        crate::ecosystem::info_equal(a, b),
        info_wf(b),
    ensures
        info_wf(a),
{
    match (&a.data, &b.data) {
        (Option::Some(ComponentData::Analysis(x)), Option::Some(ComponentData::Analysis(y))) => {
            lemma_metrics_equal_wf(&x.metrics, &y.metrics);
        },
        _ => {},
    }
    lemma_metrics_equal_wf(&a.metrics, &b.metrics);
}

/// Freshness score of a component's last report: a step function of the
/// age in seconds.
pub open spec fn age_score(age: int) -> int {
    if age <= 30 {
        1000
    } else if age <= 120 {
        800
    } else if age <= 300 {
        600
    } else {
        300
    }
}

/// Penalty for extreme renderer parameters.
pub open spec fn fractal_modifier(p: FractalParameters) -> int {
    let zoom_penalty: int = if p.zoom > 1_000_000 || p.zoom < 10 {
        700
    } else {
        1000
    };
    let mutation_penalty: int = if p.mutation_strength > 800 {
        800
    } else {
        1000
    };
    zoom_penalty * mutation_penalty / 1000
}

/// Quality modifier of an analysis record: 0.5 plus half the clamped
/// interest score.
pub open spec fn analysis_modifier(a: &AnalysisData) -> int {
    let q = match spec_metric_lookup(a.metrics.entries@, "interesting_score"@) {
        Some(v) => spec_clamp(v as int, 0, 1000),
        None => 500,
    };
    500 + q / 2
}

/// Health contribution of one component, in [0, 1000].
pub open spec fn component_score(c: &ComponentInfo, now: int) -> int {
    match c.status {
        ComponentStatus::Running => {
            let a = age_score(now - c.last_seen);
            match &c.data {
                Option::Some(ComponentData::Fractal(f)) => a * fractal_modifier(f.parameters)
                    / 1000,
                Option::Some(ComponentData::Analysis(ad)) => a * analysis_modifier(ad) / 1000,
                Option::None => a * 800 / 1000,
            }
        },
        ComponentStatus::Idle => 600,
        ComponentStatus::Error => 200,
        ComponentStatus::Offline => 0,
    }
}

pub open spec fn sum_scores(s: Seq<ComponentInfo>, now: int) -> int
    decreases s.len(),
{
    if s.len() == 0 {
        0
    } else {
        sum_scores(s.drop_last(), now) + component_score(&s.last(), now)
    }
}

/// Bonus applied to the mean score for having several live components.
pub open spec fn diversity_bonus(n: int) -> int {
    if n <= 0 {
        0
    } else if n == 1 {
        900
    } else if n == 2 {
        1000
    } else if n == 3 {
        1100
    } else {
        1200
    }
}

/// Health of the whole registry: the mean component score scaled by the
/// diversity bonus, capped at 1000; an empty registry scores exactly 0.
pub open spec fn spec_health_score(s: Seq<ComponentInfo>, now: int) -> int {
    if s.len() == 0 {
        0
    } else {
        let mean = sum_scores(s, now) / s.len() as int;
        let boosted = mean * diversity_bonus(s.len() as int) / 1000;
        if boosted > 1000 {
            1000
        } else {
            boosted
        }
    }
}

pub proof fn lemma_component_score_bounds(c: &ComponentInfo, now: int)
    ensures
        0 <= component_score(c, now) <= 1000,
{
    match c.status {
        ComponentStatus::Running => {
            let a = age_score(now - c.last_seen);
            assert(300 <= a <= 1000);
            match &c.data {
                Option::Some(ComponentData::Fractal(f)) => {
                    assert(fractal_modifier(f.parameters) == 560 || fractal_modifier(f.parameters)
                        == 700 || fractal_modifier(f.parameters) == 800 || fractal_modifier(
                        f.parameters,
                    ) == 1000);
                    lemma_score_product(a, fractal_modifier(f.parameters));
                },
                Option::Some(ComponentData::Analysis(ad)) => {
                    assert(500 <= analysis_modifier(ad) <= 1000);
                    lemma_score_product(a, analysis_modifier(ad));
                },
                Option::None => {
                    lemma_score_product(a, 800);
                },
            }
        },
        _ => {},
    }
}

proof fn lemma_score_product(a: int, m: int)
    requires
        0 <= a <= 1000,
        0 <= m <= 1000,
    ensures
        0 <= a * m / 1000 <= 1000,
{
    assert(a * m <= 1000 * 1000) by (nonlinear_arith)
        requires
            0 <= a <= 1000,
            0 <= m <= 1000,
    ;
    assert(a * m >= 0) by (nonlinear_arith)
        requires
            0 <= a,
            0 <= m,
    ;
}

pub proof fn lemma_sum_scores_bounds(s: Seq<ComponentInfo>, now: int)
    ensures
        0 <= sum_scores(s, now) <= 1000 * s.len(),
    decreases s.len(),
{
    if s.len() > 0 {
        lemma_sum_scores_bounds(s.drop_last(), now);
        lemma_component_score_bounds(&s.last(), now);
    }
}

/// The health score is always within [0, 1000], and an empty registry
/// scores exactly 0.
pub proof fn lemma_health_score_bounds(s: Seq<ComponentInfo>, now: int)
    ensures
        0 <= spec_health_score(s, now) <= 1000,
        s.len() == 0 ==> spec_health_score(s, now) == 0,
{
    if s.len() > 0 {
        let n = s.len() as int;
        lemma_sum_scores_bounds(s, now);
        let mean = sum_scores(s, now) / n;
        assert(0 <= mean <= 1000) by (nonlinear_arith)
            requires
                n > 0,
                0 <= sum_scores(s, now) <= 1000 * n,
                mean == sum_scores(s, now) / n,
        ;
        let b = diversity_bonus(n);
        assert(0 <= b <= 1200);
        assert(0 <= mean * b <= 1200 * 1000) by (nonlinear_arith)
            requires
                0 <= mean <= 1000,
                0 <= b <= 1200,
        ;
    }
}

/// The diversity bonus never decreases with the component count and is
/// flat from four components on.
pub proof fn lemma_diversity_bonus_monotone(a: int, b: int)
    requires
        0 <= a <= b,
    ensures
        diversity_bonus(a) <= diversity_bonus(b),
        a >= 4 ==> diversity_bonus(a) == 1200,
{
}

/// The component stored under `name`, as a value.
pub open spec fn spec_lookup_info(s: Seq<ComponentInfo>, name: Seq<char>) -> Option<
    ComponentInfo,
> {
    match spec_registry_find(s, name) {
        Some(j) => Some(s[j]),
        None => None,
    }
}

/// The mutator's reported renderer state, when present.
pub open spec fn mutator_fractal(s: Seq<ComponentInfo>) -> Option<FractalState> {
    match spec_lookup_info(s, "FractalMutator"@) {
        Some(info) => match info.data {
            Option::Some(ComponentData::Fractal(f)) => Some(f),
            _ => None,
        },
        None => None,
    }
}

/// The explorer's reported analysis record, when present.
pub open spec fn explorer_analysis(s: Seq<ComponentInfo>) -> Option<AnalysisData> {
    match spec_lookup_info(s, "FractalExplorer"@) {
        Some(info) => match info.data {
            Option::Some(ComponentData::Analysis(a)) => Some(a),
            _ => None,
        },
        None => None,
    }
}

/// Activity contribution of the mutation strength.
pub open spec fn strength_band(ms: int) -> int {
    if ms > 300 {
        2000
    } else if ms > 100 {
        1000
    } else {
        500
    }
}

/// Activity indicators read off the mutator's state.
pub open spec fn mutator_indicators(s: Seq<ComponentInfo>) -> Seq<int> {
    match mutator_fractal(s) {
        Some(f) => (if f.parameters.auto_mutate {
            seq![3000int]
        } else {
            seq![]
        }) + seq![strength_band(f.parameters.mutation_strength as int)] + (if f.parameters.zoom
            > 500_000 {
            seq![3000int]
        } else {
            seq![]
        }),
        None => seq![],
    }
}

/// Activity contribution of the freshness of the explorer's analysis.
pub open spec fn analysis_recency(age: int) -> int {
    if age <= 60 {
        2000
    } else if age <= 300 {
        1000
    } else {
        300
    }
}

/// Activity indicators read off the explorer's analysis.
pub open spec fn explorer_indicators(s: Seq<ComponentInfo>, now: int) -> Seq<int> {
    match explorer_analysis(s) {
        Some(a) => seq![analysis_recency(now - a.timestamp)] + (match spec_metric_lookup(
            a.metrics.entries@,
            "interesting_score"@,
        ) {
            Some(v) => if v > 800 {
                seq![2000int]
            } else if v > 500 {
                seq![1000int]
            } else {
                seq![]
            },
            None => seq![],
        }),
        None => seq![],
    }
}

pub open spec fn sum_int(s: Seq<int>) -> int
    decreases s.len(),
{
    if s.len() == 0 {
        0
    } else {
        sum_int(s.drop_last()) + s.last()
    }
}

pub proof fn lemma_sum_int_concat(a: Seq<int>, b: Seq<int>)
    ensures
        sum_int(a + b) == sum_int(a) + sum_int(b),
    decreases b.len(),
{
    if b.len() == 0 {
        assert(a + b =~= a);
    } else {
        assert((a + b).drop_last() =~= a + b.drop_last());
        assert((a + b).last() == b.last());
        lemma_sum_int_concat(a, b.drop_last());
    }
}

/// All activity indicators of one cycle: the mutator's, the explorer's,
/// and one unconditional historical indicator.
pub open spec fn spec_indicators(
    s: Seq<ComponentInfo>,
    now: int,
    hist: Seq<EcosystemSnapshot>,
) -> Seq<int> {
    mutator_indicators(s) + explorer_indicators(s, now) + seq![spec_historical_activity(hist)]
}

/// The average of the indicators; 500 when there are none.
pub open spec fn spec_average_activity(inds: Seq<int>) -> int {
    if inds.len() == 0 {
        500
    } else {
        sum_int(inds) / inds.len() as int
    }
}

/// The activity level is a total function of the indicator average, with
/// inclusive thresholds at 2.5, 1.8 and 0.8.
pub open spec fn level_of(avg: int) -> ActivityLevel {
    if avg >= 2500 {
        ActivityLevel::Critical
    } else if avg >= 1800 {
        ActivityLevel::High
    } else if avg >= 800 {
        ActivityLevel::Moderate
    } else {
        ActivityLevel::Low
    }
}

/// Maps an indicator average (milli) to its activity level; thresholds
/// are inclusive.
pub fn level_of_average(avg: i64) -> (r: ActivityLevel)
    ensures
        r == level_of(avg as int),
{
    if avg >= 2500 {
        ActivityLevel::Critical
    } else if avg >= 1800 {
        ActivityLevel::High
    } else if avg >= 800 {
        ActivityLevel::Moderate
    } else {
        ActivityLevel::Low
    }
}

pub open spec fn spec_activity_level(
    s: Seq<ComponentInfo>,
    now: int,
    hist: Seq<EcosystemSnapshot>,
) -> ActivityLevel {
    level_of(spec_average_activity(spec_indicators(s, now, hist)))
}

/// The boundary values map inclusively: exactly 2.5 is Critical, exactly
/// 1.8 is High, exactly 0.8 is Moderate.
pub proof fn lemma_level_boundaries(avg: int)
    ensures
        level_of(avg) == ActivityLevel::Critical <==> avg >= 2500,
        level_of(avg) == ActivityLevel::High <==> 1800 <= avg < 2500,
        level_of(avg) == ActivityLevel::Moderate <==> 800 <= avg < 1800,
        level_of(avg) == ActivityLevel::Low <==> avg < 800,
{
}

/// Magnitude of an activity level in the historical weighting.
pub open spec fn level_magnitude(l: ActivityLevel) -> int {
    match l {
        ActivityLevel::Critical => 3000,
        ActivityLevel::High => 2000,
        ActivityLevel::Moderate => 1000,
        ActivityLevel::Low => 500,
    }
}

/// The most recent snapshots, newest first, at most ten.
pub open spec fn recent_of(h: Seq<EcosystemSnapshot>) -> Seq<EcosystemSnapshot> {
    Seq::new(
        if h.len() <= 10 {
            h.len()
        } else {
            10
        },
        |i: int| h[h.len() - 1 - i],
    )
}

/// Linearly decaying weighted sum of activity magnitudes, from position
/// `i` on; position 0 is the most recent snapshot.
pub open spec fn weighted_sum_from(r: Seq<EcosystemSnapshot>, i: int) -> int
    decreases r.len() - i,
{
    if i < 0 || i >= r.len() {
        0
    } else {
        level_magnitude(r[i].activity_level) * (1000 - 100 * i) / 1000 + weighted_sum_from(
            r,
            i + 1,
        )
    }
}

pub open spec fn weighted_sum(r: Seq<EcosystemSnapshot>) -> int {
    weighted_sum_from(r, 0)
}

/// Mean health of three consecutive snapshots starting at `start`.
pub open spec fn avg3(r: Seq<EcosystemSnapshot>, start: int) -> int {
    (r[start].health_score + r[start + 1].health_score + r[start + 2].health_score) / 3
}

/// Trend factor over the recent snapshots (newest first): computed only
/// when at least six are present, else neutral.
pub open spec fn trend_factor(r: Seq<EcosystemSnapshot>) -> int {
    if r.len() >= 6 {
        let recent_avg = avg3(r, 0);
        let older_avg = avg3(r, 3);
        if recent_avg > older_avg + 100 {
            1200
        } else if recent_avg < older_avg - 100 {
            800
        } else {
            1000
        }
    } else {
        1000
    }
}

/// The trend factor is neutral whenever fewer than six history entries
/// exist.
pub proof fn lemma_trend_neutral(h: Seq<EcosystemSnapshot>)
    requires
        h.len() < 6,
    ensures
        trend_factor(recent_of(h)) == 1000,
{
    assert(recent_of(h).len() < 6);
}

/// Historical activity indicator: neutral 1.0 with fewer than two history
/// entries, else the weighted recent activity scaled by the trend factor,
/// clamped to [0, 3].
pub open spec fn spec_historical_activity(h: Seq<EcosystemSnapshot>) -> int {
    if h.len() < 2 {
        1000
    } else {
        let r = recent_of(h);
        let avg = weighted_sum(r) / r.len() as int;
        spec_clamp(avg * trend_factor(r) / 1000, 0, 3000)
    }
}

/// Current mutation rate read off the mutator: the strength, scaled up by
/// the auto-mutate speed when auto-mutation is on.
pub open spec fn spec_mutation_rate(s: Seq<ComponentInfo>) -> int {
    match mutator_fractal(s) {
        Some(f) => if f.parameters.auto_mutate {
            tdiv(
                f.parameters.mutation_strength * (1000 + 10 * f.parameters.auto_mutate_speed),
                1000,
            )
        } else {
            f.parameters.mutation_strength as int
        },
        None => 0,
    }
}

/// Quality of the current analysis: a weighted combination of interest,
/// complexity and boundary metrics; 0.5 when no analysis is present.
pub open spec fn spec_analysis_quality(s: Seq<ComponentInfo>) -> int {
    match explorer_analysis(s) {
        Some(a) => {
            let m = a.metrics.entries@;
            let interest = spec_metric_lookup(m, "interesting_score"@).unwrap_or(0);
            let complexity = spec_metric_lookup(m, "complexity_measure"@).unwrap_or(0);
            let boundary = spec_metric_lookup(m, "boundary_length"@).unwrap_or(0);
            tdiv(interest * 500 + complexity * 300 + boundary * 200, 1000)
        },
        None => 500,
    }
}

/// Fixed advisories for the outer activity levels.
pub open spec fn level_messages(l: ActivityLevel) -> Seq<Seq<char>> {
    match l {
        ActivityLevel::Low => seq![
            "Incrementar estímulos de mutación"@,
            "Solicitar análisis profundo"@,
            "Considerar cambio de parámetros"@,
        ],
        ActivityLevel::Critical => seq![
            "Reducir intensidad de mutación"@,
            "Implementar regulación automática"@,
            "Monitorear estabilidad del sistema"@,
        ],
        _ => seq![],
    }
}

/// Advisories about the mutator's reported parameters.
pub open spec fn mutator_messages(s: Seq<ComponentInfo>, level: ActivityLevel) -> Seq<Seq<char>> {
    match mutator_fractal(s) {
        Some(f) => (if f.parameters.zoom > 1_000_000 {
            seq!["Zoom extremo detectado - considerar reset"@]
        } else {
            seq![]
        }) + (if f.parameters.mutation_strength > 500 {
            seq!["Fuerza de mutación muy alta - reducir gradualmente"@]
        } else {
            seq![]
        }) + (if !f.parameters.auto_mutate && level == ActivityLevel::Low {
            seq!["Activar auto-mutación para aumentar actividad"@]
        } else {
            seq![]
        }),
        None => seq![],
    }
}

pub open spec fn explorer_missing_messages(s: Seq<ComponentInfo>) -> Seq<Seq<char>> {
    if spec_registry_find(s, "FractalExplorer"@) is None {
        seq!["FractalExplorer offline - reiniciar componente"@]
    } else {
        seq![]
    }
}

/// Sum of the health scores of `count` snapshots, newest first, starting
/// `start` snapshots before the end.
pub open spec fn sum_rev_health(h: Seq<EcosystemSnapshot>, start: int, count: int) -> int
    recommends
        start + count <= h.len(),
    decreases count,
{
    if count <= 0 {
        0
    } else {
        h[h.len() - 1 - start].health_score + sum_rev_health(h, start + 1, count - 1)
    }
}

/// A diagnostic advisory when the mean health of the last five snapshots is
/// low; only evaluated once five snapshots exist.
pub open spec fn history_messages(h: Seq<EcosystemSnapshot>) -> Seq<Seq<char>> {
    if h.len() >= 5 {
        if sum_rev_health(h, 0, 5) / 5 < 600 {
            seq!["Salud del ecosistema baja - diagnóstico completo requerido"@]
        } else {
            seq![]
        }
    } else {
        seq![]
    }
}

/// All advisories of one cycle, in order: level advisories, mutator
/// advisories, the missing-explorer warning, and the history diagnostic.
pub open spec fn spec_recommendations(
    s: Seq<ComponentInfo>,
    level: ActivityLevel,
    h: Seq<EcosystemSnapshot>,
) -> Seq<Seq<char>> {
    level_messages(level) + mutator_messages(s, level) + explorer_missing_messages(s)
        + history_messages(h)
}

/// Element-wise correspondence of built strings and their specified views.
pub open spec fn strings_match(v: Seq<String>, t: Seq<Seq<char>>) -> bool {
    &&& v.len() == t.len()
    &&& forall|i: int| 0 <= i < v.len() ==> (#[trigger] v[i])@ == t[i]
}

/// The history after recording one more snapshot: appended, with the
/// oldest entry evicted first when the bound is reached.
pub open spec fn push_capped(h: Seq<EcosystemSnapshot>, s: EcosystemSnapshot) -> Seq<
    EcosystemSnapshot,
> {
    if h.len() >= MAX_HISTORY {
        h.subrange(1, h.len() as int).push(s)
    } else {
        h.push(s)
    }
}

/// At the bound, recording evicts exactly the oldest entry: the length
/// stays at the bound, the new snapshot is last, everything else shifts
/// down one place.
pub proof fn lemma_history_eviction(h: Seq<EcosystemSnapshot>, s: EcosystemSnapshot)
    requires
        h.len() == MAX_HISTORY,
    ensures
        push_capped(h, s).len() == MAX_HISTORY,
        push_capped(h, s).last() == s,
        forall|i: int| 0 <= i < MAX_HISTORY - 1 ==> push_capped(h, s)[i] == h[i + 1],
{
}

/// The history never grows past the bound.
pub proof fn lemma_history_bounded(h: Seq<EcosystemSnapshot>, s: EcosystemSnapshot)
    requires
        h.len() <= MAX_HISTORY,
    ensures
        push_capped(h, s).len() <= MAX_HISTORY,
{
}

/// The snapshot one analysis cycle records.
pub open spec fn spec_snapshot(
    s: Seq<ComponentInfo>,
    now: int,
    hist: Seq<EcosystemSnapshot>,
) -> EcosystemSnapshot {
    EcosystemSnapshot {
        timestamp: now as i64,
        health_score: spec_health_score(s, now) as i64,
        activity_level: spec_activity_level(s, now, hist),
        component_count: s.len() as usize,
        mutation_rate: spec_mutation_rate(s) as i64,
        analysis_quality: spec_analysis_quality(s) as i64,
    }
}

proof fn lemma_sum_int_singleton(x: int)
    ensures
        sum_int(seq![x]) == x,
{
    let s = seq![x];
    assert(s.len() == 1);
    assert(s.drop_last() =~= Seq::<int>::empty());
    assert(sum_int(s.drop_last()) == 0);
    assert(s.last() == x);
    assert(sum_int(s) == sum_int(s.drop_last()) + s.last());
}

/// The analysis engine. It owns the bounded snapshot history.
pub struct EcosystemAnalyzer {
    pub analysis_history: Vec<EcosystemSnapshot>,
    pub max_history_size: usize,
}

impl EcosystemAnalyzer {
    pub open spec fn wf(&self) -> bool {
        &&& self.max_history_size == MAX_HISTORY
        &&& self.analysis_history@.len() <= MAX_HISTORY
        &&& forall|i: int|
            0 <= i < self.analysis_history@.len() ==> snapshot_wf(
                #[trigger] self.analysis_history@[i],
            )
    }

    pub fn new() -> (r: EcosystemAnalyzer)
        ensures
            r.wf(),
            r.analysis_history@.len() == 0,
    {
        EcosystemAnalyzer { analysis_history: Vec::new(), max_history_size: MAX_HISTORY }
    }

    /// Health contribution of one component.
    pub fn component_score_of(c: &ComponentInfo, now: i64) -> (r: i64)
        requires
            info_wf(c),
            valid_ts(now as int),
        ensures
            r as int == component_score(c, now as int),
            0 <= r <= 1000,
    {
        proof {
            lemma_component_score_bounds(c, now as int);
        }
        match c.status {
            ComponentStatus::Running => {
                let age = now - c.last_seen;
                let a: i64 = if age <= 30 {
                    1000
                } else if age <= 120 {
                    800
                } else if age <= 300 {
                    600
                } else {
                    300
                };
                match &c.data {
                    Option::Some(ComponentData::Fractal(f)) => {
                        let zp: i64 = if f.parameters.zoom > 1_000_000 || f.parameters.zoom < 10 {
                            700
                        } else {
                            1000
                        };
                        let mp: i64 = if f.parameters.mutation_strength > 800 {
                            800
                        } else {
                            1000
                        };
                        a * (zp * mp / 1000) / 1000
                    },
                    Option::Some(ComponentData::Analysis(ad)) => {
                        let q: i64 = match ad.metrics.get("interesting_score") {
                            Option::Some(v) => clamp_i64(v, 0, 1000),
                            Option::None => 500,
                        };
                        a * (500 + q / 2) / 1000
                    },
                    Option::None => a * 800 / 1000,
                }
            },
            ComponentStatus::Idle => 600,
            ComponentStatus::Error => 200,
            ComponentStatus::Offline => 0,
        }
    }

    /// The health score of the registry.
    pub fn calculate_health_score(&self, components: &ComponentRegistry, now: i64) -> (r: i64)
        requires
            registry_wf(components),
            valid_ts(now as int),
        ensures
            r as int == spec_health_score(components.entries@, now as int),
            0 <= r <= 1000,
    {
        let s = &components.entries;
        let n = s.len();
        if n == 0 {
            return 0;
        }
        let mut total: i64 = 0;
        let mut i: usize = 0;
        while i < n
            invariant
                i <= n,
                n == s@.len(),
                n <= MAX_COMPONENTS,
                registry_wf(components),
                s == &components.entries,
                valid_ts(now as int),
                total as int == sum_scores(s@.take(i as int), now as int),
                0 <= total <= 1000 * i,
            decreases n - i,
        {
            proof {
                assert(info_wf(&s@[i as int]));
                assert(s@.take(i as int + 1).drop_last() =~= s@.take(i as int));
                assert(s@.take(i as int + 1).last() == s@[i as int]);
            }
            let sc = Self::component_score_of(&s[i], now);
            total = total + sc;
            i = i + 1;
        }
        proof {
            assert(s@.take(n as int) =~= s@);
            lemma_sum_scores_bounds(s@, now as int);
            lemma_health_score_bounds(s@, now as int);
        }
        let nn = n as i64;
        let mean = total / nn;
        proof {
            assert(0 <= mean <= 1000) by (nonlinear_arith)
                requires
                    nn > 0,
                    0 <= total <= 1000 * nn,
                    mean == total / nn,
            ;
        }
        let bonus: i64 = if n == 1 {
            900
        } else if n == 2 {
            1000
        } else if n == 3 {
            1100
        } else {
            1200
        };
        let boosted = mean * bonus / 1000;
        if boosted > 1000 {
            1000
        } else {
            boosted
        }
    }

    /// Historical activity indicator over the snapshot history.
    pub fn calculate_historical_activity(&self) -> (r: i64)
        requires
            self.wf(),
        ensures
            r as int == spec_historical_activity(self.analysis_history@),
            0 <= r <= 3000,
    {
        let h = &self.analysis_history;
        let len = h.len();
        if len < 2 {
            return 1000;
        }
        let count: usize = if len <= 10 {
            len
        } else {
            10
        };
        let ghost rs = recent_of(h@);
        proof {
            assert(rs.len() == count);
        }
        let mut acc: i64 = 0;
        let mut i: usize = count;
        while i > 0
            invariant
                i <= count,
                count == rs.len(),
                count <= len,
                len == h@.len(),
                self.wf(),
                h == &self.analysis_history,
                rs == recent_of(h@),
                acc as int == weighted_sum_from(rs, i as int),
                0 <= acc <= 3000 * (count - i),
            decreases i,
        {
            i = i - 1;
            let snap = &h[len - 1 - i];
            proof {
                assert(rs[i as int] == h@[len - 1 - i as int]);
                assert(snapshot_wf(h@[len - 1 - i as int]));
            }
            let magv: i64 = match snap.activity_level {
                ActivityLevel::Critical => 3000,
                ActivityLevel::High => 2000,
                ActivityLevel::Moderate => 1000,
                ActivityLevel::Low => 500,
            };
            let w: i64 = 1000 - 100 * (i as i64);
            let term = magv * w / 1000;
            acc = acc + term;
        }
        let avg = acc / (count as i64);
        proof {
            let c: int = count as int;
            assert(0 <= avg as int <= 3000) by (nonlinear_arith)
                requires
                    c >= 2,
                    0 <= acc as int <= 3000 * c,
                    avg as int == acc as int / c,
            ;
        }
        let tf: i64 = if count >= 6 {
            let ra = (h[len - 1].health_score + h[len - 2].health_score + h[len - 3].health_score)
                / 3;
            let oa = (h[len - 4].health_score + h[len - 5].health_score + h[len - 6].health_score)
                / 3;
            proof {
                assert(rs[0] == h@[len as int - 1]);
                assert(rs[1] == h@[len as int - 2]);
                assert(rs[2] == h@[len as int - 3]);
                assert(rs[3] == h@[len as int - 4]);
                assert(rs[4] == h@[len as int - 5]);
                assert(rs[5] == h@[len as int - 6]);
            }
            if ra > oa + 100 {
                1200
            } else if ra < oa - 100 {
                800
            } else {
                1000
            }
        } else {
            1000
        };
        proof {
            assert(800 <= tf as int <= 1200);
            assert(-3_600_000 <= (avg * tf) as int <= 3_600_000) by (nonlinear_arith)
                requires
                    0 <= avg as int <= 3000,
                    800 <= tf as int <= 1200,
            ;
        }
        let scaled = avg * tf / 1000;
        clamp_i64(scaled, 0, 3000)
    }

    /// The activity level of the registry, from the per-cycle indicators
    /// and the historical indicator.
    pub fn determine_activity_level(&self, components: &ComponentRegistry, now: i64) -> (r:
        ActivityLevel)
        requires
            self.wf(),
            registry_wf(components),
            valid_ts(now as int),
        ensures
            r == spec_activity_level(
                components.entries@,
                now as int,
                self.analysis_history@,
            ),
    {
        let ghost s = components.entries@;
        let mut sum: i64 = 0;
        let mut cnt: i64 = 0;
        let ghost m_inds = mutator_indicators(s);
        match components.get("FractalMutator") {
            Option::Some(info) => {
                match &info.data {
                    Option::Some(ComponentData::Fractal(f)) => {
                        if f.parameters.auto_mutate {
                            sum = sum + 3000;
                            cnt = cnt + 1;
                        }
                        let ms = f.parameters.mutation_strength;
                        let band: i64 = if ms > 300 {
                            2000
                        } else if ms > 100 {
                            1000
                        } else {
                            500
                        };
                        sum = sum + band;
                        cnt = cnt + 1;
                        if f.parameters.zoom > 500_000 {
                            sum = sum + 3000;
                            cnt = cnt + 1;
                        }
                        proof {
                            lemma_mutator_indicator_sum(s, f.parameters, sum as int, cnt as int);
                        }
                    },
                    _ => {
                        proof {
                            assert(m_inds =~= Seq::<int>::empty());
                            assert(sum_int(m_inds) == 0);
                        }
                    },
                }
            },
            Option::None => {
                proof {
                    assert(m_inds =~= Seq::<int>::empty());
                    assert(sum_int(m_inds) == 0);
                }
            },
        }
        proof {
            assert(sum as int == sum_int(m_inds));
            assert(cnt as int == m_inds.len());
        }
        let ghost sum_m: int = sum as int;
        let ghost cnt_m: int = cnt as int;
        let ghost e_inds = explorer_indicators(s, now as int);
        match components.get("FractalExplorer") {
            Option::Some(info) => {
                match &info.data {
                    Option::Some(ComponentData::Analysis(ad)) => {
                        proof {
                            lemma_registry_find_wf(components, "FractalExplorer"@);
                            assert(explorer_analysis(s) is Some);
                            lemma_explorer_indicator_sum(s, now as int);
                        }
                        let age = now - ad.timestamp;
                        let rec: i64 = if age <= 60 {
                            2000
                        } else if age <= 300 {
                            1000
                        } else {
                            300
                        };
                        sum = sum + rec;
                        cnt = cnt + 1;
                        match ad.metrics.get("interesting_score") {
                            Option::Some(v) => {
                                if v > 800 {
                                    sum = sum + 2000;
                                    cnt = cnt + 1;
                                } else if v > 500 {
                                    sum = sum + 1000;
                                    cnt = cnt + 1;
                                }
                            },
                            Option::None => {},
                        }
                    },
                    _ => {
                        proof {
                            assert(e_inds =~= Seq::<int>::empty());
                            assert(sum_int(e_inds) == 0);
                        }
                    },
                }
            },
            Option::None => {
                proof {
                    assert(e_inds =~= Seq::<int>::empty());
                    assert(sum_int(e_inds) == 0);
                }
            },
        }
        proof {
            assert(sum as int == sum_m + sum_int(e_inds));
            assert(cnt as int == cnt_m + e_inds.len());
        }
        let hist = self.calculate_historical_activity();
        sum = sum + hist;
        cnt = cnt + 1;
        proof {
            let inds = spec_indicators(s, now as int, self.analysis_history@);
            lemma_sum_int_concat(m_inds, e_inds);
            lemma_sum_int_concat(m_inds + e_inds, seq![spec_historical_activity(
                self.analysis_history@,
            )]);
            lemma_sum_int_singleton(spec_historical_activity(self.analysis_history@));
            assert(inds =~= (m_inds + e_inds) + seq![spec_historical_activity(
                self.analysis_history@,
            )]);
            assert(sum as int == sum_int(inds));
            assert(cnt as int == inds.len());
            assert(cnt >= 1);
        }
        let avg = sum / cnt;
        level_of_average(avg)
    }

    /// The current mutation rate read off the mutator.
    pub fn calculate_mutation_rate(&self, components: &ComponentRegistry) -> (r: i64)
        requires
            registry_wf(components),
        ensures
            r as int == spec_mutation_rate(components.entries@),
            -MAX_RATE <= r <= MAX_RATE,
    {
        match components.get("FractalMutator") {
            Option::Some(info) => match &info.data {
                Option::Some(ComponentData::Fractal(f)) => {
                    proof {
                        lemma_registry_find_wf(components, "FractalMutator"@);
                    }
                    let ms = f.parameters.mutation_strength;
                    let speed = f.parameters.auto_mutate_speed;
                    proof {
                        assert(params_wf(f.parameters));
                        assert(-MAX_PARAM <= speed <= MAX_PARAM);
                        assert(-MAX_PARAM <= ms <= MAX_PARAM);
                    }
                    if f.parameters.auto_mutate {
                        let inner = 1000 + 10 * speed;
                        proof {
                            assert(-200_000_000_000_000_000 <= (ms as int) * (inner as int)
                                <= 200_000_000_000_000_000) by (nonlinear_arith)
                                requires
                                    -MAX_PARAM <= ms as int <= MAX_PARAM,
                                    inner as int <= 1_000_001_000,
                                    inner as int >= -999_999_000,
                            ;
                        }
                        let prod = ms * inner;
                        div_trunc(prod, 1000)
                    } else {
                        ms
                    }
                },
                _ => 0,
            },
            Option::None => 0,
        }
    }

    /// The quality of the current analysis.
    pub fn calculate_analysis_quality(&self, components: &ComponentRegistry) -> (r: i64)
        requires
            registry_wf(components),
        ensures
            r as int == spec_analysis_quality(components.entries@),
            -MAX_METRIC <= r <= MAX_METRIC,
    {
        match components.get("FractalExplorer") {
            Option::Some(info) => match &info.data {
                Option::Some(ComponentData::Analysis(ad)) => {
                    proof {
                        lemma_registry_find_wf(components, "FractalExplorer"@);
                        lemma_metric_lookup_in_range(ad.metrics.entries@, "interesting_score"@);
                        lemma_metric_lookup_in_range(ad.metrics.entries@, "complexity_measure"@);
                        lemma_metric_lookup_in_range(ad.metrics.entries@, "boundary_length"@);
                    }
                    let interest = match ad.metrics.get("interesting_score") {
                        Option::Some(v) => v,
                        Option::None => 0,
                    };
                    let complexity = match ad.metrics.get("complexity_measure") {
                        Option::Some(v) => v,
                        Option::None => 0,
                    };
                    let boundary = match ad.metrics.get("boundary_length") {
                        Option::Some(v) => v,
                        Option::None => 0,
                    };
                    div_trunc(interest * 500 + complexity * 300 + boundary * 200, 1000)
                },
                _ => 500,
            },
            Option::None => 500,
        }
    }
}

/// A found registry entry of a well-formed registry is well-formed.
proof fn lemma_registry_find_wf(r: &ComponentRegistry, name: Seq<char>)
    requires
        registry_wf(r),
    ensures
        match spec_registry_find(r.entries@, name) {
            Some(j) => info_wf(&r.entries@[j]),
            None => true,
        },
{
    crate::ecosystem::lemma_registry_find_props(r.entries@, name);
}

proof fn lemma_mutator_indicator_sum(s: Seq<ComponentInfo>, p: FractalParameters, sum: int, cnt: int)
    requires
        mutator_fractal(s) is Some,
        mutator_fractal(s)->0.parameters == p,
        sum == (if p.auto_mutate {
            3000int
        } else {
            0int
        }) + strength_band(p.mutation_strength as int) + (if p.zoom > 500_000 {
            3000int
        } else {
            0int
        }),
        cnt == (if p.auto_mutate {
            1int
        } else {
            0int
        }) + 1 + (if p.zoom > 500_000 {
            1int
        } else {
            0int
        }),
    ensures
        sum == sum_int(mutator_indicators(s)),
        cnt == mutator_indicators(s).len(),
{
    let a: Seq<int> = if p.auto_mutate {
        seq![3000int]
    } else {
        seq![]
    };
    let b: Seq<int> = seq![strength_band(p.mutation_strength as int)];
    let c: Seq<int> = if p.zoom > 500_000 {
        seq![3000int]
    } else {
        seq![]
    };
    lemma_sum_int_concat(a, b);
    lemma_sum_int_concat(a + b, c);
    lemma_sum_int_singleton(strength_band(p.mutation_strength as int));
    if p.auto_mutate {
        lemma_sum_int_singleton(3000);
    }
    if p.zoom > 500_000 {
        lemma_sum_int_singleton(3000);
    }
    assert(mutator_indicators(s) == (a + b) + c);
}

proof fn lemma_explorer_indicator_sum(s: Seq<ComponentInfo>, now: int)
    ensures
        0 <= sum_int(explorer_indicators(s, now)) <= 4000,
        explorer_indicators(s, now).len() <= 2,
        explorer_analysis(s) is Some ==> ({
            let a = explorer_analysis(s)->0;
            let rest_sum: int = match spec_metric_lookup(
                a.metrics.entries@,
                "interesting_score"@,
            ) {
                Some(v) => if v > 800 {
                    2000int
                } else if v > 500 {
                    1000int
                } else {
                    0int
                },
                None => 0int,
            };
            let rest_cnt: int = match spec_metric_lookup(
                a.metrics.entries@,
                "interesting_score"@,
            ) {
                Some(v) => if v > 800 {
                    1int
                } else if v > 500 {
                    1int
                } else {
                    0int
                },
                None => 0int,
            };
            sum_int(explorer_indicators(s, now)) == analysis_recency(now - a.timestamp)
                + rest_sum && explorer_indicators(s, now).len() == 1 + rest_cnt
        }),
        explorer_analysis(s) is None ==> sum_int(explorer_indicators(s, now)) == 0
            && explorer_indicators(s, now).len() == 0,
{
    let e = explorer_indicators(s, now);
    match explorer_analysis(s) {
        Some(a) => {
            let first: Seq<int> = seq![analysis_recency(now - a.timestamp)];
            let rest: Seq<int> = match spec_metric_lookup(
                a.metrics.entries@,
                "interesting_score"@,
            ) {
                Some(v) => if v > 800 {
                    seq![2000int]
                } else if v > 500 {
                    seq![1000int]
                } else {
                    seq![]
                },
                None => seq![],
            };
            lemma_sum_int_concat(first, rest);
            lemma_sum_int_singleton(analysis_recency(now - a.timestamp));
            if rest.len() > 0 {
                lemma_sum_int_singleton(rest[0]);
                assert(rest =~= seq![rest[0]]);
            }
            assert(e == first + rest);
        },
        None => {
            assert(e =~= Seq::<int>::empty());
        },
    }
}

impl EcosystemAnalyzer {
    /// Advisory strings for the current cycle.
    pub fn generate_recommendations(
        &self,
        components: &ComponentRegistry,
        activity_level: ActivityLevel,
    ) -> (r: Vec<String>)
        requires
            self.wf(),
            registry_wf(components),
        ensures
            strings_match(
                r@,
                spec_recommendations(components.entries@, activity_level, self.analysis_history@),
            ),
    {
        let ghost s = components.entries@;
        let ghost lm = level_messages(activity_level);
        let mut r: Vec<String> = Vec::new();
        match activity_level {
            ActivityLevel::Low => {
                r.push(String::from_str("Incrementar estímulos de mutación"));
                r.push(String::from_str("Solicitar análisis profundo"));
                r.push(String::from_str("Considerar cambio de parámetros"));
            },
            ActivityLevel::Critical => {
                r.push(String::from_str("Reducir intensidad de mutación"));
                r.push(String::from_str("Implementar regulación automática"));
                r.push(String::from_str("Monitorear estabilidad del sistema"));
            },
            _ => {},
        }
        proof {
            assert(strings_match(r@, lm));
        }
        let ghost mm = mutator_messages(s, activity_level);
        match components.get("FractalMutator") {
            Option::Some(info) => match &info.data {
                Option::Some(ComponentData::Fractal(f)) => {
                    let ghost a: Seq<Seq<char>> = if f.parameters.zoom > 1_000_000 {
                        seq!["Zoom extremo detectado - considerar reset"@]
                    } else {
                        seq![]
                    };
                    let ghost b: Seq<Seq<char>> = if f.parameters.mutation_strength > 500 {
                        seq!["Fuerza de mutación muy alta - reducir gradualmente"@]
                    } else {
                        seq![]
                    };
                    let ghost c: Seq<Seq<char>> = if !f.parameters.auto_mutate && activity_level
                        == ActivityLevel::Low {
                        seq!["Activar auto-mutación para aumentar actividad"@]
                    } else {
                        seq![]
                    };
                    if f.parameters.zoom > 1_000_000 {
                        r.push(String::from_str("Zoom extremo detectado - considerar reset"));
                    }
                    if f.parameters.mutation_strength > 500 {
                        r.push(
                            String::from_str("Fuerza de mutación muy alta - reducir gradualmente"),
                        );
                    }
                    if !f.parameters.auto_mutate {
                        if matches!(activity_level, ActivityLevel::Low) {
                            r.push(
                                String::from_str("Activar auto-mutación para aumentar actividad"),
                            );
                        }
                    }
                    proof {
                        assert(mm == (a + b) + c);
                        assert(strings_match(r@, lm + mm));
                    }
                },
                _ => {
                    proof {
                        assert(mm =~= Seq::<Seq<char>>::empty());
                        assert(lm + mm =~= lm);
                    }
                },
            },
            Option::None => {
                proof {
                    assert(mm =~= Seq::<Seq<char>>::empty());
                    assert(lm + mm =~= lm);
                }
            },
        }
        proof {
            assert(strings_match(r@, lm + mm));
        }
        let ghost em = explorer_missing_messages(s);
        match components.get("FractalExplorer") {
            Option::Some(_) => {
                proof {
                    assert(em =~= Seq::<Seq<char>>::empty());
                    assert((lm + mm) + em =~= lm + mm);
                }
            },
            Option::None => {
                r.push(String::from_str("FractalExplorer offline - reiniciar componente"));
            },
        }
        proof {
            assert(strings_match(r@, (lm + mm) + em));
        }
        let ghost hm = history_messages(self.analysis_history@);
        let h = &self.analysis_history;
        let len = h.len();
        if len >= 5 {
            proof {
                reveal_with_fuel(sum_rev_health, 7);
                assert(forall|i: int|
                    0 <= i < h@.len() ==> snapshot_wf(#[trigger] h@[i]));
            }
            let hsum = h[len - 1].health_score + h[len - 2].health_score + h[len
                - 3].health_score + h[len - 4].health_score + h[len - 5].health_score;
            proof {
                assert(hsum as int == sum_rev_health(h@, 0, 5));
            }
            if hsum / 5 < 600 {
                r.push(
                    String::from_str("Salud del ecosistema baja - diagnóstico completo requerido"),
                );
            }
        }
        proof {
            let target = spec_recommendations(s, activity_level, self.analysis_history@);
            assert(target == ((lm + mm) + em) + hm);
            assert(strings_match(r@, target));
        }
        r
    }

    /// Records one snapshot, evicting the oldest entry at the bound.
    pub fn add_to_history(&mut self, snapshot: EcosystemSnapshot)
        requires
            old(self).wf(),
            snapshot_wf(snapshot),
        ensures
            final(self).wf(),
            final(self).analysis_history@ == push_capped(
                old(self).analysis_history@,
                snapshot,
            ),
            final(self).max_history_size == old(self).max_history_size,
    {
        let ghost h0 = self.analysis_history@;
        self.analysis_history.push(snapshot);
        if self.analysis_history.len() > self.max_history_size {
            self.analysis_history.remove(0);
            proof {
                assert(self.analysis_history@ =~= h0.subrange(1, h0.len() as int).push(snapshot));
            }
        }
        proof {
            assert(self.analysis_history@ =~= push_capped(h0, snapshot));
        }
    }

    /// One analysis cycle: scores the registry, classifies activity,
    /// assembles advisories, and records exactly one history snapshot.
    pub fn analyze_ecosystem(&mut self, components: &ComponentRegistry, now: i64) -> (r:
        EcosystemState)
        requires
            old(self).wf(),
            registry_wf(components),
            valid_ts(now as int),
        ensures
            final(self).wf(),
            r.timestamp == now,
            r.health_score as int == spec_health_score(components.entries@, now as int),
            0 <= r.health_score <= 1000,
            r.activity_level == spec_activity_level(
                components.entries@,
                now as int,
                old(self).analysis_history@,
            ),
            registry_equal(&r.components, components),
            strings_match(
                r.recommendations@,
                spec_recommendations(
                    components.entries@,
                    r.activity_level,
                    old(self).analysis_history@,
                ),
            ),
            final(self).analysis_history@ == push_capped(
                old(self).analysis_history@,
                spec_snapshot(components.entries@, now as int, old(self).analysis_history@),
            ),
    {
        let health_score = self.calculate_health_score(components, now);
        let activity_level = self.determine_activity_level(components, now);
        let recommendations = self.generate_recommendations(components, activity_level);
        let mutation_rate = self.calculate_mutation_rate(components);
        let analysis_quality = self.calculate_analysis_quality(components);
        let snapshot = EcosystemSnapshot {
            timestamp: now,
            health_score,
            activity_level,
            component_count: components.len(),
            mutation_rate,
            analysis_quality,
        };
        proof {
            assert(snapshot == spec_snapshot(
                components.entries@,
                now as int,
                self.analysis_history@,
            ));
        }
        self.add_to_history(snapshot);
        EcosystemState {
            timestamp: now,
            components: components.duplicate(),
            health_score,
            activity_level,
            recommendations,
        }
    }
}

/// Aggregate statistics over the snapshot history.
pub struct ActivityDistribution {
    pub low: usize,
    pub moderate: usize,
    pub high: usize,
    pub critical: usize,
}

/// A read-only view over the history: averages, the level distribution,
/// and a coarse trend classification.
pub struct HistoricalMetrics {
    pub total_snapshots: usize,
    pub average_health: i64,
    pub average_mutation_rate: i64,
    pub average_analysis_quality: i64,
    pub activity_distribution: ActivityDistribution,
    pub health_trend: String,
    pub time_span_minutes: i64,
}

impl Default for HistoricalMetrics {
    fn default() -> (r: Self)
        ensures
            r.total_snapshots == 0,
            r.average_health == 0,
            r.average_mutation_rate == 0,
            r.average_analysis_quality == 0,
            r.activity_distribution.low == 0,
            r.activity_distribution.moderate == 0,
            r.activity_distribution.high == 0,
            r.activity_distribution.critical == 0,
            r.health_trend@ == "No data"@,
            r.time_span_minutes == 0,
    {
        HistoricalMetrics {
            total_snapshots: 0,
            average_health: 0,
            average_mutation_rate: 0,
            average_analysis_quality: 0,
            activity_distribution: ActivityDistribution {
                low: 0,
                moderate: 0,
                high: 0,
                critical: 0,
            },
            health_trend: String::from_str("No data"),
            time_span_minutes: 0,
        }
    }
}

pub open spec fn sum_health(h: Seq<EcosystemSnapshot>) -> int
    decreases h.len(),
{
    if h.len() == 0 {
        0
    } else {
        sum_health(h.drop_last()) + h.last().health_score
    }
}

pub open spec fn sum_rate(h: Seq<EcosystemSnapshot>) -> int
    decreases h.len(),
{
    if h.len() == 0 {
        0
    } else {
        sum_rate(h.drop_last()) + h.last().mutation_rate
    }
}

pub open spec fn sum_quality(h: Seq<EcosystemSnapshot>) -> int
    decreases h.len(),
{
    if h.len() == 0 {
        0
    } else {
        sum_quality(h.drop_last()) + h.last().analysis_quality
    }
}

pub open spec fn count_level(h: Seq<EcosystemSnapshot>, l: ActivityLevel) -> int
    decreases h.len(),
{
    if h.len() == 0 {
        0
    } else {
        count_level(h.drop_last(), l) + if h.last().activity_level == l {
            1int
        } else {
            0int
        }
    }
}

/// Trend classification: the mean health of the last five snapshots against
/// the mean of the up-to-five before them, both divided by five as the
/// history view has always done.
pub open spec fn spec_health_trend(h: Seq<EcosystemSnapshot>) -> Seq<char> {
    if h.len() >= 5 {
        let recent = sum_rev_health(h, 0, 5) / 5;
        let older_cnt: int = if h.len() - 5 < 5 {
            h.len() - 5
        } else {
            5
        };
        let older = sum_rev_health(h, 5, older_cnt) / 5;
        if recent > older + 100 {
            "Improving"@
        } else if recent < older - 100 {
            "Declining"@
        } else {
            "Stable"@
        }
    } else {
        "Insufficient data"@
    }
}

impl EcosystemAnalyzer {
    /// Aggregate statistics over the history; side-effect free.
    pub fn get_historical_metrics(&self) -> (r: HistoricalMetrics)
        requires
            self.wf(),
        ensures
            r.total_snapshots == self.analysis_history@.len(),
            self.analysis_history@.len() == 0 ==> r.average_health == 0
                && r.average_mutation_rate == 0 && r.average_analysis_quality == 0
                && r.health_trend@ == "No data"@ && r.time_span_minutes == 0
                && r.activity_distribution.low == 0 && r.activity_distribution.moderate == 0
                && r.activity_distribution.high == 0 && r.activity_distribution.critical == 0,
            self.analysis_history@.len() > 0 ==> {
                let h = self.analysis_history@;
                &&& r.average_health as int == sum_health(h) / h.len() as int
                &&& r.average_mutation_rate as int == tdiv(sum_rate(h), h.len() as int)
                &&& r.average_analysis_quality as int == tdiv(sum_quality(h), h.len() as int)
                &&& r.activity_distribution.low as int == count_level(h, ActivityLevel::Low)
                &&& r.activity_distribution.moderate as int == count_level(
                    h,
                    ActivityLevel::Moderate,
                )
                &&& r.activity_distribution.high as int == count_level(h, ActivityLevel::High)
                &&& r.activity_distribution.critical as int == count_level(
                    h,
                    ActivityLevel::Critical,
                )
                &&& r.health_trend@ == spec_health_trend(h)
                &&& r.time_span_minutes as int == if h.len() >= 2 {
                    tdiv(h.last().timestamp - h[0].timestamp, 60)
                } else {
                    0
                }
            },
    {
        let h = &self.analysis_history;
        let len = h.len();
        if len == 0 {
            return HistoricalMetrics::default();
        }
        let mut health_total: i64 = 0;
        let mut rate_total: i64 = 0;
        let mut quality_total: i64 = 0;
        let mut low: usize = 0;
        let mut moderate: usize = 0;
        let mut high: usize = 0;
        let mut critical: usize = 0;
        let mut i: usize = 0;
        while i < len
            invariant
                i <= len,
                len == h@.len(),
                h == &self.analysis_history,
                self.wf(),
                health_total as int == sum_health(h@.take(i as int)),
                rate_total as int == sum_rate(h@.take(i as int)),
                quality_total as int == sum_quality(h@.take(i as int)),
                low as int == count_level(h@.take(i as int), ActivityLevel::Low),
                moderate as int == count_level(h@.take(i as int), ActivityLevel::Moderate),
                high as int == count_level(h@.take(i as int), ActivityLevel::High),
                critical as int == count_level(h@.take(i as int), ActivityLevel::Critical),
                0 <= health_total <= 1000 * i,
                -200_000_000_000_000 * (i as int) <= rate_total as int
                    <= 200_000_000_000_000 * (i as int),
                -2_000_000_000_000_000 * (i as int) <= quality_total as int
                    <= 2_000_000_000_000_000 * (i as int),
                low + moderate + high + critical <= i,
            decreases len - i,
        {
            proof {
                assert(snapshot_wf(h@[i as int]));
                assert(h@.take(i as int + 1).drop_last() =~= h@.take(i as int));
                assert(h@.take(i as int + 1).last() == h@[i as int]);
            }
            let snap = &h[i];
            health_total = health_total + snap.health_score;
            rate_total = rate_total + snap.mutation_rate;
            quality_total = quality_total + snap.analysis_quality;
            match snap.activity_level {
                ActivityLevel::Low => {
                    low = low + 1;
                },
                ActivityLevel::Moderate => {
                    moderate = moderate + 1;
                },
                ActivityLevel::High => {
                    high = high + 1;
                },
                ActivityLevel::Critical => {
                    critical = critical + 1;
                },
            }
            i = i + 1;
        }
        proof {
            assert(h@.take(len as int) =~= h@);
        }
        let nn = len as i64;
        let average_health = health_total / nn;
        let average_mutation_rate = div_trunc(rate_total, nn);
        let average_analysis_quality = div_trunc(quality_total, nn);
        let health_trend: String = if len >= 5 {
            proof {
                reveal_with_fuel(sum_rev_health, 7);
            }
            let recent_sum = h[len - 1].health_score + h[len - 2].health_score + h[len
                - 3].health_score + h[len - 4].health_score + h[len - 5].health_score;
            proof {
                assert(forall|j: int| 0 <= j < h@.len() ==> snapshot_wf(#[trigger] h@[j]));
                assert(recent_sum as int == sum_rev_health(h@, 0, 5));
            }
            let older_cnt: usize = if len - 5 < 5 {
                len - 5
            } else {
                5
            };
            let mut older_sum: i64 = 0;
            let mut k: usize = older_cnt;
            while k > 0
                invariant
                    k <= older_cnt,
                    older_cnt <= 5,
                    5 + older_cnt <= len,
                    len == h@.len(),
                    h == &self.analysis_history,
                    self.wf(),
                    older_sum as int == sum_rev_health(h@, 5 + k as int, older_cnt as int - k as int),
                    0 <= older_sum <= 1000 * (older_cnt - k),
                decreases k,
            {
                k = k - 1;
                proof {
                    assert(snapshot_wf(h@[len as int - 6 - k as int]));
                }
                older_sum = older_sum + h[len - 6 - k].health_score;
            }
            let recent_avg = recent_sum / 5;
            let older_avg = older_sum / 5;
            if recent_avg > older_avg + 100 {
                String::from_str("Improving")
            } else if recent_avg < older_avg - 100 {
                String::from_str("Declining")
            } else {
                String::from_str("Stable")
            }
        } else {
            String::from_str("Insufficient data")
        };
        let time_span_minutes: i64 = if len >= 2 {
            proof {
                assert(snapshot_wf(h@[0]));
                assert(snapshot_wf(h@[len as int - 1]));
                assert(h@.last() == h@[len as int - 1]);
            }
            div_trunc(h[len - 1].timestamp - h[0].timestamp, 60)
        } else {
            0
        };
        HistoricalMetrics {
            total_snapshots: len,
            average_health,
            average_mutation_rate,
            average_analysis_quality,
            activity_distribution: ActivityDistribution { low, moderate, high, critical },
            health_trend,
            time_span_minutes,
        }
    }
}

} // verus!
