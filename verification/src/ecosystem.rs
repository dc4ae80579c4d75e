//! Data model of the ecosystem: components and their reported state, the
//! per-cycle analysis output, commands, and the report shape. Real-valued
//! quantities are milli fixed-point `i64` values (1000 stands for 1.0);
//! timestamps are seconds since the Unix epoch.

use vstd::prelude::*;
use crate::text::{str_eq_chars, spec_int_chars, spec_milli_chars, push_int_digits, push_milli};
use crate::text::{spec_parse_int, spec_parse_milli, spec_parse_bool, parse_int_str,
    parse_milli_str, parse_bool_str, find_first, count_char, scan_char};
use vstd::string::{StrSliceExecFns, StringExecFns};

verus! {

/// Kind of an external component.
#[derive(Clone, Copy, Debug, PartialEq, Eq, Structural)]
pub enum ComponentType {
    Mutator,
    Analyzer,
    Visualizer,
    Storage,
}

/// Last reported liveness of a component.
#[derive(Clone, Copy, Debug, PartialEq, Eq, Structural)]
pub enum ComponentStatus {
    Running,
    Idle,
    Error,
    Offline,
}

/// Coarse classification of how much change is occurring.
#[derive(Clone, Copy, Debug, PartialEq, Eq, Structural)]
pub enum ActivityLevel {
    Low,
    Moderate,
    High,
    Critical,
}

/// Freshness classification of a component's state file.
#[derive(Clone, Copy, Debug, PartialEq, Eq, Structural)]
pub enum HealthStatus {
    Healthy,
    Stale,
    Unhealthy,
    Missing,
}

/// Parameters of the fractal renderer, as reported by the mutator.
/// Real-valued fields are milli fixed-point.
#[derive(Clone, Copy, Debug, PartialEq, Eq, Structural)]
pub struct FractalParameters {
    pub zoom: i64,
    pub center_x: i64,
    pub center_y: i64,
    pub max_iterations: i32,
    pub julia_c_real: i64,
    pub julia_c_imag: i64,
    pub escape_radius: i64,
    pub power: i64,
    pub color_scheme: i32,
    pub color_speed: i64,
    pub color_offset: i64,
    pub brightness: i64,
    pub contrast: i64,
    pub smooth_coloring: bool,
    pub mutation_strength: i64,
    pub auto_mutate: bool,
    pub auto_mutate_speed: i64,
}

impl Default for FractalParameters {
    fn default() -> (r: Self)
        ensures
            r == FractalParameters::default_spec(),
    {
        FractalParameters {
            zoom: 1000,
            center_x: 0,
            center_y: 0,
            max_iterations: 100,
            julia_c_real: -700i64,
            julia_c_imag: 270,
            escape_radius: 2000,
            power: 2000,
            color_scheme: 0,
            color_speed: 1000,
            color_offset: 0,
            brightness: 1000,
            contrast: 1000,
            smooth_coloring: true,
            mutation_strength: 100,
            auto_mutate: false,
            auto_mutate_speed: 10,
        }
    }
}

impl FractalParameters {
    pub open spec fn default_spec() -> FractalParameters {
        FractalParameters {
            zoom: 1000,
            center_x: 0,
            center_y: 0,
            max_iterations: 100,
            julia_c_real: -700i64,
            julia_c_imag: 270,
            escape_radius: 2000,
            power: 2000,
            color_scheme: 0,
            color_speed: 1000,
            color_offset: 0,
            brightness: 1000,
            contrast: 1000,
            smooth_coloring: true,
            mutation_strength: 100,
            auto_mutate: false,
            auto_mutate_speed: 10,
        }
    }
}

/// Current state of the fractal renderer.
#[derive(Clone, Copy, Debug, PartialEq, Eq, Structural)]
pub struct FractalState {
    pub timestamp: i64,
    pub fractal_type: i32,
    pub parameters: FractalParameters,
}

/// Spatial region an analysis refers to; coordinates in milli units.
#[derive(Clone, Copy, Debug, PartialEq, Eq, Structural)]
pub struct AnalysisRegion {
    pub center_real: i64,
    pub center_imag: i64,
    pub width: i64,
    pub height: i64,
    pub zoom: i64,
}

impl Default for AnalysisRegion {
    fn default() -> (r: Self)
        ensures
            r == AnalysisRegion::default_spec(),
    {
        AnalysisRegion { center_real: 0, center_imag: 0, width: 2000, height: 2000, zoom: 1000 }
    }
}

impl AnalysisRegion {
    pub open spec fn default_spec() -> AnalysisRegion {
        AnalysisRegion { center_real: 0, center_imag: 0, width: 2000, height: 2000, zoom: 1000 }
    }
}

/// Parameters handed to the explorer with an analysis request.
#[derive(Clone, Copy, Debug, PartialEq, Eq, Structural)]
pub struct AnalysisParameters {
    pub resolution: i32,
    pub max_iterations: i32,
    pub deep_scan: bool,
}

impl Default for AnalysisParameters {
    fn default() -> (r: Self)
        ensures
            r == AnalysisParameters::default_spec(),
    {
        AnalysisParameters { resolution: 128, max_iterations: 200, deep_scan: false }
    }
}

impl AnalysisParameters {
    pub open spec fn default_spec() -> AnalysisParameters {
        AnalysisParameters { resolution: 128, max_iterations: 200, deep_scan: false }
    }
}

/// One named metric value (milli fixed-point).
pub struct MetricEntry {
    pub key: String,
    pub value: i64,
}

/// A small string-keyed map of metric values. Lookup finds the first entry
/// with the key; updates replace that entry, so keys stay unique when the
/// map is only changed through `set`.
pub struct Metrics {
    pub entries: Vec<MetricEntry>,
}

/// First-match lookup among metric entries.
pub open spec fn spec_metric_lookup(s: Seq<MetricEntry>, k: Seq<char>) -> Option<i64>
    decreases s.len(),
{
    if s.len() == 0 {
        None
    } else if s[0].key@ == k {
        Some(s[0].value)
    } else {
        spec_metric_lookup(s.drop_first(), k)
    }
}

proof fn lemma_metric_lookup_skip(s: Seq<MetricEntry>, i: int, k: Seq<char>)
    requires
        0 <= i < s.len(),
        s[i].key@ != k,
    ensures
        spec_metric_lookup(s.skip(i), k) == spec_metric_lookup(s.skip(i + 1), k),
{
    let t = s.skip(i);
    assert(t.len() > 0);
    assert(t[0] == s[i]);
    assert(t.drop_first() =~= s.skip(i + 1));
}

proof fn lemma_metric_update(s: Seq<MetricEntry>, j: int, e: MetricEntry)
    requires
        0 <= j < s.len(),
        forall|i: int| 0 <= i < j ==> (#[trigger] s[i]).key@ != e.key@,
        s[j].key@ == e.key@,
    ensures
        spec_metric_lookup(s.update(j, e), e.key@) == Some(e.value),
        forall|k2: Seq<char>|
            k2 != e.key@ ==> spec_metric_lookup(s.update(j, e), k2) == spec_metric_lookup(s, k2),
    decreases j,
{
    let u = s.update(j, e);
    assert(u.len() == s.len());
    if j == 0 {
        assert(u[0] == e);
        assert(spec_metric_lookup(u, e.key@) == Some(e.value));
        assert forall|k2: Seq<char>| k2 != e.key@ implies spec_metric_lookup(u, k2)
            == spec_metric_lookup(s, k2) by {
            assert(u[0].key@ == e.key@);
            assert(s[0].key@ == e.key@);
            assert(u.drop_first() =~= s.drop_first());
        }
    } else {
        assert(u[0] == s[0]);
        assert(s[0].key@ != e.key@);
        assert(u.drop_first() =~= s.drop_first().update(j - 1, e));
        assert(forall|i: int|
            0 <= i < j - 1 ==> (#[trigger] s.drop_first()[i]).key@ != e.key@) by {
            assert(forall|i: int| 0 <= i < s.len() - 1 ==> s.drop_first()[i] == s[i + 1]);
        }
        assert(s.drop_first()[j - 1].key@ == e.key@);
        lemma_metric_update(s.drop_first(), j - 1, e);
        assert(spec_metric_lookup(u, e.key@) == spec_metric_lookup(u.drop_first(), e.key@));
        assert forall|k2: Seq<char>| k2 != e.key@ implies spec_metric_lookup(u, k2)
            == spec_metric_lookup(s, k2) by {
            if s[0].key@ == k2 {
            } else {
                assert(spec_metric_lookup(u, k2) == spec_metric_lookup(u.drop_first(), k2));
                assert(spec_metric_lookup(s, k2) == spec_metric_lookup(s.drop_first(), k2));
            }
        }
    }
}

impl Metrics {
    pub fn new() -> (r: Metrics)
        ensures
            r.entries@.len() == 0,
    {
        Metrics { entries: Vec::new() }
    }

    pub open spec fn lookup(&self, k: Seq<char>) -> Option<i64> {
        spec_metric_lookup(self.entries@, k)
    }

    /// The value stored under `k`, if any.
    pub fn get(&self, k: &str) -> (r: Option<i64>)
        ensures
            r == self.lookup(k@),
    {
        let n = self.entries.len();
        proof {
            assert(self.entries@.skip(0) =~= self.entries@);
        }
        let mut i: usize = 0;
        while i < n
            invariant
                i <= n,
                n == self.entries@.len(),
                spec_metric_lookup(self.entries@.skip(i as int), k@) == spec_metric_lookup(
                    self.entries@,
                    k@,
                ),
            decreases n - i,
        {
            let e = &self.entries[i];
            proof {
                assert(self.entries@.skip(i as int)[0] == self.entries@[i as int]);
            }
            if str_eq_chars(e.key.as_str(), k) {
                return Some(e.value);
            }
            proof {
                lemma_metric_lookup_skip(self.entries@, i as int, k@);
            }
            i = i + 1;
        }
        proof {
            assert(self.entries@.skip(n as int) =~= Seq::<MetricEntry>::empty());
        }
        None
    }

    /// Stores `v` under `k`, replacing an existing entry with that key.
    pub fn set(&mut self, k: String, v: i64)
        ensures
            final(self).lookup(k@) == Some(v),
            forall|k2: Seq<char>|
                k2 != k@ ==> final(self).lookup(k2) == old(self).lookup(k2),
            old(self).lookup(k@) is Some ==> final(self).entries@.len() == old(self).entries@.len(),
            old(self).lookup(k@) is None ==> final(self).entries@.len() == old(self).entries@.len() + 1,
            forall|i: int|
                0 <= i < final(self).entries@.len() ==> (#[trigger] final(self).entries@[i]).value
                    == v || (i < old(self).entries@.len() && final(self).entries@[i] == old(self).entries@[i]),
    {
        let n = self.entries.len();
        let mut i: usize = 0;
        while i < n
            invariant
                i <= n,
                n == self.entries@.len(),
                self.entries@ == old(self).entries@,
                forall|j: int| 0 <= j < i ==> (#[trigger] self.entries@[j]).key@ != k@,
            decreases n - i,
        {
            let hit = str_eq_chars(self.entries[i].key.as_str(), k.as_str());
            if hit {
                let e = MetricEntry { key: k, value: v };
                proof {
                    lemma_metric_update(self.entries@, i as int, e);
                    lemma_metric_lookup_hit(self.entries@, i as int, e.key@);
                }
                self.entries[i] = e;
                return;
            }
            i = i + 1;
        }
        let e = MetricEntry { key: k, value: v };
        proof {
            lemma_metric_append(self.entries@, e);
            lemma_metric_lookup_none(self.entries@, e.key@);
        }
        self.entries.push(e);
    }
}

/// A first match at `i` settles the lookup.
proof fn lemma_metric_lookup_hit(s: Seq<MetricEntry>, i: int, k: Seq<char>)
    requires
        0 <= i < s.len(),
        s[i].key@ == k,
        forall|j: int| 0 <= j < i ==> (#[trigger] s[j]).key@ != k,
    ensures
        spec_metric_lookup(s, k) == Some(s[i].value),
    decreases i,
{
    if i > 0 {
        assert(forall|j: int| 0 <= j < s.len() - 1 ==> s.drop_first()[j] == s[j + 1]);
        lemma_metric_lookup_hit(s.drop_first(), i - 1, k);
    }
}

/// No match anywhere settles the lookup as absent.
proof fn lemma_metric_lookup_none(s: Seq<MetricEntry>, k: Seq<char>)
    requires
        forall|j: int| 0 <= j < s.len() ==> (#[trigger] s[j]).key@ != k,
    ensures
        spec_metric_lookup(s, k) is None,
    decreases s.len(),
{
    if s.len() > 0 {
        assert(forall|j: int| 0 <= j < s.len() - 1 ==> s.drop_first()[j] == s[j + 1]);
        lemma_metric_lookup_none(s.drop_first(), k);
    }
}

/// Entry-wise equal maps agree on every lookup.
pub proof fn lemma_metrics_equal_lookup(a: &Metrics, b: &Metrics, k: Seq<char>)
    requires
        metrics_equal(a, b),
    ensures
        a.lookup(k) == b.lookup(k),
{
    lemma_lookup_pointwise(a.entries@, b.entries@, k);
}

proof fn lemma_lookup_pointwise(a: Seq<MetricEntry>, b: Seq<MetricEntry>, k: Seq<char>)
    requires
        a.len() == b.len(),
        forall|i: int|
            0 <= i < a.len() ==> (#[trigger] a[i]).key@ == b[i].key@ && a[i].value == b[i].value,
    ensures
        spec_metric_lookup(a, k) == spec_metric_lookup(b, k),
    decreases a.len(),
{
    if a.len() > 0 && a[0].key@ != k {
        assert(forall|i: int| 0 <= i < a.len() - 1 ==> a.drop_first()[i] == a[i + 1]);
        assert(forall|i: int| 0 <= i < b.len() - 1 ==> b.drop_first()[i] == b[i + 1]);
        lemma_lookup_pointwise(a.drop_first(), b.drop_first(), k);
    }
}

proof fn lemma_metric_append(s: Seq<MetricEntry>, e: MetricEntry)
    requires
        forall|i: int| 0 <= i < s.len() ==> (#[trigger] s[i]).key@ != e.key@,
    ensures
        spec_metric_lookup(s.push(e), e.key@) == Some(e.value),
        forall|k2: Seq<char>|
            k2 != e.key@ ==> spec_metric_lookup(s.push(e), k2) == spec_metric_lookup(s, k2),
    decreases s.len(),
{
    let u = s.push(e);
    if s.len() == 0 {
        assert(u.len() == 1);
        assert(u[0] == e);
        assert(u.drop_first() =~= Seq::<MetricEntry>::empty());
        assert(spec_metric_lookup(u, e.key@) == Some(e.value));
        assert forall|k2: Seq<char>| k2 != e.key@ implies spec_metric_lookup(u, k2)
            == spec_metric_lookup(s, k2) by {
            assert(spec_metric_lookup(u, k2) == spec_metric_lookup(u.drop_first(), k2));
        }
    } else {
        assert(u[0] == s[0]);
        assert(s[0].key@ != e.key@);
        assert(u.drop_first() =~= s.drop_first().push(e));
        assert(forall|i: int|
            0 <= i < s.len() - 1 ==> (#[trigger] s.drop_first()[i]).key@ != e.key@) by {
            assert(forall|i: int| 0 <= i < s.len() - 1 ==> s.drop_first()[i] == s[i + 1]);
        }
        lemma_metric_append(s.drop_first(), e);
        assert(spec_metric_lookup(u, e.key@) == spec_metric_lookup(u.drop_first(), e.key@));
        assert(spec_metric_lookup(u.drop_first(), e.key@) == Some(e.value));
        assert forall|k2: Seq<char>| k2 != e.key@ implies spec_metric_lookup(u, k2)
            == spec_metric_lookup(s, k2) by {
            if s[0].key@ != k2 {
                assert(spec_metric_lookup(u, k2) == spec_metric_lookup(u.drop_first(), k2));
                assert(spec_metric_lookup(s, k2) == spec_metric_lookup(s.drop_first(), k2));
            }
        }
    }
}

/// Detailed analysis reported by the explorer.
pub struct AnalysisData {
    pub timestamp: i64,
    pub region: AnalysisRegion,
    pub fractal_type: i32,
    pub max_iterations: i32,
    pub metrics: Metrics,
    pub recommendation: String,
    pub component: String,
}

/// State payload a component reports, by kind.
pub enum ComponentData {
    Fractal(FractalState),
    Analysis(AnalysisData),
}

/// Last-known information about one external component.
pub struct ComponentInfo {
    pub name: String,
    pub component_type: ComponentType,
    pub status: ComponentStatus,
    pub last_seen: i64,
    pub data: Option<ComponentData>,
    pub metrics: Metrics,
}

pub open spec fn metrics_equal(a: &Metrics, b: &Metrics) -> bool {
    &&& a.entries@.len() == b.entries@.len()
    &&& forall|i: int|
        0 <= i < a.entries@.len() ==> (#[trigger] a.entries@[i]).key@ == b.entries@[i].key@
            && a.entries@[i].value == b.entries@[i].value
}

pub open spec fn analysis_equal(a: &AnalysisData, b: &AnalysisData) -> bool {
    &&& a.timestamp == b.timestamp
    &&& a.region == b.region
    &&& a.fractal_type == b.fractal_type
    &&& a.max_iterations == b.max_iterations
    &&& metrics_equal(&a.metrics, &b.metrics)
    &&& a.recommendation@ == b.recommendation@
    &&& a.component@ == b.component@
}

pub open spec fn data_equal(a: &Option<ComponentData>, b: &Option<ComponentData>) -> bool {
    match (a, b) {
        (Option::None, Option::None) => true,
        (Option::Some(ComponentData::Fractal(x)), Option::Some(ComponentData::Fractal(y))) => x
            == y,
        (Option::Some(ComponentData::Analysis(x)), Option::Some(ComponentData::Analysis(y))) =>
            analysis_equal(x, y),
        _ => false,
    }
}

pub open spec fn info_equal(a: &ComponentInfo, b: &ComponentInfo) -> bool {
    &&& a.name@ == b.name@
    &&& a.component_type == b.component_type
    &&& a.status == b.status
    &&& a.last_seen == b.last_seen
    &&& data_equal(&a.data, &b.data)
    &&& metrics_equal(&a.metrics, &b.metrics)
}

impl Metrics {
    /// A value copy of the map.
    pub fn duplicate(&self) -> (r: Metrics)
        ensures
            metrics_equal(&r, self),
    {
        let n = self.entries.len();
        let mut out: Vec<MetricEntry> = Vec::new();
        let mut i: usize = 0;
        while i < n
            invariant
                i <= n,
                n == self.entries@.len(),
                out@.len() == i,
                forall|j: int|
                    0 <= j < i ==> (#[trigger] out@[j]).key@ == self.entries@[j].key@
                        && out@[j].value == self.entries@[j].value,
            decreases n - i,
        {
            let e = &self.entries[i];
            out.push(MetricEntry { key: e.key.clone(), value: e.value });
            i = i + 1;
        }
        Metrics { entries: out }
    }
}

impl AnalysisData {
    /// A value copy of the analysis record.
    pub fn duplicate(&self) -> (r: AnalysisData)
        ensures
            analysis_equal(&r, self),
    {
        AnalysisData {
            timestamp: self.timestamp,
            region: self.region,
            fractal_type: self.fractal_type,
            max_iterations: self.max_iterations,
            metrics: self.metrics.duplicate(),
            recommendation: self.recommendation.clone(),
            component: self.component.clone(),
        }
    }
}

impl ComponentInfo {
    /// A value copy of the component record.
    pub fn duplicate(&self) -> (r: ComponentInfo)
        ensures
            info_equal(&r, self),
    {
        let data = match &self.data {
            Option::None => Option::None,
            Option::Some(ComponentData::Fractal(f)) => Option::Some(ComponentData::Fractal(*f)),
            Option::Some(ComponentData::Analysis(a)) => Option::Some(
                ComponentData::Analysis(a.duplicate()),
            ),
        };
        ComponentInfo {
            name: self.name.clone(),
            component_type: self.component_type,
            status: self.status,
            last_seen: self.last_seen,
            data,
            metrics: self.metrics.duplicate(),
        }
    }
}

/// In-memory registry of last-known component information, keyed by name.
/// Lookup finds the first entry with the name; `insert` replaces it, so
/// names stay unique when the registry is only changed through `insert`.
pub struct ComponentRegistry {
    pub entries: Vec<ComponentInfo>,
}

/// First-match lookup among registry entries.
pub open spec fn spec_registry_find(s: Seq<ComponentInfo>, name: Seq<char>) -> Option<int>
    decreases s.len(),
{
    if s.len() == 0 {
        None
    } else if s[0].name@ == name {
        Some(0)
    } else {
        match spec_registry_find(s.drop_first(), name) {
            Some(j) => Some(j + 1),
            None => None,
        }
    }
}

/// No two entries share a name; `insert` keeps it that way.
pub open spec fn registry_unique(s: Seq<ComponentInfo>) -> bool {
    forall|i: int, j: int|
        0 <= i < j < s.len() ==> (#[trigger] s[i]).name@ != (#[trigger] s[j]).name@
}

pub open spec fn registry_equal(a: &ComponentRegistry, b: &ComponentRegistry) -> bool {
    &&& a.entries@.len() == b.entries@.len()
    &&& forall|i: int|
        0 <= i < a.entries@.len() ==> info_equal(&(#[trigger] a.entries@[i]), &b.entries@[i])
}

pub proof fn lemma_registry_find_props(s: Seq<ComponentInfo>, name: Seq<char>)
    ensures
        match spec_registry_find(s, name) {
            Some(j) => 0 <= j < s.len() && s[j].name@ == name && forall|i: int|
                0 <= i < j ==> (#[trigger] s[i]).name@ != name,
            None => forall|i: int| 0 <= i < s.len() ==> (#[trigger] s[i]).name@ != name,
        },
    decreases s.len(),
{
    if s.len() > 0 && s[0].name@ != name {
        lemma_registry_find_props(s.drop_first(), name);
        let d = s.drop_first();
        match spec_registry_find(d, name) {
            Some(j) => {
                assert(s[j + 1] == d[j]);
                assert forall|i: int| 0 <= i < j + 1 implies (#[trigger] s[i]).name@ != name by {
                    if i >= 1 {
                        assert(d[i - 1] == s[i]);
                    }
                }
            },
            None => {
                assert forall|i: int| 0 <= i < s.len() implies (#[trigger] s[i]).name@
                    != name by {
                    if i >= 1 {
                        assert(d[i - 1] == s[i]);
                    }
                }
            },
        }
    }
}

pub proof fn lemma_registry_find_hit(s: Seq<ComponentInfo>, j: int, name: Seq<char>)
    requires
        0 <= j < s.len(),
        s[j].name@ == name,
        forall|i: int| 0 <= i < j ==> (#[trigger] s[i]).name@ != name,
    ensures
        spec_registry_find(s, name) == Some(j),
    decreases j,
{
    if j > 0 {
        assert(forall|i: int| 0 <= i < s.len() - 1 ==> s.drop_first()[i] == s[i + 1]);
        lemma_registry_find_hit(s.drop_first(), j - 1, name);
    }
}

pub proof fn lemma_registry_find_none(s: Seq<ComponentInfo>, name: Seq<char>)
    requires
        forall|i: int| 0 <= i < s.len() ==> (#[trigger] s[i]).name@ != name,
    ensures
        spec_registry_find(s, name) is None,
    decreases s.len(),
{
    if s.len() > 0 {
        assert(forall|i: int| 0 <= i < s.len() - 1 ==> s.drop_first()[i] == s[i + 1]);
        lemma_registry_find_none(s.drop_first(), name);
    }
}

impl ComponentRegistry {
    pub fn new() -> (r: ComponentRegistry)
        ensures
            r.entries@.len() == 0,
    {
        ComponentRegistry { entries: Vec::new() }
    }

    /// The component stored under `name`, by first match.
    pub open spec fn find(&self, name: Seq<char>) -> Option<int> {
        spec_registry_find(self.entries@, name)
    }

    pub open spec fn contains(&self, name: Seq<char>) -> bool {
        self.find(name) is Some
    }

    pub fn len(&self) -> (n: usize)
        ensures
            n == self.entries@.len(),
    {
        self.entries.len()
    }

    /// Looks a component up by name.
    pub fn get(&self, name: &str) -> (r: Option<&ComponentInfo>)
        ensures
            match r {
                Some(info) => self.find(name@) is Some && *info == self.entries@[self.find(
                    name@,
                )->0],
                None => self.find(name@) is None,
            },
    {
        let n = self.entries.len();
        let mut i: usize = 0;
        while i < n
            invariant
                i <= n,
                n == self.entries@.len(),
                forall|j: int| 0 <= j < i ==> (#[trigger] self.entries@[j]).name@ != name@,
            decreases n - i,
        {
            let e = &self.entries[i];
            if str_eq_chars(e.name.as_str(), name) {
                proof {
                    lemma_registry_find_hit(self.entries@, i as int, name@);
                }
                return Some(e);
            }
            i = i + 1;
        }
        proof {
            lemma_registry_find_none(self.entries@, name@);
        }
        None
    }

    /// Stores `info` under its name, replacing an existing entry of the
    /// same name.
    pub fn insert(&mut self, info: ComponentInfo)
        ensures
            final(self).find(info.name@) is Some,
            final(self).entries@[final(self).find(info.name@)->0] == info,
            forall|n2: Seq<char>|
                n2 != info.name@ ==> #[trigger] final(self).find(n2) == old(self).find(n2),
            forall|n2: Seq<char>|
                n2 != info.name@ && #[trigger] old(self).find(n2) is Some
                    ==> final(self).entries@[old(self).find(n2)->0]
                    == old(self).entries@[old(self).find(n2)->0],
            final(self).entries@.len() <= old(self).entries@.len() + 1,
            final(self).entries@.len() >= old(self).entries@.len(),
            forall|i: int|
                0 <= i < final(self).entries@.len() ==> (#[trigger] final(self).entries@[i])
                    == info || (i < old(self).entries@.len() && final(self).entries@[i] == old(self).entries@[i]),
            old(self).find(info.name@) is Some ==> final(self).entries@.len() == old(self).entries@.len(),
            old(self).find(info.name@) is None ==> final(self).entries@.len() == old(self).entries@.len() + 1,
            registry_unique(old(self).entries@) ==> registry_unique(final(self).entries@),
            forall|i: int|
                0 <= i < final(self).entries@.len() ==> (#[trigger] final(self).entries@[i]).name@
                    == info.name@ || (i < old(self).entries@.len() && final(self).entries@[i].name@ == old(self).entries@[i].name@),
    {
        let ghost info0 = info;
        let n = self.entries.len();
        let mut i: usize = 0;
        while i < n
            invariant
                i <= n,
                n == self.entries@.len(),
                self.entries@ == old(self).entries@,
                info == info0,
                forall|j: int| 0 <= j < i ==> (#[trigger] self.entries@[j]).name@ != info.name@,
            decreases n - i,
        {
            let hit = str_eq_chars(self.entries[i].name.as_str(), info.name.as_str());
            if hit {
                proof {
                    lemma_registry_update(self.entries@, i as int, info0);
                    lemma_registry_find_hit(self.entries@, i as int, info0.name@);
                    let u = self.entries@.update(i as int, info0);
                    if registry_unique(self.entries@) {
                        assert forall|a: int, b: int| 0 <= a < b < u.len() implies (
                        #[trigger] u[a]).name@ != (#[trigger] u[b]).name@ by {
                            assert(u[a].name@ == self.entries@[a].name@);
                            assert(u[b].name@ == self.entries@[b].name@);
                        }
                    }
                }
                self.entries[i] = info;
                return;
            }
            i = i + 1;
        }
        proof {
            lemma_registry_append(self.entries@, info0);
            lemma_registry_find_none(self.entries@, info0.name@);
            let u = self.entries@.push(info0);
            if registry_unique(self.entries@) {
                assert forall|a: int, b: int| 0 <= a < b < u.len() implies (
                #[trigger] u[a]).name@ != (#[trigger] u[b]).name@ by {
                    if b < self.entries@.len() {
                        assert(u[a] == self.entries@[a]);
                        assert(u[b] == self.entries@[b]);
                    } else {
                        assert(u[b] == info0);
                        assert(u[a] == self.entries@[a]);
                        assert(self.entries@[a].name@ != info0.name@);
                    }
                }
            }
        }
        self.entries.push(info);
    }

    /// A value copy of the registry.
    pub fn duplicate(&self) -> (r: ComponentRegistry)
        ensures
            registry_equal(&r, self),
    {
        let n = self.entries.len();
        let mut out: Vec<ComponentInfo> = Vec::new();
        let mut i: usize = 0;
        while i < n
            invariant
                i <= n,
                n == self.entries@.len(),
                out@.len() == i,
                forall|j: int|
                    0 <= j < i ==> info_equal(&(#[trigger] out@[j]), &self.entries@[j]),
            decreases n - i,
        {
            let copy = self.entries[i].duplicate();
            out.push(copy);
            i = i + 1;
        }
        ComponentRegistry { entries: out }
    }
}

proof fn lemma_registry_update(s: Seq<ComponentInfo>, j: int, e: ComponentInfo)
    requires
        0 <= j < s.len(),
        forall|i: int| 0 <= i < j ==> (#[trigger] s[i]).name@ != e.name@,
        s[j].name@ == e.name@,
    ensures
        spec_registry_find(s.update(j, e), e.name@) == Some(j),
        forall|n2: Seq<char>|
            n2 != e.name@ ==> #[trigger] spec_registry_find(s.update(j, e), n2)
                == spec_registry_find(s, n2),
        forall|n2: Seq<char>|
            n2 != e.name@ && #[trigger] spec_registry_find(s, n2) is Some
                ==> s.update(j, e)[spec_registry_find(s, n2)->0]
                == s[spec_registry_find(s, n2)->0],
{
    let u = s.update(j, e);
    assert(forall|i: int| 0 <= i < j ==> (#[trigger] u[i]).name@ != e.name@);
    assert(u[j].name@ == e.name@);
    lemma_registry_find_hit(u, j, e.name@);
    assert forall|n2: Seq<char>| n2 != e.name@ implies #[trigger] spec_registry_find(u, n2)
        == spec_registry_find(s, n2) by {
        lemma_registry_find_same(s, u, j, n2);
    }
    assert forall|n2: Seq<char>|
        n2 != e.name@ && #[trigger] spec_registry_find(s, n2) is Some
        implies u[spec_registry_find(s, n2)->0] == s[spec_registry_find(s, n2)->0] by {
        lemma_registry_find_props(s, n2);
        let idx = spec_registry_find(s, n2)->0;
        assert(s[idx].name@ == n2);
        assert(idx != j);
    }
}

/// Two registries that differ only at an index whose name is not `n2` give
/// the same result for `n2`.
proof fn lemma_registry_find_same(s: Seq<ComponentInfo>, u: Seq<ComponentInfo>, j: int, n2: Seq<char>)
    requires
        s.len() == u.len(),
        0 <= j < s.len(),
        forall|i: int| 0 <= i < s.len() && i != j ==> #[trigger] u[i] == s[i],
        s[j].name@ != n2,
        u[j].name@ != n2,
    ensures
        spec_registry_find(u, n2) == spec_registry_find(s, n2),
    decreases s.len(),
{
    if s.len() > 0 {
        if j == 0 {
            assert(u.drop_first() =~= s.drop_first());
        } else {
            assert(u[0] == s[0]);
            if s[0].name@ != n2 {
                assert(forall|i: int|
                    0 <= i < s.len() - 1 ==> s.drop_first()[i] == s[i + 1]);
                assert(forall|i: int|
                    0 <= i < u.len() - 1 ==> u.drop_first()[i] == u[i + 1]);
                lemma_registry_find_same(s.drop_first(), u.drop_first(), j - 1, n2);
            }
        }
    }
}

proof fn lemma_registry_append(s: Seq<ComponentInfo>, e: ComponentInfo)
    requires
        forall|i: int| 0 <= i < s.len() ==> (#[trigger] s[i]).name@ != e.name@,
    ensures
        spec_registry_find(s.push(e), e.name@) == Some(s.len() as int),
        forall|n2: Seq<char>|
            n2 != e.name@ ==> #[trigger] spec_registry_find(s.push(e), n2)
                == spec_registry_find(s, n2),
        forall|n2: Seq<char>|
            n2 != e.name@ && #[trigger] spec_registry_find(s, n2) is Some
                ==> s.push(e)[spec_registry_find(s, n2)->0]
                == s[spec_registry_find(s, n2)->0],
    decreases s.len(),
{
    let u = s.push(e);
    assert(u[s.len() as int] == e);
    lemma_registry_find_hit(u, s.len() as int, e.name@);
    assert forall|n2: Seq<char>| n2 != e.name@ implies #[trigger] spec_registry_find(u, n2)
        == spec_registry_find(s, n2) by {
        lemma_registry_append_other(s, e, n2);
    }
    assert forall|n2: Seq<char>|
        n2 != e.name@ && #[trigger] spec_registry_find(s, n2) is Some
        implies u[spec_registry_find(s, n2)->0] == s[spec_registry_find(s, n2)->0] by {
        lemma_registry_find_props(s, n2);
    }
}

proof fn lemma_registry_append_other(s: Seq<ComponentInfo>, e: ComponentInfo, n2: Seq<char>)
    requires
        e.name@ != n2,
    ensures
        spec_registry_find(s.push(e), n2) == spec_registry_find(s, n2),
    decreases s.len(),
{
    let u = s.push(e);
    if s.len() == 0 {
        assert(u.len() == 1);
        assert(u[0] == e);
        assert(u.drop_first() =~= Seq::<ComponentInfo>::empty());
    } else {
        assert(u[0] == s[0]);
        assert(u.drop_first() =~= s.drop_first().push(e));
        if s[0].name@ == n2 {
            assert(spec_registry_find(u, n2) == Some(0int));
            assert(spec_registry_find(s, n2) == Some(0int));
        } else {
            lemma_registry_append_other(s.drop_first(), e, n2);
            assert(spec_registry_find(u.drop_first(), n2) == spec_registry_find(
                s.drop_first(),
                n2,
            ));
        }
    }
}

/// The per-cycle analysis output handed to the strategies: a value copy of
/// the registry with the derived scores and advisories.
pub struct EcosystemState {
    pub timestamp: i64,
    pub components: ComponentRegistry,
    pub health_score: i64,
    pub activity_level: ActivityLevel,
    pub recommendations: Vec<String>,
}

/// One advisory read back from the explorer.
pub struct ExplorerRecommendation {
    pub timestamp: String,
    pub from_component: String,
    pub target_component: String,
    pub analysis_score: i64,
    pub recommendation: String,
}

/// Structured report persisted on the slow tick.
pub struct EcosystemReport {
    pub session_id: u128,
    pub timestamp: i64,
    pub uptime_seconds: i64,
    pub total_commands: u64,
    pub active_components: usize,
    pub components: ComponentRegistry,
}

/// A command for one of the external components. Milli fixed-point payloads
/// carry real values scaled by 1000.
#[derive(Clone, Copy, Debug, PartialEq, Eq, Structural)]
pub enum Command {
    Mutate,
    Reset,
    SetAutoMutation(bool),
    ChangeFractalType(i32),
    ChangeColorScheme(i32),
    SetMutationStrength(i64),
    ZoomIn(i64),
    ZoomOut(i64),
    SetParameters(FractalParameters),
    AnalyzeCurrent,
    DeepScan,
    SetResolution(i32),
    AnalyzeRegion(AnalysisRegion),
    Shutdown,
    Status,
    GetMetrics,
}

pub open spec fn spec_bool_chars(b: bool) -> Seq<char> {
    if b {
        "true"@
    } else {
        "false"@
    }
}

/// The wire form of a command for the mutator.
pub open spec fn spec_mutator_string(c: Command) -> Seq<char> {
    match c {
        Command::Mutate => "mutate:true"@,
        Command::Reset => "reset:true"@,
        Command::SetAutoMutation(enabled) => "auto_mutate:"@ + spec_bool_chars(enabled),
        Command::ChangeFractalType(t) => "fractal_type:"@ + spec_int_chars(t as int),
        Command::ChangeColorScheme(sc) => "color_scheme:"@ + spec_int_chars(sc as int),
        Command::SetMutationStrength(v) => "mutation_strength:"@ + spec_milli_chars(v as int),
        Command::ZoomIn(f) => "zoom:in:"@ + spec_milli_chars(f as int),
        Command::ZoomOut(f) => "zoom:out:"@ + spec_milli_chars(f as int),
        Command::Shutdown => "shutdown:true"@,
        Command::Status => "status:request"@,
        _ => "unknown:command"@,
    }
}

/// The wire form of a command for the explorer.
pub open spec fn spec_explorer_string(c: Command) -> Seq<char> {
    match c {
        Command::AnalyzeCurrent => "analyze_current:true"@,
        Command::DeepScan => "deep_scan:true"@,
        Command::SetResolution(res) => "set_resolution:"@ + spec_int_chars(res as int),
        Command::Shutdown => "shutdown:true"@,
        Command::Status => "status:request"@,
        _ => "unknown:command"@,
    }
}

fn bool_str(b: bool) -> (r: &'static str)
    ensures
        r@ == spec_bool_chars(b),
{
    if b {
        "true"
    } else {
        "false"
    }
}

impl Command {
    /// Encodes the command in the mutator's wire form. The encoding is a
    /// function of the command value alone: two calls on equal commands
    /// yield the same string.
    pub fn to_mutator_string(&self) -> (r: String)
        ensures
            r@ == spec_mutator_string(*self),
    {
        match self {
            Command::Mutate => "mutate:true".to_owned(),
            Command::Reset => "reset:true".to_owned(),
            Command::SetAutoMutation(enabled) => {
                let mut s = "auto_mutate:".to_owned();
                s.append(bool_str(*enabled));
                s
            },
            Command::ChangeFractalType(t) => {
                let mut s = "fractal_type:".to_owned();
                push_int_digits(&mut s, *t as i64);
                s
            },
            Command::ChangeColorScheme(sc) => {
                let mut s = "color_scheme:".to_owned();
                push_int_digits(&mut s, *sc as i64);
                s
            },
            Command::SetMutationStrength(v) => {
                let mut s = "mutation_strength:".to_owned();
                push_milli(&mut s, *v);
                s
            },
            Command::ZoomIn(f) => {
                let mut s = "zoom:in:".to_owned();
                push_milli(&mut s, *f);
                s
            },
            Command::ZoomOut(f) => {
                let mut s = "zoom:out:".to_owned();
                push_milli(&mut s, *f);
                s
            },
            Command::Shutdown => "shutdown:true".to_owned(),
            Command::Status => "status:request".to_owned(),
            _ => "unknown:command".to_owned(),
        }
    }

    /// Encodes the command in the explorer's wire form; a pure function of
    /// the command value, as with `to_mutator_string`.
    pub fn to_explorer_string(&self) -> (r: String)
        ensures
            r@ == spec_explorer_string(*self),
    {
        match self {
            Command::AnalyzeCurrent => "analyze_current:true".to_owned(),
            Command::DeepScan => "deep_scan:true".to_owned(),
            Command::SetResolution(res) => {
                let mut s = "set_resolution:".to_owned();
                push_int_digits(&mut s, *res as i64);
                s
            },
            Command::Shutdown => "shutdown:true".to_owned(),
            Command::Status => "status:request".to_owned(),
            _ => "unknown:command".to_owned(),
        }
    }
}

/// Meaning of a recommendation string `ACTION:value`: the command it asks
/// for, or nothing when the action is unknown, the value malformed, or the
/// shape is not exactly one ':'.
pub open spec fn spec_parse_command(s: Seq<char>) -> Option<Command> {
    if count_char(s, ':') != 1 {
        None
    } else {
        let i = find_first(s, ':');
        let action = s.take(i);
        let value = s.skip(i + 1);
        if action == "INCREASE_MUTATION_STRENGTH"@ {
            match spec_parse_milli(value) {
                Some(v) => Some(Command::SetMutationStrength(v as i64)),
                None => None,
            }
        } else if action == "ENABLE_AUTO_MUTATION"@ {
            match spec_parse_bool(value) {
                Some(b) => Some(Command::SetAutoMutation(b)),
                None => None,
            }
        } else if action == "CHANGE_FRACTAL_TYPE"@ {
            match spec_parse_int(value) {
                Some(v) => if i32::MIN <= v <= i32::MAX {
                    Some(Command::ChangeFractalType(v as i32))
                } else {
                    None
                },
                None => None,
            }
        } else if action == "CHANGE_COLOR_SCHEME"@ {
            match spec_parse_int(value) {
                Some(v) => if i32::MIN <= v <= i32::MAX {
                    Some(Command::ChangeColorScheme(v as i32))
                } else {
                    None
                },
                None => None,
            }
        } else if action == "ZOOM_IN"@ {
            match spec_parse_milli(value) {
                Some(v) => Some(Command::ZoomIn(v as i64)),
                None => None,
            }
        } else if action == "ZOOM_OUT"@ {
            match spec_parse_milli(value) {
                Some(v) => Some(Command::ZoomOut(v as i64)),
                None => None,
            }
        } else if action == "RESET_POSITION"@ {
            if value == "true"@ {
                Some(Command::Reset)
            } else {
                None
            }
        } else {
            None
        }
    }
}

impl ExplorerRecommendation {
    /// Reads the recommendation text as a command, when it has the
    /// recognized `ACTION:value` form; malformed values and unknown actions
    /// carry no command.
    pub fn parse_as_command(&self) -> (r: Option<Command>)
        ensures
            r == spec_parse_command(self.recommendation@),
    {
        let text = self.recommendation.as_str();
        let len = text.unicode_len();
        let (colon, cnt) = scan_char(text, ':');
        if cnt != 1 {
            return None;
        }
        proof {
            crate::text::lemma_find_first(text@, ':');
            crate::text::lemma_count_find(text@, ':');
        }
        let action = text.substring_char(0, colon);
        assert(action@ =~= text@.take(colon as int));
        let value = text.substring_char(colon + 1, len);
        assert(value@ =~= text@.skip(colon as int + 1));
        if str_eq_chars(action, "INCREASE_MUTATION_STRENGTH") {
            match parse_milli_str(value) {
                Some(v) => Some(Command::SetMutationStrength(v)),
                None => None,
            }
        } else if str_eq_chars(action, "ENABLE_AUTO_MUTATION") {
            match parse_bool_str(value) {
                Some(b) => Some(Command::SetAutoMutation(b)),
                None => None,
            }
        } else if str_eq_chars(action, "CHANGE_FRACTAL_TYPE") {
            match parse_int_str(value) {
                Some(v) => if i32::MIN as i64 <= v && v <= i32::MAX as i64 {
                    Some(Command::ChangeFractalType(v as i32))
                } else {
                    None
                },
                None => None,
            }
        } else if str_eq_chars(action, "CHANGE_COLOR_SCHEME") {
            match parse_int_str(value) {
                Some(v) => if i32::MIN as i64 <= v && v <= i32::MAX as i64 {
                    Some(Command::ChangeColorScheme(v as i32))
                } else {
                    None
                },
                None => None,
            }
        } else if str_eq_chars(action, "ZOOM_IN") {
            match parse_milli_str(value) {
                Some(v) => Some(Command::ZoomIn(v)),
                None => None,
            }
        } else if str_eq_chars(action, "ZOOM_OUT") {
            match parse_milli_str(value) {
                Some(v) => Some(Command::ZoomOut(v)),
                None => None,
            }
        } else if str_eq_chars(action, "RESET_POSITION") {
            if str_eq_chars(value, "true") {
                Some(Command::Reset)
            } else {
                None
            }
        } else {
            None
        }
    }
}

} // verus!
