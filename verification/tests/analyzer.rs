use nexo::analysis::{EcosystemAnalyzer, EcosystemSnapshot, level_of_average};
use nexo::ecosystem::{ActivityLevel, AnalysisData, AnalysisRegion, ComponentData, ComponentInfo,
    ComponentRegistry, ComponentStatus, ComponentType, FractalParameters, FractalState,
    MetricEntry, Metrics};

fn fresh_mutator(now: i64, params: FractalParameters) -> ComponentInfo {
    ComponentInfo {
        name: String::from("FractalMutator"),
        component_type: ComponentType::Mutator,
        status: ComponentStatus::Running,
        last_seen: now,
        data: Some(ComponentData::Fractal(FractalState {
            timestamp: now,
            fractal_type: 0,
            parameters: params,
        })),
        metrics: Metrics::new(),
    }
}

fn fresh_explorer(now: i64, metrics: Vec<(&str, i64)>) -> ComponentInfo {
    let entries = metrics
        .into_iter()
        .map(|(k, v)| MetricEntry { key: String::from(k), value: v })
        .collect();
    ComponentInfo {
        name: String::from("FractalExplorer"),
        component_type: ComponentType::Analyzer,
        status: ComponentStatus::Running,
        last_seen: now,
        data: Some(ComponentData::Analysis(AnalysisData {
            timestamp: now,
            region: AnalysisRegion::default(),
            fractal_type: 0,
            max_iterations: 100,
            metrics: Metrics { entries },
            recommendation: String::new(),
            component: String::from("FractalExplorer"),
        })),
        metrics: Metrics::new(),
    }
}

fn snapshot(ts: i64, health: i64, level: ActivityLevel) -> EcosystemSnapshot {
    EcosystemSnapshot {
        timestamp: ts,
        health_score: health,
        activity_level: level,
        component_count: 1,
        mutation_rate: 100,
        analysis_quality: 500,
    }
}

#[test]
fn empty_registry_scores_exactly_zero() {
    let mut analyzer = EcosystemAnalyzer::new();
    let registry = ComponentRegistry::new();
    let state = analyzer.analyze_ecosystem(&registry, 10_000);
    assert_eq!(state.health_score, 0);
}

#[test]
fn health_score_stays_within_unit_range() {
    let mut analyzer = EcosystemAnalyzer::new();
    let now = 50_000;
    let mut registry = ComponentRegistry::new();
    let mut params = FractalParameters::default();
    params.zoom = 5_000_000; // extreme zoom
    params.mutation_strength = 900; // heavy mutation
    registry.insert(fresh_mutator(now - 400, params));
    registry.insert(fresh_explorer(now, vec![("interesting_score", 990)]));
    let state = analyzer.analyze_ecosystem(&registry, now);
    assert!(state.health_score >= 0);
    assert!(state.health_score <= 1000);
}

#[test]
fn single_fresh_mutator_scenario() {
    // One Running mutator, zoom 1.0, strength 0.1, auto-mutate off, seen now:
    // health 0.9 (single-component bonus), indicators 0.5 and neutral 1.0,
    // average 0.75, level Low.
    let mut analyzer = EcosystemAnalyzer::new();
    let now = 100_000;
    let mut registry = ComponentRegistry::new();
    registry.insert(fresh_mutator(now, FractalParameters::default()));
    let state = analyzer.analyze_ecosystem(&registry, now);
    assert_eq!(state.health_score, 900);
    assert_eq!(state.activity_level, ActivityLevel::Low);
}

#[test]
fn two_fresh_components_scenario() {
    // Both Running and fresh, nothing extreme: diversity bonus 1.0, so the
    // health score is exactly the mean of the per-component scores.
    let mut analyzer = EcosystemAnalyzer::new();
    let now = 100_000;
    let mut registry = ComponentRegistry::new();
    registry.insert(fresh_mutator(now, FractalParameters::default()));
    registry.insert(fresh_explorer(now, vec![]));
    // mutator scores 1.0; explorer without an interest metric scores
    // 1.0 * (0.5 + 0.5 * 0.5) = 0.75; mean is 0.875.
    let state = analyzer.analyze_ecosystem(&registry, now);
    assert_eq!(state.health_score, 875);
}

#[test]
fn activity_level_thresholds_are_inclusive() {
    assert_eq!(level_of_average(2500), ActivityLevel::Critical);
    assert_eq!(level_of_average(2499), ActivityLevel::High);
    assert_eq!(level_of_average(1800), ActivityLevel::High);
    assert_eq!(level_of_average(1799), ActivityLevel::Moderate);
    assert_eq!(level_of_average(800), ActivityLevel::Moderate);
    assert_eq!(level_of_average(799), ActivityLevel::Low);
    assert_eq!(level_of_average(0), ActivityLevel::Low);
}

#[test]
fn history_caps_at_one_hundred_with_fifo_eviction() {
    let mut analyzer = EcosystemAnalyzer::new();
    for i in 0..101 {
        analyzer.add_to_history(snapshot(1000 + i, 500, ActivityLevel::Moderate));
    }
    assert_eq!(analyzer.analysis_history.len(), 100);
    // the oldest entry (timestamp 1000) was evicted; the second one leads
    assert_eq!(analyzer.analysis_history[0].timestamp, 1001);
    // the newest entry is present at the end
    assert_eq!(analyzer.analysis_history[99].timestamp, 1100);
}

#[test]
fn historical_activity_is_neutral_below_two_entries() {
    let mut analyzer = EcosystemAnalyzer::new();
    assert_eq!(analyzer.calculate_historical_activity(), 1000);
    analyzer.add_to_history(snapshot(1000, 500, ActivityLevel::Low));
    assert_eq!(analyzer.calculate_historical_activity(), 1000);
}

#[test]
fn trend_factor_is_neutral_below_six_entries() {
    // five Moderate snapshots: weighted magnitudes 1.0, 0.9, 0.8, 0.7, 0.6
    // sum 4.0 over 5 snapshots = 0.8; with fewer than six entries the trend
    // factor must stay 1.0, so the indicator is exactly 0.8.
    let mut analyzer = EcosystemAnalyzer::new();
    for i in 0..5 {
        // wildly different health scores would trip a non-neutral trend
        let health = if i < 3 { 0 } else { 1000 };
        analyzer.add_to_history(snapshot(1000 + i, health, ActivityLevel::Moderate));
    }
    assert_eq!(analyzer.calculate_historical_activity(), 800);
}

#[test]
fn trend_factor_scales_with_six_entries() {
    // six Moderate snapshots, recent three much healthier than older three:
    // weights 1.0 + 0.9 + 0.8 + 0.7 + 0.6 + 0.5 = 4.5 over 6 = 0.75,
    // trend 1.2 makes 0.9.
    let mut analyzer = EcosystemAnalyzer::new();
    for i in 0..3 {
        analyzer.add_to_history(snapshot(1000 + i, 100, ActivityLevel::Moderate));
    }
    for i in 3..6 {
        analyzer.add_to_history(snapshot(1000 + i, 900, ActivityLevel::Moderate));
    }
    assert_eq!(analyzer.calculate_historical_activity(), 900);
}

#[test]
fn recommendations_for_quiet_lone_mutator() {
    let mut analyzer = EcosystemAnalyzer::new();
    let now = 100_000;
    let mut registry = ComponentRegistry::new();
    registry.insert(fresh_mutator(now, FractalParameters::default()));
    let state = analyzer.analyze_ecosystem(&registry, now);
    let recs = &state.recommendations;
    // three Low-level advisories, the auto-mutate hint, the missing explorer
    assert_eq!(recs.len(), 5);
    assert_eq!(recs[0], "Incrementar estímulos de mutación");
    assert_eq!(recs[3], "Activar auto-mutación para aumentar actividad");
    assert_eq!(recs[4], "FractalExplorer offline - reiniciar componente");
}

#[test]
fn historical_metrics_defaults_when_empty() {
    let analyzer = EcosystemAnalyzer::new();
    let m = analyzer.get_historical_metrics();
    assert_eq!(m.total_snapshots, 0);
    assert_eq!(m.average_health, 0);
    assert_eq!(m.health_trend, "No data");
    assert_eq!(m.time_span_minutes, 0);
}

#[test]
fn historical_metrics_averages_and_distribution() {
    let mut analyzer = EcosystemAnalyzer::new();
    analyzer.add_to_history(snapshot(1000, 400, ActivityLevel::Low));
    analyzer.add_to_history(snapshot(1300, 600, ActivityLevel::High));
    let m = analyzer.get_historical_metrics();
    assert_eq!(m.total_snapshots, 2);
    assert_eq!(m.average_health, 500);
    assert_eq!(m.average_mutation_rate, 100);
    assert_eq!(m.average_analysis_quality, 500);
    assert_eq!(m.activity_distribution.low, 1);
    assert_eq!(m.activity_distribution.high, 1);
    assert_eq!(m.activity_distribution.moderate, 0);
    assert_eq!(m.activity_distribution.critical, 0);
    assert_eq!(m.health_trend, "Insufficient data");
    assert_eq!(m.time_span_minutes, 5);
}

#[test]
fn historical_metrics_trend_classification() {
    let mut improving = EcosystemAnalyzer::new();
    for i in 0..5 {
        improving.add_to_history(snapshot(1000 + i, 200, ActivityLevel::Moderate));
    }
    for i in 5..10 {
        improving.add_to_history(snapshot(1000 + i, 900, ActivityLevel::Moderate));
    }
    assert_eq!(improving.get_historical_metrics().health_trend, "Improving");

    let mut declining = EcosystemAnalyzer::new();
    for i in 0..5 {
        declining.add_to_history(snapshot(1000 + i, 900, ActivityLevel::Moderate));
    }
    for i in 5..10 {
        declining.add_to_history(snapshot(1000 + i, 200, ActivityLevel::Moderate));
    }
    assert_eq!(declining.get_historical_metrics().health_trend, "Declining");

    let mut stable = EcosystemAnalyzer::new();
    for i in 0..10 {
        stable.add_to_history(snapshot(1000 + i, 500, ActivityLevel::Moderate));
    }
    assert_eq!(stable.get_historical_metrics().health_trend, "Stable");
}

#[test]
fn stale_component_scores_by_age_band() {
    let mut analyzer = EcosystemAnalyzer::new();
    let now = 100_000;
    let mut registry = ComponentRegistry::new();
    // seen 200 seconds ago: age band 0.6, single-component bonus 0.9
    registry.insert(fresh_mutator(now - 200, FractalParameters::default()));
    let state = analyzer.analyze_ecosystem(&registry, now);
    assert_eq!(state.health_score, 540);
}

#[test]
fn offline_and_error_components_score_fixed_values() {
    let mut analyzer = EcosystemAnalyzer::new();
    let now = 100_000;
    let mut registry = ComponentRegistry::new();
    let mut offline = fresh_mutator(now, FractalParameters::default());
    offline.status = ComponentStatus::Offline;
    registry.insert(offline);
    let state = analyzer.analyze_ecosystem(&registry, now);
    // 0.0 * 0.9 = 0
    assert_eq!(state.health_score, 0);

    let mut error = fresh_explorer(now, vec![]);
    error.status = ComponentStatus::Error;
    let mut registry2 = ComponentRegistry::new();
    registry2.insert(error);
    let mut analyzer2 = EcosystemAnalyzer::new();
    let state2 = analyzer2.analyze_ecosystem(&registry2, now);
    // 0.2 * 0.9 = 0.18
    assert_eq!(state2.health_score, 180);
}

#[test]
fn analysis_quality_weights_metrics() {
    let mut analyzer = EcosystemAnalyzer::new();
    let now = 100_000;
    let mut registry = ComponentRegistry::new();
    registry.insert(fresh_explorer(
        now,
        vec![("interesting_score", 800), ("complexity_measure", 500), ("boundary_length", 200)],
    ));
    analyzer.analyze_ecosystem(&registry, now);
    // 0.8*0.5 + 0.5*0.3 + 0.2*0.2 = 0.59
    assert_eq!(analyzer.analysis_history[0].analysis_quality, 590);
}

#[test]
fn mutation_rate_scales_with_auto_mutate() {
    let mut analyzer = EcosystemAnalyzer::new();
    let now = 100_000;
    let mut registry = ComponentRegistry::new();
    let mut params = FractalParameters::default();
    params.mutation_strength = 200;
    params.auto_mutate = true;
    params.auto_mutate_speed = 100; // 0.1 real: multiplier 1 + 0.1*10 = 2.0
    registry.insert(fresh_mutator(now, params));
    analyzer.analyze_ecosystem(&registry, now);
    assert_eq!(analyzer.analysis_history[0].mutation_rate, 400);

    let mut analyzer2 = EcosystemAnalyzer::new();
    let mut registry2 = ComponentRegistry::new();
    let mut params2 = FractalParameters::default();
    params2.mutation_strength = 200;
    registry2.insert(fresh_mutator(now, params2));
    analyzer2.analyze_ecosystem(&registry2, now);
    assert_eq!(analyzer2.analysis_history[0].mutation_rate, 200);
}

#[test]
fn busy_mutator_raises_activity() {
    let mut analyzer = EcosystemAnalyzer::new();
    let now = 100_000;
    let mut registry = ComponentRegistry::new();
    let mut params = FractalParameters::default();
    params.auto_mutate = true; // 3.0
    params.mutation_strength = 400; // 2.0
    params.zoom = 600_000; // 3.0
    registry.insert(fresh_mutator(now, params));
    let state = analyzer.analyze_ecosystem(&registry, now);
    // indicators 3.0 + 2.0 + 3.0 + neutral 1.0 = 9.0 over 4 = 2.25
    assert_eq!(state.activity_level, ActivityLevel::High);
}

#[test]
fn age_bands_step_at_thirty_two_and_five_minutes() {
    let now = 100_000;
    for (age, expect) in [(0, 900), (30, 900), (31, 720), (120, 720), (121, 540), (300, 540), (301, 270)] {
        let mut analyzer = EcosystemAnalyzer::new();
        let mut registry = ComponentRegistry::new();
        registry.insert(fresh_mutator(now - age, FractalParameters::default()));
        let state = analyzer.analyze_ecosystem(&registry, now);
        // single-component diversity bonus 0.9 applies on top of the age band
        assert_eq!(state.health_score, expect, "age {}", age);
    }
}

#[test]
fn zoom_and_strength_penalties_have_exact_boundaries() {
    let now = 100_000;
    let score_of = |params: FractalParameters| {
        let mut analyzer = EcosystemAnalyzer::new();
        let mut registry = ComponentRegistry::new();
        registry.insert(fresh_mutator(now, params));
        analyzer.analyze_ecosystem(&registry, now).health_score
    };
    let mut fine = FractalParameters::default();
    fine.zoom = 1_000_000; // exactly 1000.0 is still fine
    assert_eq!(score_of(fine), 900);
    let mut too_deep = FractalParameters::default();
    too_deep.zoom = 1_000_001;
    assert_eq!(score_of(too_deep), 630);
    let mut near_zero = FractalParameters::default();
    near_zero.zoom = 10; // exactly 0.01 is still fine
    assert_eq!(score_of(near_zero), 900);
    let mut vanishing = FractalParameters::default();
    vanishing.zoom = 9;
    assert_eq!(score_of(vanishing), 630);
    let mut strong = FractalParameters::default();
    strong.mutation_strength = 800; // exactly 0.8 is still fine
    assert_eq!(score_of(strong), 900);
    let mut too_strong = FractalParameters::default();
    too_strong.mutation_strength = 801;
    assert_eq!(score_of(too_strong), 720);
}

#[test]
fn trend_boundary_of_a_tenth_is_inclusive_of_stable() {
    // recent mean exactly 0.1 above the older mean stays Stable
    let mut analyzer = EcosystemAnalyzer::new();
    for i in 0..5 {
        analyzer.add_to_history(EcosystemSnapshot {
            timestamp: 1000 + i,
            health_score: 500,
            activity_level: ActivityLevel::Moderate,
            component_count: 1,
            mutation_rate: 100,
            analysis_quality: 500,
        });
    }
    for i in 5..10 {
        analyzer.add_to_history(EcosystemSnapshot {
            timestamp: 1000 + i,
            health_score: 600,
            activity_level: ActivityLevel::Moderate,
            component_count: 1,
            mutation_rate: 100,
            analysis_quality: 500,
        });
    }
    assert_eq!(analyzer.get_historical_metrics().health_trend, "Stable");
}

#[test]
fn diversity_bonus_is_flat_beyond_four_components() {
    let now = 100_000;
    let health_with_idle = |count: usize| {
        let mut analyzer = EcosystemAnalyzer::new();
        let mut registry = ComponentRegistry::new();
        for i in 0..count {
            let mut info = fresh_mutator(now, FractalParameters::default());
            info.name = format!("Component{}", i);
            info.status = ComponentStatus::Idle;
            registry.insert(info);
        }
        analyzer.analyze_ecosystem(&registry, now).health_score
    };
    // idle components score 0.6 each; bonuses 0.9, 1.0, 1.1, 1.2, then flat
    assert_eq!(health_with_idle(1), 540);
    assert_eq!(health_with_idle(2), 600);
    assert_eq!(health_with_idle(3), 660);
    assert_eq!(health_with_idle(4), 720);
    assert_eq!(health_with_idle(5), 720);
    assert_eq!(health_with_idle(6), 720);
}
