use nexo::coordinator::{check_component_health, classify_freshness, component_health,
    current_time, explorer_status_to_analysis, EcosystemCoordinator};
use nexo::ecosystem::{ActivityLevel, AnalysisData, AnalysisRegion, Command, ComponentData,
    ComponentStatus, EcosystemState, ExplorerRecommendation, FractalParameters, FractalState,
    HealthStatus, Metrics, ComponentRegistry};
use nexo::strategies::MutationStrategy;

const NOW: i64 = 1_700_000_000;
const START: i64 = 1_699_999_000;

fn fractal_state() -> FractalState {
    FractalState { timestamp: NOW, fractal_type: 1, parameters: FractalParameters::default() }
}

fn analysis_data(score: i64) -> AnalysisData {
    let mut metrics = Metrics::new();
    metrics.set(String::from("interesting_score"), score);
    AnalysisData {
        timestamp: NOW,
        region: AnalysisRegion::default(),
        fractal_type: 1,
        max_iterations: 200,
        metrics,
        recommendation: String::from("looks promising"),
        component: String::from("FractalExplorer"),
    }
}

fn rec(text: &str) -> ExplorerRecommendation {
    ExplorerRecommendation {
        timestamp: String::from("2024-01-01T00:00:00Z"),
        from_component: String::from("FractalExplorer"),
        target_component: String::from("FractalMutator"),
        analysis_score: 900,
        recommendation: String::from(text),
    }
}

#[test]
fn new_coordinator_registers_the_five_strategies() {
    let c = EcosystemCoordinator::with_session(7, START);
    assert_eq!(c.strategies.len(), 5);
    let names: Vec<&str> = c.strategies.iter().map(|s| s.name()).collect();
    assert_eq!(
        names,
        vec!["RandomPulse", "ColorCycler", "FractalRotation", "DynamicMutation",
            "IntelligentAnalysis"]
    );
    assert!(c.strategies.iter().all(MutationStrategy::is_enabled));
    assert_eq!(c.total_commands, 0);
    assert_eq!(c.components.len(), 0);
}

#[test]
fn registry_updates_replace_by_name() {
    let mut c = EcosystemCoordinator::with_session(7, START);
    c.insert_mutator_state(fractal_state(), NOW);
    c.insert_mutator_state(fractal_state(), NOW + 2);
    assert_eq!(c.components.len(), 1);
    let info = c.components.get("FractalMutator").expect("mutator present");
    assert_eq!(info.last_seen, NOW + 2);
    assert!(matches!(info.status, ComponentStatus::Running));

    c.insert_explorer_status(analysis_data(400), NOW + 3);
    assert_eq!(c.components.len(), 2);
    assert!(c.components.get("FractalExplorer").is_some());
    assert!(c.components.get("SomethingElse").is_none());
}

#[test]
fn detailed_analysis_attaches_only_when_the_explorer_is_known() {
    let mut c = EcosystemCoordinator::with_session(7, START);
    c.attach_explorer_analysis(analysis_data(900));
    assert!(c.components.get("FractalExplorer").is_none());

    c.insert_explorer_status(analysis_data(400), NOW);
    c.attach_explorer_analysis(analysis_data(900));
    let info = c.components.get("FractalExplorer").unwrap();
    match &info.data {
        Some(ComponentData::Analysis(a)) => {
            assert_eq!(a.metrics.get("interesting_score"), Some(900));
        }
        _ => panic!("expected analysis data"),
    }
}

#[test]
fn commands_route_by_target_name() {
    let cmd = Command::SetMutationStrength(150);
    let to_mutator = EcosystemCoordinator::encode_for_target("FractalMutator", &cmd);
    assert_eq!(to_mutator.as_deref(), Some("mutation_strength:0.150"));
    let to_explorer = EcosystemCoordinator::encode_for_target("FractalExplorer", &Command::DeepScan);
    assert_eq!(to_explorer.as_deref(), Some("deep_scan:true"));
    assert!(EcosystemCoordinator::encode_for_target("Elsewhere", &cmd).is_none());
}

#[test]
fn sent_commands_are_counted_and_mutations_remembered() {
    let mut c = EcosystemCoordinator::with_session(7, START);
    c.record_sent(&Command::Status, NOW);
    assert_eq!(c.total_commands, 1);
    assert_eq!(c.last_mutation, None);
    c.record_sent(&Command::Mutate, NOW + 5);
    assert_eq!(c.total_commands, 2);
    assert_eq!(c.last_mutation, Some(NOW + 5));
}

#[test]
fn recommendations_become_commands_in_order() {
    let recs = vec![
        rec("INCREASE_MUTATION_STRENGTH:0.3"),
        rec("bogus"),
        rec("RESET_POSITION:true"),
        rec("ZOOM_IN:2.0"),
    ];
    let commands = EcosystemCoordinator::process_recommendations(&recs);
    assert_eq!(
        commands,
        vec![Command::SetMutationStrength(300), Command::Reset, Command::ZoomIn(2000)]
    );
}

#[test]
fn metrics_are_refreshed_each_cycle() {
    let mut c = EcosystemCoordinator::with_session(7, START);
    c.insert_mutator_state(fractal_state(), NOW);
    c.insert_explorer_status(analysis_data(400), NOW);
    c.update_metrics(NOW);
    let uptime_ms = (NOW - START) * 1000;
    let mutator = c.components.get("FractalMutator").unwrap();
    assert_eq!(mutator.metrics.get("uptime_seconds"), Some(uptime_ms));
    assert_eq!(mutator.metrics.get("zoom"), Some(1000));
    assert_eq!(mutator.metrics.get("iterations"), Some(100_000));
    let explorer = c.components.get("FractalExplorer").unwrap();
    assert_eq!(explorer.metrics.get("uptime_seconds"), Some(uptime_ms));
    assert_eq!(explorer.metrics.get("zoom"), None);
}

#[test]
fn reports_count_running_components() {
    let mut c = EcosystemCoordinator::with_session(42, START);
    c.insert_mutator_state(fractal_state(), NOW);
    c.insert_explorer_status(analysis_data(400), NOW);
    c.record_sent(&Command::Mutate, NOW);
    let report = c.build_report(NOW);
    assert_eq!(report.session_id, 42);
    assert_eq!(report.timestamp, NOW);
    assert_eq!(report.uptime_seconds, NOW - START);
    assert_eq!(report.total_commands, 1);
    assert_eq!(report.active_components, 2);
    assert_eq!(report.components.len(), 2);
}

#[test]
fn strategy_modifications_route_by_name() {
    let mut c = EcosystemCoordinator::with_session(7, START);
    c.modify_strategy(
        "ColorCycler",
        nexo::strategies::StrategyModification::Disable,
    );
    assert!(!c.strategies[1].is_enabled());
    assert!(c.strategies[0].is_enabled());
    // an unknown name changes nothing
    c.modify_strategy(
        "NoSuchStrategy",
        nexo::strategies::StrategyModification::Disable,
    );
    assert!(c.strategies[0].is_enabled());
}

#[test]
fn eligible_strategies_all_fire_on_the_first_cycle() {
    let mut c = EcosystemCoordinator::with_session(7, START);
    let mut registry = ComponentRegistry::new();
    registry.insert(nexo::ecosystem::ComponentInfo {
        name: String::from("FractalExplorer"),
        component_type: nexo::ecosystem::ComponentType::Analyzer,
        status: ComponentStatus::Running,
        last_seen: NOW,
        data: Some(ComponentData::Analysis(analysis_data(400))),
        metrics: Metrics::new(),
    });
    let state = EcosystemState {
        timestamp: NOW,
        components: registry,
        health_score: 800,
        activity_level: ActivityLevel::Moderate,
        recommendations: Vec::new(),
    };
    let actions = c.evaluate_strategies(&state, NOW);
    // every strategy has an unset timer and the explorer is present, so all
    // five run on the first cycle
    assert_eq!(actions.len(), 5);
    // a second pass immediately afterwards finds every timer freshly set
    let actions_again = c.evaluate_strategies(&state, NOW);
    assert_eq!(actions_again.len(), 0);
}

#[test]
fn freshness_classification_has_three_bands() {
    assert_eq!(classify_freshness(10, 30), HealthStatus::Healthy);
    assert_eq!(classify_freshness(30, 30), HealthStatus::Healthy);
    assert_eq!(classify_freshness(31, 30), HealthStatus::Stale);
    assert_eq!(classify_freshness(60, 30), HealthStatus::Stale);
    assert_eq!(classify_freshness(61, 30), HealthStatus::Unhealthy);
}

#[test]
fn component_health_reports_age_or_absence() {
    let health = component_health("fractal_params.json", Some(NOW - 10), NOW, 30);
    assert_eq!(health.status, HealthStatus::Healthy);
    assert_eq!(health.age_seconds, Some(10));
    assert_eq!(health.last_update, Some(NOW - 10));
    assert_eq!(health.message, "Archivo fractal_params.json actualizado hace 10 segundos");

    let missing = component_health("explorer_status.json", None, NOW, 60);
    assert_eq!(missing.status, HealthStatus::Missing);
    assert_eq!(missing.age_seconds, None);
    assert_eq!(missing.message, "Archivo explorer_status.json no encontrado");
}

#[test]
fn health_report_covers_both_components() {
    let report = check_component_health(NOW, Some(NOW - 100), None);
    assert_eq!(report.timestamp, NOW);
    assert_eq!(report.components.len(), 2);
    assert_eq!(report.components[0].name, "FractalMutator");
    assert_eq!(report.components[0].health.status, HealthStatus::Unhealthy);
    assert_eq!(report.components[1].name, "FractalExplorer");
    assert_eq!(report.components[1].health.status, HealthStatus::Missing);
}

#[test]
fn synthetic_analysis_holds_exactly_the_five_keys() {
    let a = explorer_status_to_analysis(
        NOW,
        String::from("FractalExplorer"),
        "running",
        1,
        1,
        500,
        60,
        128,
    );
    assert_eq!(a.metrics.entries.len(), 5);
    // nothing else sneaks into the map; the analyzer's interest lookup
    // stays empty on a status-only record
    assert_eq!(a.metrics.get("interesting_score"), None);
    assert_eq!(a.metrics.get("complexity_measure"), None);
}

#[test]
fn attaching_an_analysis_keeps_the_other_fields() {
    let mut c = EcosystemCoordinator::with_session(7, START);
    c.insert_explorer_status(analysis_data(400), NOW);
    c.attach_explorer_analysis(analysis_data(900));
    let info = c.components.get("FractalExplorer").unwrap();
    assert!(matches!(info.status, ComponentStatus::Running));
    assert_eq!(info.last_seen, NOW);
    assert_eq!(info.metrics.entries.len(), 0);
}

#[test]
fn modification_reaches_the_named_strategy() {
    let mut c = EcosystemCoordinator::with_session(7, START);
    c.modify_strategy(
        "IntelligentAnalysis",
        nexo::strategies::StrategyModification::AdjustParameters(String::from("threshold"), 250),
    );
    match &c.strategies[4] {
        MutationStrategy::IntelligentAnalysis(p) => assert_eq!(p.analysis_threshold, 250),
        _ => panic!("expected the analysis strategy"),
    }
    c.modify_strategy("RandomPulse", nexo::strategies::StrategyModification::ChangeFrequency(77));
    match &c.strategies[0] {
        MutationStrategy::RandomPulse(p) => assert_eq!(p.frequency, 77),
        _ => panic!("expected the pulse strategy"),
    }
}

#[test]
fn update_metrics_keeps_unrelated_keys() {
    let mut c = EcosystemCoordinator::with_session(7, START);
    c.insert_explorer_status(analysis_data(400), NOW);
    // plant an unrelated metric on the explorer entry, refresh, and check
    // that it survives beside the derived uptime
    for e in c.components.entries.iter_mut() {
        e.metrics.set(String::from("custom"), 77);
    }
    c.update_metrics(NOW);
    let explorer = c.components.get("FractalExplorer").unwrap();
    assert_eq!(explorer.metrics.get("custom"), Some(77));
    assert_eq!(explorer.metrics.get("uptime_seconds"), Some((NOW - START) * 1000));
}

#[test]
fn explorer_status_becomes_synthetic_analysis() {
    let a = explorer_status_to_analysis(
        NOW,
        String::from("FractalExplorer"),
        "running",
        42,
        7,
        650,
        3600,
        256,
    );
    assert_eq!(a.timestamp, NOW);
    assert_eq!(a.metrics.get("total_scans"), Some(42_000));
    assert_eq!(a.metrics.get("regions_discovered"), Some(7_000));
    assert_eq!(a.metrics.get("average_interest_score"), Some(650));
    assert_eq!(a.metrics.get("uptime_seconds"), Some(3_600_000));
    assert_eq!(a.metrics.get("current_resolution"), Some(256_000));
    assert_eq!(a.recommendation, "Explorer running - 42 escaneos completados");
    assert_eq!(a.component, "FractalExplorer");
}

#[test]
fn the_clock_reading_is_in_range() {
    let t = current_time();
    assert!(t >= 0);
}

#[test]
fn metric_maps_replace_by_key() {
    let mut m = Metrics::new();
    m.set(String::from("a"), 1);
    m.set(String::from("b"), 2);
    m.set(String::from("a"), 3);
    assert_eq!(m.get("a"), Some(3));
    assert_eq!(m.get("b"), Some(2));
    assert_eq!(m.get("c"), None);
    assert_eq!(m.entries.len(), 2);
}

#[test]
fn a_fresh_session_is_well_formed() {
    // draws a real session id and clock reading
    let c = EcosystemCoordinator::new();
    assert_eq!(c.strategies.len(), 5);
    assert_eq!(c.total_commands, 0);
    assert!(c.start_time >= 0);
    assert!(c.components.len() == 0);
}
