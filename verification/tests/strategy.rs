use nexo::ecosystem::{ActivityLevel, AnalysisData, AnalysisRegion, Command, ComponentData,
    ComponentInfo, ComponentRegistry, ComponentStatus, ComponentType, EcosystemState,
    FractalParameters, FractalState, MetricEntry, Metrics};
use nexo::strategies::{ColorCyclerStrategy, DynamicMutationStrategy, FractalRotationStrategy,
    IntelligentAnalysisStrategy, MutationStrategy, RandomPulseStrategy, StrategyAction,
    StrategyModification};

fn state_with(registry: ComponentRegistry, level: ActivityLevel) -> EcosystemState {
    EcosystemState {
        timestamp: 100_000,
        components: registry,
        health_score: 800,
        activity_level: level,
        recommendations: Vec::new(),
    }
}

fn empty_state(level: ActivityLevel) -> EcosystemState {
    state_with(ComponentRegistry::new(), level)
}

fn mutator_with(fractal_type: i32, params: FractalParameters) -> ComponentInfo {
    ComponentInfo {
        name: String::from("FractalMutator"),
        component_type: ComponentType::Mutator,
        status: ComponentStatus::Running,
        last_seen: 100_000,
        data: Some(ComponentData::Fractal(FractalState {
            timestamp: 100_000,
            fractal_type,
            parameters: params,
        })),
        metrics: Metrics::new(),
    }
}

fn explorer_with(metrics: Vec<(&str, i64)>) -> ComponentInfo {
    let entries = metrics
        .into_iter()
        .map(|(k, v)| MetricEntry { key: String::from(k), value: v })
        .collect();
    ComponentInfo {
        name: String::from("FractalExplorer"),
        component_type: ComponentType::Analyzer,
        status: ComponentStatus::Running,
        last_seen: 100_000,
        data: Some(ComponentData::Analysis(AnalysisData {
            timestamp: 100_000,
            region: AnalysisRegion::default(),
            fractal_type: 0,
            max_iterations: 100,
            metrics: Metrics { entries },
            recommendation: String::new(),
            component: String::from("FractalExplorer"),
        })),
        metrics: Metrics::new(),
    }
}

#[test]
fn random_pulse_fires_on_first_call_regardless_of_frequency() {
    // freshly constructed, 46 seconds later, no execution in history:
    // eligible no matter which interval was drawn
    let pulse = RandomPulseStrategy::new();
    assert!(pulse.should_execute(100_046));
    assert!(pulse.should_execute(0));
}

#[test]
fn random_pulse_waits_for_its_interval_after_running() {
    let mut pulse = RandomPulseStrategy::new();
    pulse.mark_executed(100_000);
    // intervals are drawn from [15, 45): 45 seconds later it is always due,
    // 14 seconds later never
    assert!(pulse.should_execute(100_045));
    assert!(!pulse.should_execute(100_014));
}

#[test]
fn random_pulse_always_asks_for_a_mutation() {
    let mut pulse = RandomPulseStrategy::new();
    match pulse.execute() {
        StrategyAction::SendCommand { target, command } => {
            assert_eq!(target, "FractalMutator");
            assert_eq!(command, Command::Mutate);
        }
        _ => panic!("expected a command"),
    }
    assert!(pulse.frequency >= 15 && pulse.frequency < 40);
}

#[test]
fn pulse_intensity_follows_activity() {
    let pulse = RandomPulseStrategy::new();
    assert_eq!(pulse.pulse_intensity(ActivityLevel::Low), 1500);
    assert_eq!(pulse.pulse_intensity(ActivityLevel::Moderate), 1000);
    assert_eq!(pulse.pulse_intensity(ActivityLevel::High), 700);
    assert_eq!(pulse.pulse_intensity(ActivityLevel::Critical), 300);
}

#[test]
fn color_cycler_wraps_after_six_schemes() {
    let mut cycler = ColorCyclerStrategy::new();
    let mut seen = Vec::new();
    for _ in 0..7 {
        match cycler.execute() {
            StrategyAction::SendCommand { command: Command::ChangeColorScheme(s), .. } => {
                seen.push(s)
            }
            _ => panic!("expected a color scheme command"),
        }
    }
    assert_eq!(seen, vec![1, 2, 3, 4, 5, 0, 1]);
}

#[test]
fn fractal_rotation_reads_the_mutator_and_steps() {
    let mut rotation = FractalRotationStrategy::new();
    let mut registry = ComponentRegistry::new();
    registry.insert(mutator_with(1, FractalParameters::default()));
    let state = state_with(registry, ActivityLevel::Moderate);
    match rotation.execute(&state) {
        StrategyAction::SendCommand { command: Command::ChangeFractalType(t), .. } => {
            assert_eq!(t, 2)
        }
        _ => panic!("expected a fractal type command"),
    }
    assert_eq!(rotation.current_type, 1);

    let mut registry2 = ComponentRegistry::new();
    registry2.insert(mutator_with(2, FractalParameters::default()));
    let state2 = state_with(registry2, ActivityLevel::Moderate);
    match rotation.execute(&state2) {
        StrategyAction::SendCommand { command: Command::ChangeFractalType(t), .. } => {
            assert_eq!(t, 0)
        }
        _ => panic!("expected a fractal type command"),
    }
}

#[test]
fn fractal_rotation_falls_back_to_its_cached_kind() {
    let mut rotation = FractalRotationStrategy::new();
    let state = empty_state(ActivityLevel::Moderate);
    match rotation.execute(&state) {
        StrategyAction::SendCommand { command: Command::ChangeFractalType(t), .. } => {
            assert_eq!(t, 1)
        }
        _ => panic!("expected a fractal type command"),
    }
    assert_eq!(rotation.current_type, 0);
}

#[test]
fn dynamic_mutation_waits_on_small_changes() {
    // a freshly computed optimum within 0.02 of the cached value is a Wait,
    // not a command
    let mut dynamic = DynamicMutationStrategy::new();
    assert_eq!(dynamic.last_mutation_strength, 100);
    match dynamic.execute_with_strength(110) {
        StrategyAction::Wait { duration } => assert_eq!(duration, 30),
        _ => panic!("expected a wait"),
    }
    assert_eq!(dynamic.last_mutation_strength, 100);
}

#[test]
fn dynamic_mutation_sends_on_significant_changes() {
    let mut dynamic = DynamicMutationStrategy::new();
    match dynamic.execute_with_strength(130) {
        StrategyAction::SendCommand { target, command } => {
            assert_eq!(target, "FractalMutator");
            assert_eq!(command, Command::SetMutationStrength(130));
        }
        _ => panic!("expected a command"),
    }
    assert_eq!(dynamic.last_mutation_strength, 130);
}

#[test]
fn dynamic_optimal_strength_tracks_the_level() {
    // 0.15 scaled by 1.8 / 1.0 / 0.6 / 0.2, zero variation
    assert_eq!(DynamicMutationStrategy::optimal_strength_with(ActivityLevel::Low, 0), 270);
    assert_eq!(DynamicMutationStrategy::optimal_strength_with(ActivityLevel::Moderate, 0), 150);
    assert_eq!(DynamicMutationStrategy::optimal_strength_with(ActivityLevel::High, 0), 90);
    // 0.15 * 0.2 = 0.03 clamps up to the 0.05 floor
    assert_eq!(DynamicMutationStrategy::optimal_strength_with(ActivityLevel::Critical, 0), 50);
    assert_eq!(DynamicMutationStrategy::optimal_strength_with(ActivityLevel::Critical, -29), 50);
}

#[test]
fn intelligent_analysis_requires_the_explorer() {
    let strategy = IntelligentAnalysisStrategy::new();
    let state = empty_state(ActivityLevel::Moderate);
    assert!(!strategy.should_execute(&state, 100_000));

    let mut registry = ComponentRegistry::new();
    registry.insert(explorer_with(vec![]));
    let present = state_with(registry, ActivityLevel::Moderate);
    assert!(strategy.should_execute(&present, 100_000));
}

#[test]
fn intelligent_analysis_gates_on_the_interest_score() {
    let mut strategy = IntelligentAnalysisStrategy::new();
    strategy.mark_executed(100_000);
    let later = 100_000 + 301;

    let mut interesting = ComponentRegistry::new();
    interesting.insert(explorer_with(vec![("interesting_score", 800)]));
    assert!(!strategy.should_execute(&state_with(interesting, ActivityLevel::Moderate), later));

    let mut dull = ComponentRegistry::new();
    dull.insert(explorer_with(vec![("interesting_score", 500)]));
    assert!(strategy.should_execute(&state_with(dull, ActivityLevel::Moderate), later));

    let mut unknown = ComponentRegistry::new();
    unknown.insert(explorer_with(vec![]));
    assert!(strategy.should_execute(&state_with(unknown, ActivityLevel::Moderate), later));
}

#[test]
fn intelligent_analysis_requests_the_current_region() {
    let mut strategy = IntelligentAnalysisStrategy::new();
    let mut params = FractalParameters::default();
    params.center_x = 250;
    params.center_y = -125;
    params.zoom = 4000;
    let mut registry = ComponentRegistry::new();
    registry.insert(mutator_with(0, params));
    let state = state_with(registry, ActivityLevel::Low);
    match strategy.execute(&state) {
        StrategyAction::RequestAnalysis { region, parameters } => {
            assert_eq!(region.center_real, 250);
            assert_eq!(region.center_imag, -125);
            assert_eq!(region.zoom, 4000);
            assert_eq!(region.width, 2000);
            assert_eq!(parameters.resolution, 128);
            assert_eq!(parameters.max_iterations, 200);
            assert!(parameters.deep_scan);
        }
        _ => panic!("expected an analysis request"),
    }

    let calm = empty_state(ActivityLevel::Moderate);
    match strategy.execute(&calm) {
        StrategyAction::RequestAnalysis { region, parameters } => {
            assert_eq!(region, AnalysisRegion::default());
            assert!(!parameters.deep_scan);
        }
        _ => panic!("expected an analysis request"),
    }
}

#[test]
fn modifications_are_honored_or_ignored_by_kind() {
    let mut pulse = MutationStrategy::RandomPulse(RandomPulseStrategy::new());
    pulse.apply_modification(StrategyModification::Disable);
    assert!(!pulse.is_enabled());
    pulse.apply_modification(StrategyModification::Enable);
    assert!(pulse.is_enabled());
    pulse.apply_modification(StrategyModification::ChangeFrequency(120));
    match &pulse {
        MutationStrategy::RandomPulse(p) => assert_eq!(p.frequency, 120),
        _ => panic!(),
    }
    pulse.apply_modification(StrategyModification::AdjustParameters(
        String::from("intensity"),
        9_999,
    ));
    match &pulse {
        MutationStrategy::RandomPulse(p) => assert_eq!(p.mutation_intensity, 3000),
        _ => panic!(),
    }
    // an unrecognized parameter changes nothing
    pulse.apply_modification(StrategyModification::AdjustParameters(
        String::from("color"),
        5,
    ));
    match &pulse {
        MutationStrategy::RandomPulse(p) => assert_eq!(p.mutation_intensity, 3000),
        _ => panic!(),
    }

    let mut analysis = MutationStrategy::IntelligentAnalysis(IntelligentAnalysisStrategy::new());
    analysis.apply_modification(StrategyModification::AdjustParameters(
        String::from("threshold"),
        50,
    ));
    match &analysis {
        MutationStrategy::IntelligentAnalysis(p) => assert_eq!(p.analysis_threshold, 100),
        _ => panic!(),
    }

    let mut cycler = MutationStrategy::ColorCycler(ColorCyclerStrategy::new());
    cycler.apply_modification(StrategyModification::AdjustParameters(
        String::from("intensity"),
        7,
    ));
    match &cycler {
        MutationStrategy::ColorCycler(p) => assert_eq!(p.current_scheme, 0),
        _ => panic!(),
    }
}

#[test]
fn strategy_names_are_stable() {
    assert_eq!(MutationStrategy::RandomPulse(RandomPulseStrategy::new()).name(), "RandomPulse");
    assert_eq!(MutationStrategy::ColorCycler(ColorCyclerStrategy::new()).name(), "ColorCycler");
    assert_eq!(
        MutationStrategy::FractalRotation(FractalRotationStrategy::new()).name(),
        "FractalRotation"
    );
    assert_eq!(
        MutationStrategy::DynamicMutation(DynamicMutationStrategy::new()).name(),
        "DynamicMutation"
    );
    assert_eq!(
        MutationStrategy::IntelligentAnalysis(IntelligentAnalysisStrategy::new()).name(),
        "IntelligentAnalysis"
    );
}

#[test]
fn disabled_strategies_never_fire() {
    let mut cycler = ColorCyclerStrategy::new();
    cycler.apply_modification(StrategyModification::Disable);
    assert!(!cycler.should_execute(100_000));
}
