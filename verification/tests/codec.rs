use nexo::ecosystem::{Command, ExplorerRecommendation, FractalParameters, AnalysisRegion};

fn rec(text: &str) -> ExplorerRecommendation {
    ExplorerRecommendation {
        timestamp: String::from("2024-01-01T00:00:00Z"),
        from_component: String::from("FractalExplorer"),
        target_component: String::from("FractalMutator"),
        analysis_score: 500,
        recommendation: String::from(text),
    }
}

#[test]
fn mutator_encodings_cover_every_variant() {
    assert_eq!(Command::Mutate.to_mutator_string(), "mutate:true");
    assert_eq!(Command::Reset.to_mutator_string(), "reset:true");
    assert_eq!(Command::SetAutoMutation(true).to_mutator_string(), "auto_mutate:true");
    assert_eq!(Command::SetAutoMutation(false).to_mutator_string(), "auto_mutate:false");
    assert_eq!(Command::ChangeFractalType(2).to_mutator_string(), "fractal_type:2");
    assert_eq!(Command::ChangeFractalType(-1).to_mutator_string(), "fractal_type:-1");
    assert_eq!(Command::ChangeColorScheme(5).to_mutator_string(), "color_scheme:5");
    assert_eq!(Command::SetMutationStrength(150).to_mutator_string(), "mutation_strength:0.150");
    assert_eq!(Command::SetMutationStrength(-30).to_mutator_string(), "mutation_strength:-0.030");
    assert_eq!(Command::SetMutationStrength(12345).to_mutator_string(), "mutation_strength:12.345");
    assert_eq!(Command::ZoomIn(1500).to_mutator_string(), "zoom:in:1.500");
    assert_eq!(Command::ZoomOut(500).to_mutator_string(), "zoom:out:0.500");
    assert_eq!(Command::Shutdown.to_mutator_string(), "shutdown:true");
    assert_eq!(Command::Status.to_mutator_string(), "status:request");
    assert_eq!(
        Command::SetParameters(FractalParameters::default()).to_mutator_string(),
        "unknown:command"
    );
    assert_eq!(Command::AnalyzeCurrent.to_mutator_string(), "unknown:command");
    assert_eq!(Command::DeepScan.to_mutator_string(), "unknown:command");
    assert_eq!(Command::SetResolution(64).to_mutator_string(), "unknown:command");
    assert_eq!(
        Command::AnalyzeRegion(AnalysisRegion::default()).to_mutator_string(),
        "unknown:command"
    );
    assert_eq!(Command::GetMetrics.to_mutator_string(), "unknown:command");
}

#[test]
fn explorer_encodings_cover_every_variant() {
    assert_eq!(Command::AnalyzeCurrent.to_explorer_string(), "analyze_current:true");
    assert_eq!(Command::DeepScan.to_explorer_string(), "deep_scan:true");
    assert_eq!(Command::SetResolution(256).to_explorer_string(), "set_resolution:256");
    assert_eq!(Command::Shutdown.to_explorer_string(), "shutdown:true");
    assert_eq!(Command::Status.to_explorer_string(), "status:request");
    assert_eq!(Command::Mutate.to_explorer_string(), "unknown:command");
    assert_eq!(Command::SetMutationStrength(150).to_explorer_string(), "unknown:command");
}

#[test]
fn encoding_is_stable_across_repeated_calls() {
    let c = Command::SetMutationStrength(237);
    assert_eq!(c.to_mutator_string(), c.to_mutator_string());
    let d = Command::ZoomIn(2750);
    assert_eq!(d.to_mutator_string(), d.to_mutator_string());
    let e = Command::SetResolution(512);
    assert_eq!(e.to_explorer_string(), e.to_explorer_string());
}

#[test]
fn parse_recognizes_every_action() {
    assert_eq!(
        rec("INCREASE_MUTATION_STRENGTH:0.25").parse_as_command(),
        Some(Command::SetMutationStrength(250))
    );
    assert_eq!(
        rec("ENABLE_AUTO_MUTATION:true").parse_as_command(),
        Some(Command::SetAutoMutation(true))
    );
    assert_eq!(
        rec("ENABLE_AUTO_MUTATION:false").parse_as_command(),
        Some(Command::SetAutoMutation(false))
    );
    assert_eq!(
        rec("CHANGE_FRACTAL_TYPE:2").parse_as_command(),
        Some(Command::ChangeFractalType(2))
    );
    assert_eq!(
        rec("CHANGE_COLOR_SCHEME:3").parse_as_command(),
        Some(Command::ChangeColorScheme(3))
    );
    assert_eq!(rec("ZOOM_IN:1.5").parse_as_command(), Some(Command::ZoomIn(1500)));
    assert_eq!(rec("ZOOM_OUT:0.5").parse_as_command(), Some(Command::ZoomOut(500)));
    assert_eq!(rec("ZOOM_OUT:-0.5").parse_as_command(), Some(Command::ZoomOut(-500)));
    assert_eq!(rec("RESET_POSITION:true").parse_as_command(), Some(Command::Reset));
}

#[test]
fn parse_drops_malformed_and_unknown() {
    assert_eq!(rec("RESET_POSITION:false").parse_as_command(), None);
    assert_eq!(rec("UNKNOWN_ACTION:1").parse_as_command(), None);
    assert_eq!(rec("INCREASE_MUTATION_STRENGTH:abc").parse_as_command(), None);
    assert_eq!(rec("CHANGE_FRACTAL_TYPE:1.5").parse_as_command(), None);
    assert_eq!(rec("no colon here").parse_as_command(), None);
    assert_eq!(rec("TOO:MANY:PARTS").parse_as_command(), None);
    assert_eq!(rec("").parse_as_command(), None);
    assert_eq!(rec("INCREASE_MUTATION_STRENGTH:").parse_as_command(), None);
}

#[test]
fn parse_keeps_three_fractional_digits() {
    assert_eq!(rec("ZOOM_IN:1.2345").parse_as_command(), Some(Command::ZoomIn(1234)));
    assert_eq!(rec("ZOOM_IN:2").parse_as_command(), Some(Command::ZoomIn(2000)));
    assert_eq!(rec("ZOOM_IN:.5").parse_as_command(), Some(Command::ZoomIn(500)));
    assert_eq!(rec("ZOOM_IN:3.").parse_as_command(), Some(Command::ZoomIn(3000)));
    assert_eq!(rec("ZOOM_IN:.").parse_as_command(), None);
}

#[test]
fn parse_rejects_out_of_range_integers() {
    assert_eq!(rec("CHANGE_FRACTAL_TYPE:3000000000").parse_as_command(), None);
    assert_eq!(
        rec("CHANGE_COLOR_SCHEME:-3").parse_as_command(),
        Some(Command::ChangeColorScheme(-3))
    );
}
