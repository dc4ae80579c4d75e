//! The strategy engine: five independently timed decision units that read
//! the per-cycle ecosystem state and emit actions. Each owns its trigger
//! timer (`frequency` in seconds, `last_execution` as epoch seconds) and its
//! private state; the engine consults each once per cycle.

use vstd::prelude::*;
use crate::ecosystem::{ActivityLevel, AnalysisParameters, AnalysisRegion, Command, ComponentData,
    EcosystemState, spec_metric_lookup, spec_registry_find};
use crate::analysis::{registry_wf, mutator_fractal, explorer_analysis};
use crate::fixed::{valid_ts, spec_clamp, tdiv, clamp_i64};
use crate::external::random_in_range;
use crate::text::str_eq_chars;
use vstd::string::StringExecFns;

verus! {

/// A reconfiguration request routed to a strategy by name.
pub enum StrategyModification {
    ChangeFrequency(i64),
    Enable,
    Disable,
    AdjustParameters(String, i64),
}

/// What a strategy asks the coordinator to do; consumed in the same cycle.
pub enum StrategyAction {
    SendCommand { target: String, command: Command },
    ModifyStrategy { strategy_name: String, modification: StrategyModification },
    RequestAnalysis { region: AnalysisRegion, parameters: AnalysisParameters },
    Wait { duration: i64 },
}

/// A strategy timer is due when it never fired, or when at least
/// `frequency` seconds have passed since it last fired.
pub open spec fn timer_due(last: Option<i64>, frequency: i64, now: int) -> bool {
    match last {
        None => true,
        Some(t) => now - t >= frequency,
    }
}

pub open spec fn last_execution_wf(last: Option<i64>) -> bool {
    match last {
        None => true,
        Some(t) => valid_ts(t as int),
    }
}

/// Randomized mutation pulses: fires on a randomized interval, re-drawn
/// after each execution, and always asks the mutator to mutate once.
pub struct RandomPulseStrategy {
    pub enabled: bool,
    pub frequency: i64,
    pub last_execution: Option<i64>,
    pub mutation_intensity: i64,
}

/// Intensity multiplier by activity level: aggressive when quiet, gentle
/// when the system is already busy.
pub open spec fn pulse_multiplier(l: ActivityLevel) -> int {
    match l {
        ActivityLevel::Low => 1500,
        ActivityLevel::Moderate => 1000,
        ActivityLevel::High => 700,
        ActivityLevel::Critical => 300,
    }
}

/// What one pulse execution does: re-draws the interval within [15, 40)
/// and emits a mutate command; nothing else changes.
pub open spec fn rp_execute_post(
    pre: RandomPulseStrategy,
    post: RandomPulseStrategy,
    a: StrategyAction,
) -> bool {
    &&& 15 <= post.frequency < 40
    &&& post.enabled == pre.enabled
    &&& post.last_execution == pre.last_execution
    &&& post.mutation_intensity == pre.mutation_intensity
    &&& a matches StrategyAction::SendCommand { target, command } && target@
        == "FractalMutator"@ && command == Command::Mutate
}

impl RandomPulseStrategy {
    pub open spec fn wf(&self) -> bool {
        &&& last_execution_wf(self.last_execution)
        &&& 0 <= self.mutation_intensity <= 3000
    }

    /// The initial interval is drawn uniformly from [15, 45) seconds.
    pub fn new() -> (r: RandomPulseStrategy)
        ensures
            r.wf(),
            r.enabled,
            r.last_execution is None,
            15 <= r.frequency < 45,
            r.mutation_intensity == 1000,
    {
        RandomPulseStrategy {
            enabled: true,
            frequency: random_in_range(15, 45),
            last_execution: None,
            mutation_intensity: 1000,
        }
    }

    /// Fires unconditionally on the first call, regardless of the drawn
    /// frequency; afterwards only when the interval has elapsed.
    pub fn should_execute(&self, now: i64) -> (r: bool)
        requires
            self.wf(),
            valid_ts(now as int),
        ensures
            r == (self.enabled && timer_due(self.last_execution, self.frequency, now as int)),
    {
        if !self.enabled {
            return false;
        }
        match self.last_execution {
            Option::None => true,
            Option::Some(last) => now - last >= self.frequency,
        }
    }

    pub fn execute(&mut self) -> (a: StrategyAction)
        requires
            old(self).wf(),
        ensures
            final(self).wf(),
            rp_execute_post(*old(self), *final(self), a),
    {
        let variation = random_in_range(-10, 15);
        self.frequency = 25 + variation;
        StrategyAction::SendCommand {
            target: String::from_str("FractalMutator"),
            command: Command::Mutate,
        }
    }

    /// The intensity a pulse reports for logging: the configured intensity
    /// scaled by the activity multiplier. Observable only in the log; it is
    /// not attached to the emitted command.
    pub fn pulse_intensity(&self, level: ActivityLevel) -> (r: i64)
        requires
            self.wf(),
        ensures
            r as int == self.mutation_intensity * pulse_multiplier(level) / 1000,
    {
        let m: i64 = match level {
            ActivityLevel::Low => 1500,
            ActivityLevel::Moderate => 1000,
            ActivityLevel::High => 700,
            ActivityLevel::Critical => 300,
        };
        self.mutation_intensity * m / 1000
    }

    pub fn mark_executed(&mut self, now: i64)
        requires
            old(self).wf(),
            valid_ts(now as int),
        ensures
            final(self).wf(),
            *final(self) == (RandomPulseStrategy { last_execution: Some(now), ..*old(self) }),
    {
        self.last_execution = Some(now);
    }

    pub fn apply_modification(&mut self, modification: StrategyModification)
        requires
            old(self).wf(),
        ensures
            final(self).wf(),
            match modification {
                StrategyModification::ChangeFrequency(f) => *final(self) == (RandomPulseStrategy {
                    frequency: f,
                    ..*old(self)
                }),
                StrategyModification::Enable => *final(self) == (RandomPulseStrategy {
                    enabled: true,
                    ..*old(self)
                }),
                StrategyModification::Disable => *final(self) == (RandomPulseStrategy {
                    enabled: false,
                    ..*old(self)
                }),
                StrategyModification::AdjustParameters(param, value) => if param@ == "intensity"@ {
                    *final(self) == (RandomPulseStrategy {
                        mutation_intensity: spec_clamp(value as int, 100, 3000) as i64,
                        ..*old(self)
                    })
                } else {
                    *final(self) == *old(self)
                },
            },
    {
        match modification {
            StrategyModification::ChangeFrequency(f) => {
                self.frequency = f;
            },
            StrategyModification::Enable => {
                self.enabled = true;
            },
            StrategyModification::Disable => {
                self.enabled = false;
            },
            StrategyModification::AdjustParameters(param, value) => {
                if str_eq_chars(param.as_str(), "intensity") {
                    self.mutation_intensity = clamp_i64(value, 100, 3000);
                }
            },
        }
    }
}

/// Rotates the renderer's color scheme on a fixed one-minute interval.
pub struct ColorCyclerStrategy {
    pub enabled: bool,
    pub frequency: i64,
    pub last_execution: Option<i64>,
    pub current_scheme: i32,
}

impl ColorCyclerStrategy {
    pub open spec fn wf(&self) -> bool {
        &&& last_execution_wf(self.last_execution)
        &&& 0 <= self.current_scheme < 6
    }

    pub fn new() -> (r: ColorCyclerStrategy)
        ensures
            r.wf(),
            r.enabled,
            r.frequency == 60,
            r.last_execution is None,
            r.current_scheme == 0,
    {
        ColorCyclerStrategy { enabled: true, frequency: 60, last_execution: None, current_scheme: 0 }
    }

    pub fn should_execute(&self, now: i64) -> (r: bool)
        requires
            self.wf(),
            valid_ts(now as int),
        ensures
            r == (self.enabled && timer_due(self.last_execution, self.frequency, now as int)),
    {
        if !self.enabled {
            return false;
        }
        match self.last_execution {
            Option::None => true,
            Option::Some(last) => now - last >= self.frequency,
        }
    }

    /// Steps to the next of the six schemes and asks the mutator to use it.
    pub fn execute(&mut self) -> (a: StrategyAction)
        requires
            old(self).wf(),
        ensures
            final(self).wf(),
            final(self).current_scheme == (old(self).current_scheme + 1) % 6,
            final(self).enabled == old(self).enabled,
            final(self).frequency == old(self).frequency,
            final(self).last_execution == old(self).last_execution,
            a matches StrategyAction::SendCommand { target, command } && target@
                == "FractalMutator"@ && command == Command::ChangeColorScheme(
                final(self).current_scheme,
            ),
    {
        self.current_scheme = (self.current_scheme + 1) % 6;
        StrategyAction::SendCommand {
            target: String::from_str("FractalMutator"),
            command: Command::ChangeColorScheme(self.current_scheme),
        }
    }

    pub fn mark_executed(&mut self, now: i64)
        requires
            old(self).wf(),
            valid_ts(now as int),
        ensures
            final(self).wf(),
            *final(self) == (ColorCyclerStrategy { last_execution: Some(now), ..*old(self) }),
    {
        self.last_execution = Some(now);
    }

    pub fn apply_modification(&mut self, modification: StrategyModification)
        requires
            old(self).wf(),
        ensures
            final(self).wf(),
            match modification {
                StrategyModification::ChangeFrequency(f) => *final(self) == (ColorCyclerStrategy {
                    frequency: f,
                    ..*old(self)
                }),
                StrategyModification::Enable => *final(self) == (ColorCyclerStrategy {
                    enabled: true,
                    ..*old(self)
                }),
                StrategyModification::Disable => *final(self) == (ColorCyclerStrategy {
                    enabled: false,
                    ..*old(self)
                }),
                StrategyModification::AdjustParameters(_, _) => *final(self) == *old(self),
            },
    {
        match modification {
            StrategyModification::ChangeFrequency(f) => {
                self.frequency = f;
            },
            StrategyModification::Enable => {
                self.enabled = true;
            },
            StrategyModification::Disable => {
                self.enabled = false;
            },
            StrategyModification::AdjustParameters(_, _) => {},
        }
    }
}

/// Rotates among the three fractal kinds on a fixed three-minute interval,
/// starting from the kind the mutator currently reports.
pub struct FractalRotationStrategy {
    pub enabled: bool,
    pub frequency: i64,
    pub last_execution: Option<i64>,
    pub current_type: i32,
}

/// Remainder with truncation toward zero, as the running code's `%`.
pub open spec fn trem(a: int, b: int) -> int
    recommends
        b > 0,
{
    if a >= 0 {
        a % b
    } else {
        -((-a) % b)
    }
}

/// The fractal kind the rotation reads this cycle: the mutator's reported
/// kind, or its own cached kind when the mutator is silent.
pub open spec fn rotation_read(s: Seq<crate::ecosystem::ComponentInfo>, cached: i32) -> int {
    match mutator_fractal(s) {
        Some(f) => f.fractal_type as int,
        None => cached as int,
    }
}

impl FractalRotationStrategy {
    pub open spec fn wf(&self) -> bool {
        &&& last_execution_wf(self.last_execution)
        &&& -1_000_000_000 <= self.current_type <= 1_000_000_000
    }

    pub fn new() -> (r: FractalRotationStrategy)
        ensures
            r.wf(),
            r.enabled,
            r.frequency == 180,
            r.last_execution is None,
            r.current_type == 0,
    {
        FractalRotationStrategy {
            enabled: true,
            frequency: 180,
            last_execution: None,
            current_type: 0,
        }
    }

    pub fn should_execute(&self, now: i64) -> (r: bool)
        requires
            self.wf(),
            valid_ts(now as int),
        ensures
            r == (self.enabled && timer_due(self.last_execution, self.frequency, now as int)),
    {
        if !self.enabled {
            return false;
        }
        match self.last_execution {
            Option::None => true,
            Option::Some(last) => now - last >= self.frequency,
        }
    }

    /// Reads the mutator's current kind (falling back to the cached one)
    /// and asks for the next kind, cycling through the three.
    pub fn execute(&mut self, state: &EcosystemState) -> (a: StrategyAction)
        requires
            old(self).wf(),
            registry_wf(&state.components),
        ensures
            final(self).wf(),
            final(self).current_type as int == rotation_read(
                state.components.entries@,
                old(self).current_type,
            ),
            final(self).enabled == old(self).enabled,
            final(self).frequency == old(self).frequency,
            final(self).last_execution == old(self).last_execution,
            a matches StrategyAction::SendCommand { target, command } && target@
                == "FractalMutator"@ && command == Command::ChangeFractalType(
                (trem(final(self).current_type + 1, 3)) as i32,
            ),
    {
        match state.components.get("FractalMutator") {
            Option::Some(info) => {
                match &info.data {
                    Option::Some(ComponentData::Fractal(f)) => {
                        proof {
                            crate::ecosystem::lemma_registry_find_props(
                                state.components.entries@,
                                "FractalMutator"@,
                            );
                        }
                        self.current_type = f.fractal_type;
                    },
                    _ => {},
                }
            },
            Option::None => {},
        }
        let c = self.current_type;
        let next: i32 = if c + 1 >= 0 {
            (c + 1) % 3
        } else {
            -((-(c + 1)) % 3)
        };
        StrategyAction::SendCommand {
            target: String::from_str("FractalMutator"),
            command: Command::ChangeFractalType(next),
        }
    }

    pub fn mark_executed(&mut self, now: i64)
        requires
            old(self).wf(),
            valid_ts(now as int),
        ensures
            final(self).wf(),
            *final(self) == (FractalRotationStrategy { last_execution: Some(now), ..*old(self) }),
    {
        self.last_execution = Some(now);
    }

    pub fn apply_modification(&mut self, modification: StrategyModification)
        requires
            old(self).wf(),
        ensures
            final(self).wf(),
            match modification {
                StrategyModification::ChangeFrequency(f) => *final(self)
                    == (FractalRotationStrategy { frequency: f, ..*old(self) }),
                StrategyModification::Enable => *final(self) == (FractalRotationStrategy {
                    enabled: true,
                    ..*old(self)
                }),
                StrategyModification::Disable => *final(self) == (FractalRotationStrategy {
                    enabled: false,
                    ..*old(self)
                }),
                StrategyModification::AdjustParameters(_, _) => *final(self) == *old(self),
            },
    {
        match modification {
            StrategyModification::ChangeFrequency(f) => {
                self.frequency = f;
            },
            StrategyModification::Enable => {
                self.enabled = true;
            },
            StrategyModification::Disable => {
                self.enabled = false;
            },
            StrategyModification::AdjustParameters(_, _) => {},
        }
    }
}

/// Adapts the mutation strength to the activity level every 90 seconds,
/// but only sends a command when the optimum moved by more than 0.02.
pub struct DynamicMutationStrategy {
    pub enabled: bool,
    pub frequency: i64,
    pub last_execution: Option<i64>,
    pub last_mutation_strength: i64,
}

/// Strength multiplier by activity level: stimulate when quiet, calm down
/// when critical.
pub open spec fn strength_multiplier(l: ActivityLevel) -> int {
    match l {
        ActivityLevel::Low => 1800,
        ActivityLevel::Moderate => 1000,
        ActivityLevel::High => 600,
        ActivityLevel::Critical => 200,
    }
}

/// The optimal strength for a level and a drawn variation: a 0.15 base
/// scaled by the level multiplier, jittered, clamped to [0.05, 0.5].
pub open spec fn spec_optimal_strength(l: ActivityLevel, variation: int) -> int {
    spec_clamp(tdiv(150 * strength_multiplier(l), 1000) + variation, 50, 500)
}

/// Whether a newly computed optimum differs enough from the cached value
/// to be worth a command: by more than 0.02.
pub open spec fn strength_differs(cached: int, optimal: int) -> bool {
    optimal - cached > 20 || cached - optimal > 20
}

impl DynamicMutationStrategy {
    pub open spec fn wf(&self) -> bool {
        &&& last_execution_wf(self.last_execution)
        &&& 50 <= self.last_mutation_strength <= 500
    }

    pub fn new() -> (r: DynamicMutationStrategy)
        ensures
            r.wf(),
            r.enabled,
            r.frequency == 90,
            r.last_execution is None,
            r.last_mutation_strength == 100,
    {
        DynamicMutationStrategy {
            enabled: true,
            frequency: 90,
            last_execution: None,
            last_mutation_strength: 100,
        }
    }

    pub fn should_execute(&self, now: i64) -> (r: bool)
        requires
            self.wf(),
            valid_ts(now as int),
        ensures
            r == (self.enabled && timer_due(self.last_execution, self.frequency, now as int)),
    {
        if !self.enabled {
            return false;
        }
        match self.last_execution {
            Option::None => true,
            Option::Some(last) => now - last >= self.frequency,
        }
    }

    /// The optimal strength for a level and a concrete variation draw.
    pub fn optimal_strength_with(level: ActivityLevel, variation: i64) -> (r: i64)
        requires
            -30 <= variation < 30,
        ensures
            r as int == spec_optimal_strength(level, variation as int),
            50 <= r <= 500,
    {
        let m: i64 = match level {
            ActivityLevel::Low => 1800,
            ActivityLevel::Moderate => 1000,
            ActivityLevel::High => 600,
            ActivityLevel::Critical => 200,
        };
        clamp_i64(150 * m / 1000 + variation, 50, 500)
    }

    /// The deterministic tail of one execution: sends the new strength only
    /// when it differs from the cached one by more than 0.02, else waits.
    pub fn execute_with_strength(&mut self, optimal: i64) -> (a: StrategyAction)
        requires
            old(self).wf(),
            50 <= optimal <= 500,
        ensures
            final(self).wf(),
            final(self).enabled == old(self).enabled,
            final(self).frequency == old(self).frequency,
            final(self).last_execution == old(self).last_execution,
            if strength_differs(old(self).last_mutation_strength as int, optimal as int) {
                final(self).last_mutation_strength == optimal && (a
                    matches StrategyAction::SendCommand { target, command } && target@
                    == "FractalMutator"@ && command == Command::SetMutationStrength(optimal))
            } else {
                final(self).last_mutation_strength == old(self).last_mutation_strength && (a
                    matches StrategyAction::Wait { duration } && duration == 30)
            },
    {
        let diff = optimal - self.last_mutation_strength;
        if diff > 20 || diff < -20 {
            self.last_mutation_strength = optimal;
            StrategyAction::SendCommand {
                target: String::from_str("FractalMutator"),
                command: Command::SetMutationStrength(optimal),
            }
        } else {
            StrategyAction::Wait { duration: 30 }
        }
    }

    /// One execution: draws a small variation, computes the optimum for the
    /// state's activity level, and defers to the deterministic tail.
    pub fn execute(&mut self, state: &EcosystemState) -> (a: StrategyAction)
        requires
            old(self).wf(),
        ensures
            final(self).wf(),
            final(self).enabled == old(self).enabled,
            final(self).frequency == old(self).frequency,
            final(self).last_execution == old(self).last_execution,
            a matches StrategyAction::SendCommand { target, command } ==> target@
                == "FractalMutator"@ && command == Command::SetMutationStrength(
                final(self).last_mutation_strength,
            ) && strength_differs(
                old(self).last_mutation_strength as int,
                final(self).last_mutation_strength as int,
            ) && exists|v: int|
                -30 <= v < 30 && final(self).last_mutation_strength as int
                    == spec_optimal_strength(state.activity_level, v),
            a matches StrategyAction::Wait { duration } ==> duration == 30 && *final(self)
                == *old(self) && exists|v: int|
                -30 <= v < 30 && !strength_differs(
                    old(self).last_mutation_strength as int,
                    spec_optimal_strength(state.activity_level, v),
                ),
            a is SendCommand || a is Wait,
    {
        let variation = random_in_range(-30, 30);
        let optimal = Self::optimal_strength_with(state.activity_level, variation);
        let a = self.execute_with_strength(optimal);
        proof {
            let v = variation as int;
            assert(-30 <= v < 30);
        }
        a
    }

    pub fn mark_executed(&mut self, now: i64)
        requires
            old(self).wf(),
            valid_ts(now as int),
        ensures
            final(self).wf(),
            *final(self) == (DynamicMutationStrategy { last_execution: Some(now), ..*old(self) }),
    {
        self.last_execution = Some(now);
    }

    pub fn apply_modification(&mut self, modification: StrategyModification)
        requires
            old(self).wf(),
        ensures
            final(self).wf(),
            match modification {
                StrategyModification::ChangeFrequency(f) => *final(self)
                    == (DynamicMutationStrategy { frequency: f, ..*old(self) }),
                StrategyModification::Enable => *final(self) == (DynamicMutationStrategy {
                    enabled: true,
                    ..*old(self)
                }),
                StrategyModification::Disable => *final(self) == (DynamicMutationStrategy {
                    enabled: false,
                    ..*old(self)
                }),
                StrategyModification::AdjustParameters(_, _) => *final(self) == *old(self),
            },
    {
        match modification {
            StrategyModification::ChangeFrequency(f) => {
                self.frequency = f;
            },
            StrategyModification::Enable => {
                self.enabled = true;
            },
            StrategyModification::Disable => {
                self.enabled = false;
            },
            StrategyModification::AdjustParameters(_, _) => {},
        }
    }
}

/// Requests a fresh analysis every five minutes, but only while the
/// explorer is present and its last reported interest is below the
/// threshold (or unknown).
pub struct IntelligentAnalysisStrategy {
    pub enabled: bool,
    pub frequency: i64,
    pub last_execution: Option<i64>,
    pub analysis_threshold: i64,
}

/// Whether a fresh analysis is worth requesting: the explorer's interest
/// score is below the threshold, or there is no score to go by.
pub open spec fn analysis_wanted(
    s: Seq<crate::ecosystem::ComponentInfo>,
    threshold: int,
) -> bool {
    match explorer_analysis(s) {
        Some(a) => match spec_metric_lookup(a.metrics.entries@, "interesting_score"@) {
            Some(score) => (score as int) < threshold,
            None => true,
        },
        None => true,
    }
}

/// The region an analysis request covers: around the mutator's current
/// center at its zoom, or the default unit region.
pub open spec fn spec_request_region(s: Seq<crate::ecosystem::ComponentInfo>) -> AnalysisRegion {
    match mutator_fractal(s) {
        Some(f) => AnalysisRegion {
            center_real: f.parameters.center_x,
            center_imag: f.parameters.center_y,
            width: 2000,
            height: 2000,
            zoom: f.parameters.zoom,
        },
        None => AnalysisRegion::default_spec(),
    }
}

impl IntelligentAnalysisStrategy {
    pub open spec fn wf(&self) -> bool {
        &&& last_execution_wf(self.last_execution)
        &&& 100 <= self.analysis_threshold <= 1000
    }

    pub fn new() -> (r: IntelligentAnalysisStrategy)
        ensures
            r.wf(),
            r.enabled,
            r.frequency == 300,
            r.last_execution is None,
            r.analysis_threshold == 700,
    {
        IntelligentAnalysisStrategy {
            enabled: true,
            frequency: 300,
            last_execution: None,
            analysis_threshold: 700,
        }
    }

    pub fn should_request_analysis(&self, state: &EcosystemState) -> (r: bool)
        ensures
            r == analysis_wanted(state.components.entries@, self.analysis_threshold as int),
    {
        match state.components.get("FractalExplorer") {
            Option::Some(info) => match &info.data {
                Option::Some(ComponentData::Analysis(a)) => {
                    match a.metrics.get("interesting_score") {
                        Option::Some(score) => score < self.analysis_threshold,
                        Option::None => true,
                    }
                },
                _ => true,
            },
            Option::None => true,
        }
    }

    /// Eligible only while the explorer is present; fires on the first call
    /// and afterwards when the interval has elapsed and an analysis is
    /// still wanted.
    pub fn should_execute(&self, state: &EcosystemState, now: i64) -> (r: bool)
        requires
            self.wf(),
            valid_ts(now as int),
        ensures
            r == (self.enabled && spec_registry_find(state.components.entries@, "FractalExplorer"@)
                is Some && (match self.last_execution {
                Option::None => true,
                Option::Some(t) => now - t >= self.frequency && analysis_wanted(
                    state.components.entries@,
                    self.analysis_threshold as int,
                ),
            })),
    {
        if !self.enabled {
            return false;
        }
        let explorer_present = match state.components.get("FractalExplorer") {
            Option::Some(_) => true,
            Option::None => false,
        };
        if !explorer_present {
            return false;
        }
        match self.last_execution {
            Option::None => true,
            Option::Some(last) => {
                let time_condition = now - last >= self.frequency;
                let analysis_condition = self.should_request_analysis(state);
                time_condition && analysis_condition
            },
        }
    }

    /// Asks for an analysis of the mutator's current region; a deep scan
    /// when activity is low.
    pub fn execute(&mut self, state: &EcosystemState) -> (a: StrategyAction)
        requires
            old(self).wf(),
        ensures
            *final(self) == *old(self),
            a matches StrategyAction::RequestAnalysis { region, parameters } && region
                == spec_request_region(state.components.entries@) && parameters
                == (AnalysisParameters {
                resolution: 128,
                max_iterations: 200,
                deep_scan: state.activity_level == ActivityLevel::Low,
            }),
    {
        let region = match state.components.get("FractalMutator") {
            Option::Some(info) => match &info.data {
                Option::Some(ComponentData::Fractal(f)) => AnalysisRegion {
                    center_real: f.parameters.center_x,
                    center_imag: f.parameters.center_y,
                    width: 2000,
                    height: 2000,
                    zoom: f.parameters.zoom,
                },
                _ => AnalysisRegion::default(),
            },
            Option::None => AnalysisRegion::default(),
        };
        let deep_scan = matches!(state.activity_level, ActivityLevel::Low);
        StrategyAction::RequestAnalysis {
            region,
            parameters: AnalysisParameters { resolution: 128, max_iterations: 200, deep_scan },
        }
    }

    pub fn mark_executed(&mut self, now: i64)
        requires
            old(self).wf(),
            valid_ts(now as int),
        ensures
            final(self).wf(),
            *final(self) == (IntelligentAnalysisStrategy {
                last_execution: Some(now),
                ..*old(self)
            }),
    {
        self.last_execution = Some(now);
    }

    pub fn apply_modification(&mut self, modification: StrategyModification)
        requires
            old(self).wf(),
        ensures
            final(self).wf(),
            match modification {
                StrategyModification::ChangeFrequency(f) => *final(self)
                    == (IntelligentAnalysisStrategy { frequency: f, ..*old(self) }),
                StrategyModification::Enable => *final(self) == (IntelligentAnalysisStrategy {
                    enabled: true,
                    ..*old(self)
                }),
                StrategyModification::Disable => *final(self) == (IntelligentAnalysisStrategy {
                    enabled: false,
                    ..*old(self)
                }),
                StrategyModification::AdjustParameters(param, value) => if param@ == "threshold"@ {
                    *final(self) == (IntelligentAnalysisStrategy {
                        analysis_threshold: spec_clamp(value as int, 100, 1000) as i64,
                        ..*old(self)
                    })
                } else {
                    *final(self) == *old(self)
                },
            },
    {
        match modification {
            StrategyModification::ChangeFrequency(f) => {
                self.frequency = f;
            },
            StrategyModification::Enable => {
                self.enabled = true;
            },
            StrategyModification::Disable => {
                self.enabled = false;
            },
            StrategyModification::AdjustParameters(param, value) => {
                if str_eq_chars(param.as_str(), "threshold") {
                    self.analysis_threshold = clamp_i64(value, 100, 1000);
                }
            },
        }
    }
}

} // verus!

verus! {

/// What one color-cycle execution does.
pub open spec fn cc_execute_post(
    pre: ColorCyclerStrategy,
    post: ColorCyclerStrategy,
    a: StrategyAction,
) -> bool {
    &&& post.current_scheme == (pre.current_scheme + 1) % 6
    &&& post.enabled == pre.enabled
    &&& post.frequency == pre.frequency
    &&& post.last_execution == pre.last_execution
    &&& a matches StrategyAction::SendCommand { target, command } && target@
        == "FractalMutator"@ && command == Command::ChangeColorScheme(post.current_scheme)
}

/// What one rotation execution does, against the registry it read.
pub open spec fn fr_execute_post(
    pre: FractalRotationStrategy,
    post: FractalRotationStrategy,
    a: StrategyAction,
    s: Seq<crate::ecosystem::ComponentInfo>,
) -> bool {
    &&& post.current_type as int == rotation_read(s, pre.current_type)
    &&& post.enabled == pre.enabled
    &&& post.frequency == pre.frequency
    &&& post.last_execution == pre.last_execution
    &&& a matches StrategyAction::SendCommand { target, command } && target@
        == "FractalMutator"@ && command == Command::ChangeFractalType(
        (trem(post.current_type + 1, 3)) as i32,
    )
}

/// What one dynamic-mutation execution does, for the activity level it saw:
/// some variation in [-0.03, 0.03) was drawn; the command is sent exactly
/// when the resulting optimum moved by more than 0.02.
pub open spec fn dm_execute_post(
    pre: DynamicMutationStrategy,
    post: DynamicMutationStrategy,
    a: StrategyAction,
    level: ActivityLevel,
) -> bool {
    &&& post.enabled == pre.enabled
    &&& post.frequency == pre.frequency
    &&& post.last_execution == pre.last_execution
    &&& (a matches StrategyAction::SendCommand { target, command } ==> target@
        == "FractalMutator"@ && command == Command::SetMutationStrength(
        post.last_mutation_strength,
    ) && strength_differs(pre.last_mutation_strength as int, post.last_mutation_strength as int)
        && exists|v: int|
        -30 <= v < 30 && post.last_mutation_strength as int == spec_optimal_strength(level, v))
    &&& (a matches StrategyAction::Wait { duration } ==> duration == 30 && post == pre
        && exists|v: int|
        -30 <= v < 30 && !strength_differs(
            pre.last_mutation_strength as int,
            spec_optimal_strength(level, v),
        ))
    &&& (a is SendCommand || a is Wait)
}

/// What one analysis-request execution does, against the registry and level
/// it saw.
pub open spec fn ia_execute_post(
    pre: IntelligentAnalysisStrategy,
    post: IntelligentAnalysisStrategy,
    a: StrategyAction,
    s: Seq<crate::ecosystem::ComponentInfo>,
    level: ActivityLevel,
) -> bool {
    &&& post == pre
    &&& a matches StrategyAction::RequestAnalysis { region, parameters } && region
        == spec_request_region(s) && parameters == (AnalysisParameters {
        resolution: 128,
        max_iterations: 200,
        deep_scan: level == ActivityLevel::Low,
    })
}

/// What one execution of a strategy does, whichever variant it is: the
/// variant is kept and its own postcondition predicate holds against the
/// state it saw.
pub open spec fn strategy_execute_post(
    pre: MutationStrategy,
    post: MutationStrategy,
    a: StrategyAction,
    state: &EcosystemState,
) -> bool {
    match pre {
        MutationStrategy::RandomPulse(p) => post is RandomPulse && rp_execute_post(
            p,
            post->RandomPulse_0,
            a,
        ),
        MutationStrategy::ColorCycler(p) => post is ColorCycler && cc_execute_post(
            p,
            post->ColorCycler_0,
            a,
        ),
        MutationStrategy::FractalRotation(p) => post is FractalRotation && fr_execute_post(
            p,
            post->FractalRotation_0,
            a,
            state.components.entries@,
        ),
        MutationStrategy::DynamicMutation(p) => post is DynamicMutation && dm_execute_post(
            p,
            post->DynamicMutation_0,
            a,
            state.activity_level,
        ),
        MutationStrategy::IntelligentAnalysis(p) => post is IntelligentAnalysis
            && ia_execute_post(
            p,
            post->IntelligentAnalysis_0,
            a,
            state.components.entries@,
            state.activity_level,
        ),
    }
}

/// What one engine step does to an eligible strategy: it executed against
/// the state (witnessed by its mid value) and its timer was then stamped.
pub open spec fn strategy_cycle_post(
    pre: MutationStrategy,
    post: MutationStrategy,
    a: StrategyAction,
    state: &EcosystemState,
    now: i64,
) -> bool {
    exists|mid: MutationStrategy|
        #[trigger] spec_marked(mid, now) == post && strategy_execute_post(pre, mid, a, state)
}

/// The closed set of strategies the coordinator schedules, behind one
/// dispatching surface.
pub enum MutationStrategy {
    RandomPulse(RandomPulseStrategy),
    ColorCycler(ColorCyclerStrategy),
    FractalRotation(FractalRotationStrategy),
    DynamicMutation(DynamicMutationStrategy),
    IntelligentAnalysis(IntelligentAnalysisStrategy),
}

impl MutationStrategy {
    pub open spec fn wf(&self) -> bool {
        match self {
            MutationStrategy::RandomPulse(p) => p.wf(),
            MutationStrategy::ColorCycler(p) => p.wf(),
            MutationStrategy::FractalRotation(p) => p.wf(),
            MutationStrategy::DynamicMutation(p) => p.wf(),
            MutationStrategy::IntelligentAnalysis(p) => p.wf(),
        }
    }

    pub open spec fn spec_name(&self) -> Seq<char> {
        match self {
            MutationStrategy::RandomPulse(_) => "RandomPulse"@,
            MutationStrategy::ColorCycler(_) => "ColorCycler"@,
            MutationStrategy::FractalRotation(_) => "FractalRotation"@,
            MutationStrategy::DynamicMutation(_) => "DynamicMutation"@,
            MutationStrategy::IntelligentAnalysis(_) => "IntelligentAnalysis"@,
        }
    }

    /// The strategy's timer stamp, whichever variant it is.
    pub open spec fn spec_last_execution(&self) -> Option<i64> {
        match self {
            MutationStrategy::RandomPulse(p) => p.last_execution,
            MutationStrategy::ColorCycler(p) => p.last_execution,
            MutationStrategy::FractalRotation(p) => p.last_execution,
            MutationStrategy::DynamicMutation(p) => p.last_execution,
            MutationStrategy::IntelligentAnalysis(p) => p.last_execution,
        }
    }

    pub open spec fn spec_enabled(&self) -> bool {
        match self {
            MutationStrategy::RandomPulse(p) => p.enabled,
            MutationStrategy::ColorCycler(p) => p.enabled,
            MutationStrategy::FractalRotation(p) => p.enabled,
            MutationStrategy::DynamicMutation(p) => p.enabled,
            MutationStrategy::IntelligentAnalysis(p) => p.enabled,
        }
    }

    /// Eligibility of the strategy this cycle: its own timer, plus the
    /// analysis strategy's extra gating.
    pub open spec fn spec_should_execute(&self, state: &EcosystemState, now: int) -> bool {
        match self {
            MutationStrategy::RandomPulse(p) => p.enabled && timer_due(
                p.last_execution,
                p.frequency,
                now,
            ),
            MutationStrategy::ColorCycler(p) => p.enabled && timer_due(
                p.last_execution,
                p.frequency,
                now,
            ),
            MutationStrategy::FractalRotation(p) => p.enabled && timer_due(
                p.last_execution,
                p.frequency,
                now,
            ),
            MutationStrategy::DynamicMutation(p) => p.enabled && timer_due(
                p.last_execution,
                p.frequency,
                now,
            ),
            MutationStrategy::IntelligentAnalysis(p) => p.enabled && spec_registry_find(
                state.components.entries@,
                "FractalExplorer"@,
            ) is Some && (match p.last_execution {
                Option::None => true,
                Option::Some(t) => now - t >= p.frequency && analysis_wanted(
                    state.components.entries@,
                    p.analysis_threshold as int,
                ),
            }),
        }
    }

    pub fn name(&self) -> (r: &'static str)
        ensures
            r@ == self.spec_name(),
    {
        match self {
            MutationStrategy::RandomPulse(_) => "RandomPulse",
            MutationStrategy::ColorCycler(_) => "ColorCycler",
            MutationStrategy::FractalRotation(_) => "FractalRotation",
            MutationStrategy::DynamicMutation(_) => "DynamicMutation",
            MutationStrategy::IntelligentAnalysis(_) => "IntelligentAnalysis",
        }
    }

    pub fn description(&self) -> (r: &'static str) {
        match self {
            MutationStrategy::RandomPulse(_) => {
                "Mutaciones aleatorias para mantener evolución constante"
            },
            MutationStrategy::ColorCycler(_) => "Rotación periódica de esquemas de color",
            MutationStrategy::FractalRotation(_) => "Rotación entre diferentes tipos de fractales",
            MutationStrategy::DynamicMutation(_) => {
                "Ajuste dinámico de la fuerza de mutación según el estado del ecosistema"
            },
            MutationStrategy::IntelligentAnalysis(_) => {
                "Solicita análisis inteligente basado en el estado del ecosistema"
            },
        }
    }

    pub fn is_enabled(&self) -> (r: bool)
        ensures
            r == self.spec_enabled(),
    {
        match self {
            MutationStrategy::RandomPulse(p) => p.enabled,
            MutationStrategy::ColorCycler(p) => p.enabled,
            MutationStrategy::FractalRotation(p) => p.enabled,
            MutationStrategy::DynamicMutation(p) => p.enabled,
            MutationStrategy::IntelligentAnalysis(p) => p.enabled,
        }
    }

    pub fn should_execute(&self, state: &EcosystemState, now: i64) -> (r: bool)
        requires
            self.wf(),
            valid_ts(now as int),
        ensures
            r == self.spec_should_execute(state, now as int),
    {
        match self {
            MutationStrategy::RandomPulse(p) => p.should_execute(now),
            MutationStrategy::ColorCycler(p) => p.should_execute(now),
            MutationStrategy::FractalRotation(p) => p.should_execute(now),
            MutationStrategy::DynamicMutation(p) => p.should_execute(now),
            MutationStrategy::IntelligentAnalysis(p) => p.should_execute(state, now),
        }
    }

    /// One execution of the strategy against this cycle's state. Each
    /// variant's effect is pinned by its own postcondition predicate.
    pub fn execute(&mut self, state: &EcosystemState) -> (a: StrategyAction)
        requires
            old(self).wf(),
            registry_wf(&state.components),
        ensures
            final(self).wf(),
            strategy_execute_post(*old(self), *final(self), a, state),
    {
        match self {
            MutationStrategy::RandomPulse(p) => p.execute(),
            MutationStrategy::ColorCycler(p) => p.execute(),
            MutationStrategy::FractalRotation(p) => p.execute(state),
            MutationStrategy::DynamicMutation(p) => p.execute(state),
            MutationStrategy::IntelligentAnalysis(p) => p.execute(state),
        }
    }

    /// Stamps the strategy's timer with the time it just ran.
    pub fn mark_executed(&mut self, now: i64)
        requires
            old(self).wf(),
            valid_ts(now as int),
        ensures
            final(self).wf(),
            *final(self) == spec_marked(*old(self), now),
    {
        match self {
            MutationStrategy::RandomPulse(p) => p.mark_executed(now),
            MutationStrategy::ColorCycler(p) => p.mark_executed(now),
            MutationStrategy::FractalRotation(p) => p.mark_executed(now),
            MutationStrategy::DynamicMutation(p) => p.mark_executed(now),
            MutationStrategy::IntelligentAnalysis(p) => p.mark_executed(now),
        }
    }

    /// Applies a reconfiguration; each strategy honors only the kinds it
    /// recognizes and ignores the rest.
    pub fn apply_modification(&mut self, modification: StrategyModification)
        requires
            old(self).wf(),
        ensures
            final(self).wf(),
            *final(self) == spec_modified(*old(self), modification),
    {
        match self {
            MutationStrategy::RandomPulse(p) => p.apply_modification(modification),
            MutationStrategy::ColorCycler(p) => p.apply_modification(modification),
            MutationStrategy::FractalRotation(p) => p.apply_modification(modification),
            MutationStrategy::DynamicMutation(p) => p.apply_modification(modification),
            MutationStrategy::IntelligentAnalysis(p) => p.apply_modification(modification),
        }
    }
}

/// A stamped strategy reads back the stamp.
pub proof fn lemma_marked_stamp(pre: MutationStrategy, now: i64)
    ensures
        spec_marked(pre, now).spec_last_execution() == Some(now),
{
}

/// How many of the strategies are eligible this cycle.
pub open spec fn count_eligible(s: Seq<MutationStrategy>, state: &EcosystemState, now: int) -> int
    decreases s.len(),
{
    if s.len() == 0 {
        0
    } else {
        count_eligible(s.drop_last(), state, now) + if s.last().spec_should_execute(state, now) {
            1int
        } else {
            0int
        }
    }
}

/// Index of the first strategy with the given name, if any.
pub open spec fn spec_find_strategy(s: Seq<MutationStrategy>, name: Seq<char>) -> Option<int>
    decreases s.len(),
{
    if s.len() == 0 {
        None
    } else if s[0].spec_name() == name {
        Some(0)
    } else {
        match spec_find_strategy(s.drop_first(), name) {
            Some(j) => Some(j + 1),
            None => None,
        }
    }
}

/// A first name match at `j` settles the find.
pub proof fn lemma_find_strategy_hit(s: Seq<MutationStrategy>, j: int, name: Seq<char>)
    requires
        0 <= j < s.len(),
        s[j].spec_name() == name,
        forall|i: int| 0 <= i < j ==> (#[trigger] s[i]).spec_name() != name,
    ensures
        spec_find_strategy(s, name) == Some(j),
    decreases j,
{
    if j > 0 {
        assert(forall|i: int| 0 <= i < s.len() - 1 ==> s.drop_first()[i] == s[i + 1]);
        lemma_find_strategy_hit(s.drop_first(), j - 1, name);
    }
}

/// No name match anywhere settles the find as absent.
pub proof fn lemma_find_strategy_none(s: Seq<MutationStrategy>, name: Seq<char>)
    requires
        forall|i: int| 0 <= i < s.len() ==> (#[trigger] s[i]).spec_name() != name,
    ensures
        spec_find_strategy(s, name) is None,
    decreases s.len(),
{
    if s.len() > 0 {
        assert(forall|i: int| 0 <= i < s.len() - 1 ==> s.drop_first()[i] == s[i + 1]);
        lemma_find_strategy_none(s.drop_first(), name);
    }
}

/// The eligible count lies between zero and the number of strategies.
pub proof fn lemma_count_eligible_len(s: Seq<MutationStrategy>, state: &EcosystemState, now: int)
    ensures
        0 <= count_eligible(s, state, now) <= s.len(),
    decreases s.len(),
{
    if s.len() > 0 {
        lemma_count_eligible_len(s.drop_last(), state, now);
    }
}

/// The strategy with its timer stamped at `now`.
pub open spec fn spec_marked(pre: MutationStrategy, now: i64) -> MutationStrategy {
    match pre {
        MutationStrategy::RandomPulse(p) => MutationStrategy::RandomPulse(
            RandomPulseStrategy { last_execution: Some(now), ..p },
        ),
        MutationStrategy::ColorCycler(p) => MutationStrategy::ColorCycler(
            ColorCyclerStrategy { last_execution: Some(now), ..p },
        ),
        MutationStrategy::FractalRotation(p) => MutationStrategy::FractalRotation(
            FractalRotationStrategy { last_execution: Some(now), ..p },
        ),
        MutationStrategy::DynamicMutation(p) => MutationStrategy::DynamicMutation(
            DynamicMutationStrategy { last_execution: Some(now), ..p },
        ),
        MutationStrategy::IntelligentAnalysis(p) => MutationStrategy::IntelligentAnalysis(
            IntelligentAnalysisStrategy { last_execution: Some(now), ..p },
        ),
    }
}

/// The strategy after a reconfiguration: frequency and enablement are
/// honored by all; the parameter adjustments by the strategies that own
/// the named parameter.
pub open spec fn spec_modified(pre: MutationStrategy, m: StrategyModification) -> MutationStrategy {
    match pre {
        MutationStrategy::RandomPulse(p) => MutationStrategy::RandomPulse(
            match m {
                StrategyModification::ChangeFrequency(f) => RandomPulseStrategy {
                    frequency: f,
                    ..p
                },
                StrategyModification::Enable => RandomPulseStrategy { enabled: true, ..p },
                StrategyModification::Disable => RandomPulseStrategy { enabled: false, ..p },
                StrategyModification::AdjustParameters(param, value) => if param@
                    == "intensity"@ {
                    RandomPulseStrategy {
                        mutation_intensity: spec_clamp(value as int, 100, 3000) as i64,
                        ..p
                    }
                } else {
                    p
                },
            },
        ),
        MutationStrategy::ColorCycler(p) => MutationStrategy::ColorCycler(
            match m {
                StrategyModification::ChangeFrequency(f) => ColorCyclerStrategy {
                    frequency: f,
                    ..p
                },
                StrategyModification::Enable => ColorCyclerStrategy { enabled: true, ..p },
                StrategyModification::Disable => ColorCyclerStrategy { enabled: false, ..p },
                StrategyModification::AdjustParameters(_, _) => p,
            },
        ),
        MutationStrategy::FractalRotation(p) => MutationStrategy::FractalRotation(
            match m {
                StrategyModification::ChangeFrequency(f) => FractalRotationStrategy {
                    frequency: f,
                    ..p
                },
                StrategyModification::Enable => FractalRotationStrategy { enabled: true, ..p },
                StrategyModification::Disable => FractalRotationStrategy { enabled: false, ..p },
                StrategyModification::AdjustParameters(_, _) => p,
            },
        ),
        MutationStrategy::DynamicMutation(p) => MutationStrategy::DynamicMutation(
            match m {
                StrategyModification::ChangeFrequency(f) => DynamicMutationStrategy {
                    frequency: f,
                    ..p
                },
                StrategyModification::Enable => DynamicMutationStrategy { enabled: true, ..p },
                StrategyModification::Disable => DynamicMutationStrategy { enabled: false, ..p },
                StrategyModification::AdjustParameters(_, _) => p,
            },
        ),
        MutationStrategy::IntelligentAnalysis(p) => MutationStrategy::IntelligentAnalysis(
            match m {
                StrategyModification::ChangeFrequency(f) => IntelligentAnalysisStrategy {
                    frequency: f,
                    ..p
                },
                StrategyModification::Enable => IntelligentAnalysisStrategy {
                    enabled: true,
                    ..p
                },
                StrategyModification::Disable => IntelligentAnalysisStrategy {
                    enabled: false,
                    ..p
                },
                StrategyModification::AdjustParameters(param, value) => if param@
                    == "threshold"@ {
                    IntelligentAnalysisStrategy {
                        analysis_threshold: spec_clamp(value as int, 100, 1000) as i64,
                        ..p
                    }
                } else {
                    p
                },
            },
        ),
    }
}

} // verus!
