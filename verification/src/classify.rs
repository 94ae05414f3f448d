use vstd::prelude::*;
use crate::config::ThresholdConfig;

verus! {

/// The classified soil condition.
#[derive(Clone, Copy, Debug, PartialEq, Eq, Structural)]
pub enum SoilCondition {
    Dry,
    Optimal,
    Wet,
}

/// What the pump is told to do for one cycle.
#[derive(Clone, Copy, Debug, PartialEq, Eq, Structural)]
pub enum PumpAction {
    Activate,
    Deactivate,
    NoChange,
}

/// The actuation decision of one cycle. Transient: produced once per cycle
/// and handed to the actuator sink, never stored.
#[derive(Clone, Copy, Debug, PartialEq, Eq, Structural)]
pub struct ActuatorCommand {
    pub indicator_on: bool,
    pub pump_action: PumpAction,
}

/// The condition of a moisture percentage: dry strictly below the low
/// threshold, wet strictly above the high one, optimal otherwise. The two
/// threshold values themselves classify as optimal.
pub open spec fn spec_classify(percent: int, cfg: ThresholdConfig) -> SoilCondition {
    if percent < cfg.low {
        SoilCondition::Dry
    } else if percent > cfg.high {
        SoilCondition::Wet
    } else {
        SoilCondition::Optimal
    }
}

/// The indicator recommendation derived from a condition: on exactly when
/// the soil is dry.
pub open spec fn spec_indicator(condition: SoilCondition) -> bool {
    condition is Dry
}

/// The pump policy: activate strictly below the low threshold, deactivate
/// strictly above the high one, otherwise leave the pump alone. Stateless:
/// a function of the current percentage and the thresholds only.
pub open spec fn spec_pump_action(percent: int, cfg: ThresholdConfig) -> PumpAction {
    if percent < cfg.low {
        PumpAction::Activate
    } else if percent > cfg.high {
        PumpAction::Deactivate
    } else {
        PumpAction::NoChange
    }
}

/// The full actuation decision for one percentage.
pub open spec fn spec_command(percent: int, cfg: ThresholdConfig) -> ActuatorCommand {
    ActuatorCommand {
        indicator_on: spec_indicator(spec_classify(percent, cfg)),
        pump_action: spec_pump_action(percent, cfg),
    }
}

/// Classifier totality: on the percent scale every value falls under exactly
/// one condition, the three conditions partition `[0, 100]`, and the two
/// threshold values themselves are optimal.
pub proof fn lemma_classifier_total(percent: int, cfg: ThresholdConfig)
    requires
        cfg.wf(),
        0 <= percent <= 100,
    ensures
        (spec_classify(percent, cfg) is Dry) <==> percent < cfg.low,
        (spec_classify(percent, cfg) is Wet) <==> percent > cfg.high,
        (spec_classify(percent, cfg) is Optimal) <==> (cfg.low <= percent <= cfg.high),
        percent == cfg.low ==> spec_classify(percent, cfg) is Optimal,
        percent == cfg.high ==> spec_classify(percent, cfg) is Optimal,
{
}

/// Pump policy determinism: the action is a function of the percentage and
/// the thresholds alone, so equal inputs always yield the same action.
pub proof fn lemma_pump_policy_deterministic(
    percent1: int,
    percent2: int,
    cfg1: ThresholdConfig,
    cfg2: ThresholdConfig,
)
    requires
        percent1 == percent2,
        cfg1 == cfg2,
    ensures
        spec_pump_action(percent1, cfg1) == spec_pump_action(percent2, cfg2),
{
}

impl SoilCondition {
    /// The default indicator recommendation for this condition.
    pub fn indicator_on(&self) -> (on: bool)
        ensures
            on == spec_indicator(*self),
    {
        matches!(self, SoilCondition::Dry)
    }

    /// The human-readable label of this condition.
    pub fn label(&self) -> (label: &'static str)
        ensures
            label@ == spec_label(*self),
    {
        match self {
            SoilCondition::Dry => "DRY - Need Water!",
            SoilCondition::Optimal => "OPTIMAL",
            SoilCondition::Wet => "WET - Too Much Water!",
        }
    }
}

/// The label of each condition.
pub open spec fn spec_label(condition: SoilCondition) -> Seq<char> {
    match condition {
        SoilCondition::Dry => "DRY - Need Water!"@,
        SoilCondition::Optimal => "OPTIMAL"@,
        SoilCondition::Wet => "WET - Too Much Water!"@,
    }
}

/// Classify a moisture percentage against the thresholds.
pub fn get_soil_condition(percent: u8, cfg: &ThresholdConfig) -> (condition: SoilCondition)
    ensures
        condition == spec_classify(percent as int, *cfg),
{
    if percent < cfg.low {
        SoilCondition::Dry
    } else if percent > cfg.high {
        SoilCondition::Wet
    } else {
        SoilCondition::Optimal
    }
}

/// The pump action for a moisture percentage.
pub fn pump_action_for(percent: u8, cfg: &ThresholdConfig) -> (action: PumpAction)
    ensures
        action == spec_pump_action(percent as int, *cfg),
{
    if percent < cfg.low {
        PumpAction::Activate
    } else if percent > cfg.high {
        PumpAction::Deactivate
    } else {
        PumpAction::NoChange
    }
}

/// The full actuation decision for a moisture percentage.
pub fn derive_command(percent: u8, cfg: &ThresholdConfig) -> (command: ActuatorCommand)
    ensures
        command == spec_command(percent as int, *cfg),
{
    let condition = get_soil_condition(percent, cfg);
    ActuatorCommand {
        indicator_on: condition.indicator_on(),
        pump_action: pump_action_for(percent, cfg),
    }
}

} // verus!
