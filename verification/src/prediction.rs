//! Integer parts of the condition-aware health scoring: the baseline score
//! of each operating condition and the weighted combination of component
//! scores. The floating-point feature normalisation that produces the
//! penalties and component scores happens outside the library.

use vstd::prelude::*;

verus! {

/// Spindle operating regime, classified from speed and load.
#[derive(Debug, Clone, Copy, PartialEq, Eq, Structural)]
pub enum OperatingCondition {
    Idle,
    LowSpeedLowLoad,
    MediumSpeedMediumLoad,
    HighSpeedHighLoad,
    Cutting,
}

/// Health baseline of a condition before penalties.
pub open spec fn condition_baseline(c: OperatingCondition) -> u8 {
    match c {
        OperatingCondition::Idle => 98,
        OperatingCondition::LowSpeedLowLoad => 95,
        OperatingCondition::MediumSpeedMediumLoad => 90,
        OperatingCondition::HighSpeedHighLoad => 85,
        OperatingCondition::Cutting => 80,
    }
}

/// `a - b`, or zero when `b` is larger.
pub open spec fn sat_sub(a: int, b: int) -> int {
    if a >= b {
        a - b
    } else {
        0
    }
}

/// Condition-aware health score: the baseline minus the vibration and
/// temperature penalties (never below zero), weighted 7 to 3 with the
/// remaining-useful-life score, capped at 100.
pub open spec fn condition_health(
    c: OperatingCondition,
    vibration_penalty: u8,
    temperature_penalty: u8,
    rul_score: u8,
) -> int {
    let base = sat_sub(sat_sub(condition_baseline(c) as int, vibration_penalty as int), temperature_penalty as int);
    let overall = (base * 7 + rul_score * 3) / 10;
    if overall > 100 {
        100
    } else {
        overall
    }
}

/// Overall health from component scores weighted 4:3:1:2 (vibration,
/// temperature, displacement, remaining useful life), rounded down.
pub open spec fn weighted_health(vibration: u8, temperature: u8, displacement: u8, rul: u8) -> int {
    (vibration * 4 + temperature * 3 + displacement + rul * 2) / 10
}

/// The health baseline of a condition.
pub fn condition_baseline_score(c: OperatingCondition) -> (r: u8)
    ensures
        r == condition_baseline(c),
{
    match c {
        OperatingCondition::Idle => 98,
        OperatingCondition::LowSpeedLowLoad => 95,
        OperatingCondition::MediumSpeedMediumLoad => 90,
        OperatingCondition::HighSpeedHighLoad => 85,
        OperatingCondition::Cutting => 80,
    }
}

/// Health score of a prediction from its condition, its penalties and the
/// remaining-useful-life score.
pub fn condition_health_score(
    condition: OperatingCondition,
    vibration_penalty: u8,
    temperature_penalty: u8,
    rul_score: u8,
) -> (r: u8)
    ensures
        r as int == condition_health(condition, vibration_penalty, temperature_penalty, rul_score),
        r <= 100,
{
    let base = condition_baseline_score(condition).saturating_sub(vibration_penalty).saturating_sub(
        temperature_penalty,
    );
    let overall: u16 = (base as u16 * 7 + rul_score as u16 * 3) / 10;
    if overall > 100 {
        100
    } else {
        overall as u8
    }
}

/// Overall health score from the component scores.
pub fn overall_health_score(vibration: u8, temperature: u8, displacement: u8, rul: u8) -> (r: u8)
    ensures
        r as int == weighted_health(vibration, temperature, displacement, rul),
{
    let total: u16 = vibration as u16 * 4 + temperature as u16 * 3 + displacement as u16 + rul as u16
        * 2;
    (total / 10) as u8
}

/// Law: the overall score lies between the smallest and the largest
/// component score.
pub proof fn lemma_weighted_health_between(vibration: u8, temperature: u8, displacement: u8, rul: u8)
    ensures
        ({
            let lo = vstd::math::min(
                vstd::math::min(vibration as int, temperature as int),
                vstd::math::min(displacement as int, rul as int),
            );
            let hi = vstd::math::max(
                vstd::math::max(vibration as int, temperature as int),
                vstd::math::max(displacement as int, rul as int),
            );
            lo <= weighted_health(vibration, temperature, displacement, rul) <= hi
        }),
{
}

/// Law: the overall score weighs vibration 40%, temperature 30%,
/// displacement 10% and remaining useful life 20%: ten times the score is
/// the weighted sum rounded down to a multiple of ten, and raising one
/// component by ten raises the weighted sum by exactly its weight times
/// ten.
pub proof fn lemma_weighted_health_weights(vibration: u8, temperature: u8, displacement: u8, rul: u8)
    ensures
        ({
            let sum = 4 * vibration + 3 * temperature + displacement + 2 * rul;
            let w = weighted_health(vibration, temperature, displacement, rul);
            10 * w <= sum < 10 * w + 10
        }),
        weighted_health(100, 0, 0, 0) == 40,
        weighted_health(0, 100, 0, 0) == 30,
        weighted_health(0, 0, 100, 0) == 10,
        weighted_health(0, 0, 0, 100) == 20,
{
    let sum = vibration * 4 + temperature * 3 + displacement + rul * 2;
    assert(sum >= 0);
    assert(10 * (sum / 10) <= sum < 10 * (sum / 10) + 10) by (nonlinear_arith)
        requires
            sum >= 0,
    ;
}

/// Law: a larger penalty never raises the condition-aware health score.
pub proof fn lemma_condition_health_monotone(
    c: OperatingCondition,
    p1: u8,
    p2: u8,
    temperature_penalty: u8,
    rul_score: u8,
)
    requires
        p1 <= p2,
    ensures
        condition_health(c, p2, temperature_penalty, rul_score) <= condition_health(
            c,
            p1,
            temperature_penalty,
            rul_score,
        ),
{
}

} // verus!
