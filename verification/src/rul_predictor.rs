//! Alarm level that the periodic remaining-useful-life update assigns to a
//! machine.

use vstd::prelude::*;
use crate::models::RulBand;

verus! {

/// Minimum number of recent metric sets before a machine is predicted.
pub open spec fn min_history() -> int {
    10
}

/// Whether a machine has enough recent metric sets to be predicted.
pub fn has_enough_history(len: usize) -> (r: bool)
    ensures
        r == (len >= min_history()),
{
    len >= 10
}

/// Level 2 when the remaining useful life is below the alarm threshold, 1
/// when it is below the warning threshold or some vibration severity is
/// above the vibration alarm threshold, 0 otherwise.
pub fn machine_alarm_level(rul_band: RulBand, vibration_over_alarm: bool) -> (r: u8)
    ensures
        r == if rul_band == RulBand::Critical {
            2u8
        } else if rul_band == RulBand::Warning || vibration_over_alarm {
            1u8
        } else {
            0u8
        },
{
    match rul_band {
        RulBand::Critical => 2,
        RulBand::Warning => 1,
        RulBand::Normal => if vibration_over_alarm {
            1
        } else {
            0
        },
    }
}

} // verus!
