//! Decision core of the alarm manager that raises an alarm for every sensor
//! whose vibration exceedance has lasted the configured time, and a critical
//! alarm for a remaining useful life below the alarm threshold.

use vstd::prelude::*;
use crate::models::RulBand;
use crate::vibration_tracker::{run_all, SeverityBand, VibrationTracker};

verus! {

pub struct AlarmManager {
    vibration_alarm_duration_sec: u64,
    vibration_alarm_tracker: VibrationTracker,
}

impl AlarmManager {
    pub closed spec fn wf(&self) -> bool {
        self.vibration_alarm_tracker.wf()
    }

    /// Running vibration timers.
    pub closed spec fn timers(&self) -> Map<(u16, u8), u64> {
        self.vibration_alarm_tracker@
    }

    /// How long, in whole seconds, a vibration exceedance must last.
    pub closed spec fn duration_secs(&self) -> u64 {
        self.vibration_alarm_duration_sec
    }

    pub fn new(vibration_alarm_duration_sec: u64) -> (r: Self)
        ensures
            r.wf(),
            r.timers() == Map::<(u16, u8), u64>::empty(),
            r.duration_secs() == vibration_alarm_duration_sec,
    {
        AlarmManager {
            vibration_alarm_duration_sec,
            vibration_alarm_tracker: VibrationTracker::new(),
        }
    }

    /// The sensors of machine `machine_id` that alarm on these readings, in
    /// sensor order; their timers are cleared.
    pub fn check_vibration_alarm(
        &mut self,
        machine_id: u16,
        bands: &Vec<SeverityBand>,
        now_ns: u64,
    ) -> (r: Vec<usize>)
        requires
            old(self).wf(),
        ensures
            final(self).wf(),
            final(self).duration_secs() == old(self).duration_secs(),
            ({
                let (t, f) = run_all(
                    old(self).timers(),
                    machine_id,
                    bands@,
                    0,
                    now_ns,
                    old(self).duration_secs(),
                    seq![],
                );
                &&& final(self).timers() == t
                &&& f == r@.map_values(|x: usize| x as int)
            }),
    {
        self.vibration_alarm_tracker.check_all(
            machine_id,
            bands,
            now_ns,
            self.vibration_alarm_duration_sec,
        )
    }

    /// Whether a prediction raises the critical remaining-useful-life alarm.
    pub fn check_rul_alarm(&self, band: RulBand) -> (r: bool)
        ensures
            r == (band == RulBand::Critical),
    {
        match band {
            RulBand::Critical => true,
            _ => false,
        }
    }
}

} // verus!
