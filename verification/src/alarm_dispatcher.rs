//! Decision core of the alarm dispatcher: which inputs raise alarms, the
//! sustained-vibration timers, their periodic cleanup and the alarm counter
//! reported by the statistics tick. Delivery (database, MQTT) is the
//! caller's.

use vstd::prelude::*;
use crate::models::{OperatingCondition, RulBand};
use crate::vibration_tracker::{
    elapsed_ns, run_until_alarm, tracker_ttl_ns, SeverityBand, VibrationTracker,
};

verus! {

/// Vibration severities of one analysed sample set, already banded against
/// the condition-adjusted thresholds.
#[derive(Debug, Clone)]
pub struct VibrationObservation {
    pub machine_id: u16,
    pub condition: OperatingCondition,
    pub bands: Vec<SeverityBand>,
}

/// A remaining-useful-life prediction, banded against the thresholds.
#[derive(Debug, Clone, Copy)]
pub struct RulObservation {
    pub machine_id: u16,
    pub band: RulBand,
}

/// What the dispatcher receives from the analysis pipeline.
#[derive(Debug, Clone)]
pub enum AlarmInput {
    VibrationMetrics(VibrationObservation),
    RULPrediction(RulObservation),
}

/// An alarm the dispatcher decided to raise.
#[derive(Debug, Clone, Copy, PartialEq, Eq, Structural)]
pub enum DispatchDecision {
    /// Sustained vibration on `sensor_index`, under `condition`.
    VibrationAlarm { machine_id: u16, sensor_index: usize, condition: OperatingCondition },
    /// Remaining useful life below the critical threshold.
    RulAlarm { machine_id: u16 },
}

pub struct AlarmDispatcher {
    vibration_alarm_duration_sec: u64,
    vibration_alarm_tracker: VibrationTracker,
    alarm_count: u32,
}

impl AlarmDispatcher {
    pub closed spec fn wf(&self) -> bool {
        self.vibration_alarm_tracker.wf()
    }

    /// Running vibration timers.
    pub closed spec fn timers(&self) -> Map<(u16, u8), u64> {
        self.vibration_alarm_tracker@
    }

    /// Alarms raised since the last statistics tick.
    pub closed spec fn alarm_count(&self) -> u32 {
        self.alarm_count
    }

    /// How long, in whole seconds, a vibration exceedance must last.
    pub closed spec fn duration_secs(&self) -> u64 {
        self.vibration_alarm_duration_sec
    }

    pub fn new(vibration_alarm_duration_sec: u64) -> (r: Self)
        ensures
            r.wf(),
            r.timers() == Map::<(u16, u8), u64>::empty(),
            r.alarm_count() == 0,
            r.duration_secs() == vibration_alarm_duration_sec,
    {
        AlarmDispatcher {
            vibration_alarm_duration_sec,
            vibration_alarm_tracker: VibrationTracker::new(),
            alarm_count: 0,
        }
    }

    /// The first sensor of the observation whose exceedance has lasted the
    /// configured time; its timer is cleared.
    pub fn check_vibration_alarm(&mut self, metrics: &VibrationObservation, now_ns: u64) -> (r:
        Option<usize>)
        requires
            old(self).wf(),
        ensures
            final(self).wf(),
            final(self).alarm_count() == old(self).alarm_count(),
            final(self).duration_secs() == old(self).duration_secs(),
            ({
                let (t, f) = run_until_alarm(
                    old(self).timers(),
                    metrics.machine_id,
                    metrics.bands@,
                    0,
                    now_ns,
                    old(self).duration_secs(),
                );
                &&& final(self).timers() == t
                &&& match r {
                    Some(i) => f == Some(i as int),
                    None => f is None,
                }
            }),
    {
        self.vibration_alarm_tracker.check_first(
            metrics.machine_id,
            &metrics.bands,
            now_ns,
            self.vibration_alarm_duration_sec,
        )
    }

    /// Whether a prediction raises the critical remaining-useful-life alarm.
    pub fn check_rul_alarm(&self, prediction: &RulObservation) -> (r: bool)
        ensures
            r == (prediction.band == RulBand::Critical),
    {
        match prediction.band {
            RulBand::Critical => true,
            _ => false,
        }
    }

    /// Handles one pipeline input; a raised alarm is counted.
    pub fn handle_input(&mut self, input: &AlarmInput, now_ns: u64) -> (r: Option<DispatchDecision>)
        requires
            old(self).wf(),
        ensures
            final(self).wf(),
            final(self).duration_secs() == old(self).duration_secs(),
            final(self).alarm_count() == if r is Some {
                if old(self).alarm_count() < u32::MAX {
                    (old(self).alarm_count() + 1) as u32
                } else {
                    u32::MAX
                }
            } else {
                old(self).alarm_count()
            },
            match input {
                AlarmInput::VibrationMetrics(m) => {
                    let (t, f) = run_until_alarm(
                        old(self).timers(),
                        m.machine_id,
                        m.bands@,
                        0,
                        now_ns,
                        old(self).duration_secs(),
                    );
                    &&& final(self).timers() == t
                    &&& match f {
                        Some(i) => r == Some(
                            DispatchDecision::VibrationAlarm {
                                machine_id: m.machine_id,
                                sensor_index: i as usize,
                                condition: m.condition,
                            },
                        ),
                        None => r is None,
                    }
                },
                AlarmInput::RULPrediction(p) => {
                    &&& final(self).timers() == old(self).timers()
                    &&& r == if p.band == RulBand::Critical {
                        Some(DispatchDecision::RulAlarm { machine_id: p.machine_id })
                    } else {
                        None
                    }
                },
            },
    {
        let decision = match input {
            AlarmInput::VibrationMetrics(m) => match self.check_vibration_alarm(m, now_ns) {
                Some(i) => Some(
                    DispatchDecision::VibrationAlarm {
                        machine_id: m.machine_id,
                        sensor_index: i,
                        condition: m.condition,
                    },
                ),
                None => None,
            },
            AlarmInput::RULPrediction(p) => {
                if self.check_rul_alarm(p) {
                    Some(DispatchDecision::RulAlarm { machine_id: p.machine_id })
                } else {
                    None
                }
            },
        };
        if decision.is_some() {
            self.alarm_count = self.alarm_count.saturating_add(1);
        }
        decision
    }

    /// Drops the vibration timers older than one minute.
    pub fn cleanup_expired_trackers(&mut self, now_ns: u64)
        requires
            old(self).wf(),
        ensures
            final(self).wf(),
            final(self).alarm_count() == old(self).alarm_count(),
            final(self).duration_secs() == old(self).duration_secs(),
            forall|k: (u16, u8)| #[trigger]
                final(self).timers().contains_key(k) <==> (old(self).timers().contains_key(k)
                    && elapsed_ns(now_ns, old(self).timers()[k]) < tracker_ttl_ns()),
            forall|k: (u16, u8)| #[trigger]
                final(self).timers().contains_key(k) ==> final(self).timers()[k] == old(self).timers()[k],
    {
        self.vibration_alarm_tracker.cleanup_expired(now_ns);
    }

    /// Statistics tick: reports the alarms raised since the previous tick and
    /// restarts the count.
    pub fn take_alarm_count(&mut self) -> (r: u32)
        requires
            old(self).wf(),
        ensures
            final(self).wf(),
            r == old(self).alarm_count(),
            final(self).alarm_count() == 0,
            final(self).timers() == old(self).timers(),
            final(self).duration_secs() == old(self).duration_secs(),
    {
        let c = self.alarm_count;
        self.alarm_count = 0;
        c
    }
}

} // verus!
