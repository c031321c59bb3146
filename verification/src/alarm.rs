//! Decision core of the per-reading alarm manager: a sustained-vibration
//! timer per (machine, sensor), and per (machine, alarm type) cool-down
//! windows that keep an alarm from repeating too often. Times are wall-clock
//! milliseconds supplied by the caller.

use vstd::prelude::*;
use std::collections::HashMap;
use crate::models::{AlarmLevel, RulBand};

verus! {

broadcast use vstd::std_specs::hash::group_hash_axioms;

#[derive(Debug, Clone, Copy, PartialEq, Eq, Structural)]
pub enum SensorType {
    Vibration,
    Temperature,
    Displacement,
}

#[derive(Debug, Clone, Copy, PartialEq, Eq, Structural)]
pub enum AlarmType {
    VibrationHigh,
    TemperatureHigh,
    DisplacementAbnormal,
    RULLow,
}

/// One sensor reading, with the caller's verdict on whether the value is
/// beyond its limit (vibration and displacement by magnitude, temperature
/// from above).
#[derive(Debug, Clone, Copy)]
pub struct SensorReading {
    pub machine_id: u16,
    pub sensor_id: u16,
    pub sensor_type: SensorType,
    pub over_limit: bool,
}

/// An alarm to raise: its type and level, and for vibration how long the
/// exceedance has lasted.
#[derive(Debug, Clone, Copy, PartialEq, Eq, Structural)]
pub struct AlarmDecision {
    pub alarm_type: AlarmType,
    pub level: AlarmLevel,
    pub duration_ms: i128,
}

/// Cool-down of the vibration alarm, in milliseconds.
pub open spec fn vibration_cooldown_ms() -> int {
    60_000
}

/// Cool-down of the temperature and displacement alarms, in milliseconds.
pub open spec fn threshold_cooldown_ms() -> int {
    300_000
}

/// Cool-down of the critical remaining-useful-life alarm, in milliseconds.
pub open spec fn rul_critical_cooldown_ms() -> int {
    3_600_000
}

/// Cool-down of the remaining-useful-life warning, in milliseconds.
pub open spec fn rul_warning_cooldown_ms() -> int {
    7_200_000
}

pub open spec fn type_code(t: AlarmType) -> int {
    match t {
        AlarmType::VibrationHigh => 0,
        AlarmType::TemperatureHigh => 1,
        AlarmType::DisplacementAbnormal => 2,
        AlarmType::RULLow => 3,
    }
}

/// Slot of the vibration timer of a (machine, sensor) pair.
pub open spec fn sensor_slot(machine_id: u16, sensor_id: u16) -> u32 {
    (machine_id as int * 65536 + sensor_id as int) as u32
}

/// Slot of the last-alarm time of a (machine, alarm type) pair.
pub open spec fn alarm_slot(machine_id: u16, t: AlarmType) -> u32 {
    (machine_id as int * 4 + type_code(t)) as u32
}

/// Time of the last alarm in a slot; the epoch when there was none.
pub open spec fn last_or_zero(recent: Map<u32, i64>, k: u32) -> int {
    if recent.contains_key(k) {
        recent[k] as int
    } else {
        0
    }
}

/// Whether more than `cooldown` milliseconds have passed since the slot's
/// last alarm.
pub open spec fn cooled(recent: Map<u32, i64>, k: u32, now: i64, cooldown: int) -> bool {
    now - last_or_zero(recent, k) > cooldown
}

/// A vibration reading: the new timers, the new last-alarm times, and the
/// exceedance duration when an alarm is raised.
pub open spec fn vibration_step(
    starts: Map<u32, i64>,
    recent: Map<u32, i64>,
    machine_id: u16,
    sensor_id: u16,
    over_limit: bool,
    now: i64,
    duration_ms: u64,
) -> (Map<u32, i64>, Map<u32, i64>, Option<int>) {
    let sk = sensor_slot(machine_id, sensor_id);
    if over_limit {
        let start = if starts.contains_key(sk) {
            starts[sk]
        } else {
            now
        };
        let lasted = now - start;
        let ak = alarm_slot(machine_id, AlarmType::VibrationHigh);
        if lasted >= duration_ms && cooled(recent, ak, now, vibration_cooldown_ms()) {
            (starts.insert(sk, start), recent.insert(ak, now), Some(lasted))
        } else {
            (starts.insert(sk, start), recent, None)
        }
    } else {
        (starts.remove(sk), recent, None)
    }
}

/// A temperature or displacement reading against its cool-down.
pub open spec fn threshold_step(
    recent: Map<u32, i64>,
    k: u32,
    over_limit: bool,
    now: i64,
    cooldown: int,
) -> (Map<u32, i64>, bool) {
    if over_limit && cooled(recent, k, now, cooldown) {
        (recent.insert(k, now), true)
    } else {
        (recent, false)
    }
}

/// A remaining-useful-life prediction: the new last-alarm times and the
/// level of the alarm raised, if any. Leaving the alarm band clears the
/// cool-down.
pub open spec fn rul_step(recent: Map<u32, i64>, machine_id: u16, band: RulBand, now: i64) -> (Map<
    u32,
    i64,
>, Option<AlarmLevel>) {
    let k = alarm_slot(machine_id, AlarmType::RULLow);
    match band {
        RulBand::Critical => if cooled(recent, k, now, rul_critical_cooldown_ms()) {
            (recent.insert(k, now), Some(AlarmLevel::Critical))
        } else {
            (recent, None)
        },
        RulBand::Warning => if cooled(recent, k, now, rul_warning_cooldown_ms()) {
            (recent.insert(k, now), Some(AlarmLevel::Warning))
        } else {
            (recent, None)
        },
        RulBand::Normal => (recent.remove(k), None),
    }
}

/// The alarm a vibration step raises: critical, with the exceedance's
/// duration, when the step fired.
pub open spec fn vibration_decision(lasted: Option<int>) -> Option<AlarmDecision> {
    match lasted {
        Some(d) => Some(
            AlarmDecision {
                alarm_type: AlarmType::VibrationHigh,
                level: AlarmLevel::Critical,
                duration_ms: d as i128,
            },
        ),
        None => None,
    }
}

/// The alarm a temperature or displacement step of type `t` raises: a
/// warning, with no duration, when the step fired.
pub open spec fn threshold_decision(t: AlarmType, fired: bool) -> Option<AlarmDecision> {
    if fired {
        Some(AlarmDecision { alarm_type: t, level: AlarmLevel::Warning, duration_ms: 0 })
    } else {
        None
    }
}

/// Law: once a temperature or displacement alarm has been raised at `t1`,
/// no alarm of the same machine and type is raised at a `t2` no more than
/// the cool-down after it, whatever the reading.
pub proof fn lemma_threshold_cooldown(
    recent: Map<u32, i64>,
    k: u32,
    t1: i64,
    over_limit: bool,
    t2: i64,
)
    requires
        threshold_step(recent, k, true, t1, threshold_cooldown_ms()).1,
        t2 - t1 <= threshold_cooldown_ms(),
    ensures
        !threshold_step(
            threshold_step(recent, k, true, t1, threshold_cooldown_ms()).0,
            k,
            over_limit,
            t2,
            threshold_cooldown_ms(),
        ).1,
{
}

/// Law: once a vibration alarm has been raised for a machine at `t1`, no
/// vibration alarm is raised for that machine, from any of its sensors, at a
/// `t2` no more than a minute later.
pub proof fn lemma_vibration_cooldown(
    starts: Map<u32, i64>,
    recent: Map<u32, i64>,
    machine_id: u16,
    s1: u16,
    t1: i64,
    s2: u16,
    over_limit: bool,
    t2: i64,
    duration_ms: u64,
)
    requires
        vibration_step(starts, recent, machine_id, s1, true, t1, duration_ms).2 is Some,
        t2 - t1 <= vibration_cooldown_ms(),
    ensures
        ({
            let (st, rc, _) = vibration_step(starts, recent, machine_id, s1, true, t1, duration_ms);
            vibration_step(st, rc, machine_id, s2, over_limit, t2, duration_ms).2 is None
        }),
{
}

/// Law: different (machine, sensor) pairs have different timer slots.
pub proof fn lemma_sensor_slots_distinct(m1: u16, s1: u16, m2: u16, s2: u16)
    requires
        m1 != m2 || s1 != s2,
    ensures
        sensor_slot(m1, s1) != sensor_slot(m2, s2),
{
    assert(0 <= m1 as int * 65536 + s1 as int <= 0xffff_ffff) by (nonlinear_arith)
        requires
            0 <= m1 <= 0xffff,
            0 <= s1 <= 0xffff,
    ;
    assert(0 <= m2 as int * 65536 + s2 as int <= 0xffff_ffff) by (nonlinear_arith)
        requires
            0 <= m2 <= 0xffff,
            0 <= s2 <= 0xffff,
    ;
    if m1 == m2 {
    } else if m1 < m2 {
        assert((m1 as int * 65536 + s1 as int) < (m2 as int * 65536 + s2 as int)) by (nonlinear_arith)
            requires
                m1 < m2,
                s1 <= 0xffff,
        ;
    } else {
        assert((m2 as int * 65536 + s2 as int) < (m1 as int * 65536 + s1 as int)) by (nonlinear_arith)
            requires
                m2 < m1,
                s2 <= 0xffff,
        ;
    }
}

/// Law: different (machine, alarm type) pairs have different cool-down
/// slots.
pub proof fn lemma_alarm_slots_distinct(m1: u16, t1: AlarmType, m2: u16, t2: AlarmType)
    requires
        m1 != m2 || t1 != t2,
    ensures
        alarm_slot(m1, t1) != alarm_slot(m2, t2),
{
    if m1 < m2 {
        assert((m1 as int * 4 + type_code(t1)) < (m2 as int * 4 + type_code(t2))) by (nonlinear_arith)
            requires
                m1 < m2,
                0 <= type_code(t1) < 4,
                0 <= type_code(t2) < 4,
        ;
    } else if m2 < m1 {
        assert((m2 as int * 4 + type_code(t2)) < (m1 as int * 4 + type_code(t1))) by (nonlinear_arith)
            requires
                m2 < m1,
                0 <= type_code(t1) < 4,
                0 <= type_code(t2) < 4,
        ;
    }
}

/// Law: a vibration reading of one (machine, sensor) pair leaves the running
/// timer of every other pair as it was, whether it starts, keeps or clears
/// its own.
pub proof fn lemma_vibration_step_other_timers(
    starts: Map<u32, i64>,
    recent: Map<u32, i64>,
    machine_id: u16,
    sensor_id: u16,
    over_limit: bool,
    now: i64,
    duration_ms: u64,
    other_machine: u16,
    other_sensor: u16,
)
    requires
        other_machine != machine_id || other_sensor != sensor_id,
    ensures
        ({
            let k = sensor_slot(other_machine, other_sensor);
            let st = vibration_step(starts, recent, machine_id, sensor_id, over_limit, now, duration_ms).0;
            &&& st.contains_key(k) == starts.contains_key(k)
            &&& starts.contains_key(k) ==> st[k] == starts[k]
        }),
{
    lemma_sensor_slots_distinct(machine_id, sensor_id, other_machine, other_sensor);
}

/// Law: a vibration alarm is raised only when the exceedance has lasted the
/// configured time, measured from the running timer (or from now when none
/// was running), and the timer keeps running afterwards.
pub proof fn lemma_vibration_alarm_needs_duration(
    starts: Map<u32, i64>,
    recent: Map<u32, i64>,
    machine_id: u16,
    sensor_id: u16,
    over_limit: bool,
    now: i64,
    duration_ms: u64,
)
    ensures
        ({
            let k = sensor_slot(machine_id, sensor_id);
            let start = if starts.contains_key(k) {
                starts[k] as int
            } else {
                now as int
            };
            let (st, _, d) = vibration_step(starts, recent, machine_id, sensor_id, over_limit, now, duration_ms);
            &&& d matches Some(lasted) ==> over_limit && lasted == now - start && lasted >= duration_ms
            &&& over_limit ==> st.contains_key(k) && st[k] == start
            &&& !over_limit ==> !st.contains_key(k)
        }),
{
}

/// Law: after a critical remaining-useful-life alarm at `t1`, neither a
/// critical alarm within the hour nor a warning within two hours is raised
/// for the same machine.
pub proof fn lemma_rul_cooldown(recent: Map<u32, i64>, machine_id: u16, t1: i64, band: RulBand, t2: i64)
    requires
        rul_step(recent, machine_id, RulBand::Critical, t1).1 is Some,
        band != RulBand::Normal,
        band == RulBand::Critical ==> t2 - t1 <= rul_critical_cooldown_ms(),
        band == RulBand::Warning ==> t2 - t1 <= rul_warning_cooldown_ms(),
    ensures
        rul_step(rul_step(recent, machine_id, RulBand::Critical, t1).0, machine_id, band, t2).1 is None,
{
}

/// Law: a prediction back above the warning threshold clears the machine's
/// cool-down, so the next critical prediction alarms as soon as the clock
/// is more than an hour past the epoch.
pub proof fn lemma_rul_recovery_clears_cooldown(
    recent: Map<u32, i64>,
    machine_id: u16,
    t1: i64,
    t2: i64,
)
    ensures
        rul_step(rul_step(recent, machine_id, RulBand::Normal, t1).0, machine_id, RulBand::Critical, t2).1
            == if t2 > rul_critical_cooldown_ms() {
            Some(AlarmLevel::Critical)
        } else {
            None
        },
{
    let k = alarm_slot(machine_id, AlarmType::RULLow);
    assert(!recent.remove(k).contains_key(k));
}

pub struct AlarmManager {
    vibration_alarm_duration_ms: u64,
    vibration_high_start: HashMap<u32, i64>,
    recent_alarms: HashMap<u32, i64>,
}

fn sensor_slot_of(machine_id: u16, sensor_id: u16) -> (r: u32)
    ensures
        r == sensor_slot(machine_id, sensor_id),
{
    machine_id as u32 * 65536 + sensor_id as u32
}

fn alarm_slot_of(machine_id: u16, t: AlarmType) -> (r: u32)
    ensures
        r == alarm_slot(machine_id, t),
{
    let code: u32 = match t {
        AlarmType::VibrationHigh => 0,
        AlarmType::TemperatureHigh => 1,
        AlarmType::DisplacementAbnormal => 2,
        AlarmType::RULLow => 3,
    };
    machine_id as u32 * 4 + code
}

fn lookup(m: &HashMap<u32, i64>, k: u32) -> (r: Option<i64>)
    ensures
        match r {
            Some(v) => m@.contains_key(k) && m@[k] == v,
            None => !m@.contains_key(k),
        },
{
    match m.get(&k) {
        Some(v) => Some(*v),
        None => None,
    }
}

fn is_cooled(recent: &HashMap<u32, i64>, k: u32, now: i64, cooldown: i128) -> (r: bool)
    ensures
        r == cooled(recent@, k, now, cooldown as int),
{
    let last: i64 = match lookup(recent, k) {
        Some(t) => t,
        None => 0,
    };
    now as i128 - last as i128 > cooldown
}

impl AlarmManager {
    /// Running vibration timers, by sensor slot.
    pub closed spec fn starts(&self) -> Map<u32, i64> {
        self.vibration_high_start@
    }

    /// Last alarm times, by alarm slot.
    pub closed spec fn recent(&self) -> Map<u32, i64> {
        self.recent_alarms@
    }

    /// How long, in milliseconds, a vibration exceedance must last.
    pub closed spec fn duration_ms(&self) -> u64 {
        self.vibration_alarm_duration_ms
    }

    pub fn new(vibration_alarm_duration_ms: u64) -> (r: Self)
        ensures
            r.starts() == Map::<u32, i64>::empty(),
            r.recent() == Map::<u32, i64>::empty(),
            r.duration_ms() == vibration_alarm_duration_ms,
    {
        AlarmManager {
            vibration_alarm_duration_ms,
            vibration_high_start: HashMap::new(),
            recent_alarms: HashMap::new(),
        }
    }

    /// A vibration reading: raises a critical alarm once the exceedance has
    /// lasted the configured time, at most once a minute per machine.
    pub fn check_vibration_alarm(&mut self, data: &SensorReading, now: i64) -> (r: Option<
        AlarmDecision,
    >)
        ensures
            final(self).duration_ms() == old(self).duration_ms(),
            ({
                let (s, rc, d) = vibration_step(
                    old(self).starts(),
                    old(self).recent(),
                    data.machine_id,
                    data.sensor_id,
                    data.over_limit,
                    now,
                    old(self).duration_ms(),
                );
                &&& final(self).starts() == s
                &&& final(self).recent() == rc
                &&& match d {
                    Some(lasted) => r == Some(
                        AlarmDecision {
                            alarm_type: AlarmType::VibrationHigh,
                            level: AlarmLevel::Critical,
                            duration_ms: lasted as i128,
                        },
                    ),
                    None => r is None,
                }
            }),
    {
        let sk = sensor_slot_of(data.machine_id, data.sensor_id);
        if data.over_limit {
            let start = match lookup(&self.vibration_high_start, sk) {
                Some(t) => t,
                None => {
                    self.vibration_high_start.insert(sk, now);
                    now
                },
            };
            proof {
                assert(self.vibration_high_start@ =~= old(self).starts().insert(
                    sk,
                    start,
                ));
            }
            let lasted: i128 = now as i128 - start as i128;
            if lasted >= self.vibration_alarm_duration_ms as i128 {
                let ak = alarm_slot_of(data.machine_id, AlarmType::VibrationHigh);
                if is_cooled(&self.recent_alarms, ak, now, 60_000) {
                    self.recent_alarms.insert(ak, now);
                    return Some(
                        AlarmDecision {
                            alarm_type: AlarmType::VibrationHigh,
                            level: AlarmLevel::Critical,
                            duration_ms: lasted,
                        },
                    );
                }
            }
            None
        } else {
            self.vibration_high_start.remove(&sk);
            None
        }
    }

    fn check_threshold_alarm(
        &mut self,
        machine_id: u16,
        t: AlarmType,
        over_limit: bool,
        now: i64,
    ) -> (r: bool)
        ensures
            final(self).duration_ms() == old(self).duration_ms(),
            final(self).starts() == old(self).starts(),
            (final(self).recent(), r) == threshold_step(
                old(self).recent(),
                alarm_slot(machine_id, t),
                over_limit,
                now,
                threshold_cooldown_ms(),
            ),
    {
        if over_limit {
            let ak = alarm_slot_of(machine_id, t);
            if is_cooled(&self.recent_alarms, ak, now, 300_000) {
                self.recent_alarms.insert(ak, now);
                return true;
            }
        }
        false
    }

    /// A temperature reading above its limit raises a warning, at most once
    /// every five minutes per machine.
    pub fn check_temperature_alarm(&mut self, data: &SensorReading, now: i64) -> (r: Option<
        AlarmDecision,
    >)
        ensures
            final(self).duration_ms() == old(self).duration_ms(),
            final(self).starts() == old(self).starts(),
            ({
                let (rc, f) = threshold_step(
                    old(self).recent(),
                    alarm_slot(data.machine_id, AlarmType::TemperatureHigh),
                    data.over_limit,
                    now,
                    threshold_cooldown_ms(),
                );
                &&& final(self).recent() == rc
                &&& r == if f {
                    Some(
                        AlarmDecision {
                            alarm_type: AlarmType::TemperatureHigh,
                            level: AlarmLevel::Warning,
                            duration_ms: 0,
                        },
                    )
                } else {
                    None
                }
            }),
    {
        if self.check_threshold_alarm(data.machine_id, AlarmType::TemperatureHigh, data.over_limit, now) {
            Some(
                AlarmDecision {
                    alarm_type: AlarmType::TemperatureHigh,
                    level: AlarmLevel::Warning,
                    duration_ms: 0,
                },
            )
        } else {
            None
        }
    }

    /// A displacement reading beyond its limit raises a warning, at most once
    /// every five minutes per machine.
    pub fn check_displacement_alarm(&mut self, data: &SensorReading, now: i64) -> (r: Option<
        AlarmDecision,
    >)
        ensures
            final(self).duration_ms() == old(self).duration_ms(),
            final(self).starts() == old(self).starts(),
            ({
                let (rc, f) = threshold_step(
                    old(self).recent(),
                    alarm_slot(data.machine_id, AlarmType::DisplacementAbnormal),
                    data.over_limit,
                    now,
                    threshold_cooldown_ms(),
                );
                &&& final(self).recent() == rc
                &&& r == if f {
                    Some(
                        AlarmDecision {
                            alarm_type: AlarmType::DisplacementAbnormal,
                            level: AlarmLevel::Warning,
                            duration_ms: 0,
                        },
                    )
                } else {
                    None
                }
            }),
    {
        if self.check_threshold_alarm(
            data.machine_id,
            AlarmType::DisplacementAbnormal,
            data.over_limit,
            now,
        ) {
            Some(
                AlarmDecision {
                    alarm_type: AlarmType::DisplacementAbnormal,
                    level: AlarmLevel::Warning,
                    duration_ms: 0,
                },
            )
        } else {
            None
        }
    }

    /// Routes a reading to the check of its sensor type.
    pub fn process_sensor_data(&mut self, data: &SensorReading, now: i64) -> (r: Option<
        AlarmDecision,
    >)
        ensures
            final(self).duration_ms() == old(self).duration_ms(),
            match data.sensor_type {
                SensorType::Vibration => {
                    let (s, rc, d) = vibration_step(
                        old(self).starts(),
                        old(self).recent(),
                        data.machine_id,
                        data.sensor_id,
                        data.over_limit,
                        now,
                        old(self).duration_ms(),
                    );
                    &&& final(self).starts() == s
                    &&& final(self).recent() == rc
                    &&& r == vibration_decision(d)
                },
                SensorType::Temperature => {
                    let (rc, f) = threshold_step(
                        old(self).recent(),
                        alarm_slot(data.machine_id, AlarmType::TemperatureHigh),
                        data.over_limit,
                        now,
                        threshold_cooldown_ms(),
                    );
                    &&& final(self).starts() == old(self).starts()
                    &&& final(self).recent() == rc
                    &&& r == threshold_decision(AlarmType::TemperatureHigh, f)
                },
                SensorType::Displacement => {
                    let (rc, f) = threshold_step(
                        old(self).recent(),
                        alarm_slot(data.machine_id, AlarmType::DisplacementAbnormal),
                        data.over_limit,
                        now,
                        threshold_cooldown_ms(),
                    );
                    &&& final(self).starts() == old(self).starts()
                    &&& final(self).recent() == rc
                    &&& r == threshold_decision(AlarmType::DisplacementAbnormal, f)
                },
            },
    {
        match data.sensor_type {
            SensorType::Vibration => self.check_vibration_alarm(data, now),
            SensorType::Temperature => self.check_temperature_alarm(data, now),
            SensorType::Displacement => self.check_displacement_alarm(data, now),
        }
    }

    /// A remaining-useful-life prediction: a critical alarm at most once an
    /// hour, a warning at most once every two hours, each to be accompanied
    /// by a maintenance work order (urgent for the critical one). A
    /// prediction above the warning threshold clears the cool-down.
    pub fn check_rul_alarm(&mut self, machine_id: u16, band: RulBand, now: i64) -> (r: Option<
        AlarmLevel,
    >)
        ensures
            final(self).duration_ms() == old(self).duration_ms(),
            final(self).starts() == old(self).starts(),
            (final(self).recent(), r) == rul_step(old(self).recent(), machine_id, band, now),
    {
        let k = alarm_slot_of(machine_id, AlarmType::RULLow);
        match band {
            RulBand::Critical => {
                if is_cooled(&self.recent_alarms, k, now, 3_600_000) {
                    self.recent_alarms.insert(k, now);
                    Some(AlarmLevel::Critical)
                } else {
                    None
                }
            },
            RulBand::Warning => {
                if is_cooled(&self.recent_alarms, k, now, 7_200_000) {
                    self.recent_alarms.insert(k, now);
                    Some(AlarmLevel::Warning)
                } else {
                    None
                }
            },
            RulBand::Normal => {
                self.recent_alarms.remove(&k);
                None
            },
        }
    }
}

} // verus!
