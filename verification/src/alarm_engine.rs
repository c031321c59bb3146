//! Decision core of the per-machine alarm engine: sustained-vibration
//! tracking, remaining-useful-life alarms with a half-hour cool-down, the
//! recent peak-vibration window, maintenance work-order throttling and the
//! machine's overall alarm level.

use vstd::prelude::*;
use dashmap::DashMap;
use crate::clock::utc_now;
use crate::models::{AlarmLevel, RulBand, UtcTime};
use crate::vibration_tracker::SeverityBand;
use crate::window::{bounded_push, push_back_bounded};
use std::collections::VecDeque;

verus! {

/// Per-machine alarm state.
#[derive(Debug)]
pub struct ActiveAlarmState {
    pub vibration_exceed_start: Option<UtcTime>,
    pub last_rul_warning: Option<UtcTime>,
    pub last_rul_critical: Option<UtcTime>,
    /// Sample time and peak vibration (IEEE-754 pattern), oldest first.
    pub recent_rms: VecDeque<(UtcTime, u64)>,
}

/// Alarm kinds the engine raises.
#[derive(Debug, Clone, Copy, PartialEq, Eq, Structural)]
pub enum EngineAlarm {
    /// Vibration at or above the alarm threshold for the configured time.
    VibrationCritical,
    /// Remaining useful life at or below the alarm threshold.
    RulCritical,
    /// Remaining useful life at or below the warning threshold.
    RulWarning,
}

/// Priority of a maintenance work order.
#[derive(Debug, Clone, Copy, PartialEq, Eq, Structural)]
pub enum WorkOrderPriority {
    Critical,
    High,
}

/// Per-machine alarm states, by machine.
pub type AlarmStates = DashMap<u16, ActiveAlarmState>;

/// Time of the last work order, by machine.
pub type WorkOrderTimes = DashMap<u16, UtcTime>;

/// The engine's maps are private and never shared, so nothing but the
/// engine's own methods changes them.
pub struct AlarmEngine {
    alarm_duration_seconds: u64,
    active_alarms: AlarmStates,
    work_order_tracker: WorkOrderTimes,
}

#[verifier::external_type_specification]
#[verifier::external_body]
#[verifier::reject_recursive_types(K)]
#[verifier::reject_recursive_types(V)]
#[verifier::reject_recursive_types(S)]
pub struct ExDashMap<K, V, S>(DashMap<K, V, S>);

/// Entries of a map of per-machine alarm states.
pub uninterp spec fn alarm_state_entries(m: AlarmStates) -> Map<u16, ActiveAlarmState>;

/// Entries of a map of per-machine work-order times.
pub uninterp spec fn work_order_entries(m: WorkOrderTimes) -> Map<u16, UtcTime>;

/// `DashMap::new` (dashmap) for alarm states: an empty map.
#[verifier::external_body]
fn new_state_map() -> (m: AlarmStates)
    ensures
        alarm_state_entries(m) =~= Map::empty(),
{
    DashMap::new()
}

/// `DashMap::insert` (dashmap) of a machine's alarm state: the key now maps
/// to the value, and every other entry stays. dashmap changes the map behind
/// `&self`; the wrapper takes it by `&mut`, and the engine's maps are never
/// shared.
#[verifier::external_body]
fn insert_state(m: &mut AlarmStates, machine_id: u16, state: ActiveAlarmState)
    ensures
        alarm_state_entries(*final(m)) == alarm_state_entries(*old(m)).insert(machine_id, state),
{
    m.insert(machine_id, state);
}

/// `DashMap::remove` (dashmap) of a machine's alarm state: hands out the
/// value the key mapped to, if any, and drops the entry.
#[verifier::external_body]
fn remove_state(m: &mut AlarmStates, machine_id: u16) -> (r: Option<ActiveAlarmState>)
    ensures
        r == (if alarm_state_entries(*old(m)).contains_key(machine_id) {
            Some(alarm_state_entries(*old(m))[machine_id])
        } else {
            None::<ActiveAlarmState>
        }),
        alarm_state_entries(*final(m)) == alarm_state_entries(*old(m)).remove(machine_id),
{
    m.remove(&machine_id).map(|(_, state)| state)
}

/// `DashMap::get` (dashmap) of a machine's alarm state, handing out the
/// state's vibration exceedance start.
#[verifier::external_body]
fn state_exceed_start(m: &AlarmStates, machine_id: u16) -> (r: Option<Option<UtcTime>>)
    ensures
        r == (if alarm_state_entries(*m).contains_key(machine_id) {
            Some(alarm_state_entries(*m)[machine_id].vibration_exceed_start)
        } else {
            None::<Option<UtcTime>>
        }),
{
    m.get(&machine_id).map(|state| state.vibration_exceed_start)
}

/// `DashMap::new` (dashmap) for work-order times: an empty map.
#[verifier::external_body]
fn new_order_map() -> (m: WorkOrderTimes)
    ensures
        work_order_entries(m) =~= Map::empty(),
{
    DashMap::new()
}

/// `DashMap::insert` (dashmap) of a machine's work-order time: the key now
/// maps to the time, and every other entry stays (changed behind `&self`,
/// taken by `&mut` as for alarm states).
#[verifier::external_body]
fn insert_order(m: &mut WorkOrderTimes, machine_id: u16, at: UtcTime)
    ensures
        work_order_entries(*final(m)) == work_order_entries(*old(m)).insert(machine_id, at),
{
    m.insert(machine_id, at);
}

/// `DashMap::get` (dashmap) of a machine's work-order time.
#[verifier::external_body]
fn order_time(m: &WorkOrderTimes, machine_id: u16) -> (r: Option<UtcTime>)
    ensures
        r == (if work_order_entries(*m).contains_key(machine_id) {
            Some(work_order_entries(*m)[machine_id])
        } else {
            None::<UtcTime>
        }),
{
    m.get(&machine_id).map(|at| *at)
}

/// Number of peak-vibration samples kept per machine.
pub open spec fn rms_window() -> int {
    100
}

/// Nanoseconds from the epoch to `t`.
pub open spec fn instant_nanos(t: UtcTime) -> int {
    t.secs as int * 1_000_000_000 + t.nanos as int
}

/// Nanoseconds from `from` to `to` (negative when `to` is earlier).
pub open spec fn nanos_between(from: UtcTime, to: UtcTime) -> int {
    instant_nanos(to) - instant_nanos(from)
}

/// Cool-down between two remaining-useful-life alarms of one kind.
pub open spec fn rul_cooldown_nanos() -> int {
    1_800_000_000_000int
}

/// Minimum spacing of two work orders for one machine.
pub open spec fn work_order_cooldown_nanos() -> int {
    86_400_000_000_000int
}

/// The peak-vibration window after one more sample: the last
/// `rms_window()` samples.
pub open spec fn push_window(w: Seq<(UtcTime, u64)>, x: (UtcTime, u64)) -> Seq<(UtcTime, u64)> {
    bounded_push(w, x, rms_window() as nat)
}

/// A vibration reading: the exceedance start afterwards and whether the
/// vibration alarm is raised.
pub open spec fn vibration_check(
    start: Option<UtcTime>,
    over_threshold: bool,
    now: UtcTime,
    duration_secs: u64,
) -> (Option<UtcTime>, bool) {
    if over_threshold {
        let s = match start {
            Some(t) => t,
            None => now,
        };
        (Some(s), nanos_between(s, now) >= duration_secs * 1_000_000_000)
    } else {
        (None, false)
    }
}

/// Whether an alarm last raised at `last` may be raised again at `now`.
pub open spec fn rul_may_repeat(last: Option<UtcTime>, now: UtcTime) -> bool {
    match last {
        Some(t) => nanos_between(t, now) > rul_cooldown_nanos(),
        None => true,
    }
}

/// A remaining-useful-life reading: last warning time, last critical time,
/// and the alarm raised.
pub open spec fn rul_check(
    last_warning: Option<UtcTime>,
    last_critical: Option<UtcTime>,
    band: RulBand,
    now: UtcTime,
) -> (Option<UtcTime>, Option<UtcTime>, Option<EngineAlarm>) {
    match band {
        RulBand::Critical => if rul_may_repeat(last_critical, now) {
            (last_warning, Some(now), Some(EngineAlarm::RulCritical))
        } else {
            (last_warning, last_critical, None)
        },
        RulBand::Warning => if rul_may_repeat(last_warning, now) {
            (Some(now), last_critical, Some(EngineAlarm::RulWarning))
        } else {
            (last_warning, last_critical, None)
        },
        RulBand::Normal => (last_warning, last_critical, None),
    }
}

/// A work-order request: the new last-order times and the priority of the
/// order to open, if any.
pub open spec fn work_order_step(
    orders: Map<u16, UtcTime>,
    machine_id: u16,
    band: RulBand,
    now: UtcTime,
) -> (Map<u16, UtcTime>, Option<WorkOrderPriority>) {
    let blocked = band == RulBand::Normal || (orders.contains_key(machine_id) && nanos_between(
        orders[machine_id],
        now,
    ) < work_order_cooldown_nanos());
    if blocked {
        (orders, None)
    } else {
        (
            orders.insert(machine_id, now),
            Some(
                if band == RulBand::Critical {
                    WorkOrderPriority::Critical
                } else {
                    WorkOrderPriority::High
                },
            ),
        )
    }
}

/// Whether an alarm event of `level` calls for a maintenance work order:
/// warnings and critical alarms do.
pub fn work_order_due(level: AlarmLevel) -> (r: bool)
    ensures
        r == (level != AlarmLevel::Normal),
{
    match level {
        AlarmLevel::Normal => false,
        _ => true,
    }
}

/// Overall alarm level of a machine at `now`: critical when the remaining
/// useful life is at or below the alarm threshold, or when the vibration is
/// at or above the alarm threshold and its exceedance (as last recorded) has
/// lasted `duration_secs`; otherwise warning when the remaining useful life
/// is at or below the warning threshold or the vibration at or above the
/// warning threshold; otherwise normal.
pub open spec fn machine_level(
    states: Map<u16, ActiveAlarmState>,
    duration_secs: u64,
    machine_id: u16,
    rul_band: RulBand,
    vibration: SeverityBand,
    now: UtcTime,
) -> AlarmLevel {
    let sustained = vibration == SeverityBand::Exceeded && states.contains_key(machine_id) && (
    states[machine_id].vibration_exceed_start matches Some(s) && nanos_between(s, now)
        >= duration_secs * 1_000_000_000);
    if rul_band == RulBand::Critical || sustained {
        AlarmLevel::Critical
    } else if rul_band == RulBand::Warning || vibration != SeverityBand::Normal {
        AlarmLevel::Warning
    } else {
        AlarmLevel::Normal
    }
}

/// Law: a remaining-useful-life alarm of one kind at `t1` records `t1` as
/// that kind's last alarm, and the same kind is not raised again for the
/// same machine within half an hour (`process_data` applies `rul_check` to
/// the machine's state).
pub proof fn lemma_rul_engine_cooldown(
    last_warning: Option<UtcTime>,
    last_critical: Option<UtcTime>,
    band: RulBand,
    t1: UtcTime,
    t2: UtcTime,
)
    requires
        rul_check(last_warning, last_critical, band, t1).2 is Some,
        nanos_between(t1, t2) <= rul_cooldown_nanos(),
    ensures
        ({
            let (lw, lc, _) = rul_check(last_warning, last_critical, band, t1);
            &&& band == RulBand::Critical ==> lc == Some(t1)
            &&& band == RulBand::Warning ==> lw == Some(t1)
            &&& rul_check(lw, lc, band, t2).2 is None
        }),
{
}

/// The last warning and last critical times after a run of
/// remaining-useful-life readings `(band, time)` of one machine, in order.
pub open spec fn rul_after_readings(
    last_warning: Option<UtcTime>,
    last_critical: Option<UtcTime>,
    readings: Seq<(RulBand, UtcTime)>,
) -> (Option<UtcTime>, Option<UtcTime>)
    decreases readings.len(),
{
    if readings.len() == 0 {
        (last_warning, last_critical)
    } else {
        let (lw, lc, _) = rul_check(last_warning, last_critical, readings[0].0, readings[0].1);
        rul_after_readings(lw, lc, readings.drop_first())
    }
}

/// Whether a recorded alarm time is at or after `t`.
pub open spec fn recorded_since(last: Option<UtcTime>, t: UtcTime) -> bool {
    last matches Some(s) && instant_nanos(s) >= instant_nanos(t)
}

/// Law: a reading never forgets an alarm time: each recorded time is kept
/// or replaced by the reading's own time, and a reading in the normal band
/// changes neither and raises nothing.
pub proof fn lemma_rul_reading_keeps_times(
    last_warning: Option<UtcTime>,
    last_critical: Option<UtcTime>,
    band: RulBand,
    now: UtcTime,
)
    ensures
        ({
            let (lw, lc, a) = rul_check(last_warning, last_critical, band, now);
            &&& lw == last_warning || lw == Some(now)
            &&& lc == last_critical || lc == Some(now)
            &&& last_warning is Some ==> lw is Some
            &&& last_critical is Some ==> lc is Some
            &&& band == RulBand::Normal ==> lw == last_warning && lc == last_critical && a is None
        }),
{
}

/// A recorded alarm time at or after `t` stays so through any readings.
proof fn lemma_rul_readings_keep_since(
    last_warning: Option<UtcTime>,
    last_critical: Option<UtcTime>,
    readings: Seq<(RulBand, UtcTime)>,
    t: UtcTime,
)
    ensures
        recorded_since(last_warning, t) ==> recorded_since(
            rul_after_readings(last_warning, last_critical, readings).0,
            t,
        ),
        recorded_since(last_critical, t) ==> recorded_since(
            rul_after_readings(last_warning, last_critical, readings).1,
            t,
        ),
    decreases readings.len(),
{
    if readings.len() > 0 {
        let (lw, lc, _) = rul_check(last_warning, last_critical, readings[0].0, readings[0].1);
        if recorded_since(last_warning, t) && lw != last_warning {
            // a new warning time was recorded: only after the cool-down
            // since the previous one, which was at or after `t`
            assert(recorded_since(lw, t));
        }
        if recorded_since(last_critical, t) && lc != last_critical {
            assert(recorded_since(lc, t));
        }
        lemma_rul_readings_keep_since(lw, lc, readings.drop_first(), t);
    }
}

/// Law: an alarm of one kind raised at `t1` is not raised again for that
/// machine at any `t2` within half an hour after it, whatever readings
/// (normal ones included, at any times) come in between.
pub proof fn lemma_rul_cooldown_across_readings(
    last_warning: Option<UtcTime>,
    last_critical: Option<UtcTime>,
    band: RulBand,
    t1: UtcTime,
    between: Seq<(RulBand, UtcTime)>,
    t2: UtcTime,
)
    requires
        rul_check(last_warning, last_critical, band, t1).2 is Some,
        nanos_between(t1, t2) <= rul_cooldown_nanos(),
    ensures
        ({
            let (lw, lc, _) = rul_check(last_warning, last_critical, band, t1);
            let (lw2, lc2) = rul_after_readings(lw, lc, between);
            rul_check(lw2, lc2, band, t2).2 is None
        }),
{
    let (lw, lc, _) = rul_check(last_warning, last_critical, band, t1);
    lemma_rul_readings_keep_since(lw, lc, between, t1);
}

/// Whether the machine's recorded vibration exceedance has lasted at least
/// `duration_secs` at `now`.
pub open spec fn exceeded_for(
    states: Map<u16, ActiveAlarmState>,
    duration_secs: u64,
    machine_id: u16,
    now: UtcTime,
) -> bool {
    &&& states.contains_key(machine_id)
    &&& states[machine_id].vibration_exceed_start is Some
    &&& nanos_between(states[machine_id].vibration_exceed_start->0, now) >= duration_secs
        * 1_000_000_000
}

/// Rank of an alarm level: normal below warning below critical.
pub open spec fn level_rank(l: AlarmLevel) -> int {
    match l {
        AlarmLevel::Normal => 0,
        AlarmLevel::Warning => 1,
        AlarmLevel::Critical => 2,
    }
}

/// Rank of a remaining-useful-life band: normal below warning below
/// critical.
pub open spec fn rul_rank(b: RulBand) -> int {
    match b {
        RulBand::Normal => 0,
        RulBand::Warning => 1,
        RulBand::Critical => 2,
    }
}

/// Rank of a vibration band: normal below warning below exceeded.
pub open spec fn severity_rank(b: SeverityBand) -> int {
    match b {
        SeverityBand::Normal => 0,
        SeverityBand::Warning => 1,
        SeverityBand::Exceeded => 2,
    }
}

/// Law: a machine's level only rises with a worse remaining-useful-life
/// band or a worse vibration band; a critical band, or a vibration
/// exceedance that has lasted the configured time, makes it critical
/// whatever the other input; a warning band of either makes it at least a
/// warning; and with both bands normal it is normal.
pub proof fn lemma_machine_level_monotone(
    states: Map<u16, ActiveAlarmState>,
    duration_secs: u64,
    machine_id: u16,
    r1: RulBand,
    r2: RulBand,
    v1: SeverityBand,
    v2: SeverityBand,
    now: UtcTime,
)
    ensures
        rul_rank(r1) <= rul_rank(r2) && severity_rank(v1) <= severity_rank(v2) ==> level_rank(
            machine_level(states, duration_secs, machine_id, r1, v1, now),
        ) <= level_rank(machine_level(states, duration_secs, machine_id, r2, v2, now)),
        r1 == RulBand::Critical ==> machine_level(states, duration_secs, machine_id, r1, v1, now)
            == AlarmLevel::Critical,
        exceeded_for(states, duration_secs, machine_id, now) ==> machine_level(
            states,
            duration_secs,
            machine_id,
            r1,
            SeverityBand::Exceeded,
            now,
        ) == AlarmLevel::Critical,
        r1 != RulBand::Normal || v1 != SeverityBand::Normal ==> level_rank(
            machine_level(states, duration_secs, machine_id, r1, v1, now),
        ) >= 1,
        machine_level(states, duration_secs, machine_id, RulBand::Normal, SeverityBand::Normal, now)
            == AlarmLevel::Normal,
{
}

/// Law: at most one work order per machine per day: after an order at
/// `t1`, a request less than a day later opens none.
pub proof fn lemma_one_work_order_per_day(
    orders: Map<u16, UtcTime>,
    machine_id: u16,
    b1: RulBand,
    t1: UtcTime,
    b2: RulBand,
    t2: UtcTime,
)
    requires
        work_order_step(orders, machine_id, b1, t1).1 is Some,
        nanos_between(t1, t2) < work_order_cooldown_nanos(),
    ensures
        work_order_step(work_order_step(orders, machine_id, b1, t1).0, machine_id, b2, t2).1 is None,
{
}

/// Law: a vibration alarm needs an exceedance that has lasted the
/// configured time; a reading below the threshold ends the exceedance.
pub proof fn lemma_engine_vibration_needs_duration(
    start: Option<UtcTime>,
    over_threshold: bool,
    now: UtcTime,
    duration_secs: u64,
)
    ensures
        vibration_check(start, over_threshold, now, duration_secs).1 ==> over_threshold
            && nanos_between(
            match start {
                Some(t) => t,
                None => now,
            },
            now,
        ) >= duration_secs * 1_000_000_000,
        !over_threshold ==> vibration_check(start, over_threshold, now, duration_secs).0 is None,
{
}

/// The state of a machine that has not reported yet.
pub open spec fn fresh_state(s: ActiveAlarmState) -> bool {
    &&& s.vibration_exceed_start is None
    &&& s.last_rul_warning is None
    &&& s.last_rul_critical is None
    &&& s.recent_rms@.len() == 0
}

fn fresh() -> (r: ActiveAlarmState)
    ensures
        fresh_state(r),
{
    ActiveAlarmState {
        vibration_exceed_start: None,
        last_rul_warning: None,
        last_rul_critical: None,
        recent_rms: VecDeque::with_capacity(100),
    }
}

fn nanos_of(t: UtcTime) -> (r: i128)
    ensures
        r == instant_nanos(t),
{
    t.secs as i128 * 1_000_000_000 + t.nanos as i128
}

fn rul_may_repeat_exec(last: Option<UtcTime>, now: UtcTime) -> (r: bool)
    ensures
        r == rul_may_repeat(last, now),
{
    match last {
        Some(t) => nanos_of(now) - nanos_of(t) > 1_800_000_000_000,
        None => true,
    }
}

impl AlarmEngine {
    /// Per-machine states.
    pub closed spec fn states(&self) -> Map<u16, ActiveAlarmState> {
        alarm_state_entries(self.active_alarms)
    }

    /// Time of the last work order per machine.
    pub closed spec fn work_orders(&self) -> Map<u16, UtcTime> {
        work_order_entries(self.work_order_tracker)
    }

    /// Seconds a vibration exceedance must last before it alarms.
    pub closed spec fn duration_secs(&self) -> u64 {
        self.alarm_duration_seconds
    }

    /// An engine with a fresh state for machines `1..=machine_count`.
    pub fn new(machine_count: u16, alarm_duration_seconds: u64) -> (r: Self)
        ensures
            r.duration_secs() == alarm_duration_seconds,
            r.work_orders() == Map::<u16, UtcTime>::empty(),
            forall|id: u16| #[trigger]
                r.states().contains_key(id) <==> 1 <= id <= machine_count,
            forall|id: u16| #[trigger]
                r.states().contains_key(id) ==> fresh_state(r.states()[id]),
    {
        let mut active_alarms = new_state_map();
        let mut id: u16 = 1;
        while id <= machine_count
            invariant
                1 <= id,
                id as int <= machine_count as int + 1,
                forall|k: u16| #[trigger]
                    alarm_state_entries(active_alarms).contains_key(k) <==> 1 <= k < id,
                forall|k: u16| #[trigger]
                    alarm_state_entries(active_alarms).contains_key(k) ==> fresh_state(
                        alarm_state_entries(active_alarms)[k],
                    ),
            decreases machine_count as int + 1 - id,
        {
            insert_state(&mut active_alarms, id, fresh());
            if id == u16::MAX {
                return AlarmEngine {
                    alarm_duration_seconds,
                    active_alarms,
                    work_order_tracker: new_order_map(),
                };
            }
            id = id + 1;
        }
        AlarmEngine { alarm_duration_seconds, active_alarms, work_order_tracker: new_order_map() }
    }

    /// One sample set of a machine: records its peak vibration, then checks
    /// the vibration alarm (`over_threshold`: peak at or above the alarm
    /// threshold) and the remaining-useful-life alarm. Returns the alarms
    /// raised, vibration first.
    pub fn process_data(
        &mut self,
        machine_id: u16,
        timestamp: UtcTime,
        max_rms_bits: u64,
        over_threshold: bool,
        rul_band: RulBand,
    ) -> (r: Vec<EngineAlarm>)
        ensures
            final(self).duration_secs() == old(self).duration_secs(),
            final(self).work_orders() == old(self).work_orders(),
            forall|id: u16| #[trigger]
                final(self).states().contains_key(id) <==> (old(self).states().contains_key(id)
                    || id == machine_id),
            forall|id: u16|
                id != machine_id && #[trigger] old(self).states().contains_key(id) ==> final(self).states()[id] == old(self).states()[id],
            ({
                let before = old(self).states();
                let had = before.contains_key(machine_id);
                let start = if had {
                    before[machine_id].vibration_exceed_start
                } else {
                    None
                };
                let lw = if had {
                    before[machine_id].last_rul_warning
                } else {
                    None
                };
                let lc = if had {
                    before[machine_id].last_rul_critical
                } else {
                    None
                };
                let w = if had {
                    before[machine_id].recent_rms@
                } else {
                    Seq::empty()
                };
                let (s2, vib) = vibration_check(start, over_threshold, timestamp, old(self).duration_secs());
                let (lw2, lc2, rul) = rul_check(lw, lc, rul_band, timestamp);
                let after = final(self).states()[machine_id];
                &&& after.vibration_exceed_start == s2
                &&& after.last_rul_warning == lw2
                &&& after.last_rul_critical == lc2
                &&& after.recent_rms@ == push_window(w, (timestamp, max_rms_bits))
                &&& r@ == (if vib {
                    seq![EngineAlarm::VibrationCritical]
                } else {
                    Seq::empty()
                }) + match rul {
                    Some(a) => seq![a],
                    None => Seq::empty(),
                }
            }),
    {
        let mut state = match remove_state(&mut self.active_alarms, machine_id) {
            Some(s) => s,
            None => fresh(),
        };
        let mut alarms: Vec<EngineAlarm> = Vec::new();
        push_back_bounded(&mut state.recent_rms, (timestamp, max_rms_bits), 100);
        if self.check_vibration_alarm(&mut state, over_threshold, timestamp) {
            alarms.push(EngineAlarm::VibrationCritical);
        }
        match self.check_rul_alarm(&mut state, rul_band, timestamp) {
            Some(a) => alarms.push(a),
            None => {},
        }
        insert_state(&mut self.active_alarms, machine_id, state);
        proof {
            let v: Seq<EngineAlarm> = if vibration_check(
                if old(self).states().contains_key(machine_id) {
                    old(self).states()[machine_id].vibration_exceed_start
                } else {
                    None
                },
                over_threshold,
                timestamp,
                old(self).duration_secs(),
            ).1 {
                seq![EngineAlarm::VibrationCritical]
            } else {
                Seq::empty()
            };
            assert(alarms@ =~= v + match rul_check(
                if old(self).states().contains_key(machine_id) {
                    old(self).states()[machine_id].last_rul_warning
                } else {
                    None
                },
                if old(self).states().contains_key(machine_id) {
                    old(self).states()[machine_id].last_rul_critical
                } else {
                    None
                },
                rul_band,
                timestamp,
            ).2 {
                Some(a) => seq![a],
                None => Seq::empty(),
            });
        }
        alarms
    }

    /// The vibration check of one sample on a machine's state
    /// (`over_threshold`: peak at or above the alarm threshold): whether the
    /// exceedance has lasted the configured time.
    pub fn check_vibration_alarm(&self, state: &mut ActiveAlarmState, over_threshold: bool, now: UtcTime) -> (r:
        bool)
        ensures
            (final(state).vibration_exceed_start, r) == vibration_check(
                old(state).vibration_exceed_start,
                over_threshold,
                now,
                self.duration_secs(),
            ),
            final(state).last_rul_warning == old(state).last_rul_warning,
            final(state).last_rul_critical == old(state).last_rul_critical,
            final(state).recent_rms@ == old(state).recent_rms@,
    {
        if over_threshold {
            let start = match state.vibration_exceed_start {
                Some(t) => t,
                None => now,
            };
            state.vibration_exceed_start = Some(start);
            let elapsed: i128 = nanos_of(now) - nanos_of(start);
            elapsed >= self.alarm_duration_seconds as i128 * 1_000_000_000
        } else {
            state.vibration_exceed_start = None;
            false
        }
    }

    /// The remaining-useful-life check of one sample on a machine's state:
    /// an alarm of the band's kind unless one was raised less than half an
    /// hour ago, recording its time.
    pub fn check_rul_alarm(&self, state: &mut ActiveAlarmState, rul_band: RulBand, now: UtcTime) -> (r:
        Option<EngineAlarm>)
        ensures
            (final(state).last_rul_warning, final(state).last_rul_critical, r) == rul_check(
                old(state).last_rul_warning,
                old(state).last_rul_critical,
                rul_band,
                now,
            ),
            final(state).vibration_exceed_start == old(state).vibration_exceed_start,
            final(state).recent_rms@ == old(state).recent_rms@,
    {
        match rul_band {
            RulBand::Critical => {
                if rul_may_repeat_exec(state.last_rul_critical, now) {
                    state.last_rul_critical = Some(now);
                    Some(EngineAlarm::RulCritical)
                } else {
                    None
                }
            },
            RulBand::Warning => {
                if rul_may_repeat_exec(state.last_rul_warning, now) {
                    state.last_rul_warning = Some(now);
                    Some(EngineAlarm::RulWarning)
                } else {
                    None
                }
            },
            RulBand::Normal => None,
        }
    }

    /// Whether to open a maintenance work order for a machine at `now`, and
    /// with which priority: only for a remaining useful life at or below the
    /// warning threshold, and at most one per machine per day.
    pub fn should_create_work_order_at(&mut self, machine_id: u16, rul_band: RulBand, now: UtcTime) -> (r:
        Option<WorkOrderPriority>)
        ensures
            final(self).duration_secs() == old(self).duration_secs(),
            final(self).states() == old(self).states(),
            (final(self).work_orders(), r) == work_order_step(
                old(self).work_orders(),
                machine_id,
                rul_band,
                now,
            ),
    {
        match rul_band {
            RulBand::Normal => {
                return None;
            },
            _ => {},
        }
        match order_time(&self.work_order_tracker, machine_id) {
            Some(last) => {
                if nanos_of(now) - nanos_of(last) < 86_400_000_000_000 {
                    return None;
                }
            },
            None => {},
        }
        insert_order(&mut self.work_order_tracker, machine_id, now);
        match rul_band {
            RulBand::Critical => Some(WorkOrderPriority::Critical),
            _ => Some(WorkOrderPriority::High),
        }
    }

    /// `should_create_work_order_at` at the current time.
    pub fn should_create_work_order(&mut self, machine_id: u16, rul_band: RulBand) -> (r: Option<
        WorkOrderPriority,
    >)
        ensures
            final(self).duration_secs() == old(self).duration_secs(),
            final(self).states() == old(self).states(),
            exists|now: UtcTime|
                now.secs >= 0 && #[trigger] work_order_step(
                    old(self).work_orders(),
                    machine_id,
                    rul_band,
                    now,
                ) == (final(self).work_orders(), r),
            rul_band == RulBand::Normal ==> r is None && final(self).work_orders() == old(self).work_orders(),
            r matches Some(p) ==> (p == WorkOrderPriority::Critical <==> rul_band
                == RulBand::Critical) && final(self).work_orders().contains_key(machine_id),
    {
        let now = utc_now();
        let r = self.should_create_work_order_at(machine_id, rul_band, now);
        assert(work_order_step(old(self).work_orders(), machine_id, rul_band, now) == (
            self.work_orders(),
            r,
        ));
        r
    }

    /// Overall alarm level of a machine at `now` (see `machine_level`).
    pub fn determine_machine_alarm_level_at(
        &self,
        machine_id: u16,
        rul_band: RulBand,
        vibration: SeverityBand,
        now: UtcTime,
    ) -> (r: AlarmLevel)
        ensures
            r == machine_level(
                self.states(),
                self.duration_secs(),
                machine_id,
                rul_band,
                vibration,
                now,
            ),
    {
        let mut level = AlarmLevel::Normal;
        match vibration {
            SeverityBand::Exceeded => match state_exceed_start(&self.active_alarms, machine_id) {
                Some(exceed_start) => match exceed_start {
                    Some(start) => {
                        if nanos_of(now) - nanos_of(start) >= self.alarm_duration_seconds as i128
                            * 1_000_000_000 {
                            level = AlarmLevel::Critical;
                        }
                    },
                    None => {},
                },
                None => {},
            },
            _ => {},
        }
        let normal = match level {
            AlarmLevel::Normal => true,
            _ => false,
        };
        match rul_band {
            RulBand::Critical => AlarmLevel::Critical,
            RulBand::Warning => if normal {
                AlarmLevel::Warning
            } else {
                level
            },
            RulBand::Normal => {
                let over_warning = match vibration {
                    SeverityBand::Normal => false,
                    _ => true,
                };
                if over_warning && normal {
                    AlarmLevel::Warning
                } else {
                    level
                }
            },
        }
    }

    /// `determine_machine_alarm_level_at` at the current time.
    pub fn determine_machine_alarm_level(
        &self,
        machine_id: u16,
        rul_band: RulBand,
        vibration: SeverityBand,
    ) -> (r: AlarmLevel)
        ensures
            exists|now: UtcTime|
                now.secs >= 0 && #[trigger] machine_level(
                    self.states(),
                    self.duration_secs(),
                    machine_id,
                    rul_band,
                    vibration,
                    now,
                ) == r,
            rul_band == RulBand::Critical ==> r == AlarmLevel::Critical,
            rul_band == RulBand::Warning ==> r != AlarmLevel::Normal,
            vibration != SeverityBand::Normal ==> r != AlarmLevel::Normal,
            rul_band == RulBand::Normal && vibration == SeverityBand::Normal ==> r
                == AlarmLevel::Normal,
    {
        let now = utc_now();
        let r = self.determine_machine_alarm_level_at(machine_id, rul_band, vibration, now);
        assert(machine_level(self.states(), self.duration_secs(), machine_id, rul_band, vibration, now) == r);
        r
    }
}

} // verus!
