//! Tracking of sustained vibration exceedance per (machine, sensor).
//!
//! A sensor whose severity stays above the alarm threshold starts a timer the
//! first time it is seen exceeding; once the timer has run for the configured
//! number of whole seconds the sensor alarms and its timer is cleared. Any
//! reading at or below the threshold clears the timer. Times are monotonic
//! nanosecond readings supplied by the caller.

use vstd::prelude::*;
use std::collections::HashMap;
use vstd::std_specs::iter::IteratorSpec;

verus! {

broadcast use vstd::std_specs::hash::group_hash_axioms;

/// Where one vibration severity reading falls relative to the thresholds
/// (decided by the caller from the floating-point reading).
#[derive(Debug, Clone, Copy, PartialEq, Eq, Structural)]
pub enum SeverityBand {
    /// At or below the warning threshold.
    Normal,
    /// Above the warning threshold, at or below the alarm threshold.
    Warning,
    /// Above the (condition-adjusted) alarm threshold.
    Exceeded,
}

/// Exceedance timers, one per (machine, sensor) key: the monotonic time at
/// which the exceedance started, under the key's code.
#[derive(Debug)]
pub struct VibrationTracker {
    timers: HashMap<u32, u64>,
}

/// Nanoseconds in a second.
pub open spec fn nanos_per_sec() -> int {
    1_000_000_000
}

/// Lifetime of a timer before the periodic cleanup drops it.
pub open spec fn tracker_ttl_ns() -> int {
    60 * nanos_per_sec()
}

/// Time elapsed between two monotonic readings, zero when `now` is earlier.
pub open spec fn elapsed_ns(now: u64, since: u64) -> int {
    if now >= since {
        now - since
    } else {
        0
    }
}

/// Whole seconds elapsed between two monotonic readings.
pub open spec fn elapsed_secs(now: u64, since: u64) -> int {
    elapsed_ns(now, since) / nanos_per_sec()
}

/// The key under which sensor number `i` of machine `m` is tracked (the
/// sensor number is kept modulo 256).
pub open spec fn sensor_key(m: u16, i: int) -> (u16, u8) {
    (m, (i % 256) as u8)
}

/// One reading applied to the timers: the new timers and whether the sensor
/// alarms.
pub open spec fn sensor_step(
    timers: Map<(u16, u8), u64>,
    k: (u16, u8),
    band: SeverityBand,
    now: u64,
    duration_secs: u64,
) -> (Map<(u16, u8), u64>, bool) {
    match band {
        SeverityBand::Exceeded => {
            let since = if timers.contains_key(k) {
                timers[k]
            } else {
                now
            };
            if elapsed_secs(now, since) >= duration_secs {
                (timers.remove(k), true)
            } else {
                (timers.insert(k, since), false)
            }
        },
        _ => (timers.remove(k), false),
    }
}

/// Readings `i..` of machine `m` applied in order, stopping at the first
/// sensor that alarms: the timers afterwards and that sensor, if any.
pub open spec fn run_until_alarm(
    timers: Map<(u16, u8), u64>,
    m: u16,
    bands: Seq<SeverityBand>,
    i: int,
    now: u64,
    duration_secs: u64,
) -> (Map<(u16, u8), u64>, Option<int>)
    decreases bands.len() - i,
{
    if i < 0 || i >= bands.len() {
        (timers, None)
    } else {
        let (next, fired) = sensor_step(timers, sensor_key(m, i), bands[i], now, duration_secs);
        if fired {
            (next, Some(i))
        } else {
            run_until_alarm(next, m, bands, i + 1, now, duration_secs)
        }
    }
}

/// Readings `i..` of machine `m` all applied in order: the timers afterwards
/// and, appended to `fired`, every sensor that alarmed.
pub open spec fn run_all(
    timers: Map<(u16, u8), u64>,
    m: u16,
    bands: Seq<SeverityBand>,
    i: int,
    now: u64,
    duration_secs: u64,
    fired: Seq<int>,
) -> (Map<(u16, u8), u64>, Seq<int>)
    decreases bands.len() - i,
{
    if i < 0 || i >= bands.len() {
        (timers, fired)
    } else {
        let (next, f) = sensor_step(timers, sensor_key(m, i), bands[i], now, duration_secs);
        run_all(
            next,
            m,
            bands,
            i + 1,
            now,
            duration_secs,
            if f {
                fired.push(i)
            } else {
                fired
            },
        )
    }
}


/// Whether a reading above the alarm threshold would alarm under `timers`:
/// the running timer (or one starting now) has reached `duration_secs`.
pub open spec fn sustained(timers: Map<(u16, u8), u64>, k: (u16, u8), now: u64, duration_secs: u64) -> bool {
    elapsed_secs(
        now,
        if timers.contains_key(k) {
            timers[k]
        } else {
            now
        },
    ) >= duration_secs
}

/// Only the key of the reading is touched by one step.
proof fn lemma_step_frame(
    timers: Map<(u16, u8), u64>,
    k: (u16, u8),
    band: SeverityBand,
    now: u64,
    duration_secs: u64,
    other: (u16, u8),
)
    requires
        other != k,
    ensures
        sensor_step(timers, k, band, now, duration_secs).0.contains_key(other) == timers.contains_key(
            other,
        ),
        sensor_step(timers, k, band, now, duration_secs).0.contains_key(other) ==> sensor_step(
            timers,
            k,
            band,
            now,
            duration_secs,
        ).0[other] == timers[other],
{
}

/// Law: the sensor that alarms has its timer cleared.
pub proof fn lemma_alarm_clears_timer(
    timers: Map<(u16, u8), u64>,
    m: u16,
    bands: Seq<SeverityBand>,
    start: int,
    now: u64,
    duration_secs: u64,
)
    ensures
        run_until_alarm(timers, m, bands, start, now, duration_secs).1 matches Some(i) ==> !run_until_alarm(
            timers,
            m,
            bands,
            start,
            now,
            duration_secs,
        ).0.contains_key(sensor_key(m, i)),
    decreases bands.len() - start,
{
    if 0 <= start < bands.len() {
        let (next, fired) = sensor_step(timers, sensor_key(m, start), bands[start], now, duration_secs);
        if !fired {
            lemma_alarm_clears_timer(next, m, bands, start + 1, now, duration_secs);
        }
    }
}

/// Law: with at most 256 sensors, the first sensor that alarms is the first
/// one, in sensor order, that reads above the alarm threshold while its
/// exceedance has lasted the configured number of seconds; no sensor alarms
/// when there is none.
pub proof fn lemma_first_sustained_sensor_alarms(
    timers: Map<(u16, u8), u64>,
    m: u16,
    bands: Seq<SeverityBand>,
    start: int,
    now: u64,
    duration_secs: u64,
)
    requires
        0 <= start,
        bands.len() <= 256,
    ensures
        match run_until_alarm(timers, m, bands, start, now, duration_secs).1 {
            Some(i) => {
                &&& start <= i < bands.len()
                &&& bands[i] == SeverityBand::Exceeded
                &&& sustained(timers, sensor_key(m, i), now, duration_secs)
                &&& forall|j: int|
                    start <= j < i ==> !(bands[j] == SeverityBand::Exceeded && #[trigger] sustained(
                        timers,
                        sensor_key(m, j),
                        now,
                        duration_secs,
                    ))
            },
            None => forall|j: int|
                start <= j < bands.len() ==> !(bands[j] == SeverityBand::Exceeded
                    && #[trigger] sustained(timers, sensor_key(m, j), now, duration_secs)),
        },
    decreases bands.len() - start,
{
    if start < bands.len() {
        let k = sensor_key(m, start);
        let (next, fired) = sensor_step(timers, k, bands[start], now, duration_secs);
        if !fired {
            lemma_first_sustained_sensor_alarms(next, m, bands, start + 1, now, duration_secs);
            assert forall|j: int|
                #![trigger sustained(next, sensor_key(m, j), now, duration_secs)]
                #![trigger sustained(timers, sensor_key(m, j), now, duration_secs)]
                start < j < bands.len() implies sustained(
                next,
                sensor_key(m, j),
                now,
                duration_secs,
            ) == sustained(timers, sensor_key(m, j), now, duration_secs) by {
                assert(sensor_key(m, j) != k);
                lemma_step_frame(timers, k, bands[start], now, duration_secs, sensor_key(m, j));
            }
        }
    }
}

/// Law: readings of one machine never touch the timers of another machine.
pub proof fn lemma_other_machines_untouched(
    timers: Map<(u16, u8), u64>,
    m: u16,
    bands: Seq<SeverityBand>,
    start: int,
    now: u64,
    duration_secs: u64,
    other: (u16, u8),
)
    requires
        other.0 != m,
    ensures
        run_until_alarm(timers, m, bands, start, now, duration_secs).0.contains_key(other)
            == timers.contains_key(other),
        timers.contains_key(other) ==> run_until_alarm(
            timers,
            m,
            bands,
            start,
            now,
            duration_secs,
        ).0[other] == timers[other],
    decreases bands.len() - start,
{
    if 0 <= start < bands.len() {
        let k = sensor_key(m, start);
        let (next, fired) = sensor_step(timers, k, bands[start], now, duration_secs);
        lemma_step_frame(timers, k, bands[start], now, duration_secs, other);
        if !fired {
            lemma_other_machines_untouched(next, m, bands, start + 1, now, duration_secs, other);
        }
    }
}

/// Law: with at most 256 sensors, a running timer keeps its start while its
/// sensor keeps exceeding, and a timer that was not running starts at the
/// current reading.
pub proof fn lemma_timer_start_kept(
    timers: Map<(u16, u8), u64>,
    m: u16,
    bands: Seq<SeverityBand>,
    start: int,
    now: u64,
    duration_secs: u64,
    k: (u16, u8),
)
    requires
        0 <= start,
        bands.len() <= 256,
    ensures
        run_until_alarm(timers, m, bands, start, now, duration_secs).0.contains_key(k) ==> run_until_alarm(
            timers,
            m,
            bands,
            start,
            now,
            duration_secs,
        ).0[k] == if timers.contains_key(k) {
            timers[k]
        } else {
            now
        },
    decreases bands.len() - start,
{
    if 0 <= start < bands.len() {
        let kk = sensor_key(m, start);
        let (next, fired) = sensor_step(timers, kk, bands[start], now, duration_secs);
        if !fired {
            lemma_timer_start_kept(next, m, bands, start + 1, now, duration_secs, k);
            if k != kk {
                lemma_step_frame(timers, kk, bands[start], now, duration_secs, k);
            } else {
                lemma_keys_after(next, m, bands, start + 1, now, duration_secs, k);
            }
        }
    }
}

/// Law: with at most 256 sensors, after the readings a timer runs for a
/// sensor of this machine only if that sensor read above the alarm threshold
/// (for the sensors that were processed).
pub proof fn lemma_only_exceeding_sensors_tracked(
    timers: Map<(u16, u8), u64>,
    m: u16,
    bands: Seq<SeverityBand>,
    start: int,
    now: u64,
    duration_secs: u64,
)
    requires
        0 <= start,
        bands.len() <= 256,
    ensures
        forall|j: int|
            start <= j < bands.len() && (run_until_alarm(timers, m, bands, start, now, duration_secs).1 is None
                || j <= run_until_alarm(timers, m, bands, start, now, duration_secs).1->0)
                && #[trigger] run_until_alarm(timers, m, bands, start, now, duration_secs).0.contains_key(
                sensor_key(m, j),
            ) ==> bands[j] == SeverityBand::Exceeded,
    decreases bands.len() - start,
{
    if start < bands.len() {
        let k = sensor_key(m, start);
        let (next, fired) = sensor_step(timers, k, bands[start], now, duration_secs);
        if !fired {
            lemma_only_exceeding_sensors_tracked(next, m, bands, start + 1, now, duration_secs);
            lemma_keys_after(next, m, bands, start + 1, now, duration_secs, k);
        }
    }
}

proof fn lemma_keys_after(
    timers: Map<(u16, u8), u64>,
    m: u16,
    bands: Seq<SeverityBand>,
    start: int,
    now: u64,
    duration_secs: u64,
    k: (u16, u8),
)
    requires
        0 <= start,
        bands.len() <= 256,
        forall|j: int| start <= j < bands.len() ==> sensor_key(m, j) != k,
    ensures
        run_until_alarm(timers, m, bands, start, now, duration_secs).0.contains_key(k)
            == timers.contains_key(k),
    decreases bands.len() - start,
{
    if start < bands.len() {
        let kk = sensor_key(m, start);
        let (next, fired) = sensor_step(timers, kk, bands[start], now, duration_secs);
        lemma_step_frame(timers, kk, bands[start], now, duration_secs, k);
        if !fired {
            lemma_keys_after(next, m, bands, start + 1, now, duration_secs, k);
        }
    }
}

/// Law: every sensor reported by the all-sensors check read above the alarm
/// threshold, and sensors are reported in increasing order.
pub proof fn lemma_all_reported_exceeded(
    timers: Map<(u16, u8), u64>,
    m: u16,
    bands: Seq<SeverityBand>,
    start: int,
    now: u64,
    duration_secs: u64,
    fired: Seq<int>,
)
    requires
        0 <= start,
        forall|a: int| 0 <= a < fired.len() ==> fired[a] < start,
        forall|a: int, b: int| 0 <= a < b < fired.len() ==> fired[a] < fired[b],
    ensures
        ({
            let out = run_all(timers, m, bands, start, now, duration_secs, fired).1;
            &&& out.len() >= fired.len()
            &&& out.subrange(0, fired.len() as int) == fired
            &&& forall|a: int|
                fired.len() <= a < out.len() ==> start <= #[trigger] out[a] < bands.len()
                    && bands[out[a]] == SeverityBand::Exceeded
            &&& forall|a: int, b: int| 0 <= a < b < out.len() ==> out[a] < out[b]
        }),
    decreases bands.len() - start,
{
    if start < bands.len() {
        let (next, f) = sensor_step(timers, sensor_key(m, start), bands[start], now, duration_secs);
        let acc = if f {
            fired.push(start)
        } else {
            fired
        };
        lemma_all_reported_exceeded(next, m, bands, start + 1, now, duration_secs, acc);
        let out = run_all(timers, m, bands, start, now, duration_secs, fired).1;
        assert(out.subrange(0, acc.len() as int) == acc);
        assert(out.subrange(0, fired.len() as int) =~= acc.subrange(0, fired.len() as int));
        assert(acc.subrange(0, fired.len() as int) =~= fired);
        if f {
            assert(out[fired.len() as int] == acc[fired.len() as int]);
        }
    } else {
        assert(fired.subrange(0, fired.len() as int) =~= fired);
    }
}

/// Code of a key in the timer table: machine and sensor packed into 24 bits.
pub open spec fn key_code(k: (u16, u8)) -> u32 {
    (k.0 as int * 256 + k.1 as int) as u32
}

/// The key a code of at most 24 bits stands for.
pub open spec fn code_key(c: u32) -> (u16, u8) {
    ((c / 256) as u16, (c % 256) as u8)
}

proof fn lemma_codes(k: (u16, u8), c: u32)
    ensures
        key_code(k) == k.0 as int * 256 + k.1 as int,
        code_key(key_code(k)) == k,
        c < 0x100_0000 ==> key_code(code_key(c)) == c,
{
    assert(k.0 as int * 256 + k.1 as int <= 0xff_ffff);
}

fn code_of(k: (u16, u8)) -> (r: u32)
    ensures
        r == key_code(k),
{
    k.0 as u32 * 256 + k.1 as u32
}

impl View for VibrationTracker {
    type V = Map<(u16, u8), u64>;

    closed spec fn view(&self) -> Map<(u16, u8), u64> {
        Map::new(
            |k: (u16, u8)| self.timers@.contains_key(key_code(k)),
            |k: (u16, u8)| self.timers@[key_code(k)],
        )
    }
}

impl VibrationTracker {
    /// Internal consistency: every code in the table stands for a key.
    pub closed spec fn wf(&self) -> bool {
        forall|c: u32| #[trigger] self.timers@.contains_key(c) ==> c < 0x100_0000
    }

    /// An empty tracker.
    pub fn new() -> (r: Self)
        ensures
            r.wf(),
            r@ == Map::<(u16, u8), u64>::empty(),
    {
        let r = VibrationTracker { timers: HashMap::new() };
        assert(r@ =~= Map::<(u16, u8), u64>::empty());
        r
    }

    /// Start time of the timer under `k`, if one is running.
    pub fn get(&self, machine_id: u16, sensor: u8) -> (r: Option<u64>)
        requires
            self.wf(),
        ensures
            match r {
                Some(t) => self@.contains_key((machine_id, sensor)) && self@[(machine_id, sensor)]
                    == t,
                None => !self@.contains_key((machine_id, sensor)),
            },
    {
        let c = code_of((machine_id, sensor));
        match self.timers.get(&c) {
            Some(t) => Some(*t),
            None => None,
        }
    }

    /// Number of running timers.
    pub fn len(&self) -> (r: usize)
        requires
            self.wf(),
        ensures
            r == self@.dom().len(),
    {
        proof {
            self.lemma_len();
        }
        self.timers.len()
    }

    proof fn lemma_len(&self)
        requires
            self.wf(),
        ensures
            self.timers@.dom().len() == self@.dom().len(),
    {
        let f = |c: u32| code_key(c);
        let codes = self.timers@.dom();
        assert forall|x: u32, y: u32| codes.contains(x) && codes.contains(y) && #[trigger] f(x)
            == #[trigger] f(y) implies x == y by {
            lemma_codes(f(x), x);
            lemma_codes(f(y), y);
        }
        assert forall|k: (u16, u8)| #[trigger] codes.map(f).contains(k) <==> self@.dom().contains(k) by {
            lemma_codes(k, key_code(k));
            if codes.map(f).contains(k) {
                let c = choose|c: u32| codes.contains(c) && f(c) == k;
                lemma_codes(k, c);
            }
            if self@.dom().contains(k) {
                assert(codes.contains(key_code(k)) && f(key_code(k)) == k);
            }
        }
        assert(codes.map(f) =~= self@.dom());
        vstd::set_lib::lemma_map_size(codes, self@.dom(), f);
    }

    fn remove_key(&mut self, k: (u16, u8))
        requires
            old(self).wf(),
        ensures
            final(self).wf(),
            final(self)@ == old(self)@.remove(k),
    {
        let c = code_of(k);
        self.timers.remove(&c);
        proof {
            assert forall|k2: (u16, u8)| #[trigger] self@.contains_key(k2) == old(self)@.remove(k).contains_key(
                k2,
            ) by {
                lemma_codes(k2, 0);
                lemma_codes(k, 0);
            }
        }
        assert(self@ =~= old(self)@.remove(k));
    }

    /// Applies one reading for key `k`; returns whether the sensor alarms.
    fn step(&mut self, k: (u16, u8), band: SeverityBand, now_ns: u64, duration_secs: u64) -> (r:
        bool)
        requires
            old(self).wf(),
        ensures
            final(self).wf(),
            (final(self)@, r) == sensor_step(old(self)@, k, band, now_ns, duration_secs),
    {
        match band {
            SeverityBand::Exceeded => {
                let c = code_of(k);
                proof {
                    lemma_codes(k, c);
                }
                let since = match self.timers.get(&c) {
                    Some(t) => *t,
                    None => {
                        self.timers.insert(c, now_ns);
                        proof {
                            assert forall|k2: (u16, u8)| #[trigger] self@.contains_key(k2)
                                == old(self)@.insert(k, now_ns).contains_key(k2) by {
                                lemma_codes(k2, 0);
                            }
                            assert(self@ =~= old(self)@.insert(k, now_ns));
                        }
                        now_ns
                    },
                };
                let elapsed: u64 = if now_ns >= since {
                    now_ns - since
                } else {
                    0
                };
                if elapsed / 1_000_000_000 >= duration_secs {
                    self.remove_key(k);
                    assert(self@ =~= old(self)@.remove(k));
                    true
                } else {
                    assert(self@ =~= old(self)@.insert(k, since));
                    false
                }
            },
            _ => {
                self.remove_key(k);
                false
            },
        }
    }

    /// Applies the readings of machine `machine_id` in sensor order and stops
    /// at the first sensor whose exceedance has lasted `duration_secs`
    /// seconds; that sensor's number is returned and its timer cleared.
    pub fn check_first(
        &mut self,
        machine_id: u16,
        bands: &Vec<SeverityBand>,
        now_ns: u64,
        duration_secs: u64,
    ) -> (r: Option<usize>)
        requires
            old(self).wf(),
        ensures
            final(self).wf(),
            ({
                let (t, f) = run_until_alarm(old(self)@, machine_id, bands@, 0, now_ns, duration_secs);
                &&& final(self)@ == t
                &&& match r {
                    Some(i) => f == Some(i as int),
                    None => f is None,
                }
            }),
    {
        let mut i: usize = 0;
        while i < bands.len()
            invariant
                self.wf(),
                i <= bands@.len(),
                run_until_alarm(old(self)@, machine_id, bands@, 0, now_ns, duration_secs)
                    == run_until_alarm(self@, machine_id, bands@, i as int, now_ns, duration_secs),
            decreases bands@.len() - i,
        {
            let sensor = (i % 256) as u8;
            let fired = self.step((machine_id, sensor), bands[i], now_ns, duration_secs);
            if fired {
                return Some(i);
            }
            i = i + 1;
        }
        None
    }

    /// Applies every reading of machine `machine_id` in sensor order and
    /// returns, in order, the sensors whose exceedance has lasted
    /// `duration_secs` seconds; their timers are cleared.
    pub fn check_all(
        &mut self,
        machine_id: u16,
        bands: &Vec<SeverityBand>,
        now_ns: u64,
        duration_secs: u64,
    ) -> (r: Vec<usize>)
        requires
            old(self).wf(),
        ensures
            final(self).wf(),
            ({
                let (t, f) = run_all(old(self)@, machine_id, bands@, 0, now_ns, duration_secs, seq![]);
                &&& final(self)@ == t
                &&& f == r@.map_values(|x: usize| x as int)
            }),
    {
        let mut fired: Vec<usize> = Vec::new();
        assert(fired@.map_values(|x: usize| x as int) =~= Seq::<int>::empty());
        let mut i: usize = 0;
        while i < bands.len()
            invariant
                self.wf(),
                i <= bands@.len(),
                run_all(old(self)@, machine_id, bands@, 0, now_ns, duration_secs, seq![])
                    == run_all(
                    self@,
                    machine_id,
                    bands@,
                    i as int,
                    now_ns,
                    duration_secs,
                    fired@.map_values(|x: usize| x as int),
                ),
            decreases bands@.len() - i,
        {
            let sensor = (i % 256) as u8;
            let f = self.step((machine_id, sensor), bands[i], now_ns, duration_secs);
            if f {
                let ghost before = fired@;
                fired.push(i);
                assert(fired@.map_values(|x: usize| x as int) =~= before.map_values(
                    |x: usize| x as int,
                ).push(i as int));
            }
            i = i + 1;
        }
        fired
    }

    /// Drops every timer that started `tracker_ttl_ns()` or more ago.
    pub fn cleanup_expired(&mut self, now_ns: u64)
        requires
            old(self).wf(),
        ensures
            final(self).wf(),
            forall|k: (u16, u8)| #[trigger]
                final(self)@.contains_key(k) <==> (old(self)@.contains_key(k) && elapsed_ns(
                    now_ns,
                    old(self)@[k],
                ) < tracker_ttl_ns()),
            forall|k: (u16, u8)| #[trigger]
                final(self)@.contains_key(k) ==> final(self)@[k] == old(self)@[k],
    {
        let ghost table = self.timers@;
        let mut kept: HashMap<u32, u64> = HashMap::new();
        for entry in it: self.timers.iter()
            invariant
                table == self.timers@,
                it.seq() == vstd::std_specs::hash::spec_hash_map_iter(&self.timers).remaining(),
                forall|c: u32| #[trigger]
                    kept@.contains_key(c) ==> table.contains_key(c) && kept@[c] == table[c]
                        && elapsed_ns(now_ns, table[c]) < tracker_ttl_ns(),
                forall|j: int|
                    0 <= j < it.index() && elapsed_ns(now_ns, *it.seq()[j].1) < tracker_ttl_ns()
                        ==> #[trigger] kept@.contains_key(*it.seq()[j].0),
        {
            let (c, since) = entry;
            let age: u64 = if now_ns >= *since {
                now_ns - *since
            } else {
                0
            };
            if age < 60_000_000_000 {
                kept.insert(*c, *since);
            }
        }
        proof {
            let v = vstd::std_specs::hash::spec_hash_map_iter(&self.timers).remaining();
            assert forall|c: u32| #[trigger] table.contains_key(c) && elapsed_ns(now_ns, table[c])
                < tracker_ttl_ns() implies kept@.contains_key(c) by {
                assert(v.contains((&c, &table[c])));
                let j = choose|j: int| 0 <= j < v.len() && v[j] == (&c, &table[c]);
                assert(*v[j].0 == c);
            }
        }
        self.timers = kept;
        proof {
            assert forall|k: (u16, u8)| #[trigger]
                self@.contains_key(k) <==> (old(self)@.contains_key(k) && elapsed_ns(
                    now_ns,
                    old(self)@[k],
                ) < tracker_ttl_ns()) by {
                assert(self@.contains_key(k) == kept@.contains_key(key_code(k)));
                assert(old(self)@.contains_key(k) == table.contains_key(key_code(k)));
            }
        }
    }
}

} // verus!
