//! Ordering of the machine listings served by the HTTP API, the history
//! table behind a sensor type, and the time windows of a sensor's detail
//! view.

use vstd::prelude::*;
use crate::models::{MachineStatus, UtcTime};

verus! {

broadcast use {vstd::seq_lib::to_multiset_build, vstd::seq_lib::to_multiset_insert};

/// A machine's place in the health ranking; floating-point quantities are
/// kept as their IEEE-754 patterns.
#[derive(Debug, Clone, Copy, PartialEq, Eq, Structural)]
pub struct HealthRanking {
    pub machine_id: u16,
    pub health_score_bits: u64,
    pub rul_hours_bits: u64,
    pub alarm_level: u8,
    pub rank: u16,
}

/// Whether the statuses are in non-decreasing machine-id order.
pub open spec fn sorted_by_machine_id(s: Seq<MachineStatus>) -> bool {
    forall|i: int, j: int| 0 <= i < j < s.len() ==> s[i].machine_id <= s[j].machine_id
}

/// Rank of the entry at `i` (counting from one; kept modulo 65536).
pub open spec fn rank_at(i: int) -> u16 {
    ((i + 1) % 65536) as u16
}

/// Orders statuses by machine id (a permutation of the input).
pub fn sort_by_machine_id(machines: Vec<MachineStatus>) -> (r: Vec<MachineStatus>)
    ensures
        sorted_by_machine_id(r@),
        r@.to_multiset() == machines@.to_multiset(),
{
    let mut input = machines;
    let mut out: Vec<MachineStatus> = Vec::new();
    let ghost orig = input@;
    let ghost consumed: Seq<MachineStatus> = Seq::empty();
    proof {
        assert(orig =~= consumed + input@);
        assert(out@.to_multiset() =~= consumed.to_multiset()) by {
            broadcast use vstd::multiset::group_multiset_axioms;
        }
    }
    while input.len() > 0
        invariant
            orig == consumed + input@,
            out@.to_multiset() == consumed.to_multiset(),
            sorted_by_machine_id(out@),
        decreases input@.len(),
    {
        let x = input.remove(0);
        let mut pos: usize = 0;
        while pos < out.len() && out[pos].machine_id <= x.machine_id
            invariant
                pos <= out@.len(),
                forall|j: int| 0 <= j < pos ==> out@[j].machine_id <= x.machine_id,
            decreases out@.len() - pos,
        {
            pos = pos + 1;
        }
        let ghost before = out@;
        proof {
            assert(forall|j: int| pos <= j < before.len() ==> before[j].machine_id > x.machine_id)
                by {
                if pos < before.len() {
                    assert(before[pos as int].machine_id > x.machine_id);
                }
            }
        }
        out.insert(pos, x);
        proof {
            assert(out@ =~= before.insert(pos as int, x));
            assert forall|i: int, j: int| 0 <= i < j < out@.len() implies out@[i].machine_id
                <= out@[j].machine_id by {
                if pos < before.len() {
                    assert(before[pos as int].machine_id > x.machine_id);
                }
            }
            let old_consumed = consumed;
            consumed = consumed.push(x);
            assert(orig =~= consumed + input@);
        }
    }
    proof {
        assert(consumed =~= orig);
    }
    out
}

/// Numbers the entries in their current order: the first gets rank 1.
pub fn assign_ranks(rankings: &mut Vec<HealthRanking>)
    ensures
        final(rankings)@.len() == old(rankings)@.len(),
        forall|i: int|
            0 <= i < final(rankings)@.len() ==> #[trigger] final(rankings)@[i] == (HealthRanking {
                rank: rank_at(i),
                ..old(rankings)@[i]
            }),
{
    let mut i: usize = 0;
    while i < rankings.len()
        invariant
            i <= rankings@.len(),
            rankings@.len() == old(rankings)@.len(),
            forall|j: int|
                0 <= j < i ==> #[trigger] rankings@[j] == (HealthRanking {
                    rank: rank_at(j),
                    ..old(rankings)@[j]
                }),
            forall|j: int| i <= j < rankings@.len() ==> #[trigger] rankings@[j] == old(rankings)@[j],
        decreases rankings@.len() - i,
    {
        let mut r = rankings[i];
        r.rank = ((i + 1) % 65536) as u16;
        rankings.set(i, r);
        i = i + 1;
    }
}

/// Law: in a ranking of at most 65535 machines the ranks are exactly
/// 1, 2, ... in list order.
pub proof fn lemma_ranks_consecutive(n: int, i: int)
    requires
        0 <= i < n <= 65535,
    ensures
        rank_at(i) == i + 1,
{
}

/// Why a sensor history cannot be served.
#[derive(Debug, Clone, Copy, PartialEq, Eq, Structural)]
pub enum HistoryError {
    /// Only vibration and temperature histories are stored.
    InvalidSensorType,
}

/// The table that holds the history of a sensor type: `vibration_data` for
/// `vibration`, `temperature_data` for `temperature`; any other type is
/// refused.
pub fn sensor_history_table(sensor_type: &str) -> (r: Result<&'static str, HistoryError>)
    ensures
        sensor_type@ == "vibration"@ ==> (r matches Ok(t) && t@ == "vibration_data"@),
        sensor_type@ == "temperature"@ ==> (r matches Ok(t) && t@ == "temperature_data"@),
        sensor_type@ != "vibration"@ && sensor_type@ != "temperature"@ ==> r == Err::<
            &'static str,
            HistoryError,
        >(HistoryError::InvalidSensorType),
{
    proof {
        reveal_strlit("vibration");
        reveal_strlit("temperature");
        assert("temperature"@.len() != "vibration"@.len());
        assert("temperature"@ != "vibration"@);
    }
    let t = String::from_str(sensor_type);
    if t == String::from_str("vibration") {
        Ok("vibration_data")
    } else if t == String::from_str("temperature") {
        Ok("temperature_data")
    } else {
        Err(HistoryError::InvalidSensorType)
    }
}

/// A point of a sensor's history: its instant and the IEEE-754 pattern of
/// its value.
#[derive(Debug, Clone, Copy, PartialEq, Eq, Structural)]
pub struct HistoryPoint {
    pub timestamp: UtcTime,
    pub value_bits: u64,
}

/// Time windows of a sensor's detail view, in seconds since the epoch.
#[derive(Debug, Clone, Copy, PartialEq, Eq, Structural)]
pub struct DetailWindow {
    /// Start of the history trend: one week before `now`.
    pub one_week_ago: i64,
    /// Start of the recent data: one hour before `now`.
    pub one_hour_ago: i64,
    pub now: i64,
}

/// The windows of a detail view requested at `now`: the trend covers the
/// last week, the recent data the last hour.
pub fn detail_window(now: i64) -> (r: DetailWindow)
    requires
        now >= i64::MIN + 604_800,
    ensures
        r.now == now,
        r.one_hour_ago == now - 3600,
        r.one_week_ago == now - 604_800,
{
    DetailWindow { one_week_ago: now - 7 * 24 * 3600, one_hour_ago: now - 3600, now }
}

/// Whether a point lies at or after `since` (seconds since the epoch).
pub open spec fn at_or_after(p: HistoryPoint, since: i64) -> bool {
    p.timestamp.secs >= since
}

/// The points of `history` at or after `since`, in their order.
pub open spec fn recent(history: Seq<HistoryPoint>, since: i64) -> Seq<HistoryPoint> {
    history.filter(|p: HistoryPoint| at_or_after(p, since))
}

/// The recent data of a detail view: the points of `history` at or after
/// `since`, in their order.
pub fn recent_points(history: &Vec<HistoryPoint>, since: i64) -> (r: Vec<HistoryPoint>)
    ensures
        r@ == recent(history@, since),
{
    let mut out: Vec<HistoryPoint> = Vec::new();
    let mut i: usize = 0;
    while i < history.len()
        invariant
            i <= history@.len(),
            out@ == recent(history@.subrange(0, i as int), since),
        decreases history@.len() - i,
    {
        let p = history[i];
        let ghost next = history@.subrange(0, i + 1);
        proof {
            assert(next.drop_last() =~= history@.subrange(0, i as int));
            assert(next.last() == p);
            reveal(Seq::filter);
        }
        if p.timestamp.secs >= since {
            out.push(p);
        }
        i = i + 1;
    }
    proof {
        assert(history@.subrange(0, history@.len() as int) =~= history@);
    }
    out
}

} // verus!
