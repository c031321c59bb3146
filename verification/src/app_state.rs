//! Folding a processed sample set into the live application state.

use vstd::prelude::*;
use std::collections::HashMap;
use crate::models::{AppState, MachineStatus, ProcessedMetrics};
use crate::window::{bounded_push, push_bounded};

verus! {

broadcast use vstd::std_specs::hash::group_hash_axioms;

/// Number of recent metric sets kept per machine (one hour at 10 Hz).
pub open spec fn max_recent() -> nat {
    36_000
}

/// IEEE-754 pattern of the initial health score, one hundred.
pub open spec fn initial_health_bits() -> u64 {
    0x4059_0000_0000_0000
}

/// IEEE-754 pattern of the initial remaining useful life, ten thousand hours.
pub open spec fn initial_rul_bits() -> u64 {
    0x40C3_8800_0000_0000
}

/// The status a machine gets when it first reports, before the sample's
/// own fields are applied.
pub open spec fn initial_status_fields(s: MachineStatus, machine_id: u16) -> bool {
    &&& s.machine_id == machine_id
    &&& s.health_score_bits == initial_health_bits()
    &&& s.rul_hours_bits == initial_rul_bits()
    &&& s.alarm_level == 0
    &&& s.total_runtime_hours_bits == 0
}

fn copy_bits(v: &Vec<u64>) -> (r: Vec<u64>)
    ensures
        r@ == v@,
{
    let mut r: Vec<u64> = Vec::with_capacity(v.len());
    let mut i: usize = 0;
    while i < v.len()
        invariant
            i <= v@.len(),
            r@ == v@.take(i as int),
        decreases v@.len() - i,
    {
        r.push(v[i]);
        i = i + 1;
        assert(r@ =~= v@.take(i as int));
    }
    assert(v@.take(v@.len() as int) =~= v@);
    r
}

/// Records a processed sample set: appends it to the machine's recent
/// history (keeping the last `max_recent()` sets) and updates the machine's
/// status with the sample time, the vibration RMS values and the
/// temperatures, creating the status on the machine's first report.
pub fn update_app_state(state: &mut AppState, processed: ProcessedMetrics)
    ensures
        ({
            let m = processed.machine_id;
            let old_recent = old(state).recent_metrics@;
            let old_status = old(state).machine_statuses@;
            let new_recent = final(state).recent_metrics@;
            let new_status = final(state).machine_statuses@;
            &&& forall|k: u16| k != m ==> (#[trigger] new_recent.contains_key(k) <==> old_recent.contains_key(k))
            &&& forall|k: u16| k != m && #[trigger] old_recent.contains_key(k) ==> new_recent[k] == old_recent[k]
            &&& forall|k: u16| k != m ==> (#[trigger] new_status.contains_key(k) <==> old_status.contains_key(k))
            &&& forall|k: u16| k != m && #[trigger] old_status.contains_key(k) ==> new_status[k] == old_status[k]
            &&& new_recent.contains_key(m)
            &&& new_recent[m]@ == bounded_push(
                if old_recent.contains_key(m) {
                    old_recent[m]@
                } else {
                    Seq::empty()
                },
                processed,
                max_recent(),
            )
            &&& new_status.contains_key(m)
            &&& new_status[m].last_update == processed.timestamp
            &&& new_status[m].vibration_severity_bits@ == processed.vibration_rms_bits@
            &&& new_status[m].avg_temperature_bits@ == processed.temperature_bits@
            &&& old_status.contains_key(m) ==> {
                &&& new_status[m].machine_id == old_status[m].machine_id
                &&& new_status[m].health_score_bits == old_status[m].health_score_bits
                &&& new_status[m].rul_hours_bits == old_status[m].rul_hours_bits
                &&& new_status[m].alarm_level == old_status[m].alarm_level
                &&& new_status[m].total_runtime_hours_bits == old_status[m].total_runtime_hours_bits
            }
            &&& !old_status.contains_key(m) ==> initial_status_fields(new_status[m], m)
        }),
{
    let machine_id = processed.machine_id;
    let timestamp = processed.timestamp;
    let rms = copy_bits(&processed.vibration_rms_bits);
    let temps = copy_bits(&processed.temperature_bits);
    let mut recent = match state.recent_metrics.remove(&machine_id) {
        Some(r) => r,
        None => Vec::new(),
    };
    push_bounded(&mut recent, processed, 36_000);
    state.recent_metrics.insert(machine_id, recent);
    let mut status = match state.machine_statuses.remove(&machine_id) {
        Some(s) => s,
        None => MachineStatus {
            machine_id,
            last_update: timestamp,
            health_score_bits: 0x4059_0000_0000_0000,
            rul_hours_bits: 0x40C3_8800_0000_0000,
            vibration_severity_bits: Vec::new(),
            avg_temperature_bits: Vec::new(),
            alarm_level: 0,
            total_runtime_hours_bits: 0,
        },
    };
    status.last_update = timestamp;
    status.vibration_severity_bits = rms;
    status.avg_temperature_bits = temps;
    state.machine_statuses.insert(machine_id, status);
}

} // verus!
