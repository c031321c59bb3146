use vstd::prelude::*;

verus! {

/// Spindle operating regime, classified from the spindle speed.
#[derive(Debug, Clone, Copy, PartialEq, Eq, Structural)]
pub enum OperatingCondition {
    LowSpeed,
    MediumSpeed,
    HighSpeed,
    Unknown,
}

/// The label text of each operating condition.
pub open spec fn condition_label(c: OperatingCondition) -> Seq<char> {
    match c {
        OperatingCondition::LowSpeed => "low_speed"@,
        OperatingCondition::MediumSpeed => "medium_speed"@,
        OperatingCondition::HighSpeed => "high_speed"@,
        OperatingCondition::Unknown => "unknown"@,
    }
}

impl OperatingCondition {
    /// Short machine-readable name of the condition.
    pub fn label(&self) -> (r: &'static str)
        ensures
            r@ == condition_label(*self),
    {
        match self {
            OperatingCondition::LowSpeed => "low_speed",
            OperatingCondition::MediumSpeed => "medium_speed",
            OperatingCondition::HighSpeed => "high_speed",
            OperatingCondition::Unknown => "unknown",
        }
    }
}

} // verus!

verus! {

/// One decoded sample set from a spindle. Floating-point readings are kept as
/// their IEEE-754 bit patterns.
#[derive(Debug, Clone)]
pub struct SensorData {
    pub timestamp: i64,
    pub machine_id: u16,
    pub spindle_id: u8,
    pub vibration_bits: Vec<u64>,
    pub temperature_bits: Vec<u64>,
    pub displacement_bits: Vec<u64>,
    pub rpm_bits: u64,
}

} // verus!

verus! {

/// An instant in UTC: whole seconds since the Unix epoch and the nanoseconds
/// past that second (above one billion only during a leap second).
#[derive(Debug, Clone, Copy, PartialEq, Eq, Structural)]
pub struct UtcTime {
    pub secs: i64,
    pub nanos: u32,
}

/// An alarm raised for a machine. `value_bits` and `threshold_bits` are the
/// IEEE-754 patterns of the measured value and of the threshold it crossed.
#[derive(Debug, Clone)]
pub struct Alarm {
    pub timestamp: UtcTime,
    pub machine_id: u16,
    pub alarm_type: String,
    pub alarm_level: u8,
    pub message: String,
    pub sensor_index: u8,
    pub value_bits: u64,
    pub threshold_bits: u64,
}

/// Latest known state of one machine; floating-point quantities are kept as
/// their IEEE-754 patterns.
#[derive(Debug, Clone)]
pub struct MachineStatus {
    pub machine_id: u16,
    pub last_update: UtcTime,
    pub health_score_bits: u64,
    pub rul_hours_bits: u64,
    pub vibration_severity_bits: Vec<u64>,
    pub avg_temperature_bits: Vec<u64>,
    pub alarm_level: u8,
    pub total_runtime_hours_bits: u64,
}

/// Operating-condition features extracted from a window of metrics.
#[derive(Debug, Clone)]
pub struct ConditionFeatures {
    pub condition: OperatingCondition,
    pub rpm_normalized_bits: u64,
    pub load_estimate_bits: u64,
    pub vibration_mean_bits: u64,
    pub vibration_std_bits: u64,
    pub temp_mean_bits: u64,
    pub temp_rate_bits: u64,
}

} // verus!

verus! {

/// Alarm severity of a machine or an alarm event.
#[derive(Debug, Clone, Copy, PartialEq, Eq, Structural)]
pub enum AlarmLevel {
    Normal,
    Warning,
    Critical,
}

/// Where a remaining-useful-life prediction falls relative to the warning
/// and alarm thresholds. The caller decides it from the floating-point
/// value, and with it whether a value equal to a threshold falls inside
/// (the alarm engine counts it in, the dispatcher and the alarm manager out).
#[derive(Debug, Clone, Copy, PartialEq, Eq, Structural)]
pub enum RulBand {
    /// Clear of the warning threshold.
    Normal,
    /// Past the warning threshold but not the alarm threshold.
    Warning,
    /// Past the alarm threshold.
    Critical,
}

} // verus!

verus! {

/// One sample set after signal processing; floating-point quantities are
/// kept as their IEEE-754 patterns.
#[derive(Debug, Clone)]
pub struct ProcessedMetrics {
    pub timestamp: UtcTime,
    pub machine_id: u16,
    pub spindle_id: u8,
    pub vibration_bits: Vec<u64>,
    pub temperature_bits: Vec<u64>,
    pub displacement_bits: Vec<u64>,
    pub rpm_bits: u64,
    pub vibration_rms_bits: Vec<u64>,
    pub vibration_peak_bits: Vec<u64>,
    pub vibration_freq_bits: Vec<Vec<u64>>,
}

/// Live state shared by the servers: the latest status and the recent
/// metric sets of every machine.
#[derive(Debug)]
pub struct AppState {
    pub machine_statuses: std::collections::HashMap<u16, MachineStatus>,
    pub recent_metrics: std::collections::HashMap<u16, Vec<ProcessedMetrics>>,
}

} // verus!
