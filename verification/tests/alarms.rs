use spindle_monitor::alarm::{AlarmDecision, AlarmManager, AlarmType, SensorReading, SensorType};
use spindle_monitor::alarm_dispatcher::{
    AlarmDispatcher, AlarmInput, DispatchDecision, RulObservation, VibrationObservation,
};
use spindle_monitor::alarm_manager::AlarmManager as BatchAlarmManager;
use spindle_monitor::models::{AlarmLevel, OperatingCondition, RulBand};
use spindle_monitor::vibration_tracker::{SeverityBand, VibrationTracker};

const SEC: u64 = 1_000_000_000;

fn vib(machine_id: u16, bands: Vec<SeverityBand>) -> AlarmInput {
    AlarmInput::VibrationMetrics(VibrationObservation {
        machine_id,
        condition: OperatingCondition::MediumSpeed,
        bands,
    })
}

#[test]
fn sustained_vibration_alarms_after_duration() {
    let mut d = AlarmDispatcher::new(5);
    assert_eq!(d.handle_input(&vib(3, vec![SeverityBand::Normal, SeverityBand::Exceeded]), 10 * SEC), None);
    assert_eq!(d.handle_input(&vib(3, vec![SeverityBand::Normal, SeverityBand::Exceeded]), 14 * SEC), None);
    assert_eq!(
        d.handle_input(&vib(3, vec![SeverityBand::Normal, SeverityBand::Exceeded]), 15 * SEC),
        Some(DispatchDecision::VibrationAlarm {
            machine_id: 3,
            sensor_index: 1,
            condition: OperatingCondition::MediumSpeed
        })
    );
    // the timer restarts after the alarm
    assert_eq!(d.handle_input(&vib(3, vec![SeverityBand::Normal, SeverityBand::Exceeded]), 16 * SEC), None);
    assert_eq!(d.take_alarm_count(), 1);
    assert_eq!(d.take_alarm_count(), 0);
}

#[test]
fn a_reading_below_threshold_resets_the_timer() {
    let mut d = AlarmDispatcher::new(5);
    assert_eq!(d.handle_input(&vib(1, vec![SeverityBand::Exceeded]), 0), None);
    assert_eq!(d.handle_input(&vib(1, vec![SeverityBand::Warning]), 3 * SEC), None);
    assert_eq!(d.handle_input(&vib(1, vec![SeverityBand::Exceeded]), 4 * SEC), None);
    assert_eq!(d.handle_input(&vib(1, vec![SeverityBand::Exceeded]), 8 * SEC), None);
    assert!(d.handle_input(&vib(1, vec![SeverityBand::Exceeded]), 9 * SEC).is_some());
}

#[test]
fn zero_duration_alarms_first_exceeding_sensor_only() {
    let mut d = AlarmDispatcher::new(0);
    let r = d.handle_input(&vib(2, vec![SeverityBand::Warning, SeverityBand::Exceeded, SeverityBand::Exceeded]), 0);
    assert_eq!(
        r,
        Some(DispatchDecision::VibrationAlarm {
            machine_id: 2,
            sensor_index: 1,
            condition: OperatingCondition::MediumSpeed
        })
    );
}

#[test]
fn rul_alarm_only_when_critical() {
    let mut d = AlarmDispatcher::new(5);
    let p = |band| AlarmInput::RULPrediction(RulObservation { machine_id: 9, band });
    assert_eq!(d.handle_input(&p(RulBand::Warning), 0), None);
    assert_eq!(d.handle_input(&p(RulBand::Normal), 0), None);
    assert_eq!(d.handle_input(&p(RulBand::Critical), 0), Some(DispatchDecision::RulAlarm { machine_id: 9 }));
    assert!(d.check_rul_alarm(&RulObservation { machine_id: 9, band: RulBand::Critical }));
    assert!(!d.check_rul_alarm(&RulObservation { machine_id: 9, band: RulBand::Warning }));
}

#[test]
fn cleanup_drops_timers_older_than_a_minute() {
    let mut t = VibrationTracker::new();
    assert_eq!(t.check_first(1, &vec![SeverityBand::Exceeded], 0, 1000), None);
    assert_eq!(t.check_first(2, &vec![SeverityBand::Exceeded], 30 * SEC, 1000), None);
    assert_eq!(t.len(), 2);
    t.cleanup_expired(60 * SEC);
    assert_eq!(t.len(), 1);
    assert_eq!(t.get(1, 0), None);
    assert_eq!(t.get(2, 0), Some(30 * SEC));
}

#[test]
fn other_machines_timers_are_untouched() {
    let mut t = VibrationTracker::new();
    t.check_first(1, &vec![SeverityBand::Exceeded, SeverityBand::Exceeded], 0, 100);
    t.check_first(2, &vec![SeverityBand::Normal, SeverityBand::Normal], SEC, 100);
    assert_eq!(t.get(1, 0), Some(0));
    assert_eq!(t.get(1, 1), Some(0));
}

#[test]
fn batch_manager_reports_every_sustained_sensor() {
    let mut m = BatchAlarmManager::new(2);
    assert!(m.check_vibration_alarm(4, &vec![SeverityBand::Exceeded, SeverityBand::Normal, SeverityBand::Exceeded], 0).is_empty());
    assert_eq!(m.check_vibration_alarm(4, &vec![SeverityBand::Exceeded, SeverityBand::Normal, SeverityBand::Exceeded], 2 * SEC), vec![0, 2]);
    assert!(m.check_rul_alarm(RulBand::Critical));
    assert!(!m.check_rul_alarm(RulBand::Normal));
}

fn reading(sensor_type: SensorType, over: bool) -> SensorReading {
    SensorReading { machine_id: 5, sensor_id: 3, sensor_type, over_limit: over }
}

#[test]
fn vibration_alarm_needs_duration_and_cooldown() {
    let mut m = AlarmManager::new(1000);
    let r = reading(SensorType::Vibration, true);
    assert_eq!(m.process_sensor_data(&r, 1_000_000), None);
    assert_eq!(
        m.process_sensor_data(&r, 1_001_000),
        Some(AlarmDecision { alarm_type: AlarmType::VibrationHigh, level: AlarmLevel::Critical, duration_ms: 1000 })
    );
    // within a minute: no repeat, though still exceeding
    assert_eq!(m.process_sensor_data(&r, 1_050_000), None);
    assert_eq!(
        m.process_sensor_data(&r, 1_061_001).map(|d| d.duration_ms),
        Some(61_001)
    );
    // a normal reading resets the timer
    assert_eq!(m.process_sensor_data(&reading(SensorType::Vibration, false), 1_200_000), None);
    assert_eq!(m.process_sensor_data(&r, 1_300_000), None);
}

#[test]
fn temperature_and_displacement_cooldowns() {
    let mut m = AlarmManager::new(1000);
    let t = reading(SensorType::Temperature, true);
    let d = reading(SensorType::Displacement, true);
    assert_eq!(m.process_sensor_data(&t, 1_000_000).map(|x| x.alarm_type), Some(AlarmType::TemperatureHigh));
    assert_eq!(m.process_sensor_data(&t, 1_300_000), None);
    assert!(m.process_sensor_data(&t, 1_300_001).is_some());
    assert_eq!(m.process_sensor_data(&d, 1_300_001).map(|x| x.level), Some(AlarmLevel::Warning));
    assert_eq!(m.process_sensor_data(&reading(SensorType::Displacement, false), 2_000_000), None);
    // the epoch counts as the last alarm when there was none
    let mut fresh = AlarmManager::new(0);
    assert_eq!(fresh.process_sensor_data(&t, 300_000), None);
    assert!(fresh.process_sensor_data(&t, 300_001).is_some());
}

#[test]
fn rul_cooldowns_and_recovery() {
    let mut m = AlarmManager::new(0);
    let h = 3_600_000i64;
    assert_eq!(m.check_rul_alarm(1, RulBand::Critical, 10 * h), Some(AlarmLevel::Critical));
    assert_eq!(m.check_rul_alarm(1, RulBand::Critical, 11 * h), None);
    assert_eq!(m.check_rul_alarm(1, RulBand::Warning, 12 * h), None);
    assert_eq!(m.check_rul_alarm(1, RulBand::Warning, 12 * h + 1), Some(AlarmLevel::Warning));
    assert_eq!(m.check_rul_alarm(1, RulBand::Critical, 13 * h), None);
    assert_eq!(m.check_rul_alarm(1, RulBand::Normal, 13 * h), None);
    assert_eq!(m.check_rul_alarm(1, RulBand::Critical, 13 * h), Some(AlarmLevel::Critical));
    // other machines are independent
    assert_eq!(m.check_rul_alarm(2, RulBand::Critical, 13 * h), Some(AlarmLevel::Critical));
}
