use spindle_monitor::alarm_engine::{
    work_order_due, ActiveAlarmState, AlarmEngine, EngineAlarm, WorkOrderPriority,
};
use spindle_monitor::models::{AlarmLevel, RulBand, UtcTime};
use spindle_monitor::vibration_tracker::SeverityBand;

fn at(secs: i64) -> UtcTime {
    UtcTime { secs, nanos: 0 }
}

#[test]
fn engine_vibration_alarm_after_duration() {
    let mut e = AlarmEngine::new(40, 10);
    assert!(e.process_data(1, at(100), 0, true, RulBand::Normal).is_empty());
    assert!(e.process_data(1, at(109), 0, true, RulBand::Normal).is_empty());
    assert_eq!(e.process_data(1, at(110), 0, true, RulBand::Normal), vec![EngineAlarm::VibrationCritical]);
    // the start is kept while exceeding
    assert_eq!(e.process_data(1, at(111), 0, true, RulBand::Normal), vec![EngineAlarm::VibrationCritical]);
    assert!(e.process_data(1, at(112), 0, false, RulBand::Normal).is_empty());
    assert!(e.process_data(1, at(113), 0, true, RulBand::Normal).is_empty());
}

#[test]
fn engine_rul_alarms_repeat_after_half_an_hour() {
    let mut e = AlarmEngine::new(2, 10);
    assert_eq!(e.process_data(2, at(0), 0, false, RulBand::Critical), vec![EngineAlarm::RulCritical]);
    assert!(e.process_data(2, at(1800), 0, false, RulBand::Critical).is_empty());
    assert_eq!(e.process_data(2, at(1801), 0, false, RulBand::Critical), vec![EngineAlarm::RulCritical]);
    assert_eq!(e.process_data(2, at(1801), 0, false, RulBand::Warning), vec![EngineAlarm::RulWarning]);
    assert_eq!(
        e.process_data(7, at(0), 0, true, RulBand::Warning),
        vec![EngineAlarm::RulWarning]
    );
}

#[test]
fn engine_work_orders_once_a_day() {
    let mut e = AlarmEngine::new(1, 10);
    assert_eq!(e.should_create_work_order_at(1, RulBand::Normal, at(0)), None);
    assert_eq!(e.should_create_work_order_at(1, RulBand::Warning, at(0)), Some(WorkOrderPriority::High));
    assert_eq!(e.should_create_work_order_at(1, RulBand::Critical, at(86_399)), None);
    assert_eq!(
        e.should_create_work_order_at(1, RulBand::Critical, at(86_400)),
        Some(WorkOrderPriority::Critical)
    );
    assert_eq!(e.should_create_work_order_at(2, RulBand::Critical, at(86_400)), Some(WorkOrderPriority::Critical));
}

#[test]
fn engine_alarm_level() {
    let mut e = AlarmEngine::new(3, 10);
    assert_eq!(e.determine_machine_alarm_level_at(1, RulBand::Normal, SeverityBand::Normal, at(0)), AlarmLevel::Normal);
    assert_eq!(e.determine_machine_alarm_level_at(1, RulBand::Warning, SeverityBand::Normal, at(0)), AlarmLevel::Warning);
    assert_eq!(e.determine_machine_alarm_level_at(1, RulBand::Normal, SeverityBand::Warning, at(0)), AlarmLevel::Warning);
    assert_eq!(e.determine_machine_alarm_level_at(1, RulBand::Critical, SeverityBand::Normal, at(0)), AlarmLevel::Critical);
    e.process_data(1, at(0), 0, true, RulBand::Normal);
    assert_eq!(e.determine_machine_alarm_level_at(1, RulBand::Normal, SeverityBand::Exceeded, at(9)), AlarmLevel::Warning);
    assert_eq!(e.determine_machine_alarm_level_at(1, RulBand::Normal, SeverityBand::Exceeded, at(10)), AlarmLevel::Critical);
    assert_eq!(e.determine_machine_alarm_level(1, RulBand::Critical, SeverityBand::Normal), AlarmLevel::Critical);
}

#[test]
fn bounded_history_keeps_last_entries() {
    let mut w: Vec<u64> = Vec::new();
    for i in 0..150u64 {
        spindle_monitor::window::push_bounded(&mut w, i, 100);
    }
    assert_eq!(w.len(), 100);
    assert_eq!(w[0], 50);
    assert_eq!(w[99], 149);
}

#[test]
fn bounded_queue_keeps_last_entries() {
    let mut q: std::collections::VecDeque<u64> = std::collections::VecDeque::new();
    for i in 0..150u64 {
        spindle_monitor::window::push_back_bounded(&mut q, i, 100);
    }
    assert_eq!(q.len(), 100);
    assert_eq!(q[0], 50);
    assert_eq!(q[99], 149);
}

#[test]
fn engine_rul_check_records_and_cools_down() {
    let e = AlarmEngine::new(1, 10);
    let mut state = ActiveAlarmState {
        vibration_exceed_start: None,
        last_rul_warning: None,
        last_rul_critical: None,
        recent_rms: std::collections::VecDeque::new(),
    };
    assert_eq!(e.check_rul_alarm(&mut state, RulBand::Critical, at(1000)), Some(EngineAlarm::RulCritical));
    assert_eq!(state.last_rul_critical, Some(at(1000)));
    assert_eq!(e.check_rul_alarm(&mut state, RulBand::Critical, at(1600)), None);
    assert_eq!(state.last_rul_critical, Some(at(1000)));
    assert!(!e.check_vibration_alarm(&mut state, true, at(1000)));
    assert!(e.check_vibration_alarm(&mut state, true, at(1010)));
    assert!(!e.check_vibration_alarm(&mut state, false, at(1011)));
    assert_eq!(state.vibration_exceed_start, None);
}

#[test]
fn work_orders_follow_alarm_level() {
    assert!(!work_order_due(AlarmLevel::Normal));
    assert!(work_order_due(AlarmLevel::Warning));
    assert!(work_order_due(AlarmLevel::Critical));
}
