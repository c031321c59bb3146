use spindle_monitor::api_server::{
    assign_ranks, detail_window, recent_points, sort_by_machine_id, HealthRanking, HistoryPoint,
};
use spindle_monitor::app_state::update_app_state;
use spindle_monitor::ethercat_driver::DriverStats;
use spindle_monitor::metrics::{
    increment_clickhouse_errors, increment_clickhouse_inserts, increment_mqtt_errors, increment_mqtt_sent,
    increment_rul_alarms, increment_udp_errors, increment_udp_packets, increment_vibration_alarms,
    ServiceMetrics,
};
use spindle_monitor::models::{AppState, MachineStatus, ProcessedMetrics, RulBand, UtcTime};
use spindle_monitor::prediction::{
    condition_baseline_score, condition_health_score, overall_health_score, OperatingCondition,
};
use spindle_monitor::rul_predictor::{has_enough_history, machine_alarm_level};
use std::collections::HashMap;

/// Exported value of the monitor counter `name`.
fn value(m: &ServiceMetrics, name: &str) -> f64 {
    let full = format!("cnc_monitor_{}", name);
    let families = m.families();
    let family = families.iter().find(|f| f.get_name() == full).unwrap();
    family.get_metric()[0].get_counter().get_value()
}

#[test]
fn counters_count() {
    let mut m = ServiceMetrics::new().unwrap();
    increment_udp_packets(&mut m);
    increment_udp_packets(&mut m);
    increment_udp_errors(&mut m);
    increment_vibration_alarms(&mut m);
    increment_rul_alarms(&mut m);
    increment_clickhouse_inserts(&mut m);
    increment_clickhouse_errors(&mut m);
    increment_mqtt_sent(&mut m);
    increment_mqtt_errors(&mut m);
    assert_eq!(value(&m, "udp_packets_received_total"), 2.0);
    assert_eq!(value(&m, "udp_packet_errors_total"), 1.0);
    assert_eq!(value(&m, "mqtt_message_errors_total"), 1.0);
    assert_eq!(m.families().len(), 8);
}

#[test]
fn counters_carry_the_documented_names() {
    let m = ServiceMetrics::new().unwrap();
    let mut names: Vec<String> = m.families().iter().map(|f| f.get_name().to_string()).collect();
    names.sort();
    assert_eq!(
        names,
        vec![
            "cnc_monitor_clickhouse_insert_errors_total",
            "cnc_monitor_clickhouse_inserts_total",
            "cnc_monitor_mqtt_message_errors_total",
            "cnc_monitor_mqtt_messages_sent_total",
            "cnc_monitor_rul_alarms_total",
            "cnc_monitor_udp_packet_errors_total",
            "cnc_monitor_udp_packets_received_total",
            "cnc_monitor_vibration_alarms_total",
        ]
    );
}

#[test]
fn families_come_in_name_order() {
    let mut m = ServiceMetrics::new().unwrap();
    increment_vibration_alarms(&mut m);
    let names: Vec<String> = m.families().iter().map(|f| f.get_name().to_string()).collect();
    let mut sorted = names.clone();
    sorted.sort();
    sorted.dedup();
    assert_eq!(names.len(), 8);
    assert_eq!(names, sorted);
    assert_eq!(names[0], "cnc_monitor_clickhouse_insert_errors_total");
    assert_eq!(names[7], "cnc_monitor_vibration_alarms_total");
    assert_eq!(value(&m, "vibration_alarms_total"), 1.0);
}

#[test]
fn health_scores() {
    assert_eq!(condition_baseline_score(OperatingCondition::Idle), 98);
    assert_eq!(condition_baseline_score(OperatingCondition::Cutting), 80);
    // (90 - 8 - 5) * 7 + 85 * 3 = 539 + 255 = 794 -> 79
    assert_eq!(condition_health_score(OperatingCondition::MediumSpeedMediumLoad, 8, 5, 85), 79);
    // penalties never push the base below zero
    assert_eq!(condition_health_score(OperatingCondition::Idle, 200, 200, 30), 9);
    assert_eq!(condition_health_score(OperatingCondition::Idle, 0, 0, 255), 100);
    // (95*4 + 80*3 + 70 + 50*2) / 10 = 790 / 10
    assert_eq!(overall_health_score(95, 80, 70, 50), 79);
    assert_eq!(overall_health_score(40, 40, 50, 35), 40);
}

#[test]
fn rul_loop_levels() {
    assert_eq!(machine_alarm_level(RulBand::Critical, false), 2);
    assert_eq!(machine_alarm_level(RulBand::Warning, false), 1);
    assert_eq!(machine_alarm_level(RulBand::Normal, true), 1);
    assert_eq!(machine_alarm_level(RulBand::Normal, false), 0);
    assert!(!has_enough_history(9));
    assert!(has_enough_history(10));
}

#[test]
fn driver_stats() {
    let mut s = DriverStats::new();
    s.record_packet();
    s.record_packet();
    let mut warned = 0;
    for _ in 0..2500 {
        if s.record_drop() {
            warned += 1;
        }
    }
    assert_eq!(warned, 2);
    assert_eq!(s.take(), (2, 2500));
    assert_eq!(s.take(), (0, 0));
}

fn metrics(machine_id: u16, secs: i64) -> ProcessedMetrics {
    ProcessedMetrics {
        timestamp: UtcTime { secs, nanos: 0 },
        machine_id,
        spindle_id: 0,
        vibration_bits: vec![],
        temperature_bits: vec![40.0f64.to_bits()],
        displacement_bits: vec![],
        rpm_bits: 0,
        vibration_rms_bits: vec![1.5f64.to_bits(), 2.5f64.to_bits()],
        vibration_peak_bits: vec![],
        vibration_freq_bits: vec![],
    }
}

#[test]
fn app_state_first_report_and_update() {
    let mut st = AppState { machine_statuses: HashMap::new(), recent_metrics: HashMap::new() };
    update_app_state(&mut st, metrics(4, 10));
    let s = &st.machine_statuses[&4];
    assert_eq!(s.machine_id, 4);
    assert_eq!(f64::from_bits(s.health_score_bits), 100.0);
    assert_eq!(f64::from_bits(s.rul_hours_bits), 10000.0);
    assert_eq!(s.alarm_level, 0);
    assert_eq!(s.last_update.secs, 10);
    assert_eq!(s.vibration_severity_bits, vec![1.5f64.to_bits(), 2.5f64.to_bits()]);
    assert_eq!(s.avg_temperature_bits, vec![40.0f64.to_bits()]);
    st.machine_statuses.get_mut(&4).unwrap().alarm_level = 2;
    update_app_state(&mut st, metrics(4, 11));
    assert_eq!(st.machine_statuses[&4].alarm_level, 2);
    assert_eq!(st.machine_statuses[&4].last_update.secs, 11);
    assert_eq!(st.recent_metrics[&4].len(), 2);
    assert!(!st.machine_statuses.contains_key(&5));
}

#[test]
fn app_state_keeps_an_hour_of_history() {
    let mut st = AppState { machine_statuses: HashMap::new(), recent_metrics: HashMap::new() };
    for i in 0..36_005i64 {
        update_app_state(&mut st, metrics(1, i));
    }
    let r = &st.recent_metrics[&1];
    assert_eq!(r.len(), 36_000);
    assert_eq!(r[0].timestamp.secs, 5);
    assert_eq!(r[35_999].timestamp.secs, 36_004);
}

fn status(machine_id: u16) -> MachineStatus {
    MachineStatus {
        machine_id,
        last_update: UtcTime { secs: 0, nanos: 0 },
        health_score_bits: 0,
        rul_hours_bits: 0,
        vibration_severity_bits: vec![],
        avg_temperature_bits: vec![],
        alarm_level: 0,
        total_runtime_hours_bits: 0,
    }
}

#[test]
fn machines_sorted_by_id() {
    let v = vec![status(7), status(2), status(40), status(2), status(1)];
    let ids: Vec<u16> = sort_by_machine_id(v).iter().map(|s| s.machine_id).collect();
    assert_eq!(ids, vec![1, 2, 2, 7, 40]);
    assert!(sort_by_machine_id(vec![]).is_empty());
}

#[test]
fn ranks_follow_order() {
    let r = |m| HealthRanking { machine_id: m, health_score_bits: 0, rul_hours_bits: 0, alarm_level: 0, rank: 0 };
    let mut v = vec![r(9), r(3), r(5)];
    assign_ranks(&mut v);
    assert_eq!(v.iter().map(|x| (x.machine_id, x.rank)).collect::<Vec<_>>(), vec![(9, 1), (3, 2), (5, 3)]);
}

#[test]
fn each_increment_moves_only_its_counter() {
    let mut m = ServiceMetrics::new().unwrap();
    increment_udp_errors(&mut m);
    assert_eq!(value(&m, "udp_packet_errors_total"), 1.0);
    assert_eq!(value(&m, "udp_packets_received_total"), 0.0);
    for _ in 0..5 {
        increment_vibration_alarms(&mut m);
    }
    assert_eq!(value(&m, "vibration_alarms_total"), 5.0);
    assert_eq!(value(&m, "rul_alarms_total"), 0.0);
    increment_mqtt_sent(&mut m);
    assert_eq!(value(&m, "mqtt_messages_sent_total"), 1.0);
    assert_eq!(value(&m, "mqtt_message_errors_total"), 0.0);
}

#[test]
fn history_tables_by_sensor_type() {
    assert_eq!(spindle_monitor::api_server::sensor_history_table("vibration"), Ok("vibration_data"));
    assert_eq!(spindle_monitor::api_server::sensor_history_table("temperature"), Ok("temperature_data"));
    assert_eq!(
        spindle_monitor::api_server::sensor_history_table("displacement"),
        Err(spindle_monitor::api_server::HistoryError::InvalidSensorType)
    );
}

#[test]
fn detail_view_windows() {
    let w = detail_window(1_700_000_000);
    assert_eq!(w.now, 1_700_000_000);
    assert_eq!(w.one_hour_ago, 1_699_996_400);
    assert_eq!(w.one_week_ago, 1_699_395_200);
}

#[test]
fn recent_points_keep_the_last_hour() {
    let point = |secs: i64, v: f64| HistoryPoint { timestamp: UtcTime { secs, nanos: 0 }, value_bits: v.to_bits() };
    let history = vec![point(100, 1.0), point(3_700, 2.0), point(200, 3.0), point(3_800, 4.0), point(3_699, 5.0)];
    let recent = recent_points(&history, 3_700);
    assert_eq!(recent, vec![point(3_700, 2.0), point(3_800, 4.0)]);
    assert!(recent_points(&history, 4_000).is_empty());
    assert_eq!(recent_points(&history, 0), history);
}
