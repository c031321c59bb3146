use spindle_monitor::clock::format_rfc3339_seconds;
use spindle_monitor::iso22400_adapter::{ISO22400Adapter, MessageBody};
use spindle_monitor::models::{Alarm, ConditionFeatures, MachineStatus, OperatingCondition, UtcTime};

fn now() -> UtcTime {
    let t = chrono::Utc::now();
    UtcTime { secs: t.timestamp(), nanos: t.timestamp_subsec_nanos() }
}

fn alarm(machine_id: u16, alarm_type: &str, level: u8, timestamp: UtcTime) -> Alarm {
    Alarm {
        timestamp,
        machine_id,
        alarm_type: alarm_type.to_string(),
        alarm_level: level,
        message: "测试振动告警".to_string(),
        sensor_index: 0,
        value_bits: 8.5f64.to_bits(),
        threshold_bits: 7.1f64.to_bits(),
    }
}

#[test]
fn test_alarm_conversion() {
    let adapter = ISO22400Adapter::new();
    let alarm = alarm(1, "vibration_severe", 1, now());

    let iso_msg = adapter.alarm_to_iso22400(&alarm, Some("medium_speed")).unwrap();

    assert_eq!(iso_msg.header.message_type, "Alarm");
    assert_eq!(iso_msg.header.source_system, "CNC_Spindle_Health_Monitor");

    if let MessageBody::Alarm(body) = &iso_msg.body {
        assert_eq!(body.alarm.severity, 4);
        assert_eq!(body.alarm.alarm_class, "WARNING");
        assert_eq!(body.alarm.equipment_id, "CNC-01");
        assert_eq!(body.alarm.unit.as_deref(), Some("mm/s"));
        assert_eq!(body.alarm.alarm_type, "EquipmentCondition.VibrationExceeded");
    } else {
        panic!("Expected Alarm message body");
    }
}

#[test]
fn test_rul_kpi_conversion() {
    let adapter = ISO22400Adapter::new();
    let start_time = now();
    let iso_msg = adapter
        .create_rul_kpi(5, 3500.5f64.to_bits(), 85.2f64.to_bits(), start_time)
        .unwrap();

    assert_eq!(iso_msg.header.message_type, "KPI");

    if let MessageBody::Kpi(body) = &iso_msg.body {
        assert_eq!(body.kpi_collection.equipment_id, "CNC-05");
        assert_eq!(body.kpi_collection.kpis.len(), 2);

        let rul_kpi = &body.kpi_collection.kpis[0];
        assert_eq!(rul_kpi.kpi_id, "RUL");
        assert_eq!(f64::from_bits(rul_kpi.value_bits), 3500.5);
        assert_eq!(rul_kpi.unit, "hours");
    } else {
        panic!("Expected KPI message body");
    }
}

#[test]
fn alarm_fields_follow_level_type_and_time() {
    let adapter = ISO22400Adapter::new();
    let t = UtcTime { secs: 1_705_314_600, nanos: 0 };
    let msg = adapter.alarm_to_iso22400(&alarm(12, "rul_critical", 2, t), None).unwrap();
    assert_eq!(msg.header.version, "ISO22400-2:2022");
    assert_eq!(msg.header.message_id.len(), 36);
    let id: Vec<char> = msg.header.message_id.chars().collect();
    for (i, c) in id.iter().enumerate() {
        if [8, 13, 18, 23].contains(&i) {
            assert_eq!(*c, '-');
        } else {
            assert!(c.is_ascii_digit() || ('a'..='f').contains(c));
        }
    }
    assert_eq!(id[14], '4');
    assert!(['8', '9', 'a', 'b'].contains(&id[19]));
    match &msg.body {
        MessageBody::Alarm(b) => {
            assert_eq!(b.alarm.alarm_id, "ALM-12-2-1705314600");
            assert_eq!(b.alarm.alarm_type, "EquipmentCondition.RULCritical");
            assert_eq!(b.alarm.alarm_class, "CRITICAL");
            assert_eq!(b.alarm.severity, 2);
            assert_eq!(b.alarm.equipment_id, "CNC-12");
            assert_eq!(b.alarm.equipment_type, "CNC_Machine_Spindle");
            assert_eq!(b.alarm.alarm_time, "2024-01-15T10:30:00Z");
            assert_eq!(b.alarm.unit.as_deref(), Some("hours"));
            assert_eq!(b.alarm.condition, None);
            assert_eq!(b.alarm.actual_value_bits, Some(8.5f64.to_bits()));
            assert_eq!(b.alarm.threshold_value_bits, Some(7.1f64.to_bits()));
            assert_eq!(b.alarm.ack_state, "UNACKNOWLEDGED");
            assert_eq!(b.alarm.active_state, "ACTIVE");
            assert_eq!(b.alarm.description, "测试振动告警");
        }
        _ => panic!("expected an alarm body"),
    }
}

#[test]
fn alarm_of_other_type_and_negative_time() {
    let adapter = ISO22400Adapter::new();
    let t = UtcTime { secs: -5, nanos: 0 };
    let msg = adapter.alarm_to_iso22400(&alarm(7, "temperature_high", 0, t), Some("low_speed")).unwrap();
    match &msg.body {
        MessageBody::Alarm(b) => {
            assert_eq!(b.alarm.alarm_id, "ALM-7-0--5");
            assert_eq!(b.alarm.alarm_type, "EquipmentCondition.temperature_high");
            assert_eq!(b.alarm.alarm_class, "INFORMATION");
            assert_eq!(b.alarm.severity, 6);
            assert_eq!(b.alarm.equipment_id, "CNC-07");
            assert_eq!(b.alarm.unit, None);
            assert_eq!(b.alarm.condition.as_deref(), Some("low_speed"));
            assert_eq!(b.alarm.alarm_time, "1969-12-31T23:59:55Z");
        }
        _ => panic!("expected an alarm body"),
    }
}

#[test]
fn alarm_with_unrepresentable_time_is_refused() {
    let adapter = ISO22400Adapter::new();
    let t = UtcTime { secs: i64::MAX, nanos: 0 };
    assert!(adapter.alarm_to_iso22400(&alarm(1, "vibration_severe", 1, t), None).is_none());
}

fn status(machine_id: u16, level: u8) -> MachineStatus {
    MachineStatus {
        machine_id,
        last_update: UtcTime { secs: 0, nanos: 0 },
        health_score_bits: 87.5f64.to_bits(),
        rul_hours_bits: 4200.0f64.to_bits(),
        vibration_severity_bits: vec![],
        avg_temperature_bits: vec![],
        alarm_level: level,
        total_runtime_hours_bits: 0,
    }
}

#[test]
fn status_message_maps_alarm_level() {
    let adapter = ISO22400Adapter::new();
    let features = ConditionFeatures {
        condition: OperatingCondition::HighSpeed,
        rpm_normalized_bits: 0,
        load_estimate_bits: 0,
        vibration_mean_bits: 0,
        vibration_std_bits: 0,
        temp_mean_bits: 0,
        temp_rate_bits: 0,
    };
    for (level, text) in [(2u8, "FAULT"), (1, "WARNING"), (0, "RUNNING"), (9, "RUNNING")] {
        let msg = adapter.status_to_iso22400(&status(40, level), Some(&features)).unwrap();
        assert_eq!(msg.header.message_type, "EquipmentStatus");
        match &msg.body {
            MessageBody::Status(b) => {
                assert_eq!(b.equipment_status.status, text);
                assert_eq!(b.equipment_status.equipment_id, "CNC-40");
                assert_eq!(b.equipment_status.status_time, "1970-01-01T00:00:00Z");
                assert_eq!(b.equipment_status.operating_condition.as_deref(), Some("high_speed"));
                assert_eq!(b.equipment_status.health_score_bits, Some(87.5f64.to_bits()));
                assert_eq!(b.equipment_status.rul_hours_bits, Some(4200.0f64.to_bits()));
            }
            _ => panic!("expected a status body"),
        }
    }
    let msg = adapter.status_to_iso22400(&status(3, 0), None).unwrap();
    match &msg.body {
        MessageBody::Status(b) => assert_eq!(b.equipment_status.operating_condition, None),
        _ => panic!("expected a status body"),
    }
}

#[test]
fn kpi_collection_contents() {
    let adapter = ISO22400Adapter::default();
    let start = UtcTime { secs: 86_400, nanos: 0 };
    let msg = adapter.create_rul_kpi(123, 10.0f64.to_bits(), 55.0f64.to_bits(), start).unwrap();
    match &msg.body {
        MessageBody::Kpi(b) => {
            assert_eq!(b.kpi_collection.equipment_id, "CNC-123");
            assert_eq!(b.kpi_collection.time_period_start, "1970-01-02T00:00:00Z");
            let h = &b.kpi_collection.kpis[1];
            assert_eq!(h.kpi_id, "HealthScore");
            assert_eq!(h.kpi_name, "EquipmentHealthScore");
            assert_eq!(h.unit, "points");
            assert_eq!(f64::from_bits(h.value_bits), 55.0);
            assert_eq!(b.kpi_collection.kpis[0].kpi_name, "RemainingUsefulLife");
        }
        _ => panic!("expected a KPI body"),
    }
    assert!(adapter.create_rul_kpi(1, 0, 0, UtcTime { secs: i64::MIN, nanos: 0 }).is_none());
}

#[test]
fn condition_labels() {
    assert_eq!(OperatingCondition::LowSpeed.label(), "low_speed");
    assert_eq!(OperatingCondition::MediumSpeed.label(), "medium_speed");
    assert_eq!(OperatingCondition::HighSpeed.label(), "high_speed");
    assert_eq!(OperatingCondition::Unknown.label(), "unknown");
}

#[test]
fn rendering_range_and_leap_seconds() {
    let at = |secs: i64, nanos: u32| format_rfc3339_seconds(UtcTime { secs, nanos });
    assert_eq!(at(-8_334_601_228_800, 0).as_deref(), Some("-262143-01-01T00:00:00Z"));
    assert_eq!(at(-8_334_601_228_801, 0), None);
    assert_eq!(at(8_210_266_876_799, 999_999_999).as_deref(), Some("+262142-12-31T23:59:59Z"));
    assert_eq!(at(8_210_266_876_800, 0), None);
    assert_eq!(at(0, 999_999_999).as_deref(), Some("1970-01-01T00:00:00Z"));
    assert_eq!(at(59, 1_500_000_000).as_deref(), Some("1970-01-01T00:00:60Z"));
    assert_eq!(at(58, 1_000_000_000), None);
    assert_eq!(at(59, 2_000_000_000), None);
    assert_eq!(at(-1, 1_000_000_000).as_deref(), Some("1969-12-31T23:59:60Z"));
}
