//! Construction of ISO 22400-2 messages (alarms, equipment status, KPIs) for
//! the MES. Serialisation to JSON happens outside the library.

use vstd::prelude::*;
use crate::clock::{
    format_rfc3339_seconds, new_uuid_string, representable, rfc3339_seconds, utc_now, uuid_v4_text,
};
use crate::models::{condition_label, Alarm, ConditionFeatures, MachineStatus, UtcTime};
use crate::text::{
    contains_seq, decimal, decimal_width2, push_decimal, push_decimal_width2, push_signed_decimal,
    signed_decimal, str_contains,
};

verus! {

#[derive(Debug, Clone)]
pub struct MessageHeader {
    pub message_id: String,
    pub message_type: String,
    pub source_system: String,
    pub timestamp: String,
    pub version: String,
}

#[derive(Debug, Clone)]
pub struct ISO22400Alarm {
    pub alarm_id: String,
    pub alarm_type: String,
    pub alarm_class: String,
    pub severity: u8,
    pub equipment_id: String,
    pub equipment_type: String,
    pub description: String,
    pub alarm_time: String,
    pub condition: Option<String>,
    pub actual_value_bits: Option<u64>,
    pub threshold_value_bits: Option<u64>,
    pub unit: Option<String>,
    pub ack_state: String,
    pub active_state: String,
}

#[derive(Debug, Clone)]
pub struct AlarmMessageBody {
    pub alarm: ISO22400Alarm,
}

#[derive(Debug, Clone)]
pub struct ISO22400KPI {
    pub kpi_id: String,
    pub kpi_name: String,
    pub value_bits: u64,
    pub unit: String,
    pub description: String,
}

#[derive(Debug, Clone)]
pub struct KpiCollection {
    pub equipment_id: String,
    pub time_period_start: String,
    pub time_period_end: String,
    pub kpis: Vec<ISO22400KPI>,
}

#[derive(Debug, Clone)]
pub struct KpiMessageBody {
    pub kpi_collection: KpiCollection,
}

#[derive(Debug, Clone)]
pub struct EquipmentStatus {
    pub equipment_id: String,
    pub equipment_type: String,
    pub status: String,
    pub status_time: String,
    pub health_score_bits: Option<u64>,
    pub rul_hours_bits: Option<u64>,
    pub operating_condition: Option<String>,
}

#[derive(Debug, Clone)]
pub struct StatusMessageBody {
    pub equipment_status: EquipmentStatus,
}

#[derive(Debug, Clone)]
pub enum MessageBody {
    Alarm(AlarmMessageBody),
    Kpi(KpiMessageBody),
    Status(StatusMessageBody),
}

#[derive(Debug, Clone)]
pub struct ISO22400Message {
    pub header: MessageHeader,
    pub body: MessageBody,
}

/// Stateless converter from monitoring records to ISO 22400 messages.
#[derive(Debug, Clone, Copy)]
pub struct ISO22400Adapter;

/// Version of the message format that the adapter emits.
pub open spec fn iso_version() -> Seq<char> {
    "ISO22400-2:2022"@
}

/// Name under which the monitor identifies itself.
pub open spec fn source_system() -> Seq<char> {
    "CNC_Spindle_Health_Monitor"@
}

/// Equipment identifier of a machine: `CNC-` and its number on two digits.
pub open spec fn equipment_id_text(machine_id: u16) -> Seq<char> {
    "CNC-"@ + decimal_width2(machine_id as nat)
}

/// Severity code for an alarm level (2 critical, 1 warning, else information).
pub open spec fn alarm_severity(level: u8) -> u8 {
    if level == 2 {
        2
    } else if level == 1 {
        4
    } else {
        6
    }
}

/// Alarm class for an alarm level.
pub open spec fn alarm_class_text(level: u8) -> Seq<char> {
    if level == 2 {
        "CRITICAL"@
    } else if level == 1 {
        "WARNING"@
    } else {
        "INFORMATION"@
    }
}

/// Measurement unit implied by the alarm type.
pub open spec fn alarm_unit(alarm_type: Seq<char>) -> Option<Seq<char>> {
    if contains_seq(alarm_type, "vibration"@) {
        Some("mm/s"@)
    } else if contains_seq(alarm_type, "rul"@) {
        Some("hours"@)
    } else {
        None
    }
}

/// ISO alarm type for the monitor's alarm type.
pub open spec fn iso_alarm_type(alarm_type: Seq<char>) -> Seq<char> {
    if alarm_type == "vibration_severe"@ {
        "EquipmentCondition.VibrationExceeded"@
    } else if alarm_type == "rul_critical"@ {
        "EquipmentCondition.RULCritical"@
    } else {
        "EquipmentCondition."@ + alarm_type
    }
}

/// Alarm identifier: machine, level and alarm second.
pub open spec fn alarm_id_text(machine_id: u16, level: u8, secs: i64) -> Seq<char> {
    "ALM-"@ + decimal(machine_id as nat) + "-"@ + decimal(level as nat) + "-"@ + signed_decimal(
        secs as int,
    )
}

/// Equipment status text for an alarm level.
pub open spec fn status_text(level: u8) -> Seq<char> {
    if level == 2 {
        "FAULT"@
    } else if level == 1 {
        "WARNING"@
    } else {
        "RUNNING"@
    }
}

/// Views of an optional string.
pub open spec fn opt_view(o: Option<String>) -> Option<Seq<char>> {
    match o {
        Some(s) => Some(s@),
        None => None,
    }
}

/// Views of an optional string slice.
pub open spec fn opt_str_view(o: Option<&str>) -> Option<Seq<char>> {
    match o {
        Some(s) => Some(s@),
        None => None,
    }
}

/// Whether `text` is the rendering of some instant not before the epoch.
pub open spec fn rendered_instant(text: Seq<char>) -> bool {
    exists|t: UtcTime| t.secs >= 0 && #[trigger] rfc3339_seconds(t.secs, t.nanos) == Some(text)
}

/// A header of the given type, stamped by this system and version, with a
/// random (version-4) UUID as identifier and the rendering of an instant as
/// its time.
pub open spec fn header_fixed(h: MessageHeader, message_type: Seq<char>) -> bool {
    &&& h.message_type@ == message_type
    &&& h.source_system@ == source_system()
    &&& h.version@ == iso_version()
    &&& uuid_v4_text(h.message_id@)
    &&& rendered_instant(h.timestamp@)
}

/// The ISO alarm record that describes `alarm`, raised under `condition`,
/// with `alarm_time` as the rendered alarm instant.
pub open spec fn iso_alarm_of(
    a: ISO22400Alarm,
    alarm: Alarm,
    condition: Option<Seq<char>>,
    alarm_time: Seq<char>,
) -> bool {
    &&& a.alarm_id@ == alarm_id_text(alarm.machine_id, alarm.alarm_level, alarm.timestamp.secs)
    &&& a.alarm_type@ == iso_alarm_type(alarm.alarm_type@)
    &&& a.alarm_class@ == alarm_class_text(alarm.alarm_level)
    &&& a.severity == alarm_severity(alarm.alarm_level)
    &&& a.equipment_id@ == equipment_id_text(alarm.machine_id)
    &&& a.equipment_type@ == "CNC_Machine_Spindle"@
    &&& a.description@ == alarm.message@
    &&& a.alarm_time@ == alarm_time
    &&& opt_view(a.condition) == condition
    &&& a.actual_value_bits == Some(alarm.value_bits)
    &&& a.threshold_value_bits == Some(alarm.threshold_bits)
    &&& opt_view(a.unit) == alarm_unit(alarm.alarm_type@)
    &&& a.ack_state@ == "UNACKNOWLEDGED"@
    &&& a.active_state@ == "ACTIVE"@
}

/// The equipment status record that describes `status`.
pub open spec fn equipment_status_of(
    e: EquipmentStatus,
    status: MachineStatus,
    condition: Option<Seq<char>>,
    status_time: Seq<char>,
) -> bool {
    &&& e.equipment_id@ == equipment_id_text(status.machine_id)
    &&& e.equipment_type@ == "CNC_Machine_Spindle"@
    &&& e.status@ == status_text(status.alarm_level)
    &&& e.status_time@ == status_time
    &&& e.health_score_bits == Some(status.health_score_bits)
    &&& e.rul_hours_bits == Some(status.rul_hours_bits)
    &&& opt_view(e.operating_condition) == condition
}

/// The remaining-useful-life and health-score KPIs of a machine.
pub open spec fn rul_kpis_of(kpis: Seq<ISO22400KPI>, rul_hours_bits: u64, health_score_bits: u64) -> bool {
    &&& kpis.len() == 2
    &&& kpis[0].kpi_id@ == "RUL"@
    &&& kpis[0].kpi_name@ == "RemainingUsefulLife"@
    &&& kpis[0].value_bits == rul_hours_bits
    &&& kpis[0].unit@ == "hours"@
    &&& kpis[0].description@ == "Estimated remaining useful life of spindle bearing"@
    &&& kpis[1].kpi_id@ == "HealthScore"@
    &&& kpis[1].kpi_name@ == "EquipmentHealthScore"@
    &&& kpis[1].value_bits == health_score_bits
    &&& kpis[1].unit@ == "points"@
    &&& kpis[1].description@ == "Overall health score of the spindle (0-100)"@
}

fn equipment_id(machine_id: u16) -> (r: String)
    ensures
        r@ == equipment_id_text(machine_id),
{
    let mut s = String::from_str("CNC-");
    push_decimal_width2(&mut s, machine_id as u64);
    s
}

fn clone_opt_str(o: Option<&str>) -> (r: Option<String>)
    ensures
        opt_view(r) == opt_str_view(o),
{
    match o {
        Some(c) => Some(String::from_str(c)),
        None => None,
    }
}

impl Default for ISO22400Adapter {
    fn default() -> (r: Self)
        ensures
            r == ISO22400Adapter,
    {
        ISO22400Adapter::new()
    }
}

impl ISO22400Adapter {
    pub fn new() -> (r: Self)
        ensures
            r == ISO22400Adapter,
    {
        ISO22400Adapter
    }

    /// Builds a header from an identifier and an instant; `None` when the
    /// instant cannot be rendered.
    pub fn create_header_at(message_type: &str, message_id: String, now: UtcTime) -> (r: Option<
        MessageHeader,
    >)
        ensures
            r is Some <==> representable(now.secs, now.nanos),
            r matches Some(h) ==> {
                &&& h.message_type@ == message_type@
                &&& h.source_system@ == source_system()
                &&& h.version@ == iso_version()
                &&& h.message_id@ == message_id@
                &&& rfc3339_seconds(now.secs, now.nanos) == Some(h.timestamp@)
            },
    {
        match format_rfc3339_seconds(now) {
            Some(timestamp) => Some(
                MessageHeader {
                    message_id,
                    message_type: String::from_str(message_type),
                    source_system: String::from_str("CNC_Spindle_Health_Monitor"),
                    timestamp,
                    version: String::from_str("ISO22400-2:2022"),
                },
            ),
            None => None,
        }
    }

    /// A fresh header: random identifier, current time.
    pub fn create_header(message_type: &str) -> (r: MessageHeader)
        ensures
            header_fixed(r, message_type@),
    {
        let id = new_uuid_string();
        let now = utc_now();
        let h = Self::create_header_at(message_type, id, now);
        match h {
            Some(h) => h,
            None => {
                proof {
                    assert(false);
                }
                MessageHeader {
                    message_id: String::new(),
                    message_type: String::new(),
                    source_system: String::new(),
                    timestamp: String::new(),
                    version: String::new(),
                }
            },
        }
    }

    /// The ISO alarm record for `alarm` with an already rendered alarm time.
    pub fn iso_alarm(alarm: &Alarm, condition: Option<&str>, alarm_time: String) -> (r:
        ISO22400Alarm)
        ensures
            iso_alarm_of(r, *alarm, opt_str_view(condition), alarm_time@),
    {
        let (severity, alarm_class) = if alarm.alarm_level == 2 {
            (2u8, String::from_str("CRITICAL"))
        } else if alarm.alarm_level == 1 {
            (4u8, String::from_str("WARNING"))
        } else {
            (6u8, String::from_str("INFORMATION"))
        };
        let unit = if str_contains(alarm.alarm_type.as_str(), "vibration") {
            Some(String::from_str("mm/s"))
        } else if str_contains(alarm.alarm_type.as_str(), "rul") {
            Some(String::from_str("hours"))
        } else {
            None
        };
        let alarm_type_iso = if alarm.alarm_type == String::from_str("vibration_severe") {
            String::from_str("EquipmentCondition.VibrationExceeded")
        } else if alarm.alarm_type == String::from_str("rul_critical") {
            String::from_str("EquipmentCondition.RULCritical")
        } else {
            let mut t = String::from_str("EquipmentCondition.");
            t.append(alarm.alarm_type.as_str());
            t
        };
        let mut alarm_id = String::from_str("ALM-");
        push_decimal(&mut alarm_id, alarm.machine_id as u64);
        alarm_id.append("-");
        push_decimal(&mut alarm_id, alarm.alarm_level as u64);
        alarm_id.append("-");
        push_signed_decimal(&mut alarm_id, alarm.timestamp.secs);
        ISO22400Alarm {
            alarm_id,
            alarm_type: alarm_type_iso,
            alarm_class,
            severity,
            equipment_id: equipment_id(alarm.machine_id),
            equipment_type: String::from_str("CNC_Machine_Spindle"),
            description: alarm.message.clone(),
            alarm_time,
            condition: clone_opt_str(condition),
            actual_value_bits: Some(alarm.value_bits),
            threshold_value_bits: Some(alarm.threshold_bits),
            unit,
            ack_state: String::from_str("UNACKNOWLEDGED"),
            active_state: String::from_str("ACTIVE"),
        }
    }

    /// Converts an alarm into an ISO 22400 alarm message. `None` exactly when
    /// the alarm's instant cannot be rendered.
    pub fn alarm_to_iso22400(&self, alarm: &Alarm, condition: Option<&str>) -> (r: Option<
        ISO22400Message,
    >)
        ensures
            r is Some <==> representable(alarm.timestamp.secs, alarm.timestamp.nanos),
            r matches Some(m) ==> {
                &&& header_fixed(m.header, "Alarm"@)
                &&& m.body matches MessageBody::Alarm(b) && rfc3339_seconds(
                    alarm.timestamp.secs,
                    alarm.timestamp.nanos,
                ) matches Some(t) && iso_alarm_of(b.alarm, *alarm, opt_str_view(condition), t)
            },
    {
        match format_rfc3339_seconds(alarm.timestamp) {
            Some(alarm_time) => {
                let iso_alarm = Self::iso_alarm(alarm, condition, alarm_time);
                Some(
                    ISO22400Message {
                        header: Self::create_header("Alarm"),
                        body: MessageBody::Alarm(AlarmMessageBody { alarm: iso_alarm }),
                    },
                )
            },
            None => None,
        }
    }

    /// Converts a machine status into an ISO 22400 equipment-status message.
    /// `None` exactly when the status instant cannot be rendered.
    pub fn status_to_iso22400(
        &self,
        status: &MachineStatus,
        features: Option<&ConditionFeatures>,
    ) -> (r: Option<ISO22400Message>)
        ensures
            r is Some <==> representable(status.last_update.secs, status.last_update.nanos),
            r matches Some(m) ==> {
                &&& header_fixed(m.header, "EquipmentStatus"@)
                &&& m.body matches MessageBody::Status(b) && rfc3339_seconds(
                    status.last_update.secs,
                    status.last_update.nanos,
                ) matches Some(t) && equipment_status_of(
                    b.equipment_status,
                    *status,
                    match features {
                        Some(f) => Some(condition_label(f.condition)),
                        None => None,
                    },
                    t,
                )
            },
    {
        let status_str = if status.alarm_level == 2 {
            String::from_str("FAULT")
        } else if status.alarm_level == 1 {
            String::from_str("WARNING")
        } else {
            String::from_str("RUNNING")
        };
        let op_condition = match features {
            Some(f) => Some(String::from_str(f.condition.label())),
            None => None,
        };
        match format_rfc3339_seconds(status.last_update) {
            Some(status_time) => {
                let equip_status = EquipmentStatus {
                    equipment_id: equipment_id(status.machine_id),
                    equipment_type: String::from_str("CNC_Machine_Spindle"),
                    status: status_str,
                    status_time,
                    health_score_bits: Some(status.health_score_bits),
                    rul_hours_bits: Some(status.rul_hours_bits),
                    operating_condition: op_condition,
                };
                Some(
                    ISO22400Message {
                        header: Self::create_header("EquipmentStatus"),
                        body: MessageBody::Status(StatusMessageBody { equipment_status: equip_status }),
                    },
                )
            },
            None => None,
        }
    }

    /// The RUL and health-score KPI collection of a machine for the period
    /// from `start_time` to now. `None` exactly when `start_time` cannot be
    /// rendered.
    pub fn create_rul_kpi(
        &self,
        machine_id: u16,
        rul_hours_bits: u64,
        health_score_bits: u64,
        start_time: UtcTime,
    ) -> (r: Option<ISO22400Message>)
        ensures
            r is Some <==> representable(start_time.secs, start_time.nanos),
            r matches Some(m) ==> {
                &&& header_fixed(m.header, "KPI"@)
                &&& m.body matches MessageBody::Kpi(b) && {
                    &&& b.kpi_collection.equipment_id@ == equipment_id_text(machine_id)
                    &&& rfc3339_seconds(start_time.secs, start_time.nanos) == Some(
                        b.kpi_collection.time_period_start@,
                    )
                    &&& rendered_instant(b.kpi_collection.time_period_end@)
                    &&& rul_kpis_of(b.kpi_collection.kpis@, rul_hours_bits, health_score_bits)
                }
            },
    {
        let start = match format_rfc3339_seconds(start_time) {
            Some(s) => s,
            None => {
                return None;
            },
        };
        let end_time = utc_now();
        let end = match format_rfc3339_seconds(end_time) {
            Some(s) => s,
            None => {
                proof {
                    assert(false);
                }
                String::new()
            },
        };
        let mut kpis: Vec<ISO22400KPI> = Vec::new();
        kpis.push(
            ISO22400KPI {
                kpi_id: String::from_str("RUL"),
                kpi_name: String::from_str("RemainingUsefulLife"),
                value_bits: rul_hours_bits,
                unit: String::from_str("hours"),
                description: String::from_str("Estimated remaining useful life of spindle bearing"),
            },
        );
        kpis.push(
            ISO22400KPI {
                kpi_id: String::from_str("HealthScore"),
                kpi_name: String::from_str("EquipmentHealthScore"),
                value_bits: health_score_bits,
                unit: String::from_str("points"),
                description: String::from_str("Overall health score of the spindle (0-100)"),
            },
        );
        let collection = KpiCollection {
            equipment_id: equipment_id(machine_id),
            time_period_start: start,
            time_period_end: end,
            kpis,
        };
        Some(
            ISO22400Message {
                header: Self::create_header("KPI"),
                body: MessageBody::Kpi(KpiMessageBody { kpi_collection: collection }),
            },
        )
    }
}

} // verus!
