//! Verified core of the CNC spindle health monitor: packet decoding, alarm
//! decision state machines, ISO 22400 message construction and the integer
//! parts of health scoring.

pub mod models;
pub mod frame;
pub mod text;
pub mod clock;
pub mod iso22400_adapter;
pub mod vibration_tracker;
pub mod alarm_dispatcher;
pub mod alarm_manager;
pub mod alarm;
pub mod alarm_engine;
pub mod metrics;
pub mod config;
pub mod prediction;
pub mod window;
pub mod ethercat_driver;
pub mod rul_predictor;
pub mod app_state;
pub mod api_server;
