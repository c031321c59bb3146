//! Configuration sections that the library's logic reads. Loading them
//! from TOML happens outside the library.

use vstd::prelude::*;

verus! {

#[derive(Debug, Clone, Copy, PartialEq, Eq, Structural)]
pub struct ServerConfig {
    pub udp_port: u16,
    pub http_port: u16,
    pub websocket_port: u16,
}

#[derive(Debug, Clone)]
pub struct ClickHouseConfig {
    pub host: String,
    pub port: u16,
    pub database: String,
    pub username: String,
    pub password: String,
}

#[derive(Debug, Clone)]
pub struct MqttConfig {
    pub broker: String,
    pub client_id: String,
    pub topic_alarm: String,
    pub topic_status: String,
}

#[derive(Debug, Clone, Copy, PartialEq, Eq, Structural)]
pub struct MachinesConfig {
    pub count: u16,
    pub sensors_vibration: u8,
    pub sensors_temperature: u8,
    pub sensors_displacement: u8,
}

} // verus!
