//! Ingests uplinks of The Things Network into InfluxDB, and renders the status
//! screen of the gateway that sends them.

pub mod config;
pub mod cursor;
pub mod device;
pub mod device_table;
pub mod display;
pub mod health;
pub mod http;
pub mod influx;
pub mod json;
pub mod point;
pub mod reconnect;
pub mod stream;
pub mod text;
pub mod time;
pub mod uplink;
