//! `data` holds the storages backed by Redis and the transmission of messages to the MQTT
//! broker, which Grafana reads to visualize them.

pub mod storage;
pub mod transception;
