//! Sensor telemetry: the ingestion pipeline that audits, throttles,
//! validates and stores readings, and the status pages that summarise them.

pub mod text;
pub mod config;
pub mod model;
pub mod json;
pub mod mqtt;
pub mod web;
pub mod status;
pub mod topics;
pub mod conn;
