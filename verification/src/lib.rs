//! Verified core of the WTG GPU telemetry tool.

pub mod cli;
pub mod cli_mqtt;
pub mod decimal;
pub mod config;
pub mod exit_code;
pub mod json;
pub mod mqtt;
pub mod mqtt_packet;
pub mod mqtt_settings;
pub mod nvml;
pub mod probe;
pub mod providers;
pub mod sink;
pub mod stats;
pub mod text;
pub mod ui_form;
pub mod view;
