//! Telemetry ingestion bridge: validates newline-delimited JSON sensor
//! readings, resolves their timestamps, encodes them into time-series
//! line-protocol text, and classifies the outcome of forwarding them
//! upstream.
pub mod conn;
pub mod encode;
pub mod escape;
pub mod forward;
pub mod numfmt;
pub mod reading;
pub mod timestamp;
