//! Polling core of an exporter that turns a network controller's per-device
//! telemetry into gauge series and keeps the latest rendered snapshot.

pub mod client;
pub mod metrics;
pub mod poller;
pub mod registry;
pub mod snapshot;
pub mod telemetry;

