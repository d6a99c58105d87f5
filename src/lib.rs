//! Host telemetry snapshots: the verified rules that turn raw sensor
//! readings into one consistent snapshot of the machine.
pub mod parse;
pub mod snapshot;
pub mod sensors;
pub mod startup;
pub mod endpoint;
