//! The target registry and the data it stores.

pub mod database;
pub mod events;
pub mod laws;
pub mod models;

pub use database::{SharedStateTargetDatabase, TargetTable, Update, EVENT_BACKLOG, MAX_PROBES};
pub use events::EventBus;
pub use models::{Address, ProbeStatus, Target, TargetId, TargetProbeResult, TargetTableEntry};
