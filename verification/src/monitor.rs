//! Probe workers and the manager that keeps them in step with the registry.

pub mod clock;
pub mod laws;
pub mod manager;
pub mod ping;

pub use manager::{Directive, MonitorManager, Resync, Wakeup};
pub use ping::{PingMonitor, ProbeOutcome, ProbeRequest, WorkerDirective, WorkerWakeup};
