//! Reachability monitoring for a changing set of network targets.
//!
//! The crate holds the control plane of the monitor: the target registry
//! with its bounded probe histories and change events, the reconciliation
//! of probe workers against that registry, and the classification of probe
//! outcomes. Timers, sockets and task scheduling are left to the caller.

pub mod api;
pub mod monitor;
pub mod persistence;
