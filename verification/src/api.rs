//! The management operations, as functions from plain values to plain values.

pub mod router;

pub use router::{add_target, delete_target, get_target, get_target_results, list_targets, ApiStatus};
