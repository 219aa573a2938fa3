//! Plain data kept by the registry: targets, probe results and table entries.

use std::collections::VecDeque;
use vstd::prelude::*;

verus! {

/// Identifier of a target: the 128 bits of a UUID.
pub type TargetId = u128;

/// A network address, held as the big-endian integer value of its octets.
#[derive(Clone, Copy, Debug, PartialEq, Eq)]
pub enum Address {
    V4(u32),
    V6(u128),
}

/// A monitored endpoint. Targets never change after they were created.
#[derive(Clone, Copy, Debug, PartialEq, Eq)]
pub struct Target {
    pub id: TargetId,
    pub address: Address,
}

/// Outcome of one probe attempt.
#[derive(Debug, PartialEq, Eq)]
pub enum ProbeStatus {
    /// The echo came back; `rtt` is the round-trip time in milliseconds.
    Success { rtt: i64 },
    /// The probe's own timeout expired.
    Timeout,
    /// Any other transport or protocol error, with a diagnostic for humans.
    Failure { reason: String },
}

impl Clone for ProbeStatus {
    fn clone(&self) -> (copy: Self)
        ensures
            copy == *self,
    {
        match self {
            ProbeStatus::Success { rtt } => ProbeStatus::Success { rtt: *rtt },
            ProbeStatus::Timeout => ProbeStatus::Timeout,
            ProbeStatus::Failure { reason } => ProbeStatus::Failure { reason: reason.clone() },
        }
    }
}

/// One probe attempt as it is stored: when it was issued, how long it took
/// and how it ended. Times are in milliseconds, `probe_time` since the Unix
/// epoch.
#[derive(Debug, PartialEq, Eq)]
pub struct TargetProbeResult {
    pub probe_time: i64,
    pub took: i64,
    pub result: ProbeStatus,
}

impl Clone for TargetProbeResult {
    fn clone(&self) -> (copy: Self)
        ensures
            copy == *self,
    {
        TargetProbeResult {
            probe_time: self.probe_time,
            took: self.took,
            result: self.result.clone(),
        }
    }
}

/// What the registry keeps for one target: the target and its most recent
/// probe results, oldest first.
#[derive(Debug, PartialEq, Eq)]
pub struct TargetTableEntry {
    pub target: Target,
    pub probe_results: VecDeque<TargetProbeResult>,
}

/// Mathematical value of a [`TargetTableEntry`].
pub struct EntryView {
    pub target: Target,
    pub history: Seq<TargetProbeResult>,
}

impl View for TargetTableEntry {
    type V = EntryView;

    open spec fn view(&self) -> EntryView {
        EntryView { target: self.target, history: self.probe_results@ }
    }
}

impl Clone for TargetTableEntry {
    fn clone(&self) -> (copy: Self)
        ensures
            copy@ == self@,
    {
        let probe_results = self.probe_results.clone();
        assert(probe_results@ =~= self.probe_results@);
        TargetTableEntry { target: self.target, probe_results }
    }
}

} // verus!
