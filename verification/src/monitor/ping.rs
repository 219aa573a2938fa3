//! The probe worker of one target: what it sends, when it stops and how
//! it records what came back.
//!
//! The worker decides; its caller acts. The caller waits for the next
//! tick, asks [`PingMonitor::process_step`] what to do, sends the echo
//! request it is given, and hands what came back to
//! [`PingMonitor::finish_probe`], which yields the result to report.

use crate::monitor::clock::unix_millis;
use crate::persistence::models::{Address, ProbeStatus, Target, TargetId, TargetProbeResult};
use vstd::prelude::*;

verus! {

/// Milliseconds between two probe attempts of a worker.
pub const PROBE_INTERVAL_MILLIS: u64 = 1000;

/// Milliseconds a probe waits for its echo when the worker was given no
/// timeout of its own.
pub const DEFAULT_TIMEOUT_MILLIS: u64 = 1000;

/// Time-to-live of an echo request.
pub const PROBE_TTL: u8 = 128;

/// Number of payload bytes of an echo request.
pub const PROBE_PAYLOAD_LEN: u8 = 16;

/// What one probe attempt came back with.
#[derive(Debug, PartialEq, Eq)]
pub enum ProbeOutcome {
    /// The echo arrived after `rtt` milliseconds.
    Reply { rtt: u32 },
    /// The probe's own timeout expired first.
    TimedOut,
    /// The attempt failed in another way; `reason` describes how.
    Error { reason: String },
}

/// One echo request, ready to be sent.
#[derive(Debug, PartialEq, Eq)]
pub struct ProbeRequest {
    pub address: Address,
    pub timeout_millis: u64,
    pub ttl: u8,
    pub dont_fragment: bool,
    pub payload: Vec<u8>,
}

/// Mathematical value of a [`ProbeRequest`].
pub struct ProbeRequestView {
    pub address: Address,
    pub timeout_millis: u64,
    pub ttl: u8,
    pub dont_fragment: bool,
    pub payload: Seq<u8>,
}

impl View for ProbeRequest {
    type V = ProbeRequestView;

    open spec fn view(&self) -> ProbeRequestView {
        ProbeRequestView {
            address: self.address,
            timeout_millis: self.timeout_millis,
            ttl: self.ttl,
            dont_fragment: self.dont_fragment,
            payload: self.payload@,
        }
    }
}

/// What woke the worker's loop.
#[derive(Clone, Copy, Debug, PartialEq, Eq)]
pub enum WorkerWakeup {
    /// The interval timer fired.
    Tick,
    /// Shutdown was requested.
    Control,
}

/// What the caller of the worker has to do next.
#[derive(Debug, PartialEq, Eq)]
pub enum WorkerDirective {
    /// Send this echo request and report what came back.
    Probe(ProbeRequest),
    /// Leave the loop.
    Exit,
}

/// Mathematical value of a [`WorkerDirective`].
pub enum WorkerDirectiveView {
    Probe(ProbeRequestView),
    Exit,
}

impl View for WorkerDirective {
    type V = WorkerDirectiveView;

    open spec fn view(&self) -> WorkerDirectiveView {
        match self {
            WorkerDirective::Probe(request) => WorkerDirectiveView::Probe(request@),
            WorkerDirective::Exit => WorkerDirectiveView::Exit,
        }
    }
}

/// The status recorded for an outcome.
pub open spec fn classified(outcome: ProbeOutcome) -> ProbeStatus {
    match outcome {
        ProbeOutcome::Reply { rtt } => ProbeStatus::Success { rtt: rtt as i64 },
        ProbeOutcome::TimedOut => ProbeStatus::Timeout,
        ProbeOutcome::Error { reason } => ProbeStatus::Failure { reason },
    }
}

/// Milliseconds from `started` to `finished`, limited to what an `i64` holds.
pub open spec fn elapsed(started: i64, finished: i64) -> i64 {
    if finished - started > i64::MAX {
        i64::MAX
    } else if finished - started < i64::MIN {
        i64::MIN
    } else {
        (finished - started) as i64
    }
}

/// The result stored for a probe that was issued at `started`, came back
/// at `finished` and ended as `outcome`.
pub open spec fn recorded(started: i64, finished: i64, outcome: ProbeOutcome) -> TargetProbeResult {
    TargetProbeResult {
        probe_time: started,
        took: elapsed(started, finished),
        result: classified(outcome),
    }
}

/// The payload of every echo request: the bytes 0, 1, 2, ... in order.
pub open spec fn payload_bytes() -> Seq<u8> {
    Seq::new(PROBE_PAYLOAD_LEN as nat, |i: int| i as u8)
}

/// Maps what a probe came back with to the status that is stored.
pub fn classify(outcome: ProbeOutcome) -> (status: ProbeStatus)
    ensures
        status == classified(outcome),
{
    match outcome {
        ProbeOutcome::Reply { rtt } => ProbeStatus::Success { rtt: rtt as i64 },
        ProbeOutcome::TimedOut => ProbeStatus::Timeout,
        ProbeOutcome::Error { reason } => ProbeStatus::Failure { reason },
    }
}

/// Milliseconds from `started` to `finished`, limited to what an `i64` holds.
pub fn elapsed_millis(started: i64, finished: i64) -> (took: i64)
    ensures
        took == elapsed(started, finished),
{
    if started >= 0 {
        if finished < i64::MIN + started {
            i64::MIN
        } else {
            finished - started
        }
    } else {
        if finished > i64::MAX + started {
            i64::MAX
        } else {
            finished - started
        }
    }
}

/// Builds the result of a probe from its two clock readings and its outcome.
pub fn probe_result(started: i64, finished: i64, outcome: ProbeOutcome) -> (result:
    TargetProbeResult)
    ensures
        result == recorded(started, finished, outcome),
{
    TargetProbeResult {
        probe_time: started,
        took: elapsed_millis(started, finished),
        result: classify(outcome),
    }
}

/// The payload of an echo request.
pub fn probe_payload() -> (payload: Vec<u8>)
    ensures
        payload@ == payload_bytes(),
{
    let mut payload: Vec<u8> = Vec::new();
    let mut next: u8 = 0;
    while next < PROBE_PAYLOAD_LEN
        invariant
            next <= PROBE_PAYLOAD_LEN,
            payload@ == Seq::new(next as nat, |i: int| i as u8),
        decreases PROBE_PAYLOAD_LEN - next,
    {
        payload.push(next);
        next = next + 1;
        assert(payload@ =~= Seq::new(next as nat, |i: int| i as u8));
    }
    payload
}

/// The probe worker of one target.
pub struct PingMonitor {
    target: Target,
    timeout: Option<u64>,
}

impl PingMonitor {
    /// A worker for `target`. `timeout` is the time in milliseconds that
    /// each probe may take; `None` stands for `DEFAULT_TIMEOUT_MILLIS`.
    pub fn new(target: Target, timeout: Option<u64>) -> (monitor: Self)
        ensures
            monitor.target() == target,
            monitor.timeout() == timeout,
    {
        PingMonitor { target, timeout }
    }

    /// The target this worker probes.
    pub closed spec fn target(&self) -> Target {
        self.target
    }

    /// The timeout this worker was given.
    pub closed spec fn timeout(&self) -> Option<u64> {
        self.timeout
    }

    /// The echo request of this worker.
    pub open spec fn request(&self) -> ProbeRequestView {
        ProbeRequestView {
            address: self.target().address,
            timeout_millis: match self.timeout() {
                Some(millis) => millis,
                None => DEFAULT_TIMEOUT_MILLIS,
            },
            ttl: PROBE_TTL,
            dont_fragment: true,
            payload: payload_bytes(),
        }
    }

    /// What the caller is told to do on `wakeup`.
    pub open spec fn directive_for(&self, wakeup: WorkerWakeup) -> WorkerDirectiveView {
        match wakeup {
            WorkerWakeup::Tick => WorkerDirectiveView::Probe(self.request()),
            WorkerWakeup::Control => WorkerDirectiveView::Exit,
        }
    }

    /// The target this worker probes.
    pub fn probed_target(&self) -> (target: Target)
        ensures
            target == self.target(),
    {
        self.target
    }

    /// Milliseconds that each probe of this worker may take.
    pub fn timeout_millis(&self) -> (millis: u64)
        ensures
            millis == self.request().timeout_millis,
    {
        match self.timeout {
            Some(millis) => millis,
            None => DEFAULT_TIMEOUT_MILLIS,
        }
    }

    /// The echo request of this worker.
    pub fn probe_request(&self) -> (request: ProbeRequest)
        ensures
            request@ == self.request(),
    {
        ProbeRequest {
            address: self.target.address,
            timeout_millis: self.timeout_millis(),
            ttl: PROBE_TTL,
            dont_fragment: true,
            payload: probe_payload(),
        }
    }

    /// One turn of the worker's loop: a tick asks for one probe, a
    /// shutdown request ends the loop. How earlier probes ended plays no
    /// part.
    pub fn process_step(&self, wakeup: WorkerWakeup) -> (directive: WorkerDirective)
        ensures
            directive@ == self.directive_for(wakeup),
    {
        match wakeup {
            WorkerWakeup::Tick => WorkerDirective::Probe(self.probe_request()),
            WorkerWakeup::Control => WorkerDirective::Exit,
        }
    }

    /// Reads the clock for the issue time of the probe that is about to
    /// be sent: milliseconds since the Unix epoch, never before it.
    pub fn begin_probe(&self) -> (started: i64)
        ensures
            0 <= started,
    {
        unix_millis()
    }

    /// Reads the clock a second time and yields the report of a probe
    /// issued at `started` that came back as `outcome`: the id it is
    /// reported under and the result to store. Whatever the outcome, there
    /// is a report. The second reading is not before the epoch either, so
    /// for a `started` that [`PingMonitor::begin_probe`] gave, the time
    /// taken is the plain difference of the two readings.
    pub fn finish_probe(&self, started: i64, outcome: ProbeOutcome) -> (report: (
        TargetId,
        TargetProbeResult,
    ))
        ensures
            report.0 == self.target().id,
            exists|finished: i64|
                0 <= finished && report.1 == #[trigger] recorded(started, finished, outcome),
    {
        let finished = unix_millis();
        (self.target.id, probe_result(started, finished, outcome))
    }
}

/// A tick always leads to a probe and a shutdown request always ends the
/// loop: no outcome of an earlier probe stops a worker.
pub proof fn lemma_worker_stops_on_request_only(monitor: PingMonitor, wakeup: WorkerWakeup)
    ensures
        monitor.directive_for(wakeup) == WorkerDirectiveView::Exit <==> wakeup
            == WorkerWakeup::Control,
        wakeup == WorkerWakeup::Tick ==> monitor.directive_for(wakeup) == WorkerDirectiveView::Probe(
            monitor.request(),
        ),
{
}

/// Between two clock readings, neither of them before the epoch, the time
/// taken is their plain difference: the limits of the type are not reached.
pub proof fn lemma_elapsed_between_readings(started: i64, finished: i64)
    requires
        0 <= started,
        0 <= finished,
    ensures
        elapsed(started, finished) == finished - started,
{
}

/// Every outcome is recorded under exactly one status, and each status
/// comes from one kind of outcome only.
pub proof fn lemma_classification(outcome: ProbeOutcome)
    ensures
        classified(outcome) is Success <==> outcome is Reply,
        classified(outcome) is Timeout <==> outcome is TimedOut,
        classified(outcome) is Failure <==> outcome is Error,
        outcome matches ProbeOutcome::Reply { rtt } ==> classified(outcome) == (ProbeStatus::Success {
            rtt: rtt as i64,
        }),
        outcome matches ProbeOutcome::Error { reason } ==> classified(outcome)
            == (ProbeStatus::Failure { reason }),
{
}

} // verus!
