//! Reconciliation of probe workers against the registry.
//!
//! The manager owns the control handle of every running worker, keyed by
//! target id. It decides; its caller acts: the caller waits for the next
//! wakeup, asks [`MonitorManager::process_step`] what to do, spawns or
//! stops the worker it is told to, and comes back. Every turn of the loop
//! begins at a tick of the interval timer, so that a shutdown request is
//! seen within one interval.

use crate::persistence::database::{pushed, targets_of, SharedStateTargetDatabase, Update};
use crate::persistence::models::{Target, TargetId, TargetProbeResult};
use std::collections::HashMap;
use vstd::prelude::*;
use vstd::std_specs::iter::IteratorSpec;

verus! {

/// Milliseconds between two looks at the shutdown signal in the manager's loop.
pub const TICK_INTERVAL_MILLIS: u64 = 10;

/// Number of probe results that may wait on their way from the workers to
/// the manager.
pub const RESULT_BACKLOG: usize = 15;

/// What woke the manager's loop.
#[derive(Debug, PartialEq, Eq)]
pub enum Wakeup {
    /// The interval timer fired before any shutdown request.
    Tick,
    /// Shutdown was requested.
    Control,
    /// The registry announced a change.
    Event(Update),
    /// The manager fell behind and the bus dropped events meant for it.
    EventsMissed,
    /// A worker reported a probe result.
    Result(TargetId, TargetProbeResult),
    /// Both the event bus and the result channel are closed for good.
    SourcesClosed,
}

/// What the caller of the manager has to do next. `H` is the type of a
/// worker's control handle.
#[derive(Debug, PartialEq, Eq)]
pub enum Directive<H> {
    /// Leave the loop.
    Exit,
    /// Nothing to do; wait for the next tick.
    Continue,
    /// Wait for the next registry event or probe result, whichever comes
    /// first, and come back with it.
    Poll,
    /// Spawn a worker for the target and register its handle with
    /// [`MonitorManager::start_monitor`].
    Spawn(Target),
    /// A worker for this target's id is already running: shut that one
    /// down, wait until it has stopped, then go on as for `Spawn`.
    Replace(H, Target),
    /// Shut this worker down and wait until it has stopped.
    Shutdown(H),
    /// Store the result in the registry.
    Record(TargetId, TargetProbeResult),
    /// Events were lost: compare the workers with the registry as a whole,
    /// by [`MonitorManager::resynchronize`], and act on its plan.
    Resync,
}

/// What has to happen to bring the workers in line with the registry.
#[derive(Debug, PartialEq, Eq)]
pub struct Resync<H> {
    /// Handles of workers whose target is gone: shut each of them down.
    pub stale: Vec<H>,
    /// Registered targets without a worker: spawn one for each.
    pub missing: Vec<Target>,
}

/// The handles registered under `ids`, in the order of `ids`.
pub open spec fn handles_of<H>(monitors: Map<TargetId, H>, ids: Seq<TargetId>) -> Seq<H> {
    Seq::new(ids.len(), |i: int| monitors[ids[i]])
}

/// The handle map after `handle` was registered for `id`.
pub open spec fn started<H>(monitors: Map<TargetId, H>, id: TargetId, handle: H) -> Map<
    TargetId,
    H,
> {
    monitors.insert(id, handle)
}

/// The handle map after the worker of `id` was taken out.
pub open spec fn stopped<H>(monitors: Map<TargetId, H>, id: TargetId) -> Map<TargetId, H> {
    monitors.remove(id)
}

/// The handle registered for `id`, if its worker is running.
pub open spec fn running<H>(monitors: Map<TargetId, H>, id: TargetId) -> Option<H> {
    if monitors.contains_key(id) {
        Some(monitors[id])
    } else {
        None
    }
}

/// The handle map after the registry announced `event`.
pub open spec fn reconciled<H>(monitors: Map<TargetId, H>, event: Update) -> Map<TargetId, H> {
    match event {
        Update::Deleted(id) => stopped(monitors, id),
        Update::Updated(target) => stopped(monitors, target.id),
    }
}

/// What the caller is told to do when the registry announced `event`.
pub open spec fn directive_for_event<H>(monitors: Map<TargetId, H>, event: Update) -> Directive<
    H,
> {
    match event {
        Update::Deleted(id) => match running(monitors, id) {
            Some(handle) => Directive::Shutdown(handle),
            None => Directive::Continue,
        },
        Update::Updated(target) => match running(monitors, target.id) {
            Some(stale) => Directive::Replace(stale, target),
            None => Directive::Spawn(target),
        },
    }
}

/// What the caller is told to do on `wakeup`.
pub open spec fn directive_for<H>(monitors: Map<TargetId, H>, wakeup: Wakeup) -> Directive<H> {
    match wakeup {
        Wakeup::Tick => Directive::Poll,
        Wakeup::Control => Directive::Exit,
        Wakeup::Event(event) => directive_for_event(monitors, event),
        Wakeup::EventsMissed => Directive::Resync,
        Wakeup::Result(id, result) => Directive::Record(id, result),
        Wakeup::SourcesClosed => Directive::Exit,
    }
}

/// The handle map after `wakeup` was processed.
pub open spec fn after_wakeup<H>(monitors: Map<TargetId, H>, wakeup: Wakeup) -> Map<TargetId, H> {
    match wakeup {
        Wakeup::Event(event) => reconciled(monitors, event),
        _ => monitors,
    }
}

/// Membership in the first `i + 1` items of a sequence, by the first `i`.
proof fn lemma_take_next(items: Seq<TargetId>, i: int)
    requires
        0 <= i < items.len(),
    ensures
        items.take(i + 1) == items.take(i).push(items[i]),
        forall|id: TargetId|
            items.take(i + 1).contains(id) <==> (items.take(i).contains(id) || id == items[i]),
        items.no_duplicates() ==> !items.take(i).contains(items[i]),
{
    assert(items.take(i + 1) =~= items.take(i).push(items[i]));
    assert forall|id: TargetId|
        items.take(i + 1).contains(id) <==> (items.take(i).contains(id) || id == items[i]) by {
        if items.take(i).contains(id) {
            let k = choose|k: int| 0 <= k < items.take(i).len() && items.take(i)[k] == id;
            assert(items.take(i + 1)[k] == id);
        }
        if id == items[i] {
            assert(items.take(i + 1)[i] == id);
        }
    }
    if items.no_duplicates() && items.take(i).contains(items[i]) {
        let k = choose|k: int| 0 <= k < items.take(i).len() && items.take(i)[k] == items[i];
        assert(items[k] == items[i]);
    }
}

/// Appending an item that a duplicate-free sequence does not hold.
proof fn lemma_push_fresh(items: Seq<TargetId>, id: TargetId)
    requires
        items.no_duplicates(),
        !items.contains(id),
    ensures
        items.push(id).no_duplicates(),
        forall|other: TargetId|
            items.push(id).contains(other) <==> (items.contains(other) || other == id),
        items.push(id).to_set() == items.to_set().insert(id),
{
    let longer = items.push(id);
    assert forall|other: TargetId|
        longer.contains(other) <==> (items.contains(other) || other == id) by {
        if items.contains(other) {
            let k = choose|k: int| 0 <= k < items.len() && items[k] == other;
            assert(longer[k] == other);
        }
        if other == id {
            assert(longer[items.len() as int] == id);
        }
    }
    assert forall|a: int, b: int| 0 <= a < longer.len() && 0 <= b < longer.len() && a != b implies longer[a]
        != longer[b] by {
        if a < items.len() && b == items.len() {
            assert(items[a] == longer[a]);
        }
        if b < items.len() && a == items.len() {
            assert(items[b] == longer[b]);
        }
    }
    assert(longer.to_set() =~= items.to_set().insert(id));
}

/// Keeps one control handle per target with a running probe worker.
pub struct MonitorManager<H> {
    monitors: HashMap<TargetId, H>,
}

impl<H> View for MonitorManager<H> {
    type V = Map<TargetId, H>;

    closed spec fn view(&self) -> Map<TargetId, H> {
        self.monitors@
    }
}

impl<H> MonitorManager<H> {
    /// A manager with no worker running.
    pub fn new() -> (manager: Self)
        ensures
            manager@ == Map::<TargetId, H>::empty(),
    {
        MonitorManager { monitors: HashMap::new() }
    }

    /// Registers `handle` as the control handle of the worker of
    /// `target_id`. If a worker was already registered for that id, its
    /// handle is handed back: the caller must stop that worker, so that no
    /// target is ever probed by two.
    #[must_use]
    pub fn start_monitor(&mut self, target_id: TargetId, handle: H) -> (displaced: Option<H>)
        ensures
            final(self)@ == started(old(self)@, target_id, handle),
            displaced == running(old(self)@, target_id),
    {
        self.monitors.insert(target_id, handle)
    }

    /// Takes the worker of `target_id` out of the manager and hands its
    /// handle to the caller, who shuts the worker down. Without such a
    /// worker nothing happens.
    pub fn stop_monitor(&mut self, target_id: TargetId) -> (handle: Option<H>)
        ensures
            final(self)@ == stopped(old(self)@, target_id),
            handle == running(old(self)@, target_id),
    {
        self.monitors.remove(&target_id)
    }

    /// Whether a worker is registered for `target_id`.
    pub fn is_running(&self, target_id: TargetId) -> (yes: bool)
        ensures
            yes == self@.contains_key(target_id),
    {
        self.monitors.contains_key(&target_id)
    }

    /// Number of registered workers.
    pub fn len(&self) -> (count: usize)
        ensures
            count == self@.len(),
    {
        self.monitors.len()
    }

    /// Reacts to a change of the registry: a deleted target loses its
    /// worker, a new target is to get one. Either way the handle of a
    /// worker that runs for the id leaves the manager and goes to the
    /// caller, who stops that worker.
    pub fn handle_database_event(&mut self, event: Update) -> (directive: Directive<H>)
        ensures
            final(self)@ == reconciled(old(self)@, event),
            directive == directive_for_event(old(self)@, event),
    {
        match event {
            Update::Deleted(target_id) => match self.stop_monitor(target_id) {
                Some(handle) => Directive::Shutdown(handle),
                None => {
                    assert(self@ =~= old(self)@);
                    Directive::Continue
                },
            },
            Update::Updated(target) => match self.stop_monitor(target.id) {
                Some(stale) => Directive::Replace(stale, target),
                None => {
                    assert(self@ =~= old(self)@);
                    Directive::Spawn(target)
                },
            },
        }
    }

    /// Stores a probe result that a worker reported.
    pub fn handle_result_event(
        &self,
        database: &mut SharedStateTargetDatabase,
        target_id: TargetId,
        result: TargetProbeResult,
    )
        ensures
            final(database)@ == pushed(old(database)@, target_id, result),
            final(database).announced() == old(database).announced(),
    {
        database.push_target_result(target_id, result);
    }

    /// The ids with a registered worker, each once, in no particular order.
    pub fn running_ids(&self) -> (ids: Vec<TargetId>)
        ensures
            ids@.no_duplicates(),
            ids@.to_set() == self@.dom(),
    {
        let ghost all = self.monitors.keys().remaining();
        let mut ids: Vec<TargetId> = Vec::new();
        for id in it: self.monitors.keys()
            invariant
                it.seq() == all,
                ids@ == all.take(it.index() as int).unref(),
        {
            ids.push(*id);
        }
        assert(all.take(all.len() as int) =~= all);
        ids
    }

    /// Compares the workers with the registry as a whole, for use after
    /// events were lost. Workers whose target is no longer registered
    /// leave the manager; their handles come back as `stale`. The
    /// registered targets that have no worker come back as `missing`.
    /// Workers of registered targets are not touched.
    pub fn resynchronize(&mut self, database: &SharedStateTargetDatabase) -> (plan: Resync<H>)
        ensures
            final(self)@ == old(self)@.restrict(database@.dom()),
            exists|ids: Seq<TargetId>|
                {
                    &&& ids.no_duplicates()
                    &&& ids.to_set() == old(self)@.dom().difference(database@.dom())
                    &&& plan.stale@ == #[trigger] handles_of(old(self)@, ids)
                },
            exists|ids: Seq<TargetId>|
                {
                    &&& ids.no_duplicates()
                    &&& ids.to_set() == database@.dom().difference(old(self)@.dom())
                    &&& plan.missing@ == #[trigger] targets_of(database@, ids)
                },
    {
        let workers = self.running_ids();
        let mut stale: Vec<H> = Vec::new();
        let ghost mut gone: Seq<TargetId> = Seq::empty();
        let mut i: usize = 0;
        while i < workers.len()
            invariant
                i <= workers.len(),
                workers@.no_duplicates(),
                workers@.to_set() == old(self)@.dom(),
                gone.no_duplicates(),
                forall|id: TargetId|
                    gone.contains(id) <==> (workers@.take(i as int).contains(id)
                        && !database@.contains_key(id)),
                stale@ == handles_of(old(self)@, gone),
                self@ == old(self)@.remove_keys(gone.to_set()),
            decreases workers.len() - i,
        {
            let id = workers[i];
            proof {
                lemma_take_next(workers@, i as int);
                assert(workers@.to_set().contains(id));
            }
            let ghost earlier = gone;
            if database.get(&id).is_none() {
                assert(!gone.contains(id));
                assert(!gone.to_set().contains(id));
                assert(self@.contains_key(id));
                if let Some(handle) = self.monitors.remove(&id) {
                    stale.push(handle);
                    proof {
                        lemma_push_fresh(gone, id);
                        gone = gone.push(id);
                    }
                    assert(stale@ =~= handles_of(old(self)@, gone));
                    assert(self@ =~= old(self)@.remove_keys(gone.to_set()));
                }
            }
            i = i + 1;
            assert forall|other: TargetId|
                gone.contains(other) <==> (workers@.take(i as int).contains(other)
                    && !database@.contains_key(other)) by {
                assert(earlier.contains(other) <==> (workers@.take(i as int - 1).contains(other)
                    && !database@.contains_key(other)));
            }
        }
        assert(workers@.take(workers.len() as int) =~= workers@);
        assert(gone.to_set() =~= old(self)@.dom().difference(database@.dom()));
        assert(self@ =~= old(self)@.restrict(database@.dom()));

        let registered = database.list_keys();
        let mut missing: Vec<Target> = Vec::new();
        let ghost mut wanted: Seq<TargetId> = Seq::empty();
        let mut j: usize = 0;
        while j < registered.len()
            invariant
                j <= registered.len(),
                registered@.no_duplicates(),
                registered@.to_set() == database@.dom(),
                self@ == old(self)@.restrict(database@.dom()),
                wanted.no_duplicates(),
                forall|id: TargetId|
                    wanted.contains(id) <==> (registered@.take(j as int).contains(id)
                        && !old(self)@.contains_key(id)),
                missing@ == targets_of(database@, wanted),
            decreases registered.len() - j,
        {
            let id = registered[j];
            proof {
                lemma_take_next(registered@, j as int);
                assert(registered@.to_set().contains(id));
            }
            let ghost earlier = wanted;
            if !self.monitors.contains_key(&id) {
                assert(!old(self)@.contains_key(id));
                assert(!wanted.contains(id));
                if let Some(entry) = database.get(&id) {
                    missing.push(entry.target);
                    proof {
                        lemma_push_fresh(wanted, id);
                        wanted = wanted.push(id);
                    }
                    assert(missing@ =~= targets_of(database@, wanted));
                }
            } else {
                assert(old(self)@.contains_key(id));
            }
            j = j + 1;
            assert forall|other: TargetId|
                wanted.contains(other) <==> (registered@.take(j as int).contains(other)
                    && !old(self)@.contains_key(other)) by {
                assert(earlier.contains(other) <==> (registered@.take(j as int - 1).contains(other)
                    && !old(self)@.contains_key(other)));
            }
        }
        assert(registered@.take(registered.len() as int) =~= registered@);
        assert(wanted.to_set() =~= database@.dom().difference(old(self)@.dom()));
        Resync { stale, missing }
    }

    /// One turn of the manager's loop: decides what follows from `wakeup`.
    /// Shutdown requests and closed sources end the loop; nothing else
    /// does. Missed events lead to a comparison with the whole registry.
    pub fn process_step(&mut self, wakeup: Wakeup) -> (directive: Directive<H>)
        ensures
            final(self)@ == after_wakeup(old(self)@, wakeup),
            directive == directive_for(old(self)@, wakeup),
    {
        match wakeup {
            Wakeup::Tick => Directive::Poll,
            Wakeup::Control => Directive::Exit,
            Wakeup::Event(event) => self.handle_database_event(event),
            Wakeup::EventsMissed => Directive::Resync,
            Wakeup::Result(target_id, result) => Directive::Record(target_id, result),
            Wakeup::SourcesClosed => Directive::Exit,
        }
    }
}

} // verus!
