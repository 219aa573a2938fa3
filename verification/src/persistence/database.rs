//! The target registry: a table of targets with their bounded probe
//! histories, where every mutation yields the change event owed to
//! subscribers.

use crate::persistence::events::EventBus;
use crate::persistence::models::{EntryView, Target, TargetId, TargetProbeResult, TargetTableEntry};
use std::collections::HashMap;
use std::collections::VecDeque;
use tokio::sync::broadcast::Receiver;
use vstd::prelude::*;
use vstd::std_specs::iter::IteratorSpec;

verus! {

/// Number of probe results kept per target.
pub const MAX_PROBES: usize = 300;

/// Number of events the bus retains for a listener that has fallen behind.
pub const EVENT_BACKLOG: usize = 15;

/// A change of the registry, as told to subscribers.
#[derive(Clone, Copy, Debug, PartialEq, Eq)]
pub enum Update {
    Deleted(TargetId),
    Updated(Target),
}

/// Mathematical value of the registry: the stored entry of each registered id.
pub type TableView = Map<TargetId, EntryView>;

/// The entry a target has right after it was registered.
pub open spec fn fresh_entry(target: Target) -> EntryView {
    EntryView { target, history: Seq::empty() }
}

/// The most recent `MAX_PROBES` items of `history`, in their order.
pub open spec fn retain_recent(history: Seq<TargetProbeResult>) -> Seq<TargetProbeResult> {
    if history.len() <= MAX_PROBES {
        history
    } else {
        history.subrange(history.len() - MAX_PROBES, history.len() as int)
    }
}

/// The registry after `target` was registered.
pub open spec fn inserted(table: TableView, target: Target) -> TableView {
    table.insert(target.id, fresh_entry(target))
}

/// The registry after `result` was reported for `id`: appended to the
/// history of a registered target, dropped for an unknown one.
pub open spec fn pushed(table: TableView, id: TargetId, result: TargetProbeResult) -> TableView {
    if table.contains_key(id) {
        table.insert(
            id,
            EntryView {
                target: table[id].target,
                history: retain_recent(table[id].history.push(result)),
            },
        )
    } else {
        table
    }
}

/// The registry after the entry of `id` was removed.
pub open spec fn deleted(table: TableView, id: TargetId) -> TableView {
    table.remove(id)
}

/// The target that a removal of `id` hands back.
pub open spec fn removed_target(table: TableView, id: TargetId) -> Option<Target> {
    if table.contains_key(id) {
        Some(table[id].target)
    } else {
        None
    }
}

/// The registry after each of `results` was reported for `id`, first to last.
pub open spec fn pushed_all(
    table: TableView,
    id: TargetId,
    results: Seq<TargetProbeResult>,
) -> TableView
    decreases results.len(),
{
    if results.len() == 0 {
        table
    } else {
        pushed(pushed_all(table, id, results.drop_last()), id, results.last())
    }
}

/// What a lookup of `id` finds.
pub open spec fn lookup(table: TableView, id: TargetId) -> Option<EntryView> {
    if table.contains_key(id) {
        Some(table[id])
    } else {
        None
    }
}

/// The targets registered under `ids`, in the order of `ids`.
pub open spec fn targets_of(table: TableView, ids: Seq<TargetId>) -> Seq<Target> {
    Seq::new(ids.len(), |i: int| table[ids[i]].target)
}

/// An entry is well formed under key `id` when it belongs to the target
/// with that id and holds no more than `MAX_PROBES` results.
pub open spec fn entry_wf(id: TargetId, entry: EntryView) -> bool {
    entry.target.id == id && entry.history.len() <= MAX_PROBES
}

/// Every entry of the registry is well formed under its key.
pub open spec fn table_wf(table: TableView) -> bool {
    forall|id: TargetId| #[trigger] table.contains_key(id) ==> entry_wf(id, table[id])
}

/// The table of targets, keyed by id.
pub struct TargetTable {
    entries: HashMap<TargetId, TargetTableEntry>,
}

impl View for TargetTable {
    type V = TableView;

    closed spec fn view(&self) -> TableView {
        Map::new(|id: TargetId| self.entries@.contains_key(id), |id: TargetId| self.entries@[id]@)
    }
}

impl TargetTable {
    #[verifier::type_invariant]
    spec fn well_formed(&self) -> bool {
        forall|id: TargetId| #[trigger]
            self.entries@.contains_key(id) ==> entry_wf(id, self.entries@[id]@)
    }

    /// An empty table.
    pub fn new() -> (table: Self)
        ensures
            table@ == TableView::empty(),
            table_wf(table@),
    {
        let table = TargetTable { entries: HashMap::new() };
        assert(table@ =~= TableView::empty());
        table
    }

    /// Registers `target` with an empty history, replacing whatever was
    /// stored under its id, and yields the event to publish.
    pub fn insert(&mut self, target: Target) -> (event: Update)
        ensures
            final(self)@ == inserted(old(self)@, target),
            event == Update::Updated(target),
            table_wf(final(self)@),
    {
        proof {
            use_type_invariant(&*self);
        }
        let mut entries = HashMap::new();
        std::mem::swap(&mut entries, &mut self.entries);
        entries.insert(
            target.id,
            TargetTableEntry { target, probe_results: VecDeque::with_capacity(MAX_PROBES) },
        );
        self.entries = entries;
        assert(self@ =~= inserted(old(self)@, target));
        Update::Updated(target)
    }

    /// Removes the entry of `target_id`, if there is one, and yields its
    /// target together with the event to publish. The event is owed whether
    /// or not the id was registered.
    pub fn delete(&mut self, target_id: TargetId) -> (out: (Option<Target>, Update))
        ensures
            final(self)@ == deleted(old(self)@, target_id),
            out.0 == removed_target(old(self)@, target_id),
            out.1 == Update::Deleted(target_id),
            table_wf(final(self)@),
    {
        proof {
            use_type_invariant(&*self);
        }
        let mut entries = HashMap::new();
        std::mem::swap(&mut entries, &mut self.entries);
        let entry = entries.remove(&target_id);
        self.entries = entries;
        assert(self@ =~= deleted(old(self)@, target_id));
        let target = match entry {
            Some(entry) => Some(entry.target),
            None => None,
        };
        (target, Update::Deleted(target_id))
    }

    /// Appends `result` to the history of `target_id`, evicting the oldest
    /// result of a full history. A result for an unknown id is dropped.
    pub fn push_target_result(&mut self, target_id: TargetId, result: TargetProbeResult)
        ensures
            final(self)@ == pushed(old(self)@, target_id, result),
            table_wf(final(self)@),
    {
        proof {
            use_type_invariant(&*self);
        }
        let mut entries = HashMap::new();
        std::mem::swap(&mut entries, &mut self.entries);
        if let Some(mut entry) = entries.remove(&target_id) {
            if entry.probe_results.len() == MAX_PROBES {
                entry.probe_results.pop_front();
            }
            entry.probe_results.push_back(result);
            assert(entry.probe_results@ =~= retain_recent(
                old(self).entries@[target_id].probe_results@.push(result),
            ));
            entries.insert(target_id, entry);
        }
        self.entries = entries;
        assert(self@ =~= pushed(old(self)@, target_id, result));
    }

    /// The ids registered at this moment, each once, in no particular order.
    pub fn list_keys(&self) -> (keys: Vec<TargetId>)
        ensures
            keys@.no_duplicates(),
            keys@.to_set() == self@.dom(),
    {
        let ghost all = self.entries.keys().remaining();
        let mut keys: Vec<TargetId> = Vec::new();
        for key in it: self.entries.keys()
            invariant
                it.seq() == all,
                keys@ == all.take(it.index() as int).unref(),
        {
            keys.push(*key);
        }
        assert(all.take(all.len() as int) =~= all);
        assert(self@.dom() =~= self.entries@.dom());
        keys
    }

    /// A copy of the entry stored for `key`, if it is registered.
    pub fn get(&self, key: &TargetId) -> (found: Option<TargetTableEntry>)
        ensures
            match found {
                Some(entry) => lookup(self@, *key) == Some(entry@) && entry_wf(*key, entry@),
                None => lookup(self@, *key).is_none(),
            },
    {
        proof {
            use_type_invariant(&*self);
        }
        match self.entries.get(key) {
            Some(entry) => Some(entry.clone()),
            None => None,
        }
    }
}

/// The registry together with its event bus: an in-memory table of targets
/// that tells its subscribers of every insertion and deletion.
///
/// Mutators take `&mut self`; a caller that shares the database between
/// tasks puts it behind a lock of its own.
pub struct SharedStateTargetDatabase {
    inner: TargetTable,
    bus: EventBus,
}

impl View for SharedStateTargetDatabase {
    type V = TableView;

    closed spec fn view(&self) -> TableView {
        self.inner@
    }
}

impl SharedStateTargetDatabase {
    /// Every event this database has handed to its bus so far, oldest
    /// first.
    pub closed spec fn announced(&self) -> Seq<Update> {
        self.bus.announced()
    }

    /// An empty database with a bus that has no listener yet.
    pub fn new() -> (database: Self)
        ensures
            database@ == TableView::empty(),
            database.announced() == Seq::<Update>::empty(),
            table_wf(database@),
    {
        SharedStateTargetDatabase { inner: TargetTable::new(), bus: EventBus::new(EVENT_BACKLOG) }
    }

    /// Registers `target` with an empty history and announces exactly one
    /// event, `Update::Updated(target)`. Returns the target's id.
    pub fn insert(&mut self, target: Target) -> (id: TargetId)
        ensures
            id == target.id,
            final(self)@ == inserted(old(self)@, target),
            final(self).announced() == old(self).announced().push(Update::Updated(target)),
            table_wf(final(self)@),
    {
        let id = target.id;
        let event = self.inner.insert(target);
        self.bus.announce(event);
        id
    }

    /// Removes `target_id` and announces exactly one event,
    /// `Update::Deleted(target_id)`, also when the id was not registered.
    /// Returns the removed target.
    pub fn delete(&mut self, target_id: TargetId) -> (removed: Option<Target>)
        ensures
            final(self)@ == deleted(old(self)@, target_id),
            removed == removed_target(old(self)@, target_id),
            final(self).announced() == old(self).announced().push(Update::Deleted(target_id)),
            table_wf(final(self)@),
    {
        let (removed, event) = self.inner.delete(target_id);
        self.bus.announce(event);
        removed
    }

    /// Appends `result` to the history of `target_id`, evicting the oldest
    /// result of a full history. A result for an unknown id is dropped.
    /// No event is announced.
    pub fn push_target_result(&mut self, target_id: TargetId, result: TargetProbeResult)
        ensures
            final(self)@ == pushed(old(self)@, target_id, result),
            final(self).announced() == old(self).announced(),
            table_wf(final(self)@),
    {
        self.inner.push_target_result(target_id, result);
    }

    /// The ids registered at this moment, each once, in no particular order.
    pub fn list_keys(&self) -> (keys: Vec<TargetId>)
        ensures
            keys@.no_duplicates(),
            keys@.to_set() == self@.dom(),
    {
        self.inner.list_keys()
    }

    /// A copy of the entry stored for `key`, if it is registered.
    pub fn get(&self, key: &TargetId) -> (found: Option<TargetTableEntry>)
        ensures
            match found {
                Some(entry) => lookup(self@, *key) == Some(entry@) && entry_wf(*key, entry@),
                None => lookup(self@, *key).is_none(),
            },
    {
        self.inner.get(key)
    }

    /// A new listener for the events announced from now on; earlier ones
    /// are not replayed to it.
    pub fn subscribe(&self) -> (listener: Receiver<Update>) {
        self.bus.subscribe()
    }
}

impl Default for SharedStateTargetDatabase {
    fn default() -> (database: Self)
        ensures
            database@ == TableView::empty(),
            database.announced() == Seq::<Update>::empty(),
            table_wf(database@),
    {
        Self::new()
    }
}

} // verus!
