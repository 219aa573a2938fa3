//! Laws of the registry, stated over its mathematical value.

use crate::persistence::database::{
    deleted, entry_wf, fresh_entry, inserted, lookup, pushed, pushed_all, removed_target,
    retain_recent, table_wf, TableView, MAX_PROBES,
};
use crate::persistence::models::{Target, TargetId, TargetProbeResult};
use vstd::prelude::*;

verus! {

/// Trimming a history, appending one result and trimming again gives what
/// appending to the untrimmed history and trimming once gives.
pub proof fn lemma_retain_recent_push(history: Seq<TargetProbeResult>, result: TargetProbeResult)
    ensures
        retain_recent(retain_recent(history).push(result)) == retain_recent(history.push(result)),
{
    assert(retain_recent(retain_recent(history).push(result)) =~= retain_recent(
        history.push(result),
    ));
}

/// A trimmed history holds `min(len, MAX_PROBES)` results: the last ones
/// of the untrimmed history, in the same order.
pub proof fn lemma_retain_recent_contents(history: Seq<TargetProbeResult>)
    ensures
        retain_recent(history).len() == if history.len() <= MAX_PROBES {
            history.len()
        } else {
            MAX_PROBES as nat
        },
        forall|i: int|
            0 <= i < retain_recent(history).len() ==> #[trigger] retain_recent(history)[i]
                == history[history.len() - retain_recent(history).len() + i],
{
}

/// Registration, removal and reporting keep every entry well formed.
pub proof fn lemma_mutations_keep_table_wf(
    table: TableView,
    target: Target,
    id: TargetId,
    result: TargetProbeResult,
)
    requires
        table_wf(table),
    ensures
        table_wf(TableView::empty()),
        table_wf(inserted(table, target)),
        table_wf(deleted(table, id)),
        table_wf(pushed(table, id, result)),
{
    lemma_retain_recent_contents(table[id].history.push(result));
    assert forall|other: TargetId| #[trigger]
        pushed(table, id, result).contains_key(other) implies entry_wf(
        other,
        pushed(table, id, result)[other],
    ) by {
        assert(table.contains_key(other));
    }
    assert forall|other: TargetId| #[trigger]
        inserted(table, target).contains_key(other) implies entry_wf(
        other,
        inserted(table, target)[other],
    ) by {
        if other != target.id {
            assert(table.contains_key(other));
        }
    }
    assert forall|other: TargetId| #[trigger]
        deleted(table, id).contains_key(other) implies entry_wf(
        other,
        deleted(table, id)[other],
    ) by {
        assert(table.contains_key(other));
    }
}

/// After any run of reports for a registered target, its history is the
/// last `MAX_PROBES` of everything reported so far, in the order of the
/// reports; the target itself and all other entries are as before.
pub proof fn lemma_history_after_pushes(
    table: TableView,
    id: TargetId,
    results: Seq<TargetProbeResult>,
)
    requires
        table.contains_key(id),
        table[id].history.len() <= MAX_PROBES,
    ensures
        pushed_all(table, id, results).dom() == table.dom(),
        pushed_all(table, id, results)[id].target == table[id].target,
        pushed_all(table, id, results)[id].history == retain_recent(table[id].history + results),
        forall|other: TargetId|
            other != id ==> #[trigger] pushed_all(table, id, results)[other] == table[other],
    decreases results.len(),
{
    if results.len() == 0 {
        assert(table[id].history + results =~= table[id].history);
    } else {
        let before = pushed_all(table, id, results.drop_last());
        lemma_history_after_pushes(table, id, results.drop_last());
        lemma_retain_recent_push(table[id].history + results.drop_last(), results.last());
        assert((table[id].history + results.drop_last()).push(results.last()) =~= table[id].history
            + results);
        assert(before.contains_key(id));
        assert(pushed(before, id, results.last()).dom() =~= before.dom());
    }
}

/// A freshly registered target that then gets `results` reported holds
/// `min(results.len(), MAX_PROBES)` of them: the most recent ones, oldest
/// first.
pub proof fn lemma_fresh_history_after_pushes(
    table: TableView,
    target: Target,
    results: Seq<TargetProbeResult>,
)
    ensures
        ({
            let history = pushed_all(inserted(table, target), target.id, results)[target.id].history;
            &&& history == retain_recent(results)
            &&& history.len() == if results.len() <= MAX_PROBES {
                results.len()
            } else {
                MAX_PROBES as nat
            }
            &&& forall|i: int|
                0 <= i < history.len() ==> #[trigger] history[i] == results[results.len()
                    - history.len() + i]
        }),
{
    lemma_history_after_pushes(inserted(table, target), target.id, results);
    assert(Seq::<TargetProbeResult>::empty() + results =~= results);
    lemma_retain_recent_contents(results);
}

/// Looking a target up right after it was registered finds that target,
/// with an empty history.
pub proof fn lemma_insert_then_get(table: TableView, target: Target)
    ensures
        lookup(inserted(table, target), target.id) == Some(fresh_entry(target)),
        fresh_entry(target).target == target,
{
}

/// After a removal the id is unknown, and removing it once more changes
/// nothing and hands back nothing.
pub proof fn lemma_delete_then_get(table: TableView, id: TargetId)
    ensures
        lookup(deleted(table, id), id).is_none(),
        removed_target(deleted(table, id), id).is_none(),
        deleted(deleted(table, id), id) == deleted(table, id),
{
    assert(deleted(deleted(table, id), id) =~= deleted(table, id));
}

/// Removing an id that is not registered leaves the registry as it was.
pub proof fn lemma_delete_unknown(table: TableView, id: TargetId)
    requires
        !table.contains_key(id),
    ensures
        deleted(table, id) == table,
        removed_target(table, id).is_none(),
{
    assert(deleted(table, id) =~= table);
}

/// Once a target was removed, results reported for it are not stored.
pub proof fn lemma_push_after_delete(table: TableView, id: TargetId, result: TargetProbeResult)
    ensures
        pushed(deleted(table, id), id, result) == deleted(table, id),
{
}

} // verus!
