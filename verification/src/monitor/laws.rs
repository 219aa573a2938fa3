//! Laws of reconciliation, stated over the manager's mathematical value:
//! the map from target id to the handle of its worker.

use crate::monitor::manager::{
    directive_for, directive_for_event, reconciled, running, started, Directive, Wakeup,
};
use crate::persistence::database::Update;
use crate::persistence::models::{Target, TargetId};
use vstd::prelude::*;

verus! {

/// After an announced target got its worker registered, the manager holds
/// exactly one handle for it, the new one, and every other worker is as
/// before. A handle held for that id earlier has been handed out to be
/// stopped.
pub proof fn lemma_one_worker_after_update<H>(monitors: Map<TargetId, H>, target: Target, handle: H)
    ensures
        ({
            let event = Update::Updated(target);
            let now = started(reconciled(monitors, event), target.id, handle);
            &&& running(now, target.id) == Some(handle)
            &&& now == started(monitors, target.id, handle)
            &&& forall|other: TargetId|
                other != target.id ==> #[trigger] running(now, other) == running(monitors, other)
            &&& match running(monitors, target.id) {
                Some(stale) => directive_for_event(monitors, event) == Directive::Replace(
                    stale,
                    target,
                ),
                None => directive_for_event(monitors, event) == Directive::<H>::Spawn(target),
            }
        }),
{
    let event = Update::Updated(target);
    assert(started(reconciled(monitors, event), target.id, handle) =~= started(
        monitors,
        target.id,
        handle,
    ));
}

/// Registering a second handle for an id hands the first one back, so the
/// manager never holds two workers for one target.
pub proof fn lemma_start_twice<H>(monitors: Map<TargetId, H>, id: TargetId, former: H, latter: H)
    ensures
        running(started(monitors, id, former), id) == Some(former),
        started(started(monitors, id, former), id, latter) == started(monitors, id, latter),
{
    assert(started(started(monitors, id, former), id, latter) =~= started(monitors, id, latter));
}

/// After a target was announced as deleted, the manager holds no handle
/// for it; the handle it held, if any, has been handed out to be stopped,
/// and every other worker is as before. A deletion of an id without a
/// worker changes nothing.
pub proof fn lemma_no_worker_after_delete<H>(monitors: Map<TargetId, H>, id: TargetId)
    ensures
        ({
            let event = Update::Deleted(id);
            let now = reconciled(monitors, event);
            &&& running(now, id).is_none()
            &&& forall|other: TargetId|
                other != id ==> #[trigger] running(now, other) == running(monitors, other)
            &&& match running(monitors, id) {
                Some(handle) => directive_for_event(monitors, event) == Directive::Shutdown(handle),
                None => directive_for_event(monitors, event) == Directive::<H>::Continue && now
                    == monitors,
            }
        }),
{
    assert(!monitors.contains_key(id) ==> reconciled(monitors, Update::Deleted(id)) =~= monitors);
}

/// Only a shutdown request or the loss of both sources ends the manager's
/// loop.
pub proof fn lemma_loop_ends_on_request_only<H>(monitors: Map<TargetId, H>, wakeup: Wakeup)
    ensures
        directive_for(monitors, wakeup) == Directive::<H>::Exit <==> (wakeup == Wakeup::Control
            || wakeup == Wakeup::SourcesClosed),
{
}

} // verus!
