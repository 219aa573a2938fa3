//! What the management interface does with a request once it has been
//! decoded: list, add, read and delete targets.
//!
//! Decoding requests, among it the parsing of an address, and encoding
//! responses are left to the caller.

use crate::persistence::database::{
    deleted, inserted, lookup, targets_of, SharedStateTargetDatabase, Update,
};
use crate::persistence::models::{Address, Target, TargetId, TargetProbeResult};
use std::collections::VecDeque;
use vstd::prelude::*;

verus! {

/// How a request ended where it did not yield data.
#[derive(Clone, Copy, Debug, PartialEq, Eq)]
pub enum ApiStatus {
    /// The request was taken on.
    Accepted,
    /// No target has the id that was asked for.
    NotFound,
}

/// Calls `uuid::Uuid::new_v4` and converts the UUID with `Uuid::as_u128`.
/// Not proved, and nothing is claimed of the value: it is random.
#[verifier::external_body]
fn random_target_id() -> (id: TargetId) {
    uuid::Uuid::new_v4().as_u128()
}

/// Every registered target, each once, in no particular order.
pub fn list_targets(database: &SharedStateTargetDatabase) -> (targets: Vec<Target>)
    ensures
        exists|ids: Seq<TargetId>|
            {
                &&& ids.no_duplicates()
                &&& ids.to_set() == database@.dom()
                &&& targets@ == #[trigger] targets_of(database@, ids)
            },
{
    let keys = database.list_keys();
    let mut targets: Vec<Target> = Vec::new();
    let mut i: usize = 0;
    while i < keys.len()
        invariant
            i <= keys.len(),
            keys@.to_set() == database@.dom(),
            targets@ == targets_of(database@, keys@.take(i as int)),
        decreases keys.len() - i,
    {
        assert(keys@.to_set().contains(keys@[i as int]));
        if let Some(entry) = database.get(&keys[i]) {
            targets.push(entry.target);
        }
        i = i + 1;
        assert(targets@ =~= targets_of(database@, keys@.take(i as int)));
    }
    assert(keys@.take(keys.len() as int) =~= keys@);
    targets
}

/// Registers a new target for `address` under a random id and returns it.
pub fn add_target(database: &mut SharedStateTargetDatabase, address: Address) -> (target: Target)
    ensures
        target.address == address,
        final(database)@ == inserted(old(database)@, target),
        final(database).announced() == old(database).announced().push(Update::Updated(target)),
{
    let id = random_target_id();
    let target = Target { id, address };
    database.insert(target);
    target
}

/// Removes the target `id`. The request is accepted whether or not the id
/// was registered.
pub fn delete_target(database: &mut SharedStateTargetDatabase, id: TargetId) -> (status: ApiStatus)
    ensures
        status == ApiStatus::Accepted,
        final(database)@ == deleted(old(database)@, id),
        final(database).announced() == old(database).announced().push(Update::Deleted(id)),
{
    let _ = database.delete(id);
    ApiStatus::Accepted
}

/// The target registered as `id`.
pub fn get_target(database: &SharedStateTargetDatabase, id: TargetId) -> (found: Result<
    Target,
    ApiStatus,
>)
    ensures
        found == match lookup(database@, id) {
            Some(entry) => Ok::<Target, ApiStatus>(entry.target),
            None => Err(ApiStatus::NotFound),
        },
{
    match database.get(&id) {
        Some(entry) => Ok(entry.target),
        None => Err(ApiStatus::NotFound),
    }
}

/// The probe results stored for the target `id`, oldest first.
pub fn get_target_results(database: &SharedStateTargetDatabase, id: TargetId) -> (found: Result<
    VecDeque<TargetProbeResult>,
    ApiStatus,
>)
    ensures
        match found {
            Ok(history) => lookup(database@, id) matches Some(entry) && history@ == entry.history,
            Err(status) => status == ApiStatus::NotFound && lookup(database@, id).is_none(),
        },
{
    match database.get(&id) {
        Some(entry) => Ok(entry.probe_results),
        None => Err(ApiStatus::NotFound),
    }
}

} // verus!
