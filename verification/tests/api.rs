use ping_monitor_rs::api::{
    add_target, delete_target, get_target, get_target_results, list_targets, ApiStatus,
};
use ping_monitor_rs::persistence::{
    Address, ProbeStatus, SharedStateTargetDatabase, Target, TargetProbeResult, Update,
};

fn result(n: i64) -> TargetProbeResult {
    TargetProbeResult { probe_time: n, took: n, result: ProbeStatus::Timeout }
}

#[test]
fn add_target_registers_the_address_under_a_fresh_id() {
    let mut db = SharedStateTargetDatabase::new();
    let mut events = db.subscribe();

    let first = add_target(&mut db, Address::V4(0x0102_0304));
    let second = add_target(&mut db, Address::V4(0x0102_0304));

    assert_eq!(first.address, Address::V4(0x0102_0304));
    assert_eq!(second.address, Address::V4(0x0102_0304));
    assert_ne!(first.id, second.id);
    assert_eq!(get_target(&db, first.id), Ok(first));
    assert_eq!(get_target(&db, second.id), Ok(second));
    assert_eq!(events.try_recv(), Ok(Update::Updated(first)));
    assert_eq!(events.try_recv(), Ok(Update::Updated(second)));
    assert_eq!(get_target_results(&db, first.id).unwrap().len(), 0);
}

#[test]
fn added_ids_are_version_four_uuids() {
    let mut db = SharedStateTargetDatabase::new();
    let target = add_target(&mut db, Address::V6(1));
    let id = uuid::Uuid::from_u128(target.id);
    assert_eq!(id.get_version_num(), 4);
}

#[test]
fn list_targets_returns_every_registered_target_once() {
    let mut db = SharedStateTargetDatabase::new();
    assert!(list_targets(&db).is_empty());
    let a = Target { id: 1, address: Address::V4(1) };
    let b = Target { id: 2, address: Address::V6(2) };
    let c = Target { id: 3, address: Address::V4(3) };
    db.insert(a);
    db.insert(b);
    db.insert(c);
    db.delete(2);
    let mut listed = list_targets(&db);
    listed.sort_by_key(|target| target.id);
    assert_eq!(listed, vec![a, c]);
}

#[test]
fn get_target_of_an_unknown_id_is_not_found() {
    let mut db = SharedStateTargetDatabase::new();
    assert_eq!(get_target(&db, 1), Err(ApiStatus::NotFound));
    let target = Target { id: 1, address: Address::V4(9) };
    db.insert(target);
    assert_eq!(get_target(&db, 1), Ok(target));
    assert_eq!(get_target(&db, 2), Err(ApiStatus::NotFound));
}

#[test]
fn get_target_results_returns_the_history_oldest_first() {
    let mut db = SharedStateTargetDatabase::new();
    assert_eq!(get_target_results(&db, 1), Err(ApiStatus::NotFound));
    db.insert(Target { id: 1, address: Address::V4(9) });
    assert_eq!(get_target_results(&db, 1).unwrap().len(), 0);
    db.push_target_result(1, result(1));
    db.push_target_result(1, result(2));
    let history: Vec<TargetProbeResult> =
        get_target_results(&db, 1).unwrap().into_iter().collect();
    assert_eq!(history, vec![result(1), result(2)]);
}

#[test]
fn get_target_results_holds_at_most_three_hundred_entries() {
    let mut db = SharedStateTargetDatabase::new();
    db.insert(Target { id: 1, address: Address::V4(9) });
    for n in 0..450 {
        db.push_target_result(1, result(n));
    }
    let history = get_target_results(&db, 1).unwrap();
    assert_eq!(history.len(), 300);
    assert_eq!(history[0], result(150));
    assert_eq!(history[299], result(449));
}

#[test]
fn delete_target_is_accepted_whether_or_not_the_id_is_known() {
    let mut db = SharedStateTargetDatabase::new();
    let kept = Target { id: 1, address: Address::V4(9) };
    db.insert(kept);
    db.insert(Target { id: 2, address: Address::V4(9) });

    assert_eq!(delete_target(&mut db, 2), ApiStatus::Accepted);
    assert_eq!(get_target(&db, 2), Err(ApiStatus::NotFound));
    assert_eq!(delete_target(&mut db, 2), ApiStatus::Accepted);
    assert_eq!(delete_target(&mut db, 12345), ApiStatus::Accepted);
    assert_eq!(list_targets(&db), vec![kept]);
}

#[test]
fn test_rest() {
    let mut db = SharedStateTargetDatabase::new();
    let target = add_target(&mut db, Address::V4(0x0102_0304));
    assert_eq!(target.address, Address::V4(0x0102_0304));
    assert!(get_target(&db, target.id).is_ok());
    assert!(get_target_results(&db, target.id).is_ok());
    assert_eq!(delete_target(&mut db, target.id), ApiStatus::Accepted);
    assert_eq!(get_target(&db, target.id), Err(ApiStatus::NotFound));
}
