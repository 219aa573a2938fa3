use ping_monitor_rs::monitor::manager::{RESULT_BACKLOG, TICK_INTERVAL_MILLIS};
use ping_monitor_rs::monitor::{Directive, MonitorManager, Resync, Wakeup};
use ping_monitor_rs::persistence::{
    Address, ProbeStatus, SharedStateTargetDatabase, Target, TargetProbeResult, Update,
};

fn target(id: u128) -> Target {
    Target { id, address: Address::V4(0x0a00_0000 + id as u32) }
}

fn result(n: i64) -> TargetProbeResult {
    TargetProbeResult { probe_time: n, took: 1, result: ProbeStatus::Success { rtt: n } }
}

#[test]
fn manager_constants_have_their_documented_values() {
    assert_eq!(TICK_INTERVAL_MILLIS, 10);
    assert_eq!(RESULT_BACKLOG, 15);
}

#[test]
fn a_new_manager_runs_no_worker() {
    let manager: MonitorManager<&str> = MonitorManager::new();
    assert_eq!(manager.len(), 0);
    assert!(!manager.is_running(1));
    assert!(manager.running_ids().is_empty());
}

#[test]
fn an_updated_event_asks_for_one_worker() {
    let mut manager: MonitorManager<&str> = MonitorManager::new();
    let directive = manager.handle_database_event(Update::Updated(target(1)));
    assert_eq!(directive, Directive::Spawn(target(1)));
    assert!(!manager.is_running(1));
    assert_eq!(manager.start_monitor(1, "first"), None);
    assert!(manager.is_running(1));
    assert_eq!(manager.len(), 1);
    assert_eq!(manager.running_ids(), vec![1]);
}

#[test]
fn a_second_updated_event_for_a_running_target_replaces_its_worker() {
    let mut manager: MonitorManager<&str> = MonitorManager::new();
    assert_eq!(manager.start_monitor(1, "first"), None);
    assert_eq!(manager.start_monitor(2, "other"), None);

    let directive = manager.handle_database_event(Update::Updated(target(1)));
    assert_eq!(directive, Directive::Replace("first", target(1)));
    assert!(!manager.is_running(1));
    assert_eq!(manager.start_monitor(1, "second"), None);

    assert_eq!(manager.len(), 2);
    assert_eq!(manager.stop_monitor(1), Some("second"));
    assert_eq!(manager.stop_monitor(2), Some("other"));
    assert_eq!(manager.len(), 0);
}

#[test]
fn registering_twice_hands_the_first_handle_back() {
    let mut manager: MonitorManager<String> = MonitorManager::new();
    assert_eq!(manager.start_monitor(9, String::from("a")), None);
    assert_eq!(manager.start_monitor(9, String::from("b")), Some(String::from("a")));
    assert_eq!(manager.len(), 1);
    assert_eq!(manager.stop_monitor(9), Some(String::from("b")));
    assert_eq!(manager.stop_monitor(9), None);
}

#[test]
fn a_deleted_event_hands_the_worker_out_and_forgets_it() {
    let mut manager: MonitorManager<u32> = MonitorManager::new();
    assert_eq!(manager.start_monitor(1, 100), None);
    assert_eq!(manager.start_monitor(2, 200), None);

    assert_eq!(manager.handle_database_event(Update::Deleted(1)), Directive::Shutdown(100));
    assert!(!manager.is_running(1));
    assert!(manager.is_running(2));
    assert_eq!(manager.len(), 1);
}

#[test]
fn a_deleted_event_for_an_unknown_id_is_a_no_op() {
    let mut manager: MonitorManager<u32> = MonitorManager::new();
    assert_eq!(manager.start_monitor(2, 200), None);
    assert_eq!(manager.handle_database_event(Update::Deleted(1)), Directive::Continue);
    assert_eq!(manager.handle_database_event(Update::Deleted(1)), Directive::Continue);
    assert_eq!(manager.running_ids(), vec![2]);
}

#[test]
fn stop_monitor_without_a_worker_does_nothing() {
    let mut manager: MonitorManager<u32> = MonitorManager::new();
    assert_eq!(manager.stop_monitor(5), None);
    assert_eq!(manager.len(), 0);
}

#[test]
fn process_step_maps_each_wakeup_to_its_directive() {
    let mut manager: MonitorManager<u32> = MonitorManager::new();
    assert_eq!(manager.process_step(Wakeup::Tick), Directive::Poll);
    assert_eq!(manager.process_step(Wakeup::Control), Directive::Exit);
    assert_eq!(manager.process_step(Wakeup::SourcesClosed), Directive::Exit);
    assert_eq!(manager.process_step(Wakeup::EventsMissed), Directive::Resync);
    assert_eq!(
        manager.process_step(Wakeup::Result(4, result(7))),
        Directive::Record(4, result(7))
    );
    assert_eq!(
        manager.process_step(Wakeup::Event(Update::Updated(target(4)))),
        Directive::Spawn(target(4))
    );
    assert_eq!(manager.start_monitor(4, 44), None);
    assert_eq!(
        manager.process_step(Wakeup::Event(Update::Updated(target(4)))),
        Directive::Replace(44, target(4))
    );
    assert_eq!(manager.start_monitor(4, 45), None);
    assert_eq!(
        manager.process_step(Wakeup::Event(Update::Deleted(4))),
        Directive::Shutdown(45)
    );
    assert_eq!(manager.process_step(Wakeup::Event(Update::Deleted(4))), Directive::Continue);
    assert_eq!(manager.len(), 0);
}

#[test]
fn only_events_change_the_set_of_workers() {
    let mut manager: MonitorManager<u32> = MonitorManager::new();
    assert_eq!(manager.start_monitor(1, 10), None);
    manager.process_step(Wakeup::Tick);
    manager.process_step(Wakeup::Control);
    manager.process_step(Wakeup::EventsMissed);
    manager.process_step(Wakeup::SourcesClosed);
    manager.process_step(Wakeup::Result(1, result(1)));
    assert_eq!(manager.running_ids(), vec![1]);
    assert_eq!(manager.stop_monitor(1), Some(10));
}

#[test]
fn handle_result_event_stores_the_result() {
    let manager: MonitorManager<u32> = MonitorManager::new();
    let mut db = SharedStateTargetDatabase::new();
    db.insert(target(1));
    manager.handle_result_event(&mut db, 1, result(5));
    manager.handle_result_event(&mut db, 2, result(6));
    let entry = db.get(&1).unwrap();
    assert_eq!(entry.probe_results.len(), 1);
    assert_eq!(entry.probe_results[0], result(5));
    assert!(db.get(&2).is_none());
}

#[test]
fn no_result_is_stored_once_the_target_is_deleted() {
    let mut manager: MonitorManager<u32> = MonitorManager::new();
    let mut db = SharedStateTargetDatabase::new();
    let mut events = db.subscribe();

    db.insert(target(1));
    let event = events.try_recv().unwrap();
    assert_eq!(manager.process_step(Wakeup::Event(event)), Directive::Spawn(target(1)));
    assert_eq!(manager.start_monitor(1, 10), None);
    manager.handle_result_event(&mut db, 1, result(1));

    db.delete(1);
    let event = events.try_recv().unwrap();
    assert_eq!(manager.process_step(Wakeup::Event(event)), Directive::Shutdown(10));
    assert!(!manager.is_running(1));

    manager.handle_result_event(&mut db, 1, result(2));
    assert!(db.get(&1).is_none());
    assert!(db.list_keys().is_empty());
}

#[test]
fn resynchronize_stops_stale_workers_and_asks_for_missing_ones() {
    let mut manager: MonitorManager<u32> = MonitorManager::new();
    let mut db = SharedStateTargetDatabase::new();
    db.insert(target(1));
    db.insert(target(2));
    db.insert(target(3));
    assert_eq!(manager.start_monitor(2, 20), None);
    assert_eq!(manager.start_monitor(7, 70), None);
    assert_eq!(manager.start_monitor(8, 80), None);

    let Resync { mut stale, mut missing } = manager.resynchronize(&db);

    stale.sort();
    missing.sort_by_key(|target| target.id);
    assert_eq!(stale, vec![70, 80]);
    assert_eq!(missing, vec![target(1), target(3)]);
    assert_eq!(manager.running_ids(), vec![2]);
    assert_eq!(manager.stop_monitor(2), Some(20));
}

#[test]
fn resynchronize_in_step_with_the_registry_changes_nothing() {
    let mut manager: MonitorManager<u32> = MonitorManager::new();
    let mut db = SharedStateTargetDatabase::new();
    let plan = manager.resynchronize(&db);
    assert_eq!(plan, Resync { stale: vec![], missing: vec![] });

    db.insert(target(1));
    assert_eq!(manager.start_monitor(1, 10), None);
    let plan = manager.resynchronize(&db);
    assert_eq!(plan, Resync { stale: vec![], missing: vec![] });
    assert_eq!(manager.running_ids(), vec![1]);
}

#[test]
fn resynchronize_after_lost_events_brings_the_workers_in_line() {
    let mut manager: MonitorManager<u128> = MonitorManager::new();
    let mut db = SharedStateTargetDatabase::new();
    let mut events = db.subscribe();
    for id in 0..30u128 {
        db.insert(target(id));
    }
    for id in 0..10u128 {
        db.delete(id);
    }
    assert!(events.try_recv().is_err());
    assert_eq!(manager.process_step(Wakeup::EventsMissed), Directive::Resync);

    let plan = manager.resynchronize(&db);
    assert!(plan.stale.is_empty());
    let mut ids: Vec<u128> = plan.missing.iter().map(|target| target.id).collect();
    ids.sort();
    assert_eq!(ids, (10..30u128).collect::<Vec<u128>>());
    for target in plan.missing {
        assert_eq!(manager.start_monitor(target.id, target.id), None);
    }
    let mut running = manager.running_ids();
    running.sort();
    let mut registered = db.list_keys();
    registered.sort();
    assert_eq!(running, registered);
}
