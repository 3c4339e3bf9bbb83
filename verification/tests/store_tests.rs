use creep_core::model::{ControllerId, CreepState, CreepTarget, UnitName};
use creep_core::store::UnitStore;

fn name(time: u32, seq: u32) -> UnitName {
    UnitName { time, seq }
}

#[test]
fn new_store_is_empty() {
    let store = UnitStore::new();
    assert_eq!(store.len(), 0);
    assert_eq!(store.get(&name(1, 0)), None);
}

#[test]
fn insert_then_get() {
    let mut store = UnitStore::new();
    let st = CreepState { target: Some(CreepTarget::Upgrade(ControllerId { raw: 5 })) };
    store.insert(name(1, 0), st);
    assert_eq!(store.len(), 1);
    assert_eq!(store.get(&name(1, 0)), Some(st));
    assert_eq!(store.get(&name(1, 1)), None);
}

#[test]
fn insert_replaces_existing_record() {
    let mut store = UnitStore::new();
    store.insert(name(1, 0), CreepState { target: None });
    let st = CreepState { target: Some(CreepTarget::Upgrade(ControllerId { raw: 5 })) };
    store.insert(name(1, 0), st);
    assert_eq!(store.len(), 1);
    assert_eq!(store.get(&name(1, 0)), Some(st));
}

#[test]
fn records_are_kept_per_name() {
    let mut store = UnitStore::new();
    store.insert(name(1, 0), CreepState { target: None });
    store.insert(name(1, 1), CreepState { target: Some(CreepTarget::Upgrade(ControllerId { raw: 9 })) });
    store.insert(name(2, 0), CreepState { target: None });
    assert_eq!(store.len(), 3);
    assert_eq!(store.get(&name(1, 1)),
        Some(CreepState { target: Some(CreepTarget::Upgrade(ControllerId { raw: 9 })) }));
    assert_eq!(store.get(&name(1, 0)), Some(CreepState { target: None }));
}
