use creep_core::model::{ControllerId, CreepTarget, SourceId, Structure};
use creep_core::selection::find_target;

fn controller(raw: u128) -> ControllerId {
    ControllerId { raw }
}

fn source(raw: u128) -> SourceId {
    SourceId { raw }
}

#[test]
fn empty_unit_targets_nearest_source() {
    // A unit carrying nothing never scans for a controller: it locks onto the
    // nearest reachable active source.
    let structures = vec![Structure::Other, Structure::Other];
    let picked = find_target(0, &structures, Some(source(7)));
    assert_eq!(picked, Some(CreepTarget::Harvest(source(7))));
}

#[test]
fn loaded_unit_picks_first_controller() {
    // A loaded unit takes the first controller in roster order, ignoring the
    // room's other structures and any source however near.
    let structures = vec![
        Structure::Other,
        Structure::Controller(controller(3)),
        Structure::Controller(controller(4)),
    ];
    let picked = find_target(100, &structures, Some(source(7)));
    assert_eq!(picked, Some(CreepTarget::Upgrade(controller(3))));
}

#[test]
fn loaded_unit_without_controller_falls_through_to_harvest() {
    // A loaded unit in a room with no controller falls through to harvesting
    // selection even though it already holds resources.
    let structures = vec![Structure::Other];
    let picked = find_target(100, &structures, Some(source(9)));
    assert_eq!(picked, Some(CreepTarget::Harvest(source(9))));
}

#[test]
fn no_target_when_both_branches_fail() {
    let structures: Vec<Structure> = Vec::new();
    let picked = find_target(0, &structures, None);
    assert_eq!(picked, None);
}

#[test]
fn empty_roster_loaded_unit_uses_source() {
    let structures: Vec<Structure> = Vec::new();
    let picked = find_target(50, &structures, Some(source(1)));
    assert_eq!(picked, Some(CreepTarget::Harvest(source(1))));
}

#[test]
fn zero_carried_ignores_controller() {
    // Even with a controller present, an empty unit goes harvesting.
    let structures = vec![Structure::Controller(controller(3))];
    let picked = find_target(0, &structures, Some(source(7)));
    assert_eq!(picked, Some(CreepTarget::Harvest(source(7))));
}

#[test]
fn loaded_unit_with_controller_and_no_source() {
    let structures = vec![Structure::Controller(controller(3))];
    let picked = find_target(10, &structures, None);
    assert_eq!(picked, Some(CreepTarget::Upgrade(controller(3))));
}
