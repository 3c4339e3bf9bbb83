use creep_core::model::{Command, Part, ReturnCode, UnitName};
use creep_core::spawning::{body_cost_value, body_plan_parts, spawn_creeps, FacilityInput};

#[test]
fn body_plan_is_the_fixed_one() {
    let parts = body_plan_parts();
    assert_eq!(parts, vec![Part::Move, Part::Move, Part::Carry, Part::Work]);
}

#[test]
fn body_plan_cost_sums_the_price_table() {
    // 50 + 50 + 50 + 100, through the game's own price table.
    let parts = body_plan_parts();
    assert_eq!(body_cost_value(&parts), 250);
}

#[test]
fn single_part_costs() {
    assert_eq!(body_cost_value(&vec![Part::Move]), 50);
    assert_eq!(body_cost_value(&vec![Part::Carry]), 50);
    assert_eq!(body_cost_value(&vec![Part::Work]), 100);
    assert_eq!(body_cost_value(&Vec::new()), 0);
}

#[test]
fn exact_energy_spawns_one_unit_per_facility_with_distinct_names() {
    // Two facilities whose rooms hold exactly the plan's summed cost: each
    // issues one creation request, and the second gets a distinct sequence
    // suffix within the same tick.
    let facilities = vec![
        FacilityInput { energy: 250, code: ReturnCode::Success },
        FacilityInput { energy: 250, code: ReturnCode::Success },
    ];
    let cmds = spawn_creeps(&facilities, 42);
    assert_eq!(cmds, vec![
        Command::SpawnCreep(UnitName { time: 42, seq: 0 }),
        Command::SpawnCreep(UnitName { time: 42, seq: 1 }),
    ]);
}

#[test]
fn insufficient_energy_requests_nothing() {
    let facilities = vec![FacilityInput { energy: 249, code: ReturnCode::Success }];
    let cmds = spawn_creeps(&facilities, 42);
    assert!(cmds.is_empty());
}

#[test]
fn rejected_creation_does_not_advance_the_counter() {
    // The first request is refused, so the sequence counter stays put and
    // the next request in the same tick reuses the same name.
    let facilities = vec![
        FacilityInput { energy: 300, code: ReturnCode::Failure },
        FacilityInput { energy: 300, code: ReturnCode::Success },
    ];
    let cmds = spawn_creeps(&facilities, 7);
    assert_eq!(cmds, vec![
        Command::SpawnCreep(UnitName { time: 7, seq: 0 }),
        Command::SpawnCreep(UnitName { time: 7, seq: 0 }),
    ]);
}

#[test]
fn mixed_roster_skips_poor_facilities() {
    let facilities = vec![
        FacilityInput { energy: 100, code: ReturnCode::Success },
        FacilityInput { energy: 1000, code: ReturnCode::Success },
        FacilityInput { energy: 0, code: ReturnCode::Success },
        FacilityInput { energy: 250, code: ReturnCode::Success },
    ];
    let cmds = spawn_creeps(&facilities, 9);
    assert_eq!(cmds, vec![
        Command::SpawnCreep(UnitName { time: 9, seq: 0 }),
        Command::SpawnCreep(UnitName { time: 9, seq: 1 }),
    ]);
}
