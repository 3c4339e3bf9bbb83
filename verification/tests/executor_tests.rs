use creep_core::executor::{run_creep_by_target, run_creep_harvest, run_creep_upgrade};
use creep_core::model::{Command, ControllerId, CreepTarget, ReturnCode, SourceId};

fn controller(raw: u128) -> ControllerId {
    ControllerId { raw }
}

fn source(raw: u128) -> SourceId {
    SourceId { raw }
}

#[test]
fn upgrade_with_empty_load_is_silently_invalid() {
    // Zero carried resource short-circuits before any command is issued.
    let (keep, cmds) = run_creep_upgrade(controller(1), 0, true, ReturnCode::Success);
    assert!(!keep);
    assert!(cmds.is_empty());
}

#[test]
fn upgrade_with_stale_reference_is_silently_invalid() {
    let (keep, cmds) = run_creep_upgrade(controller(1), 50, false, ReturnCode::Success);
    assert!(!keep);
    assert!(cmds.is_empty());
}

#[test]
fn upgrade_success_keeps_target() {
    let (keep, cmds) = run_creep_upgrade(controller(1), 50, true, ReturnCode::Success);
    assert!(keep);
    assert_eq!(cmds, vec![Command::UpgradeController(controller(1))]);
}

#[test]
fn upgrade_not_in_range_moves_and_keeps() {
    // Not-in-range keeps the same target and issues exactly one move command.
    let (keep, cmds) = run_creep_upgrade(controller(1), 50, true, ReturnCode::NotInRange);
    assert!(keep);
    assert_eq!(cmds, vec![
        Command::UpgradeController(controller(1)),
        Command::MoveToController(controller(1)),
    ]);
}

#[test]
fn upgrade_other_failure_drops_target() {
    let (keep, cmds) = run_creep_upgrade(controller(1), 50, true, ReturnCode::Failure);
    assert!(!keep);
    assert_eq!(cmds, vec![Command::UpgradeController(controller(1))]);
}

#[test]
fn harvest_with_full_store_is_silently_invalid() {
    // Zero free capacity short-circuits before any command is issued.
    let (keep, cmds) = run_creep_harvest(source(2), 0, true, ReturnCode::Success);
    assert!(!keep);
    assert!(cmds.is_empty());
}

#[test]
fn harvest_with_stale_reference_is_silently_invalid() {
    let (keep, cmds) = run_creep_harvest(source(2), 50, false, ReturnCode::Success);
    assert!(!keep);
    assert!(cmds.is_empty());
}

#[test]
fn harvest_success_keeps_target() {
    let (keep, cmds) = run_creep_harvest(source(2), 50, true, ReturnCode::Success);
    assert!(keep);
    assert_eq!(cmds, vec![Command::HarvestSource(source(2))]);
}

#[test]
fn harvest_not_in_range_moves_and_keeps() {
    let (keep, cmds) = run_creep_harvest(source(2), 50, true, ReturnCode::NotInRange);
    assert!(keep);
    assert_eq!(cmds, vec![
        Command::HarvestSource(source(2)),
        Command::MoveToSource(source(2)),
    ]);
}

#[test]
fn harvest_other_failure_drops_target() {
    let (keep, cmds) = run_creep_harvest(source(2), 50, true, ReturnCode::Failure);
    assert!(!keep);
    assert_eq!(cmds, vec![Command::HarvestSource(source(2))]);
}

#[test]
fn executor_is_idempotent_within_a_tick() {
    // Same inputs and same world answers: both invocations agree.
    let t = CreepTarget::Harvest(source(2));
    let first = run_creep_by_target(t, 10, 40, true, ReturnCode::NotInRange);
    let second = run_creep_by_target(t, 10, 40, true, ReturnCode::NotInRange);
    assert_eq!(first, second);
}

#[test]
fn dispatch_matches_variant() {
    let up = run_creep_by_target(CreepTarget::Upgrade(controller(9)), 5, 0, true, ReturnCode::Success);
    assert!(up.0);
    assert_eq!(up.1, vec![Command::UpgradeController(controller(9))]);
    let hv = run_creep_by_target(CreepTarget::Harvest(source(9)), 0, 5, true, ReturnCode::Success);
    assert!(hv.0);
    assert_eq!(hv.1, vec![Command::HarvestSource(source(9))]);
}
