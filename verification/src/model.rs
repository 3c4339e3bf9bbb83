//! Plain data carried across tick boundaries and between the decision core
//! and the host-facing shell.

use vstd::prelude::*;

verus! {

/// Stable identifier of a controller structure, storable across ticks and
/// resolvable to a live handle only within the current tick.
#[derive(Clone, Copy, PartialEq, Eq, Structural, Debug)]
pub struct ControllerId {
    pub raw: u128,
}

/// Stable identifier of an energy source, storable across ticks.
#[derive(Clone, Copy, PartialEq, Eq, Structural, Debug)]
pub struct SourceId {
    pub raw: u128,
}

/// Identity of a worker unit: the tick it was requested on and the per-tick
/// sequence number that keeps names of the same tick apart.
#[derive(Clone, Copy, PartialEq, Eq, Structural, Debug)]
pub struct UnitName {
    pub time: u32,
    pub seq: u32,
}

/// A unit's lock on a specific objective.  Only the stable identifier inside
/// is retained between ticks; the variant of a descriptor never changes, the
/// whole descriptor is replaced instead.
#[derive(Clone, Copy, PartialEq, Eq, Structural, Debug)]
pub enum CreepTarget {
    Upgrade(ControllerId),
    Harvest(SourceId),
}

/// Per-unit persistent record: the unit either holds a target (Working) or
/// holds none (Idle).
#[derive(Clone, Copy, PartialEq, Eq, Debug)]
pub struct CreepState {
    pub target: Option<CreepTarget>,
}

/// Status of a command issued to the simulation, reduced to the three classes
/// the core distinguishes: success, out of range, and every other failure.
#[derive(Clone, Copy, PartialEq, Eq, Structural, Debug)]
pub enum ReturnCode {
    Success,
    NotInRange,
    Failure,
}

/// A command the core decides to issue; the host-facing shell performs it.
#[derive(Clone, Copy, PartialEq, Eq, Structural, Debug)]
pub enum Command {
    UpgradeController(ControllerId),
    HarvestSource(SourceId),
    MoveToController(ControllerId),
    MoveToSource(SourceId),
    SpawnCreep(UnitName),
}

/// One entry of a room's structure roster, as far as target selection reads
/// it: either a controller or some other kind of structure.
#[derive(Clone, Copy, PartialEq, Eq, Structural, Debug)]
pub enum Structure {
    Controller(ControllerId),
    Other,
}

/// A body part of the fixed production plan.
#[derive(Clone, Copy, PartialEq, Eq, Structural, Debug)]
pub enum Part {
    Move,
    Carry,
    Work,
}

} // verus!
