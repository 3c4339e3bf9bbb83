//! Tick driver: once per tick, reconcile the unit state store against the
//! live roster and run the two-state behavior machine of every unit that
//! already had a record.
//!
//! A unit is either Idle (no target) or Working (holds a target).  Working
//! units attempt their target through the task executor; when the target is
//! reported exhausted, a fresh selection runs in the same tick.  A unit seen
//! for the first time is recorded Idle and does nothing until its next tick.

use vstd::prelude::*;

use crate::executor::{run_creep_by_target, target_commands, target_keeps};
use crate::model::{Command, CreepState, ReturnCode, SourceId, Structure, UnitName};
use crate::selection::{find_target, find_target_spec};
use crate::store::UnitStore;

verus! {

/// Everything the driver reads about one live unit in one tick: the unit's
/// own readings, the world's answers for this tick, and the room rosters the
/// selection policy scans.
///
/// `resolved` says whether the identifier inside the unit's current target
/// (if any) still resolves this tick, and `code` the status its attempted
/// action came back with; the machine consults them only when it actually
/// resolves or acts.
pub struct UnitInput {
    pub name: UnitName,
    pub spawning: bool,
    pub carried: u32,
    pub free: u32,
    pub resolved: bool,
    pub code: ReturnCode,
    pub structures: Vec<Structure>,
    pub nearest_source: Option<SourceId>,
}

/// The record a unit gets the first tick it is observed: Idle, no target.
pub open spec fn fresh_state() -> CreepState {
    CreepState { target: None }
}

/// One step of the per-unit behavior machine: the state the unit's record
/// moves to and the commands the tick issues for it.
pub open spec fn run_creep_spec(u: UnitInput, st: CreepState) -> (CreepState, Seq<Command>) {
    if u.spawning {
        (st, Seq::<Command>::empty())
    } else {
        match st.target {
            Some(t) => {
                let cmds = target_commands(t, u.carried, u.free, u.resolved, u.code);
                if target_keeps(t, u.carried, u.free, u.resolved, u.code) {
                    (st, cmds)
                } else {
                    (CreepState {
                        target: find_target_spec(u.carried, u.structures@, u.nearest_source),
                    }, cmds)
                }
            }
            None => (CreepState {
                target: find_target_spec(u.carried, u.structures@, u.nearest_source),
            }, Seq::<Command>::empty()),
        }
    }
}

/// Run one unit that already holds a record.
///
/// A unit still in its production phase is left untouched.  A Working unit
/// keeps its target while the executor reports it valid and otherwise gets a
/// fresh selection in the same tick; an Idle unit goes straight to selection.
pub fn run_creep(u: &UnitInput, st: CreepState) -> (r: (CreepState, Vec<Command>))
    ensures
        r.0 == run_creep_spec(*u, st).0,
        r.1@ == run_creep_spec(*u, st).1,
{
    if u.spawning {
        return (st, Vec::new());
    }
    match st.target {
        Some(t) => {
            let (keep, cmds) = run_creep_by_target(t, u.carried, u.free, u.resolved, u.code);
            if keep {
                (st, cmds)
            } else {
                (CreepState {
                    target: find_target(u.carried, &u.structures, u.nearest_source),
                }, cmds)
            }
        }
        None => (CreepState {
            target: find_target(u.carried, &u.structures, u.nearest_source),
        }, Vec::new()),
    }
}

/// The record a unit ends the tick with, given the store as the tick began.
pub open spec fn tick_state_spec(prior: Map<UnitName, CreepState>, u: UnitInput) -> CreepState {
    if prior.contains_key(u.name) {
        run_creep_spec(u, prior[u.name]).0
    } else {
        fresh_state()
    }
}

/// The commands one unit contributes to the tick: none at all on the tick it
/// is first observed.
pub open spec fn unit_tick_commands(prior: Map<UnitName, CreepState>, u: UnitInput) -> Seq<Command> {
    if prior.contains_key(u.name) {
        run_creep_spec(u, prior[u.name]).1
    } else {
        Seq::<Command>::empty()
    }
}

/// Commands of the first `i` units of the roster, in roster order.
pub open spec fn tick_commands_upto(
    prior: Map<UnitName, CreepState>,
    units: Seq<UnitInput>,
    i: int,
) -> Seq<Command>
    decreases i
{
    if i <= 0 {
        Seq::<Command>::empty()
    } else {
        tick_commands_upto(prior, units, i - 1) + unit_tick_commands(prior, units[i - 1])
    }
}

/// All commands a tick issues for the whole roster.
pub open spec fn tick_commands(prior: Map<UnitName, CreepState>, units: Seq<UnitInput>) -> Seq<Command> {
    tick_commands_upto(prior, units, units.len() as int)
}

/// Live unit names are unique for their lifetime, so a roster never repeats
/// one.
pub open spec fn distinct_names(units: Seq<UnitInput>) -> bool {
    forall|i: int, j: int| 0 <= i < j < units.len()
        ==> (#[trigger] units[i]).name != (#[trigger] units[j]).name
}

/// The set of names on the live roster.
pub open spec fn live_names(units: Seq<UnitInput>) -> Set<UnitName> {
    Set::new(|n: UnitName| exists|i: int| 0 <= i < units.len() && (#[trigger] units[i]).name == n)
}

/// Drive one whole tick over the live roster.
///
/// The store is rebuilt from only the units currently present: each live unit
/// with a prior record runs the behavior machine and is reinserted, each
/// newly observed unit is recorded Idle without acting, and every record
/// whose unit left the roster is dropped.  Afterwards the store holds exactly
/// one entry per live unit.
pub fn run_creeps(store: &mut UnitStore, units: &Vec<UnitInput>) -> (cmds: Vec<Command>)
    requires
        old(store).wf(),
        distinct_names(units@),
    ensures
        final(store).wf(),
        final(store)@.dom() =~= live_names(units@),
        forall|i: int| 0 <= i < units@.len()
            ==> final(store)@[(#[trigger] units@[i]).name] == tick_state_spec(old(store)@, units@[i]),
        cmds@ == tick_commands(old(store)@, units@),
{
    let ghost prior = store@;
    let mut rebuilt = UnitStore::new();
    let mut cmds: Vec<Command> = Vec::new();
    let n = units.len();
    for i in 0..n
        invariant
            n == units@.len(),
            store.wf(),
            store@ == prior,
            distinct_names(units@),
            rebuilt.wf(),
            forall|j: int| 0 <= j < i
                ==> rebuilt@.contains_key((#[trigger] units@[j]).name)
                    && rebuilt@[units@[j].name] == tick_state_spec(prior, units@[j]),
            forall|m: UnitName| #[trigger] rebuilt@.contains_key(m)
                ==> exists|j: int| 0 <= j < i && (#[trigger] units@[j]).name == m,
            cmds@ == tick_commands_upto(prior, units@, i as int),
    {
        let u = &units[i];
        let (st, mut ucmds) = match store.get(&u.name) {
            Some(p) => run_creep(u, p),
            None => (CreepState { target: None }, Vec::new()),
        };
        assert(st == tick_state_spec(prior, units@[i as int]));
        assert(ucmds@ == unit_tick_commands(prior, units@[i as int]));
        rebuilt.insert(u.name, st);
        cmds.append(&mut ucmds);
        assert(cmds@ == tick_commands_upto(prior, units@, i + 1));
    }
    *store = rebuilt;
    proof {
        assert forall|m: UnitName| live_names(units@).contains(m)
            implies store@.contains_key(m) by {
            let j = choose|j: int| 0 <= j < units@.len() && (#[trigger] units@[j]).name == m;
            assert(store@.contains_key(units@[j].name));
        }
    }
    cmds
}

/// Law: a unit newly appearing on the roster is recorded Idle and performs no
/// action on the tick it is first observed.
pub proof fn lemma_new_unit_first_tick(prior: Map<UnitName, CreepState>, u: UnitInput)
    requires
        !prior.contains_key(u.name),
    ensures
        tick_state_spec(prior, u) == fresh_state(),
        unit_tick_commands(prior, u) == Seq::<Command>::empty(),
{
}

/// Law: from the tick after its first, an Idle unit that is not in its
/// production phase goes straight to target selection.
pub proof fn lemma_idle_unit_selects(u: UnitInput)
    requires
        !u.spawning,
    ensures
        run_creep_spec(u, fresh_state()).0.target
            == find_target_spec(u.carried, u.structures@, u.nearest_source),
        run_creep_spec(u, fresh_state()).1 == Seq::<Command>::empty(),
{
}

/// Law: a Working unit whose upgrade target finds it carrying nothing is
/// demoted (the tick ends with a freshly selected target or none) and the
/// tick issues no command for it.
pub proof fn lemma_working_upgrade_empty_load(u: UnitInput, st: CreepState)
    requires
        !u.spawning,
        u.carried == 0,
        st.target matches Some(t) && t is Upgrade,
    ensures
        run_creep_spec(u, st).1 == Seq::<Command>::empty(),
        run_creep_spec(u, st).0.target
            == find_target_spec(u.carried, u.structures@, u.nearest_source),
{
}

/// Law: a Working unit answered not-in-range keeps the very same target
/// descriptor and the tick issues exactly the attempted action followed by
/// one movement command.
pub proof fn lemma_working_not_in_range(u: UnitInput, st: CreepState)
    requires
        !u.spawning,
        u.resolved,
        u.code is NotInRange,
        st.target matches Some(t) && crate::executor::target_precheck(t, u.carried, u.free),
    ensures
        run_creep_spec(u, st).0 == st,
        run_creep_spec(u, st).1 == seq![
            crate::executor::attempt_command(st.target->0),
            crate::executor::move_command(st.target->0),
        ],
{
}

} // verus!
