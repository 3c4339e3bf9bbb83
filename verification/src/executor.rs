//! Task executor: given a unit's readings and the world's answers for the
//! current tick, decide whether the unit's target is still worth keeping and
//! which commands the tick issues for it.
//!
//! The executor never fails: every failure path degrades to "target invalid,
//! pick a new target at the next opportunity".

use vstd::prelude::*;

use crate::model::{Command, ControllerId, CreepTarget, ReturnCode, SourceId};

verus! {

/// A status code that lets the unit keep its target: the action either
/// succeeded or only needs the unit to move closer.
pub open spec fn code_keeps_target(code: ReturnCode) -> bool {
    code is Success || code is NotInRange
}

/// The resource precondition of attempting a target: upgrading needs a
/// nonzero load, harvesting needs free carrying capacity.
pub open spec fn target_precheck(target: CreepTarget, carried: u32, free: u32) -> bool {
    match target {
        CreepTarget::Upgrade(_) => carried > 0,
        CreepTarget::Harvest(_) => free > 0,
    }
}

/// The work action a target calls for.
pub open spec fn attempt_command(target: CreepTarget) -> Command {
    match target {
        CreepTarget::Upgrade(c) => Command::UpgradeController(c),
        CreepTarget::Harvest(s) => Command::HarvestSource(s),
    }
}

/// The movement command toward a target's object.
pub open spec fn move_command(target: CreepTarget) -> Command {
    match target {
        CreepTarget::Upgrade(c) => Command::MoveToController(c),
        CreepTarget::Harvest(s) => Command::MoveToSource(s),
    }
}

/// Whether the unit keeps its target this tick: the resource precheck held,
/// the stored identifier still resolved, and the attempted action came back
/// with a keeping status.
pub open spec fn target_keeps(
    target: CreepTarget,
    carried: u32,
    free: u32,
    resolved: bool,
    code: ReturnCode,
) -> bool {
    target_precheck(target, carried, free) && resolved && code_keeps_target(code)
}

/// The commands the executor issues for one unit in one tick: nothing when a
/// precheck or resolution fails, the attempted action always otherwise, and
/// one movement command after it exactly when the action was out of range.
pub open spec fn target_commands(
    target: CreepTarget,
    carried: u32,
    free: u32,
    resolved: bool,
    code: ReturnCode,
) -> Seq<Command> {
    if !target_precheck(target, carried, free) || !resolved {
        Seq::<Command>::empty()
    } else if code is NotInRange {
        seq![attempt_command(target), move_command(target)]
    } else {
        seq![attempt_command(target)]
    }
}

/// Attempt one unit of work on an upgrade target.
///
/// `carried` is the unit's energy load, `resolved` whether the controller
/// identifier still resolved this tick, and `code` the status the attempted
/// upgrade came back with (read only when an upgrade was attempted).
pub fn run_creep_upgrade(
    controller: ControllerId,
    carried: u32,
    resolved: bool,
    code: ReturnCode,
) -> (r: (bool, Vec<Command>))
    ensures
        r.0 == target_keeps(CreepTarget::Upgrade(controller), carried, 0, resolved, code),
        r.1@ == target_commands(CreepTarget::Upgrade(controller), carried, 0, resolved, code),
{
    let mut cmds: Vec<Command> = Vec::new();
    if carried == 0 {
        return (false, cmds);
    }
    if !resolved {
        return (false, cmds);
    }
    cmds.push(Command::UpgradeController(controller));
    match code {
        ReturnCode::Success => {
            assert(cmds@ =~= seq![attempt_command(CreepTarget::Upgrade(controller))]);
            (true, cmds)
        }
        ReturnCode::NotInRange => {
            cmds.push(Command::MoveToController(controller));
            assert(cmds@ =~= seq![
                attempt_command(CreepTarget::Upgrade(controller)),
                move_command(CreepTarget::Upgrade(controller)),
            ]);
            (true, cmds)
        }
        ReturnCode::Failure => {
            assert(cmds@ =~= seq![attempt_command(CreepTarget::Upgrade(controller))]);
            (false, cmds)
        }
    }
}

/// Attempt one unit of work on a harvest target.
///
/// `free` is the unit's free carrying capacity, `resolved` whether the source
/// identifier still resolved this tick, and `code` the status the attempted
/// harvest came back with (read only when a harvest was attempted).
pub fn run_creep_harvest(
    source: SourceId,
    free: u32,
    resolved: bool,
    code: ReturnCode,
) -> (r: (bool, Vec<Command>))
    ensures
        r.0 == target_keeps(CreepTarget::Harvest(source), 0, free, resolved, code),
        r.1@ == target_commands(CreepTarget::Harvest(source), 0, free, resolved, code),
{
    let mut cmds: Vec<Command> = Vec::new();
    if free == 0 {
        return (false, cmds);
    }
    if !resolved {
        return (false, cmds);
    }
    cmds.push(Command::HarvestSource(source));
    match code {
        ReturnCode::Success => {
            assert(cmds@ =~= seq![attempt_command(CreepTarget::Harvest(source))]);
            (true, cmds)
        }
        ReturnCode::NotInRange => {
            cmds.push(Command::MoveToSource(source));
            assert(cmds@ =~= seq![
                attempt_command(CreepTarget::Harvest(source)),
                move_command(CreepTarget::Harvest(source)),
            ]);
            (true, cmds)
        }
        ReturnCode::Failure => {
            assert(cmds@ =~= seq![attempt_command(CreepTarget::Harvest(source))]);
            (false, cmds)
        }
    }
}

/// Dispatch one unit of work over the target's variant and report whether the
/// target stays valid, together with the commands issued for the unit.
pub fn run_creep_by_target(
    target: CreepTarget,
    carried: u32,
    free: u32,
    resolved: bool,
    code: ReturnCode,
) -> (r: (bool, Vec<Command>))
    ensures
        r.0 == target_keeps(target, carried, free, resolved, code),
        r.1@ == target_commands(target, carried, free, resolved, code),
{
    match target {
        CreepTarget::Upgrade(c) => run_creep_upgrade(c, carried, resolved, code),
        CreepTarget::Harvest(s) => run_creep_harvest(s, free, resolved, code),
    }
}

/// First step of the per-unit dialog with the host: whether the unit's
/// resources allow attempting the target at all.  When this says no, nothing
/// is resolved and no command is issued.
pub fn should_attempt(target: CreepTarget, carried: u32, free: u32) -> (b: bool)
    ensures
        b == target_precheck(target, carried, free),
{
    match target {
        CreepTarget::Upgrade(_) => carried > 0,
        CreepTarget::Harvest(_) => free > 0,
    }
}

/// Second step of the dialog: whether the status an attempted action came
/// back with asks for a movement command toward the target.
pub fn code_wants_move(code: ReturnCode) -> (b: bool)
    ensures
        b == (code is NotInRange),
{
    match code {
        ReturnCode::NotInRange => true,
        _ => false,
    }
}

/// Law: the executor is idempotent within a tick.  Its verdict and commands
/// are functions of the unit's readings and the world's answers alone, so two
/// invocations with the same inputs and the same world state agree.
pub proof fn lemma_executor_idempotent(
    t1: CreepTarget, carried1: u32, free1: u32, resolved1: bool, code1: ReturnCode,
    t2: CreepTarget, carried2: u32, free2: u32, resolved2: bool, code2: ReturnCode,
)
    requires
        t1 == t2,
        carried1 == carried2,
        free1 == free2,
        resolved1 == resolved2,
        code1 == code2,
    ensures
        target_keeps(t1, carried1, free1, resolved1, code1)
            == target_keeps(t2, carried2, free2, resolved2, code2),
        target_commands(t1, carried1, free1, resolved1, code1)
            == target_commands(t2, carried2, free2, resolved2, code2),
{
}

/// Law: the executor's command budget.  A unit's tick issues at most one
/// work action and at most one movement command: the work attempt always
/// comes first, and a movement follows it exactly when the attempt came back
/// out of range.
pub proof fn lemma_command_budget(
    target: CreepTarget,
    carried: u32,
    free: u32,
    resolved: bool,
    code: ReturnCode,
)
    ensures
        target_commands(target, carried, free, resolved, code).len() <= 2,
        target_commands(target, carried, free, resolved, code).len() >= 1
            ==> target_commands(target, carried, free, resolved, code)[0]
                == attempt_command(target),
        target_commands(target, carried, free, resolved, code).len() == 2
            ==> code is NotInRange
                && target_commands(target, carried, free, resolved, code)[1]
                    == move_command(target),
{
}

/// Law: a unit working on an upgrade target while carrying no resource drops
/// the target without issuing any command at all.
pub proof fn lemma_upgrade_empty_load_silent(
    controller: ControllerId,
    free: u32,
    resolved: bool,
    code: ReturnCode,
)
    ensures
        !target_keeps(CreepTarget::Upgrade(controller), 0, free, resolved, code),
        target_commands(CreepTarget::Upgrade(controller), 0, free, resolved, code)
            == Seq::<Command>::empty(),
{
}

/// Law: a not-in-range answer on either variant keeps the very same target
/// and issues exactly the attempted action followed by one movement command —
/// no other command, and in particular exactly one move.
pub proof fn lemma_not_in_range_keeps_target(
    target: CreepTarget,
    carried: u32,
    free: u32,
)
    requires
        target_precheck(target, carried, free),
    ensures
        target_keeps(target, carried, free, true, ReturnCode::NotInRange),
        target_commands(target, carried, free, true, ReturnCode::NotInRange)
            == seq![attempt_command(target), move_command(target)],
{
}

} // verus!
