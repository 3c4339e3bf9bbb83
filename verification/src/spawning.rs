//! Production trigger: request a new unit from every facility whose room can
//! afford the fixed body plan, naming each request after the current tick and
//! a per-tick sequence counter.

use vstd::prelude::*;

use crate::external::part_cost;
use crate::model::{Command, Part, ReturnCode, UnitName};

verus! {

/// The game's price of one body part.
pub open spec fn part_cost_spec(p: Part) -> u32 {
    match p {
        Part::Move => 50,
        Part::Carry => 50,
        Part::Work => 100,
    }
}

/// The fixed body plan every produced unit is built from.
pub open spec fn body_plan() -> Seq<Part> {
    seq![Part::Move, Part::Move, Part::Carry, Part::Work]
}

/// Summed price of the first `i` parts of a body.
pub open spec fn cost_upto(parts: Seq<Part>, i: int) -> int
    decreases i
{
    if i <= 0 {
        0
    } else {
        cost_upto(parts, i - 1) + part_cost_spec(parts[i - 1])
    }
}

/// Summed price of a whole body.
pub open spec fn body_cost(parts: Seq<Part>) -> int {
    cost_upto(parts, parts.len() as int)
}

proof fn lemma_cost_upto_bound(parts: Seq<Part>, i: int)
    requires
        0 <= i,
    ensures
        0 <= cost_upto(parts, i) <= 100 * i,
    decreases i
{
    if i > 0 {
        lemma_cost_upto_bound(parts, i - 1);
    }
}

/// The fixed body plan as a value the host-facing shell can hand to the
/// simulation.
pub fn body_plan_parts() -> (r: Vec<Part>)
    ensures
        r@ == body_plan(),
{
    let mut v: Vec<Part> = Vec::new();
    v.push(Part::Move);
    v.push(Part::Move);
    v.push(Part::Carry);
    v.push(Part::Work);
    proof {
        assert(v@ =~= body_plan());
    }
    v
}

/// Price of a body, summed part by part over the game's price table.
pub fn body_cost_value(parts: &Vec<Part>) -> (c: u32)
    requires
        100 * parts@.len() <= 4294967295,
    ensures
        c == body_cost(parts@),
{
    let mut total: u32 = 0;
    let n = parts.len();
    for i in 0..n
        invariant
            n == parts@.len(),
            100 * n <= 4294967295,
            total == cost_upto(parts@, i as int),
            total <= 100 * i,
    {
        proof {
            lemma_cost_upto_bound(parts@, i as int);
        }
        let c = part_cost(parts[i]);
        total = total + c;
    }
    total
}

/// Everything the trigger reads about one live production facility: the
/// energy its room holds, and the status the simulation would answer a
/// creation request with (consulted only when a request is issued).
pub struct FacilityInput {
    pub energy: u32,
    pub code: ReturnCode,
}

/// Requests issued and counter reached after the first `i` facilities: a
/// facility whose energy covers the plan's cost gets a request named after
/// the tick and the counter, and only a successful request advances the
/// counter, so a rejected name is reused by the next request.
pub open spec fn spawn_upto(fs: Seq<FacilityInput>, time: u32, i: int) -> (Seq<Command>, int)
    decreases i
{
    if i <= 0 {
        (Seq::<Command>::empty(), 0)
    } else {
        let (cmds, counter) = spawn_upto(fs, time, i - 1);
        let f = fs[i - 1];
        if f.energy >= body_cost(body_plan()) {
            (
                cmds.push(Command::SpawnCreep(UnitName { time, seq: counter as u32 })),
                if f.code is Success {
                    counter + 1
                } else {
                    counter
                },
            )
        } else {
            (cmds, counter)
        }
    }
}

/// All creation requests a tick issues over the facility roster.
pub open spec fn spawn_commands(fs: Seq<FacilityInput>, time: u32) -> Seq<Command> {
    spawn_upto(fs, time, fs.len() as int).0
}

proof fn lemma_spawn_counter_bound(fs: Seq<FacilityInput>, time: u32, i: int)
    requires
        0 <= i,
    ensures
        0 <= spawn_upto(fs, time, i).1 <= i,
    decreases i
{
    if i > 0 {
        lemma_spawn_counter_bound(fs, time, i - 1);
    }
}

/// Law: while creation requests keep succeeding, the requests of one tick
/// are named with the tick count paired with 0, 1, 2, ... in order, and the
/// counter always equals the number of requests issued so far.
pub proof fn lemma_successful_names_in_order(fs: Seq<FacilityInput>, time: u32, i: int)
    requires
        0 <= i <= fs.len(),
        fs.len() < 4294967295,
        forall|j: int| 0 <= j < fs.len() ==> (#[trigger] fs[j]).code is Success,
    ensures
        spawn_upto(fs, time, i).1 == spawn_upto(fs, time, i).0.len(),
        forall|k: int| 0 <= k < spawn_upto(fs, time, i).0.len()
            ==> #[trigger] spawn_upto(fs, time, i).0[k]
                == Command::SpawnCreep(UnitName { time, seq: k as u32 }),
    decreases i
{
    if i > 0 {
        lemma_successful_names_in_order(fs, time, i - 1);
        lemma_spawn_counter_bound(fs, time, i - 1);
    }
}

/// Law: within one tick whose creation requests all succeed, no two requests
/// share a name: the second facility gets a distinct sequence suffix.
pub proof fn lemma_names_unique_within_tick(fs: Seq<FacilityInput>, time: u32, k1: int, k2: int)
    requires
        fs.len() < 4294967295,
        forall|j: int| 0 <= j < fs.len() ==> (#[trigger] fs[j]).code is Success,
        0 <= k1 < spawn_commands(fs, time).len(),
        0 <= k2 < spawn_commands(fs, time).len(),
        k1 != k2,
    ensures
        spawn_commands(fs, time)[k1] != spawn_commands(fs, time)[k2],
{
    lemma_successful_names_in_order(fs, time, fs.len() as int);
    lemma_spawn_counter_bound(fs, time, fs.len() as int);
}

/// Per-facility step of the production dialog with the host: the sequence
/// counter after one creation request is answered.  Only success advances
/// it, so a refused request's name is reused by the next request of the same
/// tick and retried on the next tick.
pub fn counter_after(counter: u32, code: ReturnCode) -> (c: u32)
    requires
        counter < 4294967295,
    ensures
        code is Success ==> c == counter + 1,
        !(code is Success) ==> c == counter,
{
    match code {
        ReturnCode::Success => counter + 1,
        _ => counter,
    }
}

/// Run the production trigger over the live facility roster.
///
/// `time` is the current tick count; each request's name joins it with the
/// per-tick sequence counter, so names stay unique within the tick as long
/// as requests succeed.
pub fn spawn_creeps(facilities: &Vec<FacilityInput>, time: u32) -> (cmds: Vec<Command>)
    requires
        facilities@.len() < 4294967295,
    ensures
        cmds@ == spawn_commands(facilities@, time),
{
    let mut cmds: Vec<Command> = Vec::new();
    let mut additional: u32 = 0;
    let body = body_plan_parts();
    let threshold = body_cost_value(&body);
    let n = facilities.len();
    for i in 0..n
        invariant
            n == facilities@.len(),
            n < 4294967295,
            body@ == body_plan(),
            threshold == body_cost(body_plan()),
            cmds@ == spawn_upto(facilities@, time, i as int).0,
            additional as int == spawn_upto(facilities@, time, i as int).1,
            additional <= i,
    {
        proof {
            lemma_spawn_counter_bound(facilities@, time, i + 1);
        }
        if facilities[i].energy >= threshold {
            cmds.push(Command::SpawnCreep(UnitName { time, seq: additional }));
            match facilities[i].code {
                ReturnCode::Success => {
                    additional = additional + 1;
                }
                _ => {}
            }
        }
    }
    cmds
}

} // verus!
