//! Trusted boundary to the simulation's fixed data tables.

use vstd::prelude::*;

use crate::model::Part;
use crate::spawning::part_cost_spec;

verus! {

/// Relies on screeps::Part::cost, the game's fixed body-part price table:
/// a movement part costs 50 energy, a carry part 50, a work part 100.
#[verifier::external_body]
pub(crate) fn part_cost(p: Part) -> (c: u32)
    ensures
        c == part_cost_spec(p),
{
    match p {
        Part::Move => screeps::Part::Move.cost(),
        Part::Carry => screeps::Part::Carry.cost(),
        Part::Work => screeps::Part::Work.cost(),
    }
}

} // verus!
