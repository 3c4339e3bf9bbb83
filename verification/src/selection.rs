//! Target selection policy: choose a fresh objective for a unit that has
//! none, from the unit's resource load and its room's rosters.

use vstd::prelude::*;

use crate::model::{ControllerId, CreepTarget, SourceId, Structure};

verus! {

/// First controller in the roster at or after position `i`, in the roster's
/// native order; `None` when no controller follows.
pub open spec fn first_controller_from(s: Seq<Structure>, i: int) -> Option<ControllerId>
    decreases s.len() - i when 0 <= i <= s.len()
{
    if i >= s.len() {
        None
    } else if s[i] is Controller {
        Some(s[i]->0)
    } else {
        first_controller_from(s, i + 1)
    }
}

/// First controller of the whole roster, if any.
pub open spec fn first_controller(s: Seq<Structure>) -> Option<ControllerId> {
    first_controller_from(s, 0)
}

/// The harvesting fallback: lock onto the nearest reachable active source,
/// or stay idle when none is reachable.
pub open spec fn harvest_fallback(nearest_source: Option<SourceId>) -> Option<CreepTarget> {
    match nearest_source {
        Some(id) => Some(CreepTarget::Harvest(id)),
        None => None,
    }
}

/// What the selection policy returns: a loaded unit locks onto the first
/// controller of its room's roster; otherwise, and when no controller is
/// present, it falls through to the nearest reachable active source.
pub open spec fn find_target_spec(
    carried: u32,
    structures: Seq<Structure>,
    nearest_source: Option<SourceId>,
) -> Option<CreepTarget> {
    if carried > 0 {
        match first_controller(structures) {
            Some(c) => Some(CreepTarget::Upgrade(c)),
            None => harvest_fallback(nearest_source),
        }
    } else {
        harvest_fallback(nearest_source)
    }
}

/// Select a new target for a unit.
///
/// `carried` is the unit's energy load, `structures` its room's structure
/// roster in native order, and `nearest_source` the nearest reachable active
/// source as the host's pathfinder reports it from the unit's position.
pub fn find_target(
    carried: u32,
    structures: &Vec<Structure>,
    nearest_source: Option<SourceId>,
) -> (r: Option<CreepTarget>)
    ensures
        r == find_target_spec(carried, structures@, nearest_source),
{
    if carried > 0 {
        let n = structures.len();
        for i in 0..n
            invariant
                carried > 0,
                n == structures@.len(),
                first_controller(structures@) == first_controller_from(structures@, i as int),
        {
            match structures[i] {
                Structure::Controller(c) => {
                    assert(first_controller(structures@) == Some(c));
                    return Some(CreepTarget::Upgrade(c));
                }
                Structure::Other => {
                    assert(first_controller_from(structures@, i as int)
                        == first_controller_from(structures@, i + 1));
                }
            }
        }
        assert(first_controller(structures@) is None);
    }
    match nearest_source {
        Some(id) => Some(CreepTarget::Harvest(id)),
        None => None,
    }
}

} // verus!
