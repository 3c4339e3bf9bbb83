//! Decision core of an autonomous worker controller for a tick-based
//! resource-gathering simulation.
//!
//! Each tick the driver reconciles a persistent per-unit store against the
//! live roster, lets every unit attempt one unit of work against its current
//! target, and re-derives a target through the selection policy whenever a
//! target is exhausted.  A separate production trigger requests new units
//! from facilities whose room can afford the fixed body plan.
//!
//! Live simulation handles are only valid within the tick they were obtained,
//! so everything that crosses a tick boundary is expressed over stable plain
//! identifiers; the host-facing shell feeds each tick's observations in and
//! carries the decided commands out.

pub mod model;
pub mod selection;
pub mod executor;
pub mod store;
pub mod driver;
pub mod spawning;
mod external;
