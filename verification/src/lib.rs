//! Core of a fixed-size Conway's-Game-of-Life simulator.
//!
//! The library owns the grid state, the generation-step rule under two edge
//! policies, a catalog of named seed patterns, and the run/stop stepping
//! clock.  Presentation (windows, colors, input events) is left to the
//! embedding application, which drives this core with discrete commands and
//! time deltas.

use vstd::prelude::*;

pub mod clock;
pub mod evolution;
pub mod grid;
pub mod patterns;
pub mod sim;

verus! {

/// Default side length of the square life grid.
pub const GRID_SIZE: usize = 35;

} // verus!
