//! The driving facade: one owned value holding the grid state, the stepping
//! clock and the chosen edge policy, consuming the discrete commands and
//! time deltas that the embedding application hands in.

use vstd::prelude::*;

use crate::clock::{tick_fires, RunState, SimulationClock, STEP_INTERVAL_MS};
use crate::evolution::{next_generation, next_grid, EdgePolicy};
use crate::grid::{dead_grid, Grid, GridError, GridState};
use crate::patterns::{apply, apply_pattern, pattern_coords, pattern_named, PatternButton};

verus! {

/// A complete simulation: grid, clock, and edge policy.
///
/// External commands (toggle a cell, clear, toggle run, apply a pattern)
/// mutate the grid only through its gateway; each external time tick lets
/// the clock decide whether to compute one next generation from a snapshot
/// and publish it back.
pub struct Simulation {
    grid: GridState,
    clock: SimulationClock,
    policy: EdgePolicy,
}

impl Simulation {
    /// The grid contents.
    pub closed spec fn grid_view(&self) -> Seq<Seq<bool>> {
        self.grid@
    }

    /// The fixed side length.
    pub closed spec fn size(&self) -> int {
        self.grid.size()
    }

    /// The current run state.
    pub closed spec fn run_state(&self) -> RunState {
        self.clock.run_state()
    }

    /// Time accumulated toward the next step, in milliseconds.
    pub closed spec fn accumulated(&self) -> u64 {
        self.clock.accumulated()
    }

    /// The fixed step interval, in milliseconds.
    pub closed spec fn step_interval(&self) -> u64 {
        self.clock.step_interval()
    }

    /// The edge policy every step is computed under.
    pub closed spec fn edge_policy(&self) -> EdgePolicy {
        self.policy
    }

    /// Both components are well formed.
    pub closed spec fn wf(&self) -> bool {
        self.grid.wf() && self.clock.wf()
    }

    /// A fresh simulation: an all-dead grid of side `n`, stopped, nothing
    /// accumulated, stepping at the fixed cadence.
    pub fn new(n: usize, policy: EdgePolicy) -> (s: Simulation)
        ensures
            s.wf(),
            s.size() == n,
            s.grid_view() == dead_grid(n as int),
            s.run_state() == RunState::Stopped,
            s.accumulated() == 0,
            s.step_interval() == STEP_INTERVAL_MS,
            s.edge_policy() == policy,
    {
        Simulation {
            grid: GridState::new(n),
            clock: SimulationClock::new(STEP_INTERVAL_MS),
            policy,
        }
    }

    /// The side length as an executable value.
    pub fn grid_len(&self) -> (n: usize)
        ensures
            n == self.size(),
    {
        self.grid.len()
    }

    /// The run state, for UI reflection.
    pub fn state(&self) -> (s: RunState)
        ensures
            s == self.run_state(),
    {
        self.clock.state()
    }

    /// A read-only copy of the grid for rendering.
    pub fn snapshot(&self) -> (g: Grid)
        requires
            self.wf(),
        ensures
            g.wf(),
            g.n == self.size(),
            g@ == self.grid_view(),
    {
        self.grid.snapshot()
    }

    /// Life state of one cell, or `OutOfRange` off the grid.
    pub fn cell(&self, x: usize, y: usize) -> (r: Result<bool, GridError>)
        requires
            self.wf(),
        ensures
            x < self.size() && y < self.size() ==> r == Result::<bool, GridError>::Ok(
                self.grid_view()[y as int][x as int],
            ),
            !(x < self.size() && y < self.size()) ==> r == Result::<bool, GridError>::Err(
                GridError::OutOfRange,
            ),
    {
        self.grid.get(x, y)
    }

    /// Command: flip one cell, returning its new life state, or fail with
    /// `OutOfRange` off the grid and change nothing.
    pub fn toggle_cell(&mut self, x: usize, y: usize) -> (r: Result<bool, GridError>)
        requires
            old(self).wf(),
        ensures
            final(self).wf(),
            final(self).size() == old(self).size(),
            final(self).run_state() == old(self).run_state(),
            final(self).accumulated() == old(self).accumulated(),
            final(self).step_interval() == old(self).step_interval(),
            final(self).edge_policy() == old(self).edge_policy(),
            x < old(self).size() && y < old(self).size() ==> {
                &&& r == Result::<bool, GridError>::Ok(!old(self).grid_view()[y as int][x as int])
                &&& final(self).grid_view() == old(self).grid_view().update(
                    y as int,
                    old(self).grid_view()[y as int].update(
                        x as int,
                        !old(self).grid_view()[y as int][x as int],
                    ),
                )
            },
            !(x < old(self).size() && y < old(self).size()) ==> {
                &&& r == Result::<bool, GridError>::Err(GridError::OutOfRange)
                &&& final(self).grid_view() == old(self).grid_view()
            },
    {
        match self.grid.get(x, y) {
            Result::Ok(current) => {
                let flipped = !current;
                match self.grid.set(x, y, flipped) {
                    Result::Ok(()) => Result::Ok(flipped),
                    Result::Err(e) => Result::Err(e),
                }
            },
            Result::Err(e) => Result::Err(e),
        }
    }

    /// Command: set every cell to dead; the clock is untouched.
    pub fn clear_grid(&mut self)
        requires
            old(self).wf(),
        ensures
            final(self).wf(),
            final(self).size() == old(self).size(),
            final(self).grid_view() == dead_grid(old(self).size()),
            final(self).run_state() == old(self).run_state(),
            final(self).accumulated() == old(self).accumulated(),
            final(self).step_interval() == old(self).step_interval(),
            final(self).edge_policy() == old(self).edge_policy(),
    {
        self.grid.clear();
    }

    /// Command: flip between Stopped and Running; the grid is untouched.
    pub fn toggle_run(&mut self)
        requires
            old(self).wf(),
        ensures
            final(self).wf(),
            final(self).size() == old(self).size(),
            final(self).grid_view() == old(self).grid_view(),
            final(self).run_state() == (if old(self).run_state() == RunState::Running {
                RunState::Stopped
            } else {
                RunState::Running
            }),
            final(self).accumulated() == old(self).accumulated(),
            final(self).step_interval() == old(self).step_interval(),
            final(self).edge_policy() == old(self).edge_policy(),
    {
        self.clock.toggle_run();
    }

    /// Command: stamp one catalog entry over a cleared grid; the clock is
    /// untouched.
    pub fn apply_pattern(&mut self, p: PatternButton)
        requires
            old(self).wf(),
        ensures
            final(self).wf(),
            final(self).size() == old(self).size(),
            forall|x: int, y: int|
                0 <= x < old(self).size() && 0 <= y < old(self).size()
                    ==> (final(self).grid_view()[y][x] <==> pattern_coords(p).contains(
                    ((x as usize), (y as usize)),
                )),
            final(self).run_state() == old(self).run_state(),
            final(self).accumulated() == old(self).accumulated(),
            final(self).step_interval() == old(self).step_interval(),
            final(self).edge_policy() == old(self).edge_policy(),
    {
        apply_pattern(p, &mut self.grid);
    }

    /// Command: stamp the catalog entry of the given name, if there is one;
    /// an unknown name changes nothing.  The clock is untouched either way.
    pub fn apply_named(&mut self, name: &str) -> (applied: bool)
        requires
            old(self).wf(),
        ensures
            final(self).wf(),
            final(self).size() == old(self).size(),
            applied == (pattern_named(name@) is Some),
            pattern_named(name@) matches Some(p) ==> forall|x: int, y: int|
                0 <= x < old(self).size() && 0 <= y < old(self).size()
                    ==> (final(self).grid_view()[y][x] <==> pattern_coords(p).contains(
                    ((x as usize), (y as usize)),
                )),
            pattern_named(name@) is None ==> final(self).grid_view() == old(self).grid_view(),
            final(self).run_state() == old(self).run_state(),
            final(self).accumulated() == old(self).accumulated(),
            final(self).step_interval() == old(self).step_interval(),
            final(self).edge_policy() == old(self).edge_policy(),
    {
        apply(name, &mut self.grid)
    }

    /// Command: feed one external time delta.  At most one generation step
    /// is applied per tick; the result says whether one was.
    pub fn tick(&mut self, delta_ms: u64) -> (stepped: bool)
        requires
            old(self).wf(),
        ensures
            final(self).wf(),
            final(self).size() == old(self).size(),
            final(self).run_state() == old(self).run_state(),
            final(self).step_interval() == old(self).step_interval(),
            final(self).edge_policy() == old(self).edge_policy(),
            stepped == tick_fires(
                old(self).run_state(),
                old(self).accumulated() as int,
                old(self).step_interval() as int,
                delta_ms as int,
            ),
            stepped ==> {
                &&& final(self).grid_view() == next_grid(
                    old(self).grid_view(),
                    old(self).size(),
                    old(self).edge_policy(),
                )
                &&& final(self).accumulated() == 0
            },
            !stepped ==> final(self).grid_view() == old(self).grid_view(),
            old(self).run_state() == RunState::Stopped ==> final(self).accumulated() == old(
                self,
            ).accumulated(),
            old(self).run_state() == RunState::Running && !stepped ==> final(self).accumulated()
                == old(self).accumulated() + delta_ms,
    {
        let stepped = self.clock.tick(delta_ms);
        if stepped {
            let snap = self.grid.snapshot();
            let next = next_generation(&snap, self.policy);
            self.grid.replace_with(next);
        }
        stepped
    }
}

} // verus!
