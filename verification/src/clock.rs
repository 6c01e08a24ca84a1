//! The run/stop stepping clock: a two-state machine that accumulates
//! elapsed time while running and fires at most one generation step per
//! tick.
//!
//! Time is carried in whole milliseconds, so a delta is non-negative by
//! type.  When the accumulator reaches or exceeds the fixed step interval,
//! the tick fires exactly once and the accumulator resets to zero: excess
//! time beyond the interval is discarded, never carried over, so a long
//! tick cannot trigger a catch-up burst of steps.  While stopped, ticks are
//! ignored and the accumulator is left untouched, so resuming continues
//! accumulating from wherever it was left.

use vstd::prelude::*;

verus! {

/// The fixed step cadence: one generation every 200 ms while running.
pub const STEP_INTERVAL_MS: u64 = 200;

/// Whether the simulation is advancing on ticks.
#[derive(Clone, Copy, Debug, PartialEq, Eq, Structural)]
pub enum RunState {
    Stopped,
    Running,
}

/// Whether a tick of `delta` fires a generation step: only while running,
/// and only when the accumulated time reaches the step interval.
pub open spec fn tick_fires(state: RunState, acc: int, interval: int, delta: int) -> bool {
    state == RunState::Running && acc + delta >= interval
}

/// The stepping clock.  It owns the run state and the elapsed-time
/// accumulator, bound to a fixed step interval chosen at construction.
pub struct SimulationClock {
    state: RunState,
    accumulator: u64,
    interval: u64,
}

impl SimulationClock {
    /// The current run state.
    pub closed spec fn run_state(&self) -> RunState {
        self.state
    }

    /// Elapsed time accumulated toward the next step, in milliseconds.
    pub closed spec fn accumulated(&self) -> u64 {
        self.accumulator
    }

    /// The fixed step interval, in milliseconds.
    pub closed spec fn step_interval(&self) -> u64 {
        self.interval
    }

    /// The interval is positive and the accumulator never reaches it
    /// between ticks (a fired step resets it).
    pub open spec fn wf(&self) -> bool {
        0 < self.step_interval() && self.accumulated() < self.step_interval()
    }

    /// A fresh clock: stopped, nothing accumulated.
    pub fn new(interval_ms: u64) -> (c: SimulationClock)
        requires
            0 < interval_ms,
        ensures
            c.wf(),
            c.run_state() == RunState::Stopped,
            c.accumulated() == 0,
            c.step_interval() == interval_ms,
    {
        SimulationClock { state: RunState::Stopped, accumulator: 0, interval: interval_ms }
    }

    /// The run state, for UI reflection.
    pub fn state(&self) -> (s: RunState)
        ensures
            s == self.run_state(),
    {
        self.state
    }

    /// Whether the clock is running.
    pub fn is_running(&self) -> (r: bool)
        ensures
            r == (self.run_state() == RunState::Running),
    {
        match self.state {
            RunState::Running => true,
            RunState::Stopped => false,
        }
    }

    /// Flip between Stopped and Running.  This is the only transition; the
    /// accumulator is not touched, so a stop/resume cycle continues
    /// accumulating from wherever it was left.
    pub fn toggle_run(&mut self)
        requires
            old(self).wf(),
        ensures
            final(self).wf(),
            final(self).run_state() == (if old(self).run_state() == RunState::Running {
                RunState::Stopped
            } else {
                RunState::Running
            }),
            final(self).accumulated() == old(self).accumulated(),
            final(self).step_interval() == old(self).step_interval(),
    {
        self.state = match self.state {
            RunState::Running => RunState::Stopped,
            RunState::Stopped => RunState::Running,
        };
    }

    /// Feed one external time delta to the clock; the result says whether
    /// exactly one generation step fires on this tick.
    ///
    /// While stopped the tick is ignored.  While running, the delta is added
    /// to the accumulator; when that reaches the interval, the tick fires
    /// and the accumulator resets to zero — any surplus is discarded, so
    /// however large the delta, a single tick fires at most once.
    pub fn tick(&mut self, delta_ms: u64) -> (stepped: bool)
        requires
            old(self).wf(),
        ensures
            final(self).wf(),
            final(self).run_state() == old(self).run_state(),
            final(self).step_interval() == old(self).step_interval(),
            stepped == tick_fires(
                old(self).run_state(),
                old(self).accumulated() as int,
                old(self).step_interval() as int,
                delta_ms as int,
            ),
            old(self).run_state() == RunState::Stopped ==> final(self).accumulated() == old(
                self,
            ).accumulated(),
            stepped ==> final(self).accumulated() == 0,
            old(self).run_state() == RunState::Running && !stepped ==> final(self).accumulated()
                == old(self).accumulated() + delta_ms,
    {
        match self.state {
            RunState::Stopped => false,
            RunState::Running => {
                let remaining = self.interval - self.accumulator;
                if delta_ms >= remaining {
                    self.accumulator = 0;
                    true
                } else {
                    self.accumulator = self.accumulator + delta_ms;
                    false
                }
            },
        }
    }
}

/// Law: no catch-up.  While running, a single tick whose delta is worth
/// three whole step intervals still satisfies the firing condition just
/// once — `tick` fires at most one step per call by construction, and the
/// two surplus intervals are discarded with the reset, not carried forward.
pub proof fn lemma_tick_no_catch_up(acc: u64, interval: u64, delta: u64)
    requires
        0 < interval,
        acc < interval,
        delta == 3 * (interval as int),
    ensures
        tick_fires(RunState::Running, acc as int, interval as int, delta as int),
{
}

} // verus!
