use life_core::clock::{RunState, SimulationClock, STEP_INTERVAL_MS};
use life_core::evolution::{next_generation, EdgePolicy};
use life_core::grid::GridState;
use life_core::patterns::PatternButton;
use life_core::sim::Simulation;

#[test]
fn clock_starts_stopped_and_toggles() {
    let mut c = SimulationClock::new(STEP_INTERVAL_MS);
    assert_eq!(c.state(), RunState::Stopped);
    assert!(!c.is_running());
    c.toggle_run();
    assert_eq!(c.state(), RunState::Running);
    assert!(c.is_running());
    c.toggle_run();
    assert_eq!(c.state(), RunState::Stopped);
}

#[test]
fn stopped_clock_ignores_ticks() {
    let mut c = SimulationClock::new(200);
    assert!(!c.tick(1_000_000));
    assert!(!c.tick(200));
    // Still nothing accumulated: starting now takes a full interval.
    c.toggle_run();
    assert!(!c.tick(199));
    assert!(c.tick(1));
}

#[test]
fn running_clock_accumulates_across_ticks() {
    let mut c = SimulationClock::new(200);
    c.toggle_run();
    assert!(!c.tick(50));
    assert!(!c.tick(50));
    assert!(!c.tick(99));
    assert!(c.tick(1));
    // The accumulator was reset by the step.
    assert!(!c.tick(199));
    assert!(c.tick(200));
}

#[test]
fn one_tick_fires_at_most_once() {
    // A delta worth three whole intervals fires a single step and the
    // surplus is discarded: the next step again needs a full interval.
    let mut c = SimulationClock::new(200);
    c.toggle_run();
    assert!(c.tick(600));
    assert!(!c.tick(199));
    assert!(c.tick(1));
}

#[test]
fn accumulator_survives_a_stop_resume_cycle() {
    let mut c = SimulationClock::new(200);
    c.toggle_run();
    assert!(!c.tick(150));
    c.toggle_run();
    // Ignored while stopped.
    assert!(!c.tick(10_000));
    c.toggle_run();
    // 150 ms were already banked.
    assert!(c.tick(50));
}

#[test]
fn sim_tick_advances_exactly_one_generation() {
    // A single long tick advances one generation, not three.
    let mut sim = Simulation::new(35, EdgePolicy::Bounded);
    sim.apply_pattern(PatternButton::Glider);
    let seed = sim.snapshot();
    sim.toggle_run();
    assert!(sim.tick(3 * STEP_INTERVAL_MS));
    let expected = next_generation(&seed, EdgePolicy::Bounded);
    assert_eq!(sim.snapshot(), expected);
    assert_ne!(sim.snapshot(), seed);
}

#[test]
fn sim_commands_route_to_the_grid() {
    let mut sim = Simulation::new(35, EdgePolicy::Bounded);
    assert_eq!(sim.grid_len(), 35);
    assert_eq!(sim.toggle_cell(4, 5), Ok(true));
    assert_eq!(sim.cell(4, 5), Ok(true));
    assert_eq!(sim.toggle_cell(4, 5), Ok(false));
    assert_eq!(sim.cell(4, 5), Ok(false));
    assert!(sim.toggle_cell(35, 0).is_err());
    sim.toggle_cell(1, 1).unwrap();
    sim.clear_grid();
    assert_eq!(sim.cell(1, 1), Ok(false));
}

#[test]
fn sim_ignores_ticks_while_stopped() {
    let mut sim = Simulation::new(35, EdgePolicy::Bounded);
    sim.apply_pattern(PatternButton::Block);
    let before = sim.snapshot();
    assert!(!sim.tick(10_000));
    assert_eq!(sim.snapshot(), before);
    assert_eq!(sim.state(), RunState::Stopped);
}

#[test]
fn sim_steps_repeatedly_while_running() {
    let mut sim = Simulation::new(5, EdgePolicy::Bounded);
    // A blinker oscillates with period 2: after two steps it is back.
    sim.toggle_cell(2, 1).unwrap();
    sim.toggle_cell(2, 2).unwrap();
    sim.toggle_cell(2, 3).unwrap();
    let seed = sim.snapshot();
    sim.toggle_run();
    assert!(sim.tick(STEP_INTERVAL_MS));
    assert_ne!(sim.snapshot(), seed);
    assert!(sim.tick(STEP_INTERVAL_MS));
    assert_eq!(sim.snapshot(), seed);
}

#[test]
fn toroidal_sim_uses_its_policy() {
    let mut a = Simulation::new(5, EdgePolicy::Bounded);
    let mut b = Simulation::new(5, EdgePolicy::Toroidal);
    for sim in [&mut a, &mut b] {
        sim.toggle_cell(1, 0).unwrap();
        sim.toggle_cell(2, 0).unwrap();
        sim.toggle_cell(3, 0).unwrap();
        sim.toggle_run();
        assert!(sim.tick(STEP_INTERVAL_MS));
    }
    assert_ne!(a.snapshot(), b.snapshot());
    assert_eq!(b.cell(2, 4), Ok(true));
    assert_eq!(a.cell(2, 4), Ok(false));
}

#[test]
fn grid_state_and_sim_agree_on_defaults() {
    let s = GridState::new(35);
    let sim = Simulation::new(35, EdgePolicy::Bounded);
    assert_eq!(s.snapshot(), sim.snapshot());
}
