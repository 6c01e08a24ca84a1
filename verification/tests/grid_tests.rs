use life_core::grid::{GridError, GridState};

#[test]
fn new_grid_is_all_dead() {
    let s = GridState::new(35);
    assert_eq!(s.len(), 35);
    for y in 0..35 {
        for x in 0..35 {
            assert_eq!(s.get(x, y), Ok(false));
        }
    }
}

#[test]
fn get_out_of_range_fails() {
    let s = GridState::new(35);
    assert_eq!(s.get(35, 0), Err(GridError::OutOfRange));
    assert_eq!(s.get(0, 35), Err(GridError::OutOfRange));
    assert_eq!(s.get(35, 35), Err(GridError::OutOfRange));
    assert_eq!(s.get(100, 2), Err(GridError::OutOfRange));
}

#[test]
fn set_out_of_range_fails() {
    let mut s = GridState::new(35);
    assert_eq!(s.set(0, 35, true), Err(GridError::OutOfRange));
    assert_eq!(s.set(35, 0, true), Err(GridError::OutOfRange));
    // The failed writes left the grid untouched.
    for y in 0..35 {
        for x in 0..35 {
            assert_eq!(s.get(x, y), Ok(false));
        }
    }
}

#[test]
fn out_of_range_contract_small_grid() {
    // The same contract holds for any side length, here N = 7.
    let mut s = GridState::new(7);
    assert_eq!(s.get(7, 0), Err(GridError::OutOfRange));
    assert_eq!(s.set(0, 7, true), Err(GridError::OutOfRange));
    assert_eq!(s.get(6, 6), Ok(false));
}

#[test]
fn set_then_get_round_trip() {
    let mut s = GridState::new(35);
    assert_eq!(s.set(3, 4, true), Ok(()));
    assert_eq!(s.get(3, 4), Ok(true));
    // The transposed coordinate is a different cell.
    assert_eq!(s.get(4, 3), Ok(false));
    assert_eq!(s.set(3, 4, false), Ok(()));
    assert_eq!(s.get(3, 4), Ok(false));
}

#[test]
fn set_is_idempotent() {
    let mut s = GridState::new(35);
    assert_eq!(s.set(5, 6, true), Ok(()));
    let once = s.snapshot();
    assert_eq!(s.set(5, 6, true), Ok(()));
    let twice = s.snapshot();
    assert_eq!(once, twice);
}

#[test]
fn clear_kills_everything() {
    let mut s = GridState::new(35);
    assert_eq!(s.set(0, 0, true), Ok(()));
    assert_eq!(s.set(34, 34, true), Ok(()));
    assert_eq!(s.set(17, 2, true), Ok(()));
    s.clear();
    for y in 0..35 {
        for x in 0..35 {
            assert_eq!(s.get(x, y), Ok(false));
        }
    }
}

#[test]
fn snapshot_is_an_independent_copy() {
    let mut s = GridState::new(35);
    assert_eq!(s.set(1, 2, true), Ok(()));
    let before = s.snapshot();
    assert_eq!(s.set(9, 9, true), Ok(()));
    let after = s.snapshot();
    // The earlier snapshot did not observe the later write.
    assert!(before.cell(1, 2));
    assert!(!before.cell(9, 9));
    assert!(after.cell(9, 9));
    assert_ne!(before, after);
}
