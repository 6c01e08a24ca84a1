use life_core::grid::GridState;
use life_core::patterns::{
    apply, apply_pattern, block_pattern, cshuffle_pattern, glider_pattern, kaiying_pattern,
    pattern_by_name, pattern_coords_of, pattern_names, pulsar_pattern, shuttle_pattern,
    PatternButton,
};

fn alive_coords(s: &GridState) -> Vec<(usize, usize)> {
    let n = s.len();
    let mut out = Vec::new();
    for y in 0..n {
        for x in 0..n {
            if s.get(x, y).unwrap() {
                out.push((x, y));
            }
        }
    }
    out.sort();
    out
}

#[test]
fn catalog_sizes_match() {
    assert_eq!(block_pattern().len(), 4);
    assert_eq!(glider_pattern().len(), 5);
    assert_eq!(pulsar_pattern().len(), 48);
    assert_eq!(kaiying_pattern().len(), 18);
    assert_eq!(shuttle_pattern().len(), 24);
    assert_eq!(cshuffle_pattern().len(), 48);
}

#[test]
fn catalog_spot_values() {
    assert_eq!(block_pattern(), vec![(10, 10), (11, 10), (10, 11), (11, 11)]);
    assert_eq!(glider_pattern(), vec![(2, 2), (3, 3), (1, 4), (2, 4), (3, 4)]);
    assert_eq!(pulsar_pattern()[0], (18, 14));
    assert_eq!(pulsar_pattern()[47], (15, 22));
    assert_eq!(kaiying_pattern()[0], (18, 21));
    assert_eq!(shuttle_pattern()[23], (13, 18));
    assert_eq!(cshuffle_pattern()[12], (23, 17));
}

#[test]
fn dispatch_matches_each_entry() {
    assert_eq!(pattern_coords_of(PatternButton::Block), block_pattern());
    assert_eq!(pattern_coords_of(PatternButton::Glider), glider_pattern());
    assert_eq!(pattern_coords_of(PatternButton::Pulsar), pulsar_pattern());
    assert_eq!(pattern_coords_of(PatternButton::KaiYing), kaiying_pattern());
    assert_eq!(pattern_coords_of(PatternButton::Shuttle), shuttle_pattern());
    assert_eq!(pattern_coords_of(PatternButton::CShuttle), cshuffle_pattern());
}

#[test]
fn apply_block_is_exclusive() {
    // Whatever lived before, afterwards exactly the four Block cells do.
    let mut s = GridState::new(35);
    s.set(0, 0, true).unwrap();
    s.set(10, 10, true).unwrap();
    s.set(34, 34, true).unwrap();
    s.set(20, 5, true).unwrap();
    assert!(apply("Block", &mut s));
    let mut expected = vec![(10, 10), (11, 10), (10, 11), (11, 11)];
    expected.sort();
    assert_eq!(alive_coords(&s), expected);
}

#[test]
fn apply_clears_a_previous_pattern() {
    let mut s = GridState::new(35);
    assert!(apply("Pulsar", &mut s));
    assert!(apply("Glider", &mut s));
    let mut expected = vec![(2, 2), (3, 3), (1, 4), (2, 4), (3, 4)];
    expected.sort();
    assert_eq!(alive_coords(&s), expected);
}

#[test]
fn apply_stamps_every_catalog_entry() {
    for (pattern, coords) in [
        (PatternButton::Block, block_pattern()),
        (PatternButton::Glider, glider_pattern()),
        (PatternButton::Pulsar, pulsar_pattern()),
        (PatternButton::KaiYing, kaiying_pattern()),
        (PatternButton::Shuttle, shuttle_pattern()),
        (PatternButton::CShuttle, cshuffle_pattern()),
    ] {
        let mut s = GridState::new(35);
        apply_pattern(pattern, &mut s);
        let mut expected = coords;
        expected.sort();
        expected.dedup();
        assert_eq!(alive_coords(&s), expected);
    }
}

#[test]
fn out_of_range_coordinates_are_skipped() {
    // On a 5x5 grid every Pulsar coordinate lies outside and is dropped;
    // the application itself still succeeds.
    let mut s = GridState::new(5);
    s.set(1, 1, true).unwrap();
    assert!(apply("Pulsar", &mut s));
    assert_eq!(alive_coords(&s).len(), 0);
}

#[test]
fn partially_clipped_pattern_keeps_in_range_cells() {
    // On a 12x12 grid only the Block cells with both coordinates < 12 fit:
    // all four do; on an 11x11 grid only (10, 10) does.
    let mut s = GridState::new(11);
    assert!(apply("Block", &mut s));
    assert_eq!(alive_coords(&s), vec![(10, 10)]);
}

#[test]
fn unknown_name_applies_nothing() {
    let mut s = GridState::new(35);
    s.set(3, 3, true).unwrap();
    assert!(!apply("Spaceship", &mut s));
    // The grid is untouched, not even cleared.
    assert_eq!(alive_coords(&s), vec![(3, 3)]);
}

#[test]
fn lookup_is_case_sensitive_and_total() {
    assert_eq!(pattern_by_name("Block"), Some(PatternButton::Block));
    assert_eq!(pattern_by_name("Glider"), Some(PatternButton::Glider));
    assert_eq!(pattern_by_name("Pulsar"), Some(PatternButton::Pulsar));
    assert_eq!(pattern_by_name("KaiYing"), Some(PatternButton::KaiYing));
    assert_eq!(pattern_by_name("Shuttle"), Some(PatternButton::Shuttle));
    assert_eq!(pattern_by_name("CShuttle"), Some(PatternButton::CShuttle));
    assert_eq!(pattern_by_name("block"), None);
    assert_eq!(pattern_by_name(""), None);
    assert_eq!(pattern_by_name("Blocks"), None);
}

#[test]
fn names_list_round_trips_through_lookup() {
    let names = pattern_names();
    assert_eq!(names.len(), 6);
    let expected = [
        PatternButton::Block,
        PatternButton::Glider,
        PatternButton::Pulsar,
        PatternButton::KaiYing,
        PatternButton::Shuttle,
        PatternButton::CShuttle,
    ];
    for (name, pattern) in names.iter().zip(expected.iter()) {
        assert_eq!(pattern_by_name(name), Some(*pattern));
    }
}
