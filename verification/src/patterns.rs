//! The catalog of named seed shapes, and the clear-then-stamp application
//! rule.
//!
//! Every pattern is a fixed, literal list of `(x, y)` coordinates in
//! absolute grid coordinates.  Applying a pattern first clears the grid,
//! then sets every listed coordinate alive; coordinates outside the grid are
//! silently skipped, since a shape may be authored for a larger grid than
//! the one at hand.

use vstd::prelude::*;
use vstd::string::StringExecFns;

use crate::grid::{dead_grid, grid_wf, GridState};

verus! {

broadcast use vstd::string::group_string_axioms;

/// Selector for one of the named seed shapes in the catalog.
#[derive(Clone, Copy, Debug, PartialEq, Eq, Structural)]
pub enum PatternButton {
    Glider,
    Block,
    Pulsar,
    KaiYing,
    Shuttle,
    CShuttle,
}

/// The Block still life.
pub open spec fn block_coords() -> Seq<(usize, usize)> {
    seq![(10usize, 10usize), (11, 10), (10, 11), (11, 11)]
}

/// The Glider, seeded near the top-left corner.
pub open spec fn glider_coords() -> Seq<(usize, usize)> {
    seq![(2usize, 2usize), (3, 3), (1, 4), (2, 4), (3, 4)]
}

/// The Pulsar, a 48-coordinate symmetric oscillator.
pub open spec fn pulsar_coords() -> Seq<(usize, usize)> {
    seq![
        (18usize, 14usize),
        (18, 13),
        (18, 12),
        (19, 15),
        (20, 15),
        (21, 15),
        (23, 14),
        (23, 13),
        (23, 12),
        (21, 10),
        (20, 10),
        (19, 10),
        (19, 17),
        (20, 17),
        (21, 17),
        (18, 18),
        (18, 19),
        (18, 20),
        (23, 18),
        (23, 19),
        (23, 20),
        (19, 22),
        (20, 22),
        (21, 22),
        (16, 18),
        (16, 19),
        (16, 20),
        (15, 17),
        (14, 17),
        (13, 17),
        (13, 15),
        (14, 15),
        (15, 15),
        (16, 14),
        (16, 13),
        (16, 12),
        (15, 10),
        (14, 10),
        (13, 10),
        (11, 12),
        (11, 13),
        (11, 14),
        (11, 18),
        (11, 19),
        (11, 20),
        (13, 22),
        (14, 22),
        (15, 22),
    ]
}

/// The KaiYing custom shape, 18 coordinates.
pub open spec fn kaiying_coords() -> Seq<(usize, usize)> {
    seq![
        (18usize, 21usize),
        (19, 20),
        (20, 19),
        (20, 18),
        (20, 16),
        (20, 17),
        (18, 12),
        (19, 13),
        (20, 14),
        (20, 15),
        (17, 13),
        (16, 14),
        (16, 15),
        (16, 16),
        (16, 17),
        (16, 18),
        (16, 19),
        (17, 20),
    ]
}

/// The circular shuttle shape, 48 coordinates.
pub open spec fn cshuttle_coords() -> Seq<(usize, usize)> {
    seq![
        (18usize, 11usize),
        (18, 10),
        (19, 9),
        (19, 8),
        (19, 7),
        (18, 6),
        (18, 5),
        (20, 6),
        (21, 7),
        (22, 8),
        (21, 9),
        (20, 10),
        (23, 17),
        (24, 17),
        (25, 18),
        (26, 18),
        (27, 18),
        (28, 17),
        (29, 17),
        (28, 19),
        (27, 20),
        (26, 21),
        (25, 20),
        (24, 19),
        (17, 22),
        (17, 23),
        (16, 24),
        (16, 25),
        (16, 26),
        (17, 27),
        (17, 28),
        (15, 23),
        (14, 24),
        (13, 25),
        (14, 26),
        (15, 27),
        (12, 16),
        (11, 16),
        (10, 15),
        (9, 15),
        (8, 15),
        (7, 16),
        (6, 16),
        (7, 14),
        (8, 13),
        (9, 12),
        (10, 13),
        (11, 14),
    ]
}

/// The shuttle shape, 24 coordinates.
pub open spec fn shuttle_coords() -> Seq<(usize, usize)> {
    seq![
        (6usize, 15usize),
        (5, 15),
        (5, 16),
        (6, 16),
        (25, 15),
        (26, 15),
        (26, 16),
        (25, 16),
        (10, 15),
        (11, 15),
        (11, 14),
        (11, 16),
        (12, 13),
        (13, 12),
        (14, 13),
        (14, 14),
        (14, 15),
        (14, 16),
        (14, 17),
        (13, 14),
        (13, 15),
        (13, 16),
        (12, 17),
        (13, 18),
    ]
}

/// The coordinate list of one catalog entry.
pub open spec fn pattern_coords(p: PatternButton) -> Seq<(usize, usize)> {
    match p {
        PatternButton::Glider => glider_coords(),
        PatternButton::Block => block_coords(),
        PatternButton::Pulsar => pulsar_coords(),
        PatternButton::KaiYing => kaiying_coords(),
        PatternButton::Shuttle => shuttle_coords(),
        PatternButton::CShuttle => cshuttle_coords(),
    }
}

/// Block coordinates as a vector.
pub fn block_pattern() -> (v: Vec<(usize, usize)>)
    ensures
        v@ == block_coords(),
{
    let v: Vec<(usize, usize)> = vec![(10, 10), (11, 10), (10, 11), (11, 11)];
    assert(v@ =~= block_coords());
    v
}

/// Glider coordinates as a vector.
pub fn glider_pattern() -> (v: Vec<(usize, usize)>)
    ensures
        v@ == glider_coords(),
{
    let v: Vec<(usize, usize)> = vec![(2, 2), (3, 3), (1, 4), (2, 4), (3, 4)];
    assert(v@ =~= glider_coords());
    v
}

/// Pulsar coordinates as a vector.
pub fn pulsar_pattern() -> (v: Vec<(usize, usize)>)
    ensures
        v@ == pulsar_coords(),
{
    let v: Vec<(usize, usize)> = vec![
        (18, 14),
        (18, 13),
        (18, 12),
        (19, 15),
        (20, 15),
        (21, 15),
        (23, 14),
        (23, 13),
        (23, 12),
        (21, 10),
        (20, 10),
        (19, 10),
        (19, 17),
        (20, 17),
        (21, 17),
        (18, 18),
        (18, 19),
        (18, 20),
        (23, 18),
        (23, 19),
        (23, 20),
        (19, 22),
        (20, 22),
        (21, 22),
        (16, 18),
        (16, 19),
        (16, 20),
        (15, 17),
        (14, 17),
        (13, 17),
        (13, 15),
        (14, 15),
        (15, 15),
        (16, 14),
        (16, 13),
        (16, 12),
        (15, 10),
        (14, 10),
        (13, 10),
        (11, 12),
        (11, 13),
        (11, 14),
        (11, 18),
        (11, 19),
        (11, 20),
        (13, 22),
        (14, 22),
        (15, 22),
    ];
    assert(v@ =~= pulsar_coords());
    v
}

/// KaiYing coordinates as a vector.
pub fn kaiying_pattern() -> (v: Vec<(usize, usize)>)
    ensures
        v@ == kaiying_coords(),
{
    let v: Vec<(usize, usize)> = vec![
        (18, 21),
        (19, 20),
        (20, 19),
        (20, 18),
        (20, 16),
        (20, 17),
        (18, 12),
        (19, 13),
        (20, 14),
        (20, 15),
        (17, 13),
        (16, 14),
        (16, 15),
        (16, 16),
        (16, 17),
        (16, 18),
        (16, 19),
        (17, 20),
    ];
    assert(v@ =~= kaiying_coords());
    v
}

/// Circular shuttle coordinates as a vector.
pub fn cshuffle_pattern() -> (v: Vec<(usize, usize)>)
    ensures
        v@ == cshuttle_coords(),
{
    let v: Vec<(usize, usize)> = vec![
        (18, 11),
        (18, 10),
        (19, 9),
        (19, 8),
        (19, 7),
        (18, 6),
        (18, 5),
        (20, 6),
        (21, 7),
        (22, 8),
        (21, 9),
        (20, 10),
        (23, 17),
        (24, 17),
        (25, 18),
        (26, 18),
        (27, 18),
        (28, 17),
        (29, 17),
        (28, 19),
        (27, 20),
        (26, 21),
        (25, 20),
        (24, 19),
        (17, 22),
        (17, 23),
        (16, 24),
        (16, 25),
        (16, 26),
        (17, 27),
        (17, 28),
        (15, 23),
        (14, 24),
        (13, 25),
        (14, 26),
        (15, 27),
        (12, 16),
        (11, 16),
        (10, 15),
        (9, 15),
        (8, 15),
        (7, 16),
        (6, 16),
        (7, 14),
        (8, 13),
        (9, 12),
        (10, 13),
        (11, 14),
    ];
    assert(v@ =~= cshuttle_coords());
    v
}

/// Shuttle coordinates as a vector.
pub fn shuttle_pattern() -> (v: Vec<(usize, usize)>)
    ensures
        v@ == shuttle_coords(),
{
    let v: Vec<(usize, usize)> = vec![
        (6, 15),
        (5, 15),
        (5, 16),
        (6, 16),
        (25, 15),
        (26, 15),
        (26, 16),
        (25, 16),
        (10, 15),
        (11, 15),
        (11, 14),
        (11, 16),
        (12, 13),
        (13, 12),
        (14, 13),
        (14, 14),
        (14, 15),
        (14, 16),
        (14, 17),
        (13, 14),
        (13, 15),
        (13, 16),
        (12, 17),
        (13, 18),
    ];
    assert(v@ =~= shuttle_coords());
    v
}

/// The coordinate list of one catalog entry, as a vector.
pub fn pattern_coords_of(p: PatternButton) -> (v: Vec<(usize, usize)>)
    ensures
        v@ == pattern_coords(p),
{
    match p {
        PatternButton::Glider => glider_pattern(),
        PatternButton::Block => block_pattern(),
        PatternButton::Pulsar => pulsar_pattern(),
        PatternButton::KaiYing => kaiying_pattern(),
        PatternButton::Shuttle => shuttle_pattern(),
        PatternButton::CShuttle => cshuffle_pattern(),
    }
}

/// `base` with every in-range coordinate of `coords` set alive, applied in
/// list order.
pub open spec fn stamp_all(base: Seq<Seq<bool>>, n: int, coords: Seq<(usize, usize)>) -> Seq<
    Seq<bool>,
>
    decreases coords.len(),
{
    if coords.len() == 0 {
        base
    } else {
        let prev = stamp_all(base, n, coords.drop_last());
        let c = coords.last();
        if c.0 < n && c.1 < n {
            prev.update(c.1 as int, prev[c.1 as int].update(c.0 as int, true))
        } else {
            prev
        }
    }
}

/// Stamping keeps the grid square.
pub proof fn lemma_stamp_all_wf(base: Seq<Seq<bool>>, n: int, coords: Seq<(usize, usize)>)
    requires
        grid_wf(base, n),
    ensures
        grid_wf(stamp_all(base, n, coords), n),
    decreases coords.len(),
{
    if coords.len() > 0 {
        lemma_stamp_all_wf(base, n, coords.drop_last());
    }
}

/// A stamped cell is alive exactly when it was alive in the base grid or its
/// coordinate pair is listed.
pub proof fn lemma_stamp_all_cell(
    base: Seq<Seq<bool>>,
    n: int,
    coords: Seq<(usize, usize)>,
    x: int,
    y: int,
)
    requires
        grid_wf(base, n),
        0 <= x < n,
        0 <= y < n,
        x <= usize::MAX,
        y <= usize::MAX,
    ensures
        stamp_all(base, n, coords)[y][x] == (base[y][x] || coords.contains(
            ((x as usize), (y as usize)),
        )),
    decreases coords.len(),
{
    let t = ((x as usize), (y as usize));
    if coords.len() == 0 {
        assert(!coords.contains(t));
    } else {
        let rest = coords.drop_last();
        let c = coords.last();
        lemma_stamp_all_cell(base, n, rest, x, y);
        lemma_stamp_all_wf(base, n, rest);
        let prev = stamp_all(base, n, rest);
        let s = stamp_all(base, n, coords);
        assert(coords.contains(t) == (rest.contains(t) || c == t)) by {
            if rest.contains(t) {
                let i: int = choose|i: int| 0 <= i < rest.len() && rest[i] == t;
                assert(coords[i] == t);
            }
            if c == t {
                assert(coords[coords.len() - 1] == t);
            }
            if coords.contains(t) {
                let i: int = choose|i: int| 0 <= i < coords.len() && coords[i] == t;
                if i < coords.len() - 1 {
                    assert(rest[i] == t);
                }
            }
        }
        if c.0 < n && c.1 < n {
            assert(s == prev.update(c.1 as int, prev[c.1 as int].update(c.0 as int, true)));
            if c == t {
                assert(s[y][x]);
            } else {
                assert(c.1 as int != y || c.0 as int != x);
                assert(s[y][x] == prev[y][x]);
            }
        } else {
            assert(s == prev);
            assert(c != t);
        }
    }
}

/// Apply one catalog entry to the grid: clear everything, then stamp the
/// pattern's coordinates, skipping any that fall outside the grid.
///
/// Afterward exactly the listed in-range coordinates are alive, whatever the
/// grid held before; the whole grid is published in one step through the
/// gateway, so no reader can observe the clear without the stamp.
pub fn apply_pattern(p: PatternButton, grid: &mut GridState)
    requires
        old(grid).wf(),
    ensures
        final(grid).wf(),
        final(grid).size() == old(grid).size(),
        forall|x: int, y: int|
            0 <= x < old(grid).size() && 0 <= y < old(grid).size() ==> (final(grid)@[y][x]
                <==> pattern_coords(p).contains(((x as usize), (y as usize)))),
{
    let coords = pattern_coords_of(p);
    grid.clear();
    let n = grid.len();
    let ghost gn: int = grid.size();
    let mut i: usize = 0;
    while i < coords.len()
        invariant
            grid.wf(),
            grid.size() == gn,
            n == gn,
            coords@ == pattern_coords(p),
            i <= coords@.len(),
            grid@ == stamp_all(dead_grid(gn), gn, coords@.take(i as int)),
        decreases coords@.len() - i,
    {
        let c = coords[i];
        let ghost prefix = coords@.take(i as int);
        let ghost prefix1 = coords@.take(i as int + 1);
        proof {
            assert(prefix1.drop_last() =~= prefix);
            assert(prefix1.last() == coords@[i as int]);
        }
        if c.0 < n && c.1 < n {
            let _ = grid.set(c.0, c.1, true);
        }
        proof {
            assert(grid@ =~~= stamp_all(dead_grid(gn), gn, prefix1));
        }
        i += 1;
    }
    proof {
        assert(coords@.take(coords@.len() as int) =~= coords@);
        assert forall|x: int, y: int|
            0 <= x < gn && 0 <= y < gn implies (grid@[y][x] <==> pattern_coords(p).contains(
            ((x as usize), (y as usize)),
        )) by {
            lemma_stamp_all_cell(dead_grid(gn), gn, pattern_coords(p), x, y);
        }
    }
}

/// Which catalog entry, if any, the given name denotes.
pub open spec fn pattern_named(name: Seq<char>) -> Option<PatternButton> {
    if name == "Block"@ {
        Option::Some(PatternButton::Block)
    } else if name == "Glider"@ {
        Option::Some(PatternButton::Glider)
    } else if name == "Pulsar"@ {
        Option::Some(PatternButton::Pulsar)
    } else if name == "KaiYing"@ {
        Option::Some(PatternButton::KaiYing)
    } else if name == "Shuttle"@ {
        Option::Some(PatternButton::Shuttle)
    } else if name == "CShuttle"@ {
        Option::Some(PatternButton::CShuttle)
    } else {
        Option::None
    }
}

/// Content equality of two string slices.
fn str_eq(a: &str, b: &str) -> (r: bool)
    ensures
        r == (a@ == b@),
{
    let sa = String::from_str(a);
    let sb = String::from_str(b);
    sa == sb
}

/// Look a catalog entry up by name.
pub fn pattern_by_name(name: &str) -> (r: Option<PatternButton>)
    ensures
        r == pattern_named(name@),
{
    if str_eq(name, "Block") {
        Option::Some(PatternButton::Block)
    } else if str_eq(name, "Glider") {
        Option::Some(PatternButton::Glider)
    } else if str_eq(name, "Pulsar") {
        Option::Some(PatternButton::Pulsar)
    } else if str_eq(name, "KaiYing") {
        Option::Some(PatternButton::KaiYing)
    } else if str_eq(name, "Shuttle") {
        Option::Some(PatternButton::Shuttle)
    } else if str_eq(name, "CShuttle") {
        Option::Some(PatternButton::CShuttle)
    } else {
        Option::None
    }
}

/// Apply the pattern of the given name: clear, then stamp.  An unknown name
/// applies nothing and leaves the grid untouched.
pub fn apply(name: &str, grid: &mut GridState) -> (applied: bool)
    requires
        old(grid).wf(),
    ensures
        final(grid).wf(),
        final(grid).size() == old(grid).size(),
        applied == (pattern_named(name@) is Some),
        pattern_named(name@) matches Some(p) ==> forall|x: int, y: int|
            0 <= x < old(grid).size() && 0 <= y < old(grid).size() ==> (final(grid)@[y][x]
                <==> pattern_coords(p).contains(((x as usize), (y as usize)))),
        pattern_named(name@) is None ==> final(grid)@ == old(grid)@,
{
    match pattern_by_name(name) {
        Option::Some(p) => {
            apply_pattern(p, grid);
            true
        },
        Option::None => false,
    }
}

/// The names the catalog answers to, for menu population.
pub fn pattern_names() -> (names: Vec<&'static str>)
    ensures
        names@.len() == 6,
        pattern_named(names@[0]@) == Option::Some(PatternButton::Block),
        pattern_named(names@[1]@) == Option::Some(PatternButton::Glider),
        pattern_named(names@[2]@) == Option::Some(PatternButton::Pulsar),
        pattern_named(names@[3]@) == Option::Some(PatternButton::KaiYing),
        pattern_named(names@[4]@) == Option::Some(PatternButton::Shuttle),
        pattern_named(names@[5]@) == Option::Some(PatternButton::CShuttle),
{
    let names: Vec<&'static str> = vec![
        "Block",
        "Glider",
        "Pulsar",
        "KaiYing",
        "Shuttle",
        "CShuttle",
    ];
    proof {
        reveal_strlit("Block");
        reveal_strlit("Glider");
        reveal_strlit("Pulsar");
        reveal_strlit("KaiYing");
        reveal_strlit("Shuttle");
        reveal_strlit("CShuttle");
        assert("Block"@.len() == 5);
        assert("Glider"@.len() == 6);
        assert("Pulsar"@.len() == 6);
        assert("KaiYing"@.len() == 7);
        assert("Shuttle"@.len() == 7);
        assert("CShuttle"@.len() == 8);
        assert("Glider"@[0] == 'G');
        assert("Pulsar"@[0] == 'P');
        assert("KaiYing"@[0] == 'K');
        assert("Shuttle"@[0] == 'S');
    }
    names
}

/// Law: applying the Block pattern leaves exactly its four cells alive.  A
/// coordinate pair is in the Block list exactly when it is one of
/// `(10,10)`, `(11,10)`, `(10,11)`, `(11,11)`, so together with the contract
/// of `apply_pattern` the grid holds those four live cells and nothing else,
/// whatever it held before.
pub proof fn lemma_block_stamp_exact(x: int, y: int)
    requires
        0 <= x <= usize::MAX,
        0 <= y <= usize::MAX,
    ensures
        block_coords().contains(((x as usize), (y as usize))) <==> ((x == 10 && y == 10) || (x
            == 11 && y == 10) || (x == 10 && y == 11) || (x == 11 && y == 11)),
{
    let t = ((x as usize), (y as usize));
    if block_coords().contains(t) {
        let i: int = choose|i: int| 0 <= i < block_coords().len() && block_coords()[i] == t;
        assert(i == 0 || i == 1 || i == 2 || i == 3);
    }
    if x == 10 && y == 10 {
        assert(block_coords()[0] == t);
    }
    if x == 11 && y == 10 {
        assert(block_coords()[1] == t);
    }
    if x == 10 && y == 11 {
        assert(block_coords()[2] == t);
    }
    if x == 11 && y == 11 {
        assert(block_coords()[3] == t);
    }
}

} // verus!
