//! The generation step: Conway's standard rule over the 8-connected Moore
//! neighborhood, under a caller-selected edge policy.
//!
//! A live cell with 2 or 3 live neighbors survives; a dead cell with exactly
//! 3 live neighbors is born; every other cell is dead in the next
//! generation.  The step is a pure function of the input snapshot: it
//! allocates a fresh grid, so evaluation order across cells cannot affect
//! the result and the input is left unchanged.

use vstd::arithmetic::div_mod::{
    lemma_mod_add_multiples_vanish, lemma_mod_self_0, lemma_small_mod,
};
use vstd::prelude::*;

use crate::grid::{grid_wf, Grid};

verus! {

/// How neighbor coordinates that fall off the grid are treated.
#[derive(Clone, Copy, Debug, PartialEq, Eq, Structural)]
pub enum EdgePolicy {
    /// The boundary is a hard, dead border: out-of-range neighbors
    /// contribute zero to the count.
    Bounded,
    /// Opposite edges are identified: out-of-range neighbor coordinates
    /// wrap modulo the side length.
    Toroidal,
}

/// Cell `(x, y)` of `g` is in range and alive; anything off the grid counts
/// as dead.
pub open spec fn occupied(g: Seq<Seq<bool>>, n: int, x: int, y: int) -> bool {
    0 <= x < n && 0 <= y < n && g[y][x]
}

/// Whether the neighbor of `(x, y)` at offset `(dx, dy)` is alive, under the
/// given edge policy.
pub open spec fn neighbor_alive(
    g: Seq<Seq<bool>>,
    n: int,
    x: int,
    y: int,
    dx: int,
    dy: int,
    policy: EdgePolicy,
) -> bool {
    match policy {
        EdgePolicy::Bounded => occupied(g, n, x + dx, y + dy),
        EdgePolicy::Toroidal => g[(y + dy) % n][(x + dx) % n],
    }
}

pub open spec fn count_one(b: bool) -> int {
    if b {
        1
    } else {
        0
    }
}

/// Number of live cells among the 8 Moore neighbors of `(x, y)`.
pub open spec fn neighbor_count(
    g: Seq<Seq<bool>>,
    n: int,
    x: int,
    y: int,
    policy: EdgePolicy,
) -> int {
    count_one(neighbor_alive(g, n, x, y, -1, -1, policy)) + count_one(
        neighbor_alive(g, n, x, y, 0, -1, policy),
    ) + count_one(neighbor_alive(g, n, x, y, 1, -1, policy)) + count_one(
        neighbor_alive(g, n, x, y, -1, 0, policy),
    ) + count_one(neighbor_alive(g, n, x, y, 1, 0, policy)) + count_one(
        neighbor_alive(g, n, x, y, -1, 1, policy),
    ) + count_one(neighbor_alive(g, n, x, y, 0, 1, policy)) + count_one(
        neighbor_alive(g, n, x, y, 1, 1, policy),
    )
}

/// The standard birth/survival rule for one cell.
pub open spec fn next_cell(g: Seq<Seq<bool>>, n: int, x: int, y: int, policy: EdgePolicy) -> bool {
    let c = neighbor_count(g, n, x, y, policy);
    if g[y][x] {
        c == 2 || c == 3
    } else {
        c == 3
    }
}

/// The whole next generation, every cell computed from the same input
/// snapshot.
pub open spec fn next_grid(g: Seq<Seq<bool>>, n: int, policy: EdgePolicy) -> Seq<Seq<bool>> {
    Seq::new(n as nat, |y: int| Seq::new(n as nat, |x: int| next_cell(g, n, x, y, policy)))
}

/// One toroidal index step: `i + d` wrapped modulo `n`, for a unit offset.
fn wrap_step(i: usize, d: i8, n: usize) -> (r: usize)
    requires
        0 < n,
        i < n,
        -1 <= d <= 1,
    ensures
        r < n,
        r as int == (i as int + d as int) % (n as int),
{
    if d == -1 {
        if i == 0 {
            proof {
                lemma_mod_add_multiples_vanish(-1, n as int);
                lemma_small_mod((n - 1) as nat, n as nat);
            }
            n - 1
        } else {
            proof {
                lemma_small_mod((i - 1) as nat, n as nat);
            }
            i - 1
        }
    } else if d == 1 {
        if i + 1 == n {
            proof {
                lemma_mod_self_0(n as int);
            }
            0
        } else {
            proof {
                lemma_small_mod((i + 1) as nat, n as nat);
            }
            i + 1
        }
    } else {
        proof {
            lemma_small_mod(i as nat, n as nat);
        }
        i
    }
}

/// Whether the neighbor of `(x, y)` at unit offset `(dx, dy)` is alive.
fn neighbor_alive_at(g: &Grid, x: usize, y: usize, dx: i8, dy: i8, policy: EdgePolicy) -> (r: bool)
    requires
        g.wf(),
        x < g.n,
        y < g.n,
        -1 <= dx <= 1,
        -1 <= dy <= 1,
    ensures
        r == neighbor_alive(g@, g.n as int, x as int, y as int, dx as int, dy as int, policy),
{
    match policy {
        EdgePolicy::Bounded => {
            let off_grid = (dx == -1 && x == 0) || (dx == 1 && x + 1 == g.n) || (dy == -1 && y
                == 0) || (dy == 1 && y + 1 == g.n);
            if off_grid {
                false
            } else {
                let nx = if dx == -1 {
                    x - 1
                } else if dx == 1 {
                    x + 1
                } else {
                    x
                };
                let ny = if dy == -1 {
                    y - 1
                } else if dy == 1 {
                    y + 1
                } else {
                    y
                };
                g.cell(nx, ny)
            }
        },
        EdgePolicy::Toroidal => {
            let nx = wrap_step(x, dx, g.n);
            let ny = wrap_step(y, dy, g.n);
            g.cell(nx, ny)
        },
    }
}

/// Number of live Moore neighbors of `(x, y)`.
fn count_live_neighbors(g: &Grid, x: usize, y: usize, policy: EdgePolicy) -> (c: u8)
    requires
        g.wf(),
        x < g.n,
        y < g.n,
    ensures
        c as int == neighbor_count(g@, g.n as int, x as int, y as int, policy),
{
    let mut c: u8 = 0;
    if neighbor_alive_at(g, x, y, -1, -1, policy) {
        c += 1;
    }
    if neighbor_alive_at(g, x, y, 0, -1, policy) {
        c += 1;
    }
    if neighbor_alive_at(g, x, y, 1, -1, policy) {
        c += 1;
    }
    if neighbor_alive_at(g, x, y, -1, 0, policy) {
        c += 1;
    }
    if neighbor_alive_at(g, x, y, 1, 0, policy) {
        c += 1;
    }
    if neighbor_alive_at(g, x, y, -1, 1, policy) {
        c += 1;
    }
    if neighbor_alive_at(g, x, y, 0, 1, policy) {
        c += 1;
    }
    if neighbor_alive_at(g, x, y, 1, 1, policy) {
        c += 1;
    }
    c
}

/// Compute the next generation of `current` under the given edge policy.
///
/// The result is a fresh grid of the same dimensions; `current` is read
/// through a shared reference and is unchanged afterward.  The contract pins
/// every cell of the result to `next_grid`, a function of the input snapshot
/// and the policy alone, so two calls on the same arguments give the same
/// grid.
pub fn next_generation(current: &Grid, policy: EdgePolicy) -> (next: Grid)
    requires
        current.wf(),
    ensures
        next.wf(),
        next.n == current.n,
        next@ == next_grid(current@, current.n as int, policy),
{
    let n = current.n;
    let ghost target = next_grid(current@, n as int, policy);
    let mut rows: Vec<Vec<bool>> = Vec::new();
    let mut y: usize = 0;
    while y < n
        invariant
            current.wf(),
            n == current.n,
            target == next_grid(current@, n as int, policy),
            y <= n,
            rows@.len() == y,
            forall|yy: int| 0 <= yy < y ==> (#[trigger] rows@[yy])@ =~= target[yy],
        decreases n - y,
    {
        let mut row: Vec<bool> = Vec::new();
        let mut x: usize = 0;
        while x < n
            invariant
                current.wf(),
                n == current.n,
                target == next_grid(current@, n as int, policy),
                y < n,
                x <= n,
                row@.len() == x,
                forall|xx: int| 0 <= xx < x ==> #[trigger] row@[xx] == target[y as int][xx],
        decreases n - x,
        {
            let c = count_live_neighbors(current, x, y, policy);
            let alive = current.cell(x, y);
            let next_alive = if alive {
                c == 2 || c == 3
            } else {
                c == 3
            };
            assert(next_alive == next_cell(current@, n as int, x as int, y as int, policy));
            row.push(next_alive);
            x += 1;
        }
        assert(row@ =~= target[y as int]);
        rows.push(row);
        y += 1;
    }
    let g = Grid { n, rows };
    assert(g@ =~~= target);
    g
}

/// Next generation with the boundary treated as a hard, dead border.
pub fn next_generation_bounded(current: &Grid) -> (next: Grid)
    requires
        current.wf(),
    ensures
        next.wf(),
        next.n == current.n,
        next@ == next_grid(current@, current.n as int, EdgePolicy::Bounded),
{
    next_generation(current, EdgePolicy::Bounded)
}

/// Next generation with the grid edges identified, forming a torus.
pub fn next_generation_torus(current: &Grid) -> (next: Grid)
    requires
        current.wf(),
    ensures
        next.wf(),
        next.n == current.n,
        next@ == next_grid(current@, current.n as int, EdgePolicy::Toroidal),
{
    next_generation(current, EdgePolicy::Toroidal)
}

/// Law: the step is deterministic.  Any two results obtained from the same
/// snapshot under the same policy — which, by the contract of
/// `next_generation`, both equal `next_grid` of that snapshot — are the same
/// grid.  The snapshot itself is taken by shared reference, so it is
/// unchanged by the call.
pub proof fn lemma_next_generation_deterministic(
    g: Seq<Seq<bool>>,
    n: int,
    policy: EdgePolicy,
    r1: Seq<Seq<bool>>,
    r2: Seq<Seq<bool>>,
)
    requires
        r1 == next_grid(g, n, policy),
        r2 == next_grid(g, n, policy),
    ensures
        r1 == r2,
{
}

/// A grid whose only live cell is `(x, y)` gives that cell no live
/// neighbors, under either edge policy, provided the side length is at
/// least 2 — on a torus of side 1 a cell would be its own neighbor.
pub proof fn lemma_lone_cell_is_isolated(
    g: Seq<Seq<bool>>,
    n: int,
    x: int,
    y: int,
    policy: EdgePolicy,
)
    requires
        grid_wf(g, n),
        2 <= n,
        0 <= x < n,
        0 <= y < n,
        forall|xx: int, yy: int|
            0 <= xx < n && 0 <= yy < n && !(xx == x && yy == y) ==> !(#[trigger] g[yy][xx]),
    ensures
        neighbor_count(g, n, x, y, policy) == 0,
{
    assert forall|dx: int, dy: int|
        -1 <= dx <= 1 && -1 <= dy <= 1 && !(dx == 0 && dy == 0) implies !neighbor_alive(
        g,
        n,
        x,
        y,
        dx,
        dy,
        policy,
    ) by {
        match policy {
            EdgePolicy::Bounded => {
                if 0 <= x + dx < n && 0 <= y + dy < n {
                    assert(!(x + dx == x && y + dy == y));
                }
            },
            EdgePolicy::Toroidal => {
                lemma_unit_wrap_moves(x, dx, n);
                lemma_unit_wrap_moves(y, dy, n);
                let wx = (x + dx) % n;
                let wy = (y + dy) % n;
                assert(!(wx == x && wy == y));
                assert(!g[wy][wx]);
            },
        }
    }
}

/// A unit offset wrapped modulo a side length of at least 2 stays on the
/// grid and, unless the offset is zero, lands on a different index.
proof fn lemma_unit_wrap_moves(i: int, d: int, n: int)
    requires
        2 <= n,
        0 <= i < n,
        -1 <= d <= 1,
    ensures
        0 <= (i + d) % n < n,
        d != 0 ==> (i + d) % n != i,
{
    if d == -1 && i == 0 {
        lemma_mod_add_multiples_vanish(-1, n);
        lemma_small_mod((n - 1) as nat, n as nat);
    } else if d == 1 && i + 1 == n {
        lemma_mod_self_0(n);
    } else {
        lemma_small_mod((i + d) as nat, n as nat);
    }
}

/// Law: isolation.  A live cell with no live neighbors is dead in the next
/// generation, under either edge policy.
pub proof fn lemma_isolated_cell_dies(
    g: Seq<Seq<bool>>,
    n: int,
    x: int,
    y: int,
    policy: EdgePolicy,
)
    requires
        grid_wf(g, n),
        0 <= x < n,
        0 <= y < n,
        g[y][x],
        neighbor_count(g, n, x, y, policy) == 0,
    ensures
        !next_grid(g, n, policy)[y][x],
{
    assert(next_grid(g, n, policy)[y][x] == next_cell(g, n, x, y, policy));
}

/// Law: a single live cell dies.  When `(x, y)` is the only live cell of
/// the grid it has no live neighbors, so the isolation rule kills it in the
/// next generation, under either edge policy.
pub proof fn lemma_lone_cell_dies(g: Seq<Seq<bool>>, n: int, x: int, y: int, policy: EdgePolicy)
    requires
        grid_wf(g, n),
        2 <= n,
        0 <= x < n,
        0 <= y < n,
        g[y][x],
        forall|xx: int, yy: int|
            0 <= xx < n && 0 <= yy < n && !(xx == x && yy == y) ==> !(#[trigger] g[yy][xx]),
    ensures
        !next_grid(g, n, policy)[y][x],
{
    lemma_lone_cell_is_isolated(g, n, x, y, policy);
    lemma_isolated_cell_dies(g, n, x, y, policy);
}

} // verus!
