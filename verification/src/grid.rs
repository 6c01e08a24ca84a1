//! The life matrix: an N×N grid of booleans, plus the state container that
//! is the sole mutation gateway for it.

use vstd::prelude::*;

verus! {

/// A grid view is well formed when it is a square matrix of side `n`.
pub open spec fn grid_wf(g: Seq<Seq<bool>>, n: int) -> bool {
    &&& g.len() == n
    &&& forall|y: int| 0 <= y < n ==> (#[trigger] g[y]).len() == n
}

/// The all-dead square grid of side `n`.
pub open spec fn dead_grid(n: int) -> Seq<Seq<bool>> {
    Seq::new(n as nat, |y: int| Seq::new(n as nat, |x: int| false))
}

/// An immutable square matrix of cells: `true` is alive, `false` is dead.
///
/// Cells are addressed by `(column x, row y)`, both in `[0, n)`; the view is
/// indexed row first, so cell `(x, y)` is `self@[y][x]`.
#[derive(Debug)]
pub struct Grid {
    pub n: usize,
    pub rows: Vec<Vec<bool>>,
}

impl View for Grid {
    type V = Seq<Seq<bool>>;

    open spec fn view(&self) -> Seq<Seq<bool>> {
        self.rows@.map_values(|r: Vec<bool>| r@)
    }
}

impl Grid {
    /// Dimensions match the recorded side length.
    pub open spec fn wf(&self) -> bool {
        grid_wf(self@, self.n as int)
    }

    /// A fresh all-dead grid of side `n`.
    pub fn new(n: usize) -> (g: Grid)
        ensures
            g.wf(),
            g.n == n,
            g@ == dead_grid(n as int),
    {
        let mut rows: Vec<Vec<bool>> = Vec::new();
        let mut y: usize = 0;
        while y < n
            invariant
                y <= n,
                rows@.len() == y,
                forall|yy: int| 0 <= yy < y ==> (#[trigger] rows@[yy])@ =~= Seq::new(
                    n as nat,
                    |x: int| false,
                ),
            decreases n - y,
        {
            let mut row: Vec<bool> = Vec::new();
            let mut x: usize = 0;
            while x < n
                invariant
                    x <= n,
                    row@.len() == x,
                    forall|xx: int| 0 <= xx < x ==> !(#[trigger] row@[xx]),
                decreases n - x,
            {
                row.push(false);
                x += 1;
            }
            assert(row@ =~= Seq::new(n as nat, |x: int| false));
            rows.push(row);
            y += 1;
        }
        let g = Grid { n, rows };
        assert(g@ =~~= dead_grid(n as int));
        g
    }

    /// Read one cell; the coordinates must be in range.
    pub fn cell(&self, x: usize, y: usize) -> (b: bool)
        requires
            self.wf(),
            x < self.n,
            y < self.n,
        ensures
            b == self@[y as int][x as int],
    {
        assert(self@[y as int] == self.rows@[y as int]@);
        self.rows[y][x]
    }

    /// A deep copy with the same dimensions and cells.
    pub fn duplicate(&self) -> (g: Grid)
        requires
            self.wf(),
        ensures
            g.wf(),
            g.n == self.n,
            g@ == self@,
    {
        let mut rows: Vec<Vec<bool>> = Vec::new();
        let mut y: usize = 0;
        while y < self.n
            invariant
                self.wf(),
                y <= self.n,
                rows@.len() == y,
                forall|yy: int| 0 <= yy < y ==> (#[trigger] rows@[yy])@ =~= self@[yy],
            decreases self.n - y,
        {
            let mut row: Vec<bool> = Vec::new();
            let mut x: usize = 0;
            while x < self.n
                invariant
                    self.wf(),
                    y < self.n,
                    x <= self.n,
                    row@.len() == x,
                    forall|xx: int| 0 <= xx < x ==> #[trigger] row@[xx] == self@[y as int][xx],
                decreases self.n - x,
            {
                row.push(self.cell(x, y));
                x += 1;
            }
            assert(row@ =~= self@[y as int]);
            rows.push(row);
            y += 1;
        }
        let g = Grid { n: self.n, rows };
        assert(g@ =~~= self@);
        g
    }
}

/// Content equality of two rows of cells.
fn row_eq(a: &Vec<bool>, b: &Vec<bool>) -> (r: bool)
    ensures
        r == (a@ =~= b@),
{
    if a.len() != b.len() {
        return false;
    }
    let mut i: usize = 0;
    while i < a.len()
        invariant
            a@.len() == b@.len(),
            i <= a@.len(),
            forall|j: int| 0 <= j < i ==> a@[j] == b@[j],
        decreases a@.len() - i,
    {
        if a[i] != b[i] {
            return false;
        }
        i += 1;
    }
    true
}

impl PartialEq for Grid {
    /// Two grids are equal when they record the same side length and hold
    /// the same cells.
    fn eq(&self, other: &Grid) -> (r: bool) {
        if self.n != other.n {
            return false;
        }
        if self.rows.len() != other.rows.len() {
            assert(self@.len() != other@.len());
            return false;
        }
        let mut y: usize = 0;
        while y < self.rows.len()
            invariant
                self.rows@.len() == other.rows@.len(),
                y <= self.rows@.len(),
                self.n == other.n,
                forall|yy: int| 0 <= yy < y ==> (#[trigger] self.rows@[yy])@ =~= other.rows@[yy]@,
            decreases self.rows@.len() - y,
        {
            if !row_eq(&self.rows[y], &other.rows[y]) {
                assert(self@[y as int] != other@[y as int]);
                return false;
            }
            y += 1;
        }
        assert(self@ =~~= other@);
        true
    }
}

impl vstd::std_specs::cmp::PartialEqSpecImpl for Grid {
    open spec fn obeys_eq_spec() -> bool {
        true
    }

    open spec fn eq_spec(&self, other: &Grid) -> bool {
        self.n == other.n && self@ =~~= other@
    }
}

/// Failure of a direct cell access: the coordinates lie outside `[0, n)`.
///
/// This signals a contract violation by the caller; it is surfaced rather
/// than absorbed, and nothing in the core panics on it.
#[derive(Clone, Copy, Debug, PartialEq, Eq, Structural)]
pub enum GridError {
    OutOfRange,
}

/// The single source of truth for cell life state.
///
/// Every mutation goes through this gateway, so a toggle, a pattern stamp and
/// an evolution step can never interleave mid-operation: each method
/// completes before another can run, and readers only ever see a fully
/// published grid.
pub struct GridState {
    grid: Grid,
}

impl View for GridState {
    type V = Seq<Seq<bool>>;

    closed spec fn view(&self) -> Seq<Seq<bool>> {
        self.grid@
    }
}

impl GridState {
    /// The fixed side length `n`, set at construction.
    pub closed spec fn size(&self) -> int {
        self.grid.n as int
    }

    /// The held matrix is square with the recorded side length.
    pub closed spec fn wf(&self) -> bool {
        self.grid.wf()
    }

    /// A fresh all-dead state of side `n`.
    pub fn new(n: usize) -> (s: GridState)
        ensures
            s.wf(),
            s.size() == n,
            s@ == dead_grid(n as int),
    {
        GridState { grid: Grid::new(n) }
    }

    /// The side length as an executable value.
    pub fn len(&self) -> (n: usize)
        ensures
            n == self.size(),
    {
        self.grid.n
    }

    /// Current life state of cell `(x, y)`, or `OutOfRange` when either
    /// coordinate is at or beyond the side length.
    pub fn get(&self, x: usize, y: usize) -> (r: Result<bool, GridError>)
        requires
            self.wf(),
        ensures
            x < self.size() && y < self.size() ==> r == Result::<bool, GridError>::Ok(
                self@[y as int][x as int],
            ),
            !(x < self.size() && y < self.size()) ==> r == Result::<bool, GridError>::Err(
                GridError::OutOfRange,
            ),
    {
        if x < self.grid.n && y < self.grid.n {
            Ok(self.grid.cell(x, y))
        } else {
            Err(GridError::OutOfRange)
        }
    }

    /// Write cell `(x, y)`, or fail with `OutOfRange` and leave the grid
    /// untouched.  Writing the value a cell already has changes nothing, so
    /// the operation is idempotent.
    pub fn set(&mut self, x: usize, y: usize, alive: bool) -> (r: Result<(), GridError>)
        requires
            old(self).wf(),
        ensures
            final(self).wf(),
            final(self).size() == old(self).size(),
            x < old(self).size() && y < old(self).size() ==> {
                &&& r == Result::<(), GridError>::Ok(())
                &&& final(self)@ == old(self)@.update(
                    y as int,
                    old(self)@[y as int].update(x as int, alive),
                )
            },
            !(x < old(self).size() && y < old(self).size()) ==> {
                &&& r == Result::<(), GridError>::Err(GridError::OutOfRange)
                &&& final(self)@ == old(self)@
            },
    {
        if x < self.grid.n && y < self.grid.n {
            assert(self@[y as int] == self.grid.rows@[y as int]@);
            self.grid.rows[y][x] = alive;
            assert(self@ =~~= old(self)@.update(
                y as int,
                old(self)@[y as int].update(x as int, alive),
            ));
            Ok(())
        } else {
            Err(GridError::OutOfRange)
        }
    }

    /// Set every cell to dead; unconditional, cannot fail.
    pub fn clear(&mut self)
        requires
            old(self).wf(),
        ensures
            final(self).wf(),
            final(self).size() == old(self).size(),
            final(self)@ == dead_grid(old(self).size()),
    {
        self.grid = Grid::new(self.grid.n);
    }

    /// An immutable copy of the whole matrix, so that a step computation or
    /// a renderer never observes a partially updated grid.
    pub fn snapshot(&self) -> (g: Grid)
        requires
            self.wf(),
        ensures
            g.wf(),
            g.n == self.size(),
            g@ == self@,
    {
        self.grid.duplicate()
    }

    /// Publish a fully computed grid of the same dimensions as the new
    /// contents, replacing the old ones in one step.
    pub fn replace_with(&mut self, g: Grid)
        requires
            old(self).wf(),
            g.wf(),
            g.n == old(self).size(),
        ensures
            final(self).wf(),
            final(self).size() == old(self).size(),
            final(self)@ == g@,
    {
        self.grid = g;
    }
}

} // verus!
