use crate::board::{lemma_coords_in_range, lemma_index_in_range, rule, Board};
use vstd::prelude::*;

verus! {

/// Applies the Life rule to one cell given its live-neighbour count.
pub fn next_state(alive: bool, neighbours: u8) -> (r: bool)
    ensures
        r == rule(alive, neighbours as nat),
{
    if alive {
        neighbours == 2 || neighbours == 3
    } else {
        neighbours == 3
    }
}

/// `offset * cells / extent`, rounded down, without overflow.
fn scale(offset: u64, cells: usize, extent: u64) -> (r: u128)
    requires
        extent > 0,
    ensures
        r == (offset * cells) / (extent as int),
{
    proof {
        assert(offset * cells <= u64::MAX * u64::MAX) by (nonlinear_arith)
            requires
                offset <= u64::MAX,
                cells <= u64::MAX,
        ;
    }
    (offset as u128 * cells as u128) / extent as u128
}

/// A fixed-size grid of cells, stored row-major: cell `(x, y)` lives at
/// index `y * width + x`.
pub struct Grid {
    width: usize,
    height: usize,
    cells: Vec<bool>,
}

impl View for Grid {
    type V = Board;

    closed spec fn view(&self) -> Board {
        Board { width: self.width as nat, height: self.height as nat, cells: self.cells@ }
    }
}

impl Grid {
    /// A grid of the given size with every cell dead.
    pub fn new(width: usize, height: usize) -> (g: Grid)
        requires
            width > 0,
            height > 0,
            width * height <= usize::MAX,
        ensures
            g@ == Board::empty(width as nat, height as nat),
    {
        let n = width * height;
        let mut cells: Vec<bool> = Vec::with_capacity(n);
        let mut i: usize = 0;
        while i < n
            invariant
                i <= n,
                cells@ == Seq::new(i as nat, |j: int| false),
            decreases n - i,
        {
            cells.push(false);
            i = i + 1;
            assert(cells@ =~= Seq::new(i as nat, |j: int| false));
        }
        Grid { width, height, cells }
    }

    /// A grid over the given cells, in row-major order; None unless both
    /// dimensions are positive and there are exactly `width * height` cells.
    pub fn from_cells(width: usize, height: usize, cells: Vec<bool>) -> (r: Option<Grid>)
        ensures
            r is Some <==> (width > 0 && height > 0 && cells@.len() == width * height),
            r matches Some(g) ==> g@ == (Board {
                width: width as nat,
                height: height as nat,
                cells: cells@,
            }),
    {
        if width == 0 || height == 0 {
            return None;
        }
        let len = cells.len();
        match width.checked_mul(height) {
            Some(n) => {
                if len == n {
                    Some(Grid { width, height, cells })
                } else {
                    None
                }
            },
            None => None,
        }
    }

    pub fn width(&self) -> (r: usize)
        ensures
            r == self@.width,
    {
        self.width
    }

    pub fn height(&self) -> (r: usize)
        ensures
            r == self@.height,
    {
        self.height
    }

    /// The cells in row-major order.
    pub fn cells(&self) -> (r: &Vec<bool>)
        ensures
            r@ == self@.cells,
    {
        &self.cells
    }

    /// The linear index of the in-range position `(x, y)`.
    pub fn index_of(&self, x: usize, y: usize) -> (i: usize)
        requires
            self@.wf(),
            self@.in_bounds(x as int, y as int),
        ensures
            i == self@.index(x as int, y as int),
            i < self@.cells.len(),
    {
        let len = self.cells.len();
        proof {
            lemma_index_in_range(self.width as nat, self.height as nat, x as int, y as int);
        }
        y * self.width + x
    }

    /// The position of the cell at linear index `i`.
    pub fn coords_of(&self, i: usize) -> (r: (usize, usize))
        requires
            self@.wf(),
            i < self@.cells.len(),
        ensures
            (r.0 as int, r.1 as int) == self@.coords(i as int),
            self@.in_bounds(r.0 as int, r.1 as int),
    {
        proof {
            lemma_coords_in_range(self.width as nat, self.height as nat, i as int);
        }
        (i % self.width, i / self.width)
    }

    pub fn get(&self, x: usize, y: usize) -> (r: bool)
        requires
            self@.wf(),
            self@.in_bounds(x as int, y as int),
        ensures
            r == self@.alive(x as int, y as int),
    {
        let i = self.index_of(x, y);
        self.cells[i]
    }

    pub fn set(&mut self, x: usize, y: usize, value: bool)
        requires
            old(self)@.wf(),
            old(self)@.in_bounds(x as int, y as int),
        ensures
            final(self)@ == old(self)@.set(x as int, y as int, value),
    {
        let i = self.index_of(x, y);
        self.cells.set(i, value);
    }

    /// Flips the cell at `(x, y)`; a position off the grid changes nothing.
    pub fn toggle(&mut self, x: usize, y: usize)
        requires
            old(self)@.wf(),
        ensures
            final(self)@ == old(self)@.toggled(x as int, y as int),
    {
        if x < self.width && y < self.height {
            let value = self.get(x, y);
            self.set(x, y, !value);
        }
    }

    /// 1 if the cell at offset `(dx, dy)` from `(x, y)` is on the grid and
    /// live, else 0: positions off the grid are skipped, not wrapped.
    fn count_at(&self, x: usize, y: usize, dx: i8, dy: i8) -> (r: u8)
        requires
            self@.wf(),
            self@.in_bounds(x as int, y as int),
            -1 <= dx <= 1,
            -1 <= dy <= 1,
        ensures
            r == self@.count_at(x as int, y as int, dx as int, dy as int),
    {
        if (dx < 0 && x == 0) || (dy < 0 && y == 0) {
            return 0;
        }
        let nx = if dx < 0 {
            x - 1
        } else if dx > 0 {
            x + 1
        } else {
            x
        };
        let ny = if dy < 0 {
            y - 1
        } else if dy > 0 {
            y + 1
        } else {
            y
        };
        if nx >= self.width || ny >= self.height {
            return 0;
        }
        if self.get(nx, ny) {
            1
        } else {
            0
        }
    }

    /// The number of live cells among the (at most eight) on-grid cells
    /// around `(x, y)`.
    pub fn live_neighbours(&self, x: usize, y: usize) -> (n: u8)
        requires
            self@.wf(),
            self@.in_bounds(x as int, y as int),
        ensures
            n == self@.live_neighbours(x as int, y as int),
            n <= 8,
    {
        self.count_at(x, y, -1, -1) + self.count_at(x, y, 0, -1) + self.count_at(x, y, 1, -1)
            + self.count_at(x, y, -1, 0) + self.count_at(x, y, 1, 0)
            + self.count_at(x, y, -1, 1) + self.count_at(x, y, 0, 1) + self.count_at(x, y, 1, 1)
    }

    /// The next generation, computed from this one alone into a new grid of
    /// the same size.
    pub fn step(&self) -> (next: Grid)
        requires
            self@.wf(),
        ensures
            next@ == self@.step(),
            next@.wf(),
    {
        let n = self.cells.len();
        let mut cells: Vec<bool> = Vec::with_capacity(n);
        let mut i: usize = 0;
        while i < n
            invariant
                i <= n,
                n == self@.cells.len(),
                self@.wf(),
                cells@.len() == i,
                forall|j: int|
                    0 <= j < i ==> cells@[j] == self@.next_alive(
                        j % self@.width as int,
                        j / self@.width as int,
                    ),
            decreases n - i,
        {
            let (x, y) = self.coords_of(i);
            proof {
                lemma_coords_in_range(self.width as nat, self.height as nat, i as int);
            }
            let alive = self.get(x, y);
            let count = self.live_neighbours(x, y);
            cells.push(next_state(alive, count));
            i = i + 1;
        }
        let next = Grid { width: self.width, height: self.height, cells };
        assert(next@.cells =~= self@.step().cells);
        next
    }

    /// The cell under a pointer at offset `(px, py)` from the viewport's origin
    /// corner, for a viewport of `view_width` by `view_height` units; None
    /// where the pointer is outside the grid or the viewport is empty.
    pub fn cell_at(&self, px: i64, py: i64, view_width: u64, view_height: u64) -> (r: Option<
        (usize, usize),
    >)
        requires
            self@.wf(),
        ensures
            match r {
                Some((x, y)) => self@.cell_at(px as int, py as int, view_width as int, view_height as int)
                    == Some((x as int, y as int)),
                None => self@.cell_at(px as int, py as int, view_width as int, view_height as int) is None,
            },
    {
        if view_width == 0 || view_height == 0 || px < 0 || py < 0 {
            return None;
        }
        let x = scale(px as u64, self.width, view_width);
        let y = scale(py as u64, self.height, view_height);
        if x < self.width as u128 && y < self.height as u128 {
            Some((x as usize, y as usize))
        } else {
            None
        }
    }

    /// Makes every cell dead; the dimensions stay.
    pub fn clear(&mut self)
        requires
            old(self)@.wf(),
        ensures
            final(self)@ == old(self)@.cleared(),
    {
        let n = self.cells.len();
        let mut i: usize = 0;
        while i < n
            invariant
                i <= n,
                n == self.cells@.len(),
                self@.wf(),
                self.width == old(self).width,
                self.height == old(self).height,
                forall|j: int| 0 <= j < i ==> !self.cells@[j],
            decreases n - i,
        {
            self.cells.set(i, false);
            i = i + 1;
        }
        assert(self@.cells =~= old(self)@.cleared().cells);
    }
}

} // verus!
