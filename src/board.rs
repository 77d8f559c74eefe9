use vstd::arithmetic::div_mod::lemma_fundamental_div_mod_converse;
use vstd::prelude::*;

verus! {

/// The standard Life rule: a live cell survives with two or three live
/// neighbours, a dead cell is born with exactly three.
pub open spec fn rule(alive: bool, neighbours: nat) -> bool {
    if alive {
        neighbours == 2 || neighbours == 3
    } else {
        neighbours == 3
    }
}

/// The mathematical model of one generation: its dimensions and its cells in
/// row-major order (cell `(x, y)` at index `y * width + x`).
pub struct Board {
    pub width: nat,
    pub height: nat,
    pub cells: Seq<bool>,
}

impl Board {
    pub open spec fn wf(self) -> bool {
        &&& self.width > 0
        &&& self.height > 0
        &&& self.cells.len() == self.width * self.height
    }

    pub open spec fn in_bounds(self, x: int, y: int) -> bool {
        0 <= x < self.width && 0 <= y < self.height
    }

    pub open spec fn index(self, x: int, y: int) -> int {
        y * self.width + x
    }

    pub open spec fn coords(self, i: int) -> (int, int) {
        (i % self.width as int, i / self.width as int)
    }

    /// Whether `(x, y)` is a live cell; positions off the board are dead.
    pub open spec fn alive(self, x: int, y: int) -> bool {
        self.in_bounds(x, y) && self.cells[self.index(x, y)]
    }

    /// 1 if the cell at offset `(dx, dy)` from `(x, y)` is live, else 0.
    pub open spec fn count_at(self, x: int, y: int, dx: int, dy: int) -> nat {
        if self.alive(x + dx, y + dy) {
            1
        } else {
            0
        }
    }

    /// The number of live cells among the eight around `(x, y)`.
    pub open spec fn live_neighbours(self, x: int, y: int) -> nat {
        self.count_at(x, y, -1, -1) + self.count_at(x, y, 0, -1) + self.count_at(x, y, 1, -1)
            + self.count_at(x, y, -1, 0) + self.count_at(x, y, 1, 0)
            + self.count_at(x, y, -1, 1) + self.count_at(x, y, 0, 1) + self.count_at(x, y, 1, 1)
    }

    /// For a position whose eight neighbours are all on the board: the number
    /// of them that are live, read straight from the cell store.
    pub open spec fn interior_neighbours(self, x: int, y: int) -> nat {
        self.stored(x - 1, y - 1) + self.stored(x, y - 1) + self.stored(x + 1, y - 1)
            + self.stored(x - 1, y) + self.stored(x + 1, y)
            + self.stored(x - 1, y + 1) + self.stored(x, y + 1) + self.stored(x + 1, y + 1)
    }

    /// 1 if the stored cell for `(x, y)` is live, else 0.
    pub open spec fn stored(self, x: int, y: int) -> nat {
        if self.cells[self.index(x, y)] {
            1
        } else {
            0
        }
    }

    pub open spec fn next_alive(self, x: int, y: int) -> bool {
        rule(self.alive(x, y), self.live_neighbours(x, y))
    }

    /// The next generation: every cell updated at once from this one.
    pub open spec fn step(self) -> Board {
        Board {
            width: self.width,
            height: self.height,
            cells: Seq::new(
                self.cells.len(),
                |i: int| self.next_alive(i % self.width as int, i / self.width as int),
            ),
        }
    }

    /// The board of the given size whose live cells are those where `f` holds.
    pub open spec fn from_fn(width: nat, height: nat, f: spec_fn(int, int) -> bool) -> Board {
        Board {
            width,
            height,
            cells: Seq::new(width * height, |i: int| f(i % width as int, i / width as int)),
        }
    }

    /// A 2x2 block of live cells with its lower-left corner at `(x0, y0)`.
    pub open spec fn block(width: nat, height: nat, x0: int, y0: int) -> Board {
        Board::from_fn(width, height, |x: int, y: int| x0 <= x <= x0 + 1 && y0 <= y <= y0 + 1)
    }

    /// Three live cells in a row: `(1, 1)`, `(2, 1)` and `(3, 1)`.
    pub open spec fn blinker_horizontal(width: nat, height: nat) -> Board {
        Board::from_fn(width, height, |x: int, y: int| 1 <= x <= 3 && y == 1)
    }

    /// Three live cells in a column: `(2, 0)`, `(2, 1)` and `(2, 2)`.
    pub open spec fn blinker_vertical(width: nat, height: nat) -> Board {
        Board::from_fn(width, height, |x: int, y: int| x == 2 && 0 <= y <= 2)
    }

    pub open spec fn empty(width: nat, height: nat) -> Board {
        Board { width, height, cells: Seq::new(width * height, |i: int| false) }
    }

    pub open spec fn set(self, x: int, y: int, value: bool) -> Board {
        Board { cells: self.cells.update(self.index(x, y), value), ..self }
    }

    pub open spec fn toggled(self, x: int, y: int) -> Board {
        if self.in_bounds(x, y) {
            self.set(x, y, !self.alive(x, y))
        } else {
            self
        }
    }

    /// The cell under a pointer at offset `(px, py)` from the viewport's
    /// origin corner, for a viewport of `view_width` by `view_height` units:
    /// each cell covers `view_width / width` by `view_height / height` units,
    /// so the offset scaled by `width / view_width` and floored gives the
    /// column (and likewise the row). None where that cell is off the board.
    pub open spec fn cell_at(self, px: int, py: int, view_width: int, view_height: int) -> Option<
        (int, int),
    > {
        if view_width > 0 && view_height > 0 && px >= 0 && py >= 0 && self.in_bounds(
            (px * self.width) / view_width,
            (py * self.height) / view_height,
        ) {
            Some(((px * self.width) / view_width, (py * self.height) / view_height))
        } else {
            None
        }
    }

    pub open spec fn cleared(self) -> Board {
        Board::empty(self.width, self.height)
    }
}

/// The linear index of an in-range position lies in the cell store, and
/// dividing it by the width gives the position back.
pub proof fn lemma_index_in_range(width: nat, height: nat, x: int, y: int)
    requires
        0 <= x < width,
        0 <= y < height,
    ensures
        0 <= y * width + x < width * height,
        (y * width + x) % width as int == x,
        (y * width + x) / width as int == y,
{
    assert(0 <= y * width + x < width * height) by (nonlinear_arith)
        requires
            0 <= x < width,
            0 <= y < height,
    ;
    lemma_fundamental_div_mod_converse(y * width + x, width as int, y, x);
}

/// A linear index in the cell store splits into an in-range position.
pub proof fn lemma_coords_in_range(width: nat, height: nat, i: int)
    requires
        width > 0,
        0 <= i < width * height,
    ensures
        0 <= (i % width as int) < width,
        0 <= (i / width as int) < height,
        (i / width as int) * width + i % width as int == i,
{
    let q = i / width as int;
    let r = i % width as int;
    assert(0 <= r < width && i == q * width + r && 0 <= q) by (nonlinear_arith)
        requires
            width > 0,
            i >= 0,
            q == i / width as int,
            r == i % width as int,
    ;
    assert(q < height) by (nonlinear_arith)
        requires
            i == q * width + r,
            0 <= r,
            i < width * height,
            width > 0,
    ;
}

/// Reading a board built from a predicate gives the predicate back, inside
/// the board, and dead cells outside it.
pub proof fn lemma_from_fn_alive(width: nat, height: nat, f: spec_fn(int, int) -> bool, x: int, y: int)
    requires
        width > 0,
        height > 0,
    ensures
        Board::from_fn(width, height, f).alive(x, y) == (0 <= x < width && 0 <= y < height && f(x, y)),
{
    if 0 <= x < width && 0 <= y < height {
        lemma_index_in_range(width, height, x, y);
    }
}

} // verus!
