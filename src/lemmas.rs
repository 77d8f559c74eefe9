//! Laws of the Life engine, proved over the `Board` model.

use crate::board::{lemma_coords_in_range, lemma_from_fn_alive, lemma_index_in_range, rule, Board};
use vstd::prelude::*;

verus! {

/// A cell of the next generation is the rule applied to that cell and its
/// live neighbours; off the board every cell stays dead.
pub proof fn lemma_step_alive(b: Board, x: int, y: int)
    requires
        b.wf(),
    ensures
        b.step().wf(),
        b.step().alive(x, y) == (b.in_bounds(x, y) && rule(b.alive(x, y), b.live_neighbours(x, y))),
{
    if b.in_bounds(x, y) {
        lemma_index_in_range(b.width, b.height, x, y);
    }
}

/// Stepping the board of `f` gives the board of `g` when `g` holds exactly
/// where the rule makes a cell live.
pub proof fn lemma_step_from_fn(
    width: nat,
    height: nat,
    f: spec_fn(int, int) -> bool,
    g: spec_fn(int, int) -> bool,
)
    requires
        width > 0,
        height > 0,
        forall|x: int, y: int|
            0 <= x < width && 0 <= y < height ==> #[trigger] Board::from_fn(width, height, f).next_alive(
                x,
                y,
            ) == g(x, y),
    ensures
        Board::from_fn(width, height, f).step() == Board::from_fn(width, height, g),
{
    let b = Board::from_fn(width, height, f);
    let c = Board::from_fn(width, height, g);
    assert forall|i: int| 0 <= i < b.cells.len() implies b.step().cells[i] == c.cells[i] by {
        lemma_coords_in_range(width, height, i);
    }
    assert(b.step().cells =~= c.cells);
}

/// What the board of `f` holds around `(x, y)`.
proof fn lemma_from_fn_around(width: nat, height: nat, f: spec_fn(int, int) -> bool, x: int, y: int)
    requires
        width > 0,
        height > 0,
    ensures
        forall|dx: int, dy: int|
            -1 <= dx <= 1 && -1 <= dy <= 1 ==> #[trigger] Board::from_fn(width, height, f).alive(
                x + dx,
                y + dy,
            ) == (0 <= x + dx < width && 0 <= y + dy < height && f(x + dx, y + dy)),
{
    assert forall|dx: int, dy: int| -1 <= dx <= 1 && -1 <= dy <= 1 implies #[trigger] Board::from_fn(
        width,
        height,
        f,
    ).alive(x + dx, y + dy) == (0 <= x + dx < width && 0 <= y + dy < height && f(x + dx, y + dy)) by {
        lemma_from_fn_alive(width, height, f, x + dx, y + dy);
    }
    lemma_from_fn_alive(width, height, f, x, y);
}

/// In the interior of the board the rule holds over all eight neighbours:
/// a live cell with two or three live neighbours survives, with fewer or
/// more it dies; a dead cell with exactly three is born, otherwise it stays
/// dead.
pub proof fn lemma_interior_rule(b: Board, x: int, y: int)
    requires
        b.wf(),
        1 <= x < b.width - 1,
        1 <= y < b.height - 1,
    ensures
        b.live_neighbours(x, y) == b.interior_neighbours(x, y),
        b.alive(x, y) && (b.interior_neighbours(x, y) == 2 || b.interior_neighbours(x, y) == 3)
            ==> b.step().alive(x, y),
        b.alive(x, y) && (b.interior_neighbours(x, y) < 2 || b.interior_neighbours(x, y) > 3)
            ==> !b.step().alive(x, y),
        !b.alive(x, y) && b.interior_neighbours(x, y) == 3 ==> b.step().alive(x, y),
        !b.alive(x, y) && b.interior_neighbours(x, y) != 3 ==> !b.step().alive(x, y),
{
    lemma_step_alive(b, x, y);
}

/// The corner cell `(0, 0)` has at most three neighbours on the board, so at
/// most three live ones.
pub proof fn lemma_corner_neighbours(b: Board)
    requires
        b.wf(),
    ensures
        b.live_neighbours(0, 0) <= 3,
{
}

/// An all-dead board stays all dead.
pub proof fn lemma_empty_still(width: nat, height: nat)
    requires
        width > 0,
        height > 0,
    ensures
        Board::empty(width, height).step() == Board::empty(width, height),
{
    let f = |x: int, y: int| false;
    assert(Board::from_fn(width, height, f).cells =~= Board::empty(width, height).cells);
    assert forall|x: int, y: int| 0 <= x < width && 0 <= y < height implies #[trigger] Board::from_fn(
        width,
        height,
        f,
    ).next_alive(x, y) == f(x, y) by {
        lemma_from_fn_around(width, height, f, x, y);
    }
    lemma_step_from_fn(width, height, f, f);
}

/// A live corner cell alone on the board dies.
pub proof fn lemma_lone_corner_dies(width: nat, height: nat)
    requires
        width > 0,
        height > 0,
    ensures
        Board::empty(width, height).set(0, 0, true).step() == Board::empty(width, height),
{
    let f = |x: int, y: int| x == 0 && y == 0;
    let g = |x: int, y: int| false;
    let b = Board::from_fn(width, height, f);
    let c = Board::empty(width, height).set(0, 0, true);
    lemma_index_in_range(width, height, 0, 0);
    assert forall|i: int| 0 <= i < b.cells.len() implies b.cells[i] == c.cells[i] by {
        lemma_coords_in_range(width, height, i);
        if i % width as int == 0 && i / width as int == 0 {
            assert(i == 0);
        }
    }
    assert(b.cells =~= c.cells);
    assert(Board::from_fn(width, height, g).cells =~= Board::empty(width, height).cells);
    assert forall|x: int, y: int| 0 <= x < width && 0 <= y < height implies #[trigger] Board::from_fn(
        width,
        height,
        f,
    ).next_alive(x, y) == g(x, y) by {
        lemma_from_fn_around(width, height, f, x, y);
    }
    lemma_step_from_fn(width, height, f, g);
}

/// A 2x2 block away from every edge is a still life: one step leaves it as
/// it is.
pub proof fn lemma_block_still(width: nat, height: nat, x0: int, y0: int)
    requires
        1 <= x0,
        x0 + 2 < width,
        1 <= y0,
        y0 + 2 < height,
    ensures
        Board::block(width, height, x0, y0).step() == Board::block(width, height, x0, y0),
{
    let f = |x: int, y: int| x0 <= x <= x0 + 1 && y0 <= y <= y0 + 1;
    assert forall|x: int, y: int| 0 <= x < width && 0 <= y < height implies #[trigger] Board::from_fn(
        width,
        height,
        f,
    ).next_alive(x, y) == f(x, y) by {
        lemma_from_fn_around(width, height, f, x, y);
    }
    lemma_step_from_fn(width, height, f, f);
}

/// The blinker oscillates with period two: the row of three becomes a
/// column of three, and the column becomes the row again.
pub proof fn lemma_blinker(width: nat, height: nat)
    requires
        width >= 5,
        height >= 3,
    ensures
        Board::blinker_horizontal(width, height).step() == Board::blinker_vertical(width, height),
        Board::blinker_vertical(width, height).step() == Board::blinker_horizontal(width, height),
        Board::blinker_horizontal(width, height).step().step() == Board::blinker_horizontal(
            width,
            height,
        ),
{
    let h = |x: int, y: int| 1 <= x <= 3 && y == 1;
    let v = |x: int, y: int| x == 2 && 0 <= y <= 2;
    assert forall|x: int, y: int| 0 <= x < width && 0 <= y < height implies #[trigger] Board::from_fn(
        width,
        height,
        h,
    ).next_alive(x, y) == v(x, y) by {
        lemma_from_fn_around(width, height, h, x, y);
    }
    lemma_step_from_fn(width, height, h, v);
    assert forall|x: int, y: int| 0 <= x < width && 0 <= y < height implies #[trigger] Board::from_fn(
        width,
        height,
        v,
    ).next_alive(x, y) == h(x, y) by {
        lemma_from_fn_around(width, height, v, x, y);
    }
    lemma_step_from_fn(width, height, v, h);
}

/// A cleared board is all dead, and clearing it again changes nothing.
pub proof fn lemma_clear_idempotent(b: Board)
    requires
        b.wf(),
    ensures
        forall|x: int, y: int| !#[trigger] b.cleared().alive(x, y),
        b.cleared().cleared() == b.cleared(),
{
    assert forall|x: int, y: int| !#[trigger] b.cleared().alive(x, y) by {
        if b.in_bounds(x, y) {
            lemma_index_in_range(b.width, b.height, x, y);
        }
    }
}

/// Toggling the same position twice gives the board back.
pub proof fn lemma_toggle_involution(b: Board, x: int, y: int)
    requires
        b.wf(),
    ensures
        b.toggled(x, y).toggled(x, y) == b,
{
    if b.in_bounds(x, y) {
        lemma_index_in_range(b.width, b.height, x, y);
        assert(b.toggled(x, y).toggled(x, y).cells =~= b.cells);
    }
}

/// Turning a position into its index and back gives the position again; and
/// turning an index into a position and back gives the index again.
pub proof fn lemma_index_round_trip(b: Board, x: int, y: int, i: int)
    requires
        b.wf(),
        b.in_bounds(x, y),
        0 <= i < b.cells.len(),
    ensures
        b.coords(b.index(x, y)) == (x, y),
        b.in_bounds(b.coords(i).0, b.coords(i).1),
        b.index(b.coords(i).0, b.coords(i).1) == i,
{
    lemma_index_in_range(b.width, b.height, x, y);
    lemma_coords_in_range(b.width, b.height, i);
}

} // verus!
