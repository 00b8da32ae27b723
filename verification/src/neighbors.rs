//! Moore-neighborhood counting: the live and infected neighbor counts of a
//! coordinate, over a clipped 8-cell window. Offsets that fall outside the
//! grid are skipped entirely; there is no wraparound.

use vstd::prelude::*;

use crate::cell::CellState;
use crate::grid::CellStates;

verus! {

/// Whether `(x, y)` lies on a `w`-by-`h` grid.
pub open spec fn in_bounds(w: int, h: int, x: int, y: int) -> bool {
    0 <= x < w && 0 <= y < h
}

/// 1 when the cell at `(x, y)` exists and holds state `s`, else 0.
pub open spec fn cell_is(g: Seq<Seq<CellState>>, h: int, x: int, y: int, s: CellState) -> nat {
    if in_bounds(g.len() as int, h, x, y) && g[x][y] == s {
        1nat
    } else {
        0nat
    }
}

/// How many of the up-to-8 Moore neighbors of `(x, y)` hold state `s`, on a
/// grid whose columns have height `h`.
pub open spec fn neighbor_count(
    g: Seq<Seq<CellState>>,
    h: int,
    x: int,
    y: int,
    s: CellState,
) -> nat {
    cell_is(g, h, x - 1, y - 1, s) + cell_is(g, h, x - 1, y, s) + cell_is(g, h, x - 1, y + 1, s)
        + cell_is(g, h, x, y - 1, s) + cell_is(g, h, x, y + 1, s) + cell_is(g, h, x + 1, y - 1, s)
        + cell_is(g, h, x + 1, y, s) + cell_is(g, h, x + 1, y + 1, s)
}

/// The live neighbor count of `(x, y)`.
pub open spec fn live_neighbors(g: Seq<Seq<CellState>>, h: int, x: int, y: int) -> nat {
    neighbor_count(g, h, x, y, CellState::Alive)
}

/// The infected neighbor count of `(x, y)`.
pub open spec fn infected_neighbors(g: Seq<Seq<CellState>>, h: int, x: int, y: int) -> nat {
    neighbor_count(g, h, x, y, CellState::Infected)
}

/// 1 when `(x, y)` lies on a `w`-by-`h` grid, else 0.
pub open spec fn bound_is(w: int, h: int, x: int, y: int) -> nat {
    if in_bounds(w, h, x, y) {
        1nat
    } else {
        0nat
    }
}

/// How many of the 8 Moore offsets around `(x, y)` stay on a `w`-by-`h`
/// grid: the number of cells neighbor counting examines for `(x, y)`.
pub open spec fn candidate_count(w: int, h: int, x: int, y: int) -> nat {
    bound_is(w, h, x - 1, y - 1) + bound_is(w, h, x - 1, y) + bound_is(w, h, x - 1, y + 1)
        + bound_is(w, h, x, y - 1) + bound_is(w, h, x, y + 1) + bound_is(w, h, x + 1, y - 1)
        + bound_is(w, h, x + 1, y) + bound_is(w, h, x + 1, y + 1)
}

/// Examine one neighbor offset: when `ok` holds, `(nx, ny)` is the on-grid
/// cell at the ghost coordinate `(gx, gy)`; when it does not, the offset is
/// off the grid and contributes nothing.
fn probe(
    grid: &CellStates,
    ok: bool,
    nx: usize,
    ny: usize,
    Ghost(gx): Ghost<int>,
    Ghost(gy): Ghost<int>,
) -> (r: (u8, u8))
    requires
        grid.wf(),
        ok <==> in_bounds(grid.spec_width() as int, grid.spec_height() as int, gx, gy),
        ok ==> nx == gx && ny == gy,
    ensures
        r.0 == cell_is(grid@, grid.spec_height() as int, gx, gy, CellState::Alive),
        r.1 == cell_is(grid@, grid.spec_height() as int, gx, gy, CellState::Infected),
{
    if ok {
        match grid.get(nx, ny) {
            CellState::Alive => (1, 0),
            CellState::Infected => (0, 1),
            CellState::Dead => (0, 0),
        }
    } else {
        (0, 0)
    }
}

/// Count the live and infected neighbors of `(x, y)`: each neighbor on the
/// grid adds 1 to the first count when Alive and to the second when
/// Infected; Dead neighbors and off-grid offsets add nothing. Both counts
/// are at most 8.
#[verifier::rlimit(50)]
pub fn count_neighbors(grid: &CellStates, x: usize, y: usize) -> (r: (u8, u8))
    requires
        grid.wf(),
        grid.contains_coord(x as int, y as int),
    ensures
        r.0 == live_neighbors(grid@, grid.spec_height() as int, x as int, y as int),
        r.1 == infected_neighbors(grid@, grid.spec_height() as int, x as int, y as int),
        r.0 <= 8,
        r.1 <= 8,
{
    let w = grid.width();
    let h = grid.height();
    let left = x > 0;
    let right = x < w - 1;
    let up = y > 0;
    let down = y < h - 1;
    let xm = if left { x - 1 } else { 0 };
    let xp = if right { x + 1 } else { 0 };
    let ym = if up { y - 1 } else { 0 };
    let yp = if down { y + 1 } else { 0 };
    let t0 = probe(grid, left && up, xm, ym, Ghost(x as int - 1), Ghost(y as int - 1));
    let t1 = probe(grid, left, xm, y, Ghost(x as int - 1), Ghost(y as int));
    let t2 = probe(grid, left && down, xm, yp, Ghost(x as int - 1), Ghost(y as int + 1));
    let t3 = probe(grid, up, x, ym, Ghost(x as int), Ghost(y as int - 1));
    let t4 = probe(grid, down, x, yp, Ghost(x as int), Ghost(y as int + 1));
    let t5 = probe(grid, right && up, xp, ym, Ghost(x as int + 1), Ghost(y as int - 1));
    let t6 = probe(grid, right, xp, y, Ghost(x as int + 1), Ghost(y as int));
    let t7 = probe(grid, right && down, xp, yp, Ghost(x as int + 1), Ghost(y as int + 1));
    let live = t0.0 + t1.0 + t2.0 + t3.0 + t4.0 + t5.0 + t6.0 + t7.0;
    let infected = t0.1 + t1.1 + t2.1 + t3.1 + t4.1 + t5.1 + t6.1 + t7.1;
    (live, infected)
}

/// Boundary safety of the clipped window: on a grid of at least 2 by 2,
/// neighbor counting examines exactly 3 cells for a corner coordinate,
/// exactly 5 for a non-corner edge coordinate, and exactly 8 for an
/// interior coordinate.
pub proof fn lemma_candidate_counts(w: int, h: int, x: int, y: int)
    requires
        2 <= w,
        2 <= h,
        in_bounds(w, h, x, y),
    ensures
        (x == 0 || x == w - 1) && (y == 0 || y == h - 1) ==> candidate_count(w, h, x, y) == 3,
        ((x == 0 || x == w - 1) && !(y == 0 || y == h - 1)) || (!(x == 0 || x == w - 1) && (y == 0
            || y == h - 1)) ==> candidate_count(w, h, x, y) == 5,
        !(x == 0 || x == w - 1) && !(y == 0 || y == h - 1) ==> candidate_count(w, h, x, y) == 8,
{
}

/// Each neighbor count never exceeds the number of cells examined, which
/// never exceeds 8.
pub proof fn lemma_neighbor_count_bound(g: Seq<Seq<CellState>>, h: int, x: int, y: int, s: CellState)
    ensures
        neighbor_count(g, h, x, y, s) <= candidate_count(g.len() as int, h, x, y) <= 8,
{
}

} // verus!
