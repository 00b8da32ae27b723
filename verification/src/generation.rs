//! The step scheduler's core: advance the whole grid by one generation,
//! computing every next state from one consistent snapshot of the previous
//! generation. The next generation is written into a fresh buffer, so no
//! cell is ever read after being overwritten within the same pass.

use vstd::prelude::*;

use crate::cell::CellState;
use crate::grid::CellStates;
use crate::neighbors::cell_is;
use crate::neighbors::in_bounds;
use crate::neighbors::count_neighbors;
use crate::neighbors::infected_neighbors;
use crate::neighbors::live_neighbors;
use crate::options::Options;
use crate::transition::cell_check;
use crate::transition::next_state_spec;

verus! {

/// The grid after one synchronous generation: every cell's next state is
/// the transition function applied to its state and neighbor counts in the
/// previous generation.
pub open spec fn step_spec(g: Seq<Seq<CellState>>, h: int, opts: Options) -> Seq<Seq<CellState>> {
    Seq::new(
        g.len(),
        |x: int|
            Seq::new(
                g[x].len(),
                |y: int|
                    next_state_spec(
                        g[x][y],
                        live_neighbors(g, h, x, y) as int,
                        infected_neighbors(g, h, x, y) as int,
                        opts,
                    ),
            ),
    )
}

/// The grid after `n` synchronous generations.
pub open spec fn step_n_spec(g: Seq<Seq<CellState>>, h: int, opts: Options, n: nat) -> Seq<
    Seq<CellState>,
>
    decreases n,
{
    if n == 0 {
        g
    } else {
        step_spec(step_n_spec(g, h, opts, (n - 1) as nat), h, opts)
    }
}

/// Advance the grid by exactly one generation under the given rule set,
/// reading only the previous generation.
pub fn next_generation(grid: &CellStates, opts: &Options) -> (r: CellStates)
    requires
        grid.wf(),
        opts.wf(),
    ensures
        r.wf(),
        r.spec_width() == grid.spec_width(),
        r.spec_height() == grid.spec_height(),
        r@ == step_spec(grid@, grid.spec_height() as int, *opts),
{
    let w = grid.width();
    let h = grid.height();
    let ghost hh = grid.spec_height() as int;
    let mut cells: Vec<Vec<CellState>> = Vec::new();
    let mut x: usize = 0;
    while x < w
        invariant
            grid.wf(),
            opts.wf(),
            w == grid.spec_width(),
            h == grid.spec_height(),
            hh == h as int,
            x <= w,
            cells@.len() == x,
            forall|i: int| 0 <= i < x ==> (#[trigger] cells@[i])@.len() == h,
            forall|i: int, j: int|
                0 <= i < x && 0 <= j < h ==> cells@[i]@[j] == next_state_spec(
                    grid@[i][j],
                    live_neighbors(grid@, hh, i, j) as int,
                    infected_neighbors(grid@, hh, i, j) as int,
                    *opts,
                ),
        decreases w - x,
    {
        let mut col: Vec<CellState> = Vec::new();
        let mut y: usize = 0;
        while y < h
            invariant
                grid.wf(),
                opts.wf(),
                w == grid.spec_width(),
                h == grid.spec_height(),
                hh == h as int,
                x < w,
                y <= h,
                col@.len() == y,
                forall|j: int|
                    0 <= j < y ==> col@[j] == next_state_spec(
                        grid@[x as int][j],
                        live_neighbors(grid@, hh, x as int, j) as int,
                        infected_neighbors(grid@, hh, x as int, j) as int,
                        *opts,
                    ),
            decreases h - y,
        {
            let (live, infected) = count_neighbors(grid, x, y);
            let next = cell_check(grid.get(x, y), live, infected, opts);
            col.push(next);
            y = y + 1;
        }
        cells.push(col);
        x = x + 1;
    }
    let r = CellStates::from_columns(cells);
    proof {
        assert(r@ =~~= step_spec(grid@, hh, *opts));
    }
    r
}

/// A grid on which one generation changes nothing is never changed: a still
/// life stays exactly as it is for any number of generations.
pub proof fn lemma_fixed_point_stable(g: Seq<Seq<CellState>>, h: int, opts: Options, n: nat)
    requires
        step_spec(g, h, opts) == g,
    ensures
        step_n_spec(g, h, opts, n) == g,
    decreases n,
{
    if n > 0 {
        lemma_fixed_point_stable(g, h, opts, (n - 1) as nat);
    }
}

/// An all-Dead grid is a fixed point whenever the dead-cell rule is the
/// classic default, which brings a cell to life only on exactly 3 live
/// neighbors: with no live cell anywhere, every count is 0 and every cell
/// stays Dead.
pub proof fn lemma_all_dead_fixed_point(g: Seq<Seq<CellState>>, h: int, opts: Options)
    requires
        opts.dead_rule is Default,
        forall|x: int| 0 <= x < g.len() ==> (#[trigger] g[x]).len() == h,
        forall|x: int, y: int|
            0 <= x < g.len() && 0 <= y < g[x].len() ==> #[trigger] g[x][y] == CellState::Dead,
    ensures
        step_spec(g, h, opts) == g,
{
    assert forall|x: int, y: int| 0 <= x < g.len() && 0 <= y < h implies live_neighbors(
        g,
        h,
        x,
        y,
    ) == 0 by {
        assert(cell_is(g, h, x - 1, y - 1, CellState::Alive) == 0);
        assert(cell_is(g, h, x - 1, y, CellState::Alive) == 0);
        assert(cell_is(g, h, x - 1, y + 1, CellState::Alive) == 0);
        assert(cell_is(g, h, x, y - 1, CellState::Alive) == 0);
        assert(cell_is(g, h, x, y + 1, CellState::Alive) == 0);
        assert(cell_is(g, h, x + 1, y - 1, CellState::Alive) == 0);
        assert(cell_is(g, h, x + 1, y, CellState::Alive) == 0);
        assert(cell_is(g, h, x + 1, y + 1, CellState::Alive) == 0);
    }
    assert(step_spec(g, h, opts) =~~= g);
}

/// Empty-grid invariance: under a default dead-cell rule an all-Dead grid
/// stays all-Dead for any number of generations.
pub proof fn lemma_all_dead_invariant(g: Seq<Seq<CellState>>, h: int, opts: Options, n: nat)
    requires
        opts.dead_rule is Default,
        forall|x: int| 0 <= x < g.len() ==> (#[trigger] g[x]).len() == h,
        forall|x: int, y: int|
            0 <= x < g.len() && 0 <= y < g[x].len() ==> #[trigger] g[x][y] == CellState::Dead,
    ensures
        step_n_spec(g, h, opts, n) == g,
{
    lemma_all_dead_fixed_point(g, h, opts);
    lemma_fixed_point_stable(g, h, opts, n);
}

/// Whether `(x, y)` is one of the four cells of the 2-by-2 block whose
/// lower corner is `(bx, by)`.
pub open spec fn in_block(bx: int, by: int, x: int, y: int) -> bool {
    bx <= x <= bx + 1 && by <= y <= by + 1
}

/// A grid holding exactly one 2-by-2 block of Alive cells, anywhere on the
/// grid, with every other cell Dead.
pub open spec fn is_block_grid(g: Seq<Seq<CellState>>, h: int, bx: int, by: int) -> bool {
    &&& forall|x: int| 0 <= x < g.len() ==> (#[trigger] g[x]).len() == h
    &&& 0 <= bx && bx + 1 < g.len()
    &&& 0 <= by && by + 1 < h
    &&& forall|x: int, y: int|
        0 <= x < g.len() && 0 <= y < h ==> #[trigger] g[x][y] == (if in_block(bx, by, x, y) {
            CellState::Alive
        } else {
            CellState::Dead
        })
}

/// Still-life stability, one step: under the default rule set, a grid that
/// is Dead but for one 2-by-2 block of Alive cells is a fixed point. Each
/// block cell sees exactly its 3 block mates; every other cell sees at most
/// 2 live neighbors, short of the 3 a birth needs.
#[verifier::rlimit(100)]
pub proof fn lemma_block_fixed_point(g: Seq<Seq<CellState>>, h: int, bx: int, by: int, opts: Options)
    requires
        opts == Options::default_spec(),
        is_block_grid(g, h, bx, by),
    ensures
        step_spec(g, h, opts) == g,
{
    assert forall|x: int, y: int| 0 <= x < g.len() && 0 <= y < h implies ({
        &&& infected_neighbors(g, h, x, y) == 0
        &&& (in_block(bx, by, x, y) ==> live_neighbors(g, h, x, y) == 3)
        &&& (!in_block(bx, by, x, y) ==> live_neighbors(g, h, x, y) <= 2)
    }) by {
        assert(cell_is(g, h, x - 1, y - 1, CellState::Infected) == 0);
        assert(cell_is(g, h, x - 1, y, CellState::Infected) == 0);
        assert(cell_is(g, h, x - 1, y + 1, CellState::Infected) == 0);
        assert(cell_is(g, h, x, y - 1, CellState::Infected) == 0);
        assert(cell_is(g, h, x, y + 1, CellState::Infected) == 0);
        assert(cell_is(g, h, x + 1, y - 1, CellState::Infected) == 0);
        assert(cell_is(g, h, x + 1, y, CellState::Infected) == 0);
        assert(cell_is(g, h, x + 1, y + 1, CellState::Infected) == 0);
        assert(cell_is(g, h, x - 1, y - 1, CellState::Alive) == (
        if in_bounds(g.len() as int, h, x - 1, y - 1) && in_block(bx, by, x - 1, y - 1) { 1nat } else { 0nat }));
        assert(cell_is(g, h, x - 1, y, CellState::Alive) == (
        if in_bounds(g.len() as int, h, x - 1, y) && in_block(bx, by, x - 1, y) { 1nat } else { 0nat }));
        assert(cell_is(g, h, x - 1, y + 1, CellState::Alive) == (
        if in_bounds(g.len() as int, h, x - 1, y + 1) && in_block(bx, by, x - 1, y + 1) { 1nat } else { 0nat }));
        assert(cell_is(g, h, x, y - 1, CellState::Alive) == (
        if in_bounds(g.len() as int, h, x, y - 1) && in_block(bx, by, x, y - 1) { 1nat } else { 0nat }));
        assert(cell_is(g, h, x, y + 1, CellState::Alive) == (
        if in_bounds(g.len() as int, h, x, y + 1) && in_block(bx, by, x, y + 1) { 1nat } else { 0nat }));
        assert(cell_is(g, h, x + 1, y - 1, CellState::Alive) == (
        if in_bounds(g.len() as int, h, x + 1, y - 1) && in_block(bx, by, x + 1, y - 1) { 1nat } else { 0nat }));
        assert(cell_is(g, h, x + 1, y, CellState::Alive) == (
        if in_bounds(g.len() as int, h, x + 1, y) && in_block(bx, by, x + 1, y) { 1nat } else { 0nat }));
        assert(cell_is(g, h, x + 1, y + 1, CellState::Alive) == (
        if in_bounds(g.len() as int, h, x + 1, y + 1) && in_block(bx, by, x + 1, y + 1) { 1nat } else { 0nat }));
    }
    assert(step_spec(g, h, opts) =~~= g);
}

/// Still-life stability: under the default rule set, a 2-by-2 block of
/// Alive cells on an otherwise-Dead grid is unchanged after any number of
/// generations.
pub proof fn lemma_block_still_life(
    g: Seq<Seq<CellState>>,
    h: int,
    bx: int,
    by: int,
    opts: Options,
    n: nat,
)
    requires
        opts == Options::default_spec(),
        is_block_grid(g, h, bx, by),
    ensures
        step_n_spec(g, h, opts, n) == g,
{
    lemma_block_fixed_point(g, h, bx, by, opts);
    lemma_fixed_point_stable(g, h, opts, n);
}

} // verus!
