//! The end-of-game tally: how many cells are Alive and how many Infected,
//! and whether the infected outnumber the alive. A renderer turns the
//! verdict into a percentage and a message; the decision itself is exact
//! integer arithmetic.

use vstd::prelude::*;

use crate::cell::CellState;
use crate::grid::CellStates;

verus! {

/// How many cells of a column hold state `s`.
pub open spec fn column_count(col: Seq<CellState>, s: CellState) -> nat
    decreases col.len(),
{
    if col.len() == 0 {
        0nat
    } else {
        column_count(col.drop_last(), s) + if col.last() == s {
            1nat
        } else {
            0nat
        }
    }
}

/// How many cells of the whole grid hold state `s`.
pub open spec fn grid_count(g: Seq<Seq<CellState>>, s: CellState) -> nat
    decreases g.len(),
{
    if g.len() == 0 {
        0nat
    } else {
        grid_count(g.drop_last(), s) + column_count(g.last(), s)
    }
}

/// Count the Alive and the Infected cells of the grid.
pub fn count_cells(grid: &CellStates) -> (r: (usize, usize))
    requires
        grid.wf(),
    ensures
        r.0 == grid_count(grid@, CellState::Alive),
        r.1 == grid_count(grid@, CellState::Infected),
{
    let w = grid.width();
    let h = grid.height();
    let mut alive: usize = 0;
    let mut infected: usize = 0;
    let mut x: usize = 0;
    while x < w
        invariant
            grid.wf(),
            w == grid.spec_width(),
            h == grid.spec_height(),
            x <= w,
            alive == grid_count(grid@.subrange(0, x as int), CellState::Alive),
            infected == grid_count(grid@.subrange(0, x as int), CellState::Infected),
            alive <= x * h,
            infected <= x * h,
        decreases w - x,
    {
        let ghost cols_before = grid@.subrange(0, x as int);
        proof {
            assert(x * h + h <= w * h) by (nonlinear_arith)
                requires
                    x < w,
                    0 <= h,
            ;
        }
        let mut y: usize = 0;
        while y < h
            invariant
                grid.wf(),
                w == grid.spec_width(),
                h == grid.spec_height(),
                x < w,
                y <= h,
                cols_before == grid@.subrange(0, x as int),
                alive == grid_count(cols_before, CellState::Alive) + column_count(
                    grid@[x as int].subrange(0, y as int),
                    CellState::Alive,
                ),
                infected == grid_count(cols_before, CellState::Infected) + column_count(
                    grid@[x as int].subrange(0, y as int),
                    CellState::Infected,
                ),
                alive <= x * h + y,
                infected <= x * h + y,
                x * h + h <= w * h <= usize::MAX,
            decreases h - y,
        {
            proof {
                let col = grid@[x as int];
                assert(col.subrange(0, y + 1).drop_last() =~= col.subrange(0, y as int));
                assert(col.subrange(0, y + 1).last() == col[y as int]);
            }
            match grid.get(x, y) {
                CellState::Alive => alive = alive + 1,
                CellState::Infected => infected = infected + 1,
                CellState::Dead => (),
            }
            y = y + 1;
        }
        proof {
            assert(grid@.subrange(0, x + 1).drop_last() =~= grid@.subrange(0, x as int));
            assert(grid@.subrange(0, x + 1).last() == grid@[x as int]);
            assert(grid@[x as int].subrange(0, h as int) =~= grid@[x as int]);
            assert((x + 1) * h == x * h + h) by (nonlinear_arith);
        }
        x = x + 1;
    }
    proof {
        assert(grid@.subrange(0, w as int) =~= grid@);
    }
    (alive, infected)
}

/// What the tally concludes.
#[derive(PartialEq, Eq, Structural, Clone, Copy, Debug)]
pub enum Verdict {
    /// More than half of the non-Dead cells are infected.
    Pandemic,
    /// At most half of the non-Dead cells are infected.
    NoPandemic,
    /// There is no Alive or Infected cell, so no proportion exists.
    Undetermined,
}

/// Decide whether the infected cells outnumber the alive ones: a pandemic
/// is strictly more infected than alive cells, which is exactly an infected
/// proportion above one half; with no cell in either state the question has
/// no answer.
pub fn assess(alive: usize, infected: usize) -> (r: Verdict)
    ensures
        alive == 0 && infected == 0 ==> r == Verdict::Undetermined,
        infected > alive ==> r == Verdict::Pandemic,
        (alive > 0 || infected > 0) && infected <= alive ==> r == Verdict::NoPandemic,
{
    if alive == 0 && infected == 0 {
        Verdict::Undetermined
    } else if infected > alive {
        Verdict::Pandemic
    } else {
        Verdict::NoPandemic
    }
}

} // verus!
