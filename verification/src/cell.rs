//! The per-cell state and the renderer-facing identity of a cell.

use vstd::prelude::*;

verus! {

/// Marker for the entity that owns the whole grid of cells.
pub struct MapComponent;

/// The three states a grid cell can be in. A fresh cell is Dead.
#[derive(PartialEq, Eq, Structural, Clone, Copy, Debug)]
pub enum CellState {
    Dead,
    Alive,
    Infected,
}

impl Default for CellState {
    fn default() -> (r: Self)
        ensures
            r == CellState::Dead,
    {
        CellState::Dead
    }
}

/// The state a cell enters when a manual override cycles it once:
/// Dead becomes Alive, Alive becomes Infected, Infected becomes Dead.
pub open spec fn cycle_spec(s: CellState) -> CellState {
    match s {
        CellState::Dead => CellState::Alive,
        CellState::Alive => CellState::Infected,
        CellState::Infected => CellState::Dead,
    }
}

/// The sprite-sheet index a renderer shows for each state:
/// Dead is 0, Infected is 1, Alive is 2.
pub open spec fn sprite_index_spec(s: CellState) -> usize {
    match s {
        CellState::Dead => 0,
        CellState::Infected => 1,
        CellState::Alive => 2,
    }
}

impl CellState {
    /// Cycle this state once, as a manual override does.
    pub fn cycled(self) -> (r: CellState)
        ensures
            r == cycle_spec(self),
    {
        match self {
            CellState::Dead => CellState::Alive,
            CellState::Alive => CellState::Infected,
            CellState::Infected => CellState::Dead,
        }
    }

    /// The sprite-sheet index a renderer shows for this state.
    pub fn sprite_index(self) -> (r: usize)
        ensures
            r == sprite_index_spec(self),
    {
        match self {
            CellState::Dead => 0,
            CellState::Infected => 1,
            CellState::Alive => 2,
        }
    }
}

/// Cycling a cell three times returns it to the state it started in,
/// whatever that state was.
pub proof fn lemma_cycle_period(s: CellState)
    ensures
        cycle_spec(cycle_spec(cycle_spec(s))) == s,
{
}

/// A cell as the renderer sees it: its fixed coordinate and its state.
pub struct CellComponent {
    pub coord: (usize, usize),
    pub state: CellState,
}

impl Clone for CellComponent {
    fn clone(&self) -> (r: Self)
        ensures
            r.coord == self.coord,
            r.state == self.state,
    {
        Self { coord: (self.coord.0, self.coord.1), state: self.state }
    }
}

impl Default for CellComponent {
    fn default() -> (r: Self)
        ensures
            r.coord == (0usize, 0usize),
            r.state == CellState::Dead,
    {
        Self { coord: (0, 0), state: CellState::Dead }
    }
}

} // verus!
