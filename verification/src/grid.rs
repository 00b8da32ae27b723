//! The grid store: a width-by-height array of cell states, indexed by
//! coordinate. Created once, all Dead; mutated only by the step scheduler
//! during play and by the manual override while paused.

use vstd::prelude::*;

use crate::cell::CellState;

verus! {

/// The default grid width, in cells.
pub const MAP_WIDTH: usize = 100;

/// The default grid height, in cells.
pub const MAP_HEIGHT: usize = 100;

/// Why a grid request was rejected.
#[derive(PartialEq, Eq, Structural, Clone, Copy, Debug)]
pub enum GridError {
    /// The coordinate lies outside the grid.
    OutOfBounds,
}

/// The states of every cell in the grid, column by column: the cell at
/// coordinate `(x, y)` is element `y` of column `x`.
pub struct CellStates {
    width: usize,
    height: usize,
    cells: Vec<Vec<CellState>>,
}

impl View for CellStates {
    type V = Seq<Seq<CellState>>;

    closed spec fn view(&self) -> Seq<Seq<CellState>> {
        self.cells@.map_values(|col: Vec<CellState>| col@)
    }
}

impl CellStates {
    /// The grid's width, as the contracts speak of it.
    pub closed spec fn spec_width(self) -> usize {
        self.width
    }

    /// The grid's height, as the contracts speak of it.
    pub closed spec fn spec_height(self) -> usize {
        self.height
    }

    /// A well-formed grid: at least one column and one row, every column of
    /// the same height, and a cell count a `usize` can hold.
    pub open spec fn wf(self) -> bool {
        &&& self@.len() == self.spec_width()
        &&& forall|x: int| 0 <= x < self@.len() ==> (#[trigger] self@[x]).len() == self.spec_height()
        &&& 1 <= self.spec_width()
        &&& 1 <= self.spec_height()
        &&& self.spec_width() * self.spec_height() <= usize::MAX
    }

    /// Whether the coordinate `(x, y)` lies on the grid.
    pub open spec fn contains_coord(self, x: int, y: int) -> bool {
        0 <= x < self.spec_width() && 0 <= y < self.spec_height()
    }

    /// Build a column of `height` Dead cells.
    fn dead_column(height: usize) -> (col: Vec<CellState>)
        ensures
            col@.len() == height,
            forall|y: int| 0 <= y < height ==> col@[y] == CellState::Dead,
    {
        let mut col: Vec<CellState> = Vec::new();
        let mut y: usize = 0;
        while y < height
            invariant
                y <= height,
                col@.len() == y,
                forall|j: int| 0 <= j < y ==> col@[j] == CellState::Dead,
            decreases height - y,
        {
            col.push(CellState::Dead);
            y = y + 1;
        }
        col
    }

    /// Create a grid of the given size with every cell Dead.
    pub fn new(width: usize, height: usize) -> (r: CellStates)
        requires
            1 <= width,
            1 <= height,
            width * height <= usize::MAX,
        ensures
            r.wf(),
            r.spec_width() == width,
            r.spec_height() == height,
            forall|x: int, y: int| r.contains_coord(x, y) ==> r@[x][y] == CellState::Dead,
    {
        let mut cells: Vec<Vec<CellState>> = Vec::new();
        let mut x: usize = 0;
        while x < width
            invariant
                x <= width,
                cells@.len() == x,
                forall|i: int| 0 <= i < x ==> (#[trigger] cells@[i])@.len() == height,
                forall|i: int, j: int|
                    0 <= i < x && 0 <= j < height ==> cells@[i]@[j] == CellState::Dead,
            decreases width - x,
        {
            cells.push(Self::dead_column(height));
            x = x + 1;
        }
        let r = CellStates { width, height, cells };
        proof {
            assert(forall|i: int| 0 <= i < width ==> r@[i] == cells@[i]@);
        }
        r
    }

    /// The grid's width.
    pub fn width(&self) -> (r: usize)
        ensures
            r == self.spec_width(),
    {
        self.width
    }

    /// The grid's height.
    pub fn height(&self) -> (r: usize)
        ensures
            r == self.spec_height(),
    {
        self.height
    }

    /// The state of the cell at `(x, y)`.
    pub fn get(&self, x: usize, y: usize) -> (r: CellState)
        requires
            self.wf(),
            self.contains_coord(x as int, y as int),
        ensures
            r == self@[x as int][y as int],
    {
        self.cells[x][y]
    }

    /// Overwrite the cell at `(x, y)` with the given state.
    pub fn set(&mut self, x: usize, y: usize, s: CellState)
        requires
            old(self).wf(),
            old(self).contains_coord(x as int, y as int),
        ensures
            final(self).wf(),
            final(self).spec_width() == old(self).spec_width(),
            final(self).spec_height() == old(self).spec_height(),
            final(self)@ == old(self)@.update(x as int, old(self)@[x as int].update(y as int, s)),
    {
        let mut col = self.cells.remove(x);
        proof {
            assert(col@ == old(self)@[x as int]);
        }
        col[y] = s;
        self.cells.insert(x, col);
        proof {
            assert(self@ =~= old(self)@.update(
                x as int,
                old(self)@[x as int].update(y as int, s),
            ));
        }
    }

    /// Overwrite the cell at `(x, y)` if the coordinate is on the grid;
    /// reject an out-of-bounds coordinate, leaving the grid unchanged.
    pub fn try_set(&mut self, x: usize, y: usize, s: CellState) -> (r: Result<(), GridError>)
        requires
            old(self).wf(),
        ensures
            final(self).wf(),
            final(self).spec_width() == old(self).spec_width(),
            final(self).spec_height() == old(self).spec_height(),
            old(self).contains_coord(x as int, y as int) ==> r == Ok::<(), GridError>(()) && final(self)@
                == old(self)@.update(x as int, old(self)@[x as int].update(y as int, s)),
            !old(self).contains_coord(x as int, y as int) ==> r == Err::<(), GridError>(
                GridError::OutOfBounds,
            ) && final(self)@ == old(self)@,
    {
        if x < self.width && y < self.height {
            self.set(x, y, s);
            Ok(())
        } else {
            Err(GridError::OutOfBounds)
        }
    }

    /// Set every cell to Dead, keeping the grid's size.
    pub fn clear(&mut self)
        requires
            old(self).wf(),
        ensures
            final(self).wf(),
            final(self).spec_width() == old(self).spec_width(),
            final(self).spec_height() == old(self).spec_height(),
            forall|x: int, y: int| final(self).contains_coord(x, y) ==> final(self)@[x][y] == CellState::Dead,
    {
        let cleared = Self::new(self.width, self.height);
        self.cells = cleared.cells;
    }

    /// Rebuild a grid from explicit columns: at least one column, every
    /// column non-empty and of one height, and a cell count a `usize` can
    /// hold.
    pub fn from_columns(cells: Vec<Vec<CellState>>) -> (r: CellStates)
        requires
            1 <= cells@.len(),
            1 <= cells@[0]@.len(),
            forall|x: int|
                0 <= x < cells@.len() ==> (#[trigger] cells@[x])@.len() == cells@[0]@.len(),
            cells@.len() * cells@[0]@.len() <= usize::MAX,
        ensures
            r.wf(),
            r.spec_width() == cells@.len(),
            r.spec_height() == cells@[0]@.len(),
            forall|x: int| 0 <= x < cells@.len() ==> r@[x] == (#[trigger] cells@[x])@,
    {
        let width = cells.len();
        let height = cells[0].len();
        CellStates { width, height, cells }
    }
}

impl Default for CellStates {
    /// The default grid: 100 by 100, every cell Dead.
    fn default() -> (r: Self)
        ensures
            r.wf(),
            r.spec_width() == MAP_WIDTH,
            r.spec_height() == MAP_HEIGHT,
            forall|x: int, y: int| r.contains_coord(x, y) ==> r@[x][y] == CellState::Dead,
    {
        CellStates::new(MAP_WIDTH, MAP_HEIGHT)
    }
}

} // verus!
