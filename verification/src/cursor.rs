//! The cursor and camera positions on the grid, and the clamped movement
//! they share: a move toward an edge that is already at that edge does
//! nothing, so neither ever leaves the grid.

use vstd::prelude::*;

use crate::grid::MAP_HEIGHT;
use crate::grid::MAP_WIDTH;

verus! {

/// A direction a cursor or camera can be asked to move in.
#[derive(PartialEq, Eq, Structural, Clone, Copy, Debug)]
pub enum Direction {
    Left,
    Right,
    Up,
    Down,
}

/// Where a clamped move from `(x, y)` lands on a `w`-by-`h` grid: one cell
/// in the given direction, or the same place when that would leave the
/// grid.
pub open spec fn moved_coord(x: int, y: int, dir: Direction, w: int, h: int) -> (int, int) {
    match dir {
        Direction::Left => if x > 0 {
            (x - 1, y)
        } else {
            (x, y)
        },
        Direction::Right => if x < w - 1 {
            (x + 1, y)
        } else {
            (x, y)
        },
        Direction::Up => if y > 0 {
            (x, y - 1)
        } else {
            (x, y)
        },
        Direction::Down => if y < h - 1 {
            (x, y + 1)
        } else {
            (x, y)
        },
    }
}

/// The cursor's position on the grid.
pub struct CursorPosition(pub usize, pub usize);

/// The cursor's position before its last move.
pub struct PrevCursorPosition(pub usize, pub usize);

/// The camera's position in relation to the grid.
pub struct CameraPosition(pub usize, pub usize);

impl Default for CursorPosition {
    /// The cursor starts at the centre of the default grid.
    fn default() -> (r: Self)
        ensures
            r.0 == MAP_WIDTH / 2,
            r.1 == MAP_HEIGHT / 2,
    {
        Self(MAP_WIDTH / 2, MAP_HEIGHT / 2)
    }
}

impl Default for PrevCursorPosition {
    fn default() -> (r: Self)
        ensures
            r.0 == 0,
            r.1 == 0,
    {
        Self(0, 0)
    }
}

impl Default for CameraPosition {
    /// The camera starts over the centre of the default grid.
    fn default() -> (r: Self)
        ensures
            r.0 == MAP_WIDTH / 2,
            r.1 == MAP_HEIGHT / 2,
    {
        Self(MAP_WIDTH / 2, MAP_HEIGHT / 2)
    }
}

impl CursorPosition {
    /// Move the cursor one cell, clamped to the grid; when it moves, the
    /// previous position records where it stood, and when the edge stops
    /// it, both stay as they were.
    pub fn step(&mut self, prev: &mut PrevCursorPosition, dir: Direction, width: usize, height: usize)
        requires
            old(self).0 < width,
            old(self).1 < height,
        ensures
            (final(self).0 as int, final(self).1 as int) == moved_coord(
                old(self).0 as int,
                old(self).1 as int,
                dir,
                width as int,
                height as int,
            ),
            final(self).0 < width,
            final(self).1 < height,
            (final(self).0 != old(self).0 || final(self).1 != old(self).1) ==> final(prev).0 == old(
                self,
            ).0 && final(prev).1 == old(self).1,
            (final(self).0 == old(self).0 && final(self).1 == old(self).1) ==> final(prev).0 == old(
                prev,
            ).0 && final(prev).1 == old(prev).1,
    {
        match dir {
            Direction::Left => {
                if self.0 > 0 {
                    prev.0 = self.0;
                    prev.1 = self.1;
                    self.0 = self.0 - 1;
                }
            },
            Direction::Right => {
                if self.0 < width - 1 {
                    prev.0 = self.0;
                    prev.1 = self.1;
                    self.0 = self.0 + 1;
                }
            },
            Direction::Up => {
                if self.1 > 0 {
                    prev.0 = self.0;
                    prev.1 = self.1;
                    self.1 = self.1 - 1;
                }
            },
            Direction::Down => {
                if self.1 < height - 1 {
                    prev.0 = self.0;
                    prev.1 = self.1;
                    self.1 = self.1 + 1;
                }
            },
        }
    }

    /// Return the cursor to the centre of a `width`-by-`height` grid,
    /// recording where it stood.
    pub fn centre(&mut self, prev: &mut PrevCursorPosition, width: usize, height: usize)
        ensures
            final(self).0 == width / 2,
            final(self).1 == height / 2,
            final(prev).0 == old(self).0,
            final(prev).1 == old(self).1,
    {
        prev.0 = self.0;
        prev.1 = self.1;
        self.0 = width / 2;
        self.1 = height / 2;
    }
}

impl CameraPosition {
    /// Move the camera one cell, clamped to the grid.
    pub fn step(&mut self, dir: Direction, width: usize, height: usize)
        requires
            old(self).0 < width,
            old(self).1 < height,
        ensures
            (final(self).0 as int, final(self).1 as int) == moved_coord(
                old(self).0 as int,
                old(self).1 as int,
                dir,
                width as int,
                height as int,
            ),
            final(self).0 < width,
            final(self).1 < height,
    {
        match dir {
            Direction::Left => {
                if self.0 > 0 {
                    self.0 = self.0 - 1;
                }
            },
            Direction::Right => {
                if self.0 < width - 1 {
                    self.0 = self.0 + 1;
                }
            },
            Direction::Up => {
                if self.1 > 0 {
                    self.1 = self.1 - 1;
                }
            },
            Direction::Down => {
                if self.1 < height - 1 {
                    self.1 = self.1 + 1;
                }
            },
        }
    }
}

/// What one cell changing state looks like to a debugging panel: entries
/// are appended as changes happen and can be cleared.
pub struct History(pub Vec<String>);

impl Default for History {
    fn default() -> (r: Self)
        ensures
            r.0@.len() == 0,
    {
        Self(Vec::new())
    }
}

impl History {
    /// Append one entry.
    pub fn record(&mut self, entry: String)
        ensures
            final(self).0@ == old(self).0@.push(entry),
    {
        self.0.push(entry);
    }

    /// Forget every entry.
    pub fn clear(&mut self)
        ensures
            final(self).0@.len() == 0,
    {
        self.0.clear();
    }
}

} // verus!
