//! A configurable cellular-automaton engine: a fixed-size grid of cells, each
//! Dead, Alive or Infected, advanced one generation per tick according to a
//! rule set that generalizes Conway's Game of Life with an infection mechanic.

pub mod cell;
pub mod cursor;
pub mod generation;
pub mod grid;
pub mod neighbors;
pub mod options;
pub mod parse;
pub mod report;
pub mod rules;
pub mod sim;
pub mod timer;
pub mod transition;

pub use cell::CellComponent;
pub use cell::CellState;
pub use cell::MapComponent;
