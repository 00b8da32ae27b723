use contagion::cell::CellState;
use contagion::grid::{CellStates, GridError};
use contagion::neighbors::count_neighbors;
use contagion::report::{assess, count_cells, Verdict};

#[test]
fn a_new_grid_is_all_dead_with_the_requested_size() {
    let grid = CellStates::new(4, 3);
    assert_eq!(grid.width(), 4);
    assert_eq!(grid.height(), 3);
    for x in 0..4 {
        for y in 0..3 {
            assert_eq!(grid.get(x, y), CellState::Dead);
        }
    }
}

#[test]
fn the_default_grid_is_one_hundred_square() {
    let grid = CellStates::default();
    assert_eq!(grid.width(), 100);
    assert_eq!(grid.height(), 100);
    assert_eq!(grid.get(99, 99), CellState::Dead);
}

#[test]
fn set_and_get_round_trip() {
    let mut grid = CellStates::new(3, 3);
    grid.set(1, 2, CellState::Alive);
    grid.set(0, 0, CellState::Infected);
    assert_eq!(grid.get(1, 2), CellState::Alive);
    assert_eq!(grid.get(0, 0), CellState::Infected);
    assert_eq!(grid.get(2, 2), CellState::Dead);
}

#[test]
fn out_of_bounds_writes_are_rejected_without_wrapping() {
    let mut grid = CellStates::new(3, 3);
    assert_eq!(grid.try_set(3, 0, CellState::Alive), Err(GridError::OutOfBounds));
    assert_eq!(grid.try_set(0, 3, CellState::Alive), Err(GridError::OutOfBounds));
    assert_eq!(grid.try_set(100, 100, CellState::Alive), Err(GridError::OutOfBounds));
    for x in 0..3 {
        for y in 0..3 {
            assert_eq!(grid.get(x, y), CellState::Dead);
        }
    }
    assert_eq!(grid.try_set(2, 2, CellState::Alive), Ok(()));
    assert_eq!(grid.get(2, 2), CellState::Alive);
}

#[test]
fn clear_kills_every_cell_and_keeps_the_size() {
    let mut grid = CellStates::new(3, 4);
    grid.set(1, 1, CellState::Alive);
    grid.set(2, 3, CellState::Infected);
    grid.clear();
    assert_eq!(grid.width(), 3);
    assert_eq!(grid.height(), 4);
    for x in 0..3 {
        for y in 0..4 {
            assert_eq!(grid.get(x, y), CellState::Dead);
        }
    }
}

#[test]
fn corner_edge_and_interior_cells_see_three_five_and_eight_neighbors() {
    // On an all-Alive grid the live count equals the number of cells the
    // clipped window examines.
    let mut grid = CellStates::new(4, 4);
    for x in 0..4 {
        for y in 0..4 {
            grid.set(x, y, CellState::Alive);
        }
    }
    for corner in [(0, 0), (3, 0), (0, 3), (3, 3)] {
        assert_eq!(count_neighbors(&grid, corner.0, corner.1), (3, 0));
    }
    for edge in [(1, 0), (2, 0), (0, 1), (3, 2), (1, 3), (2, 3)] {
        assert_eq!(count_neighbors(&grid, edge.0, edge.1), (5, 0));
    }
    for interior in [(1, 1), (2, 1), (1, 2), (2, 2)] {
        assert_eq!(count_neighbors(&grid, interior.0, interior.1), (8, 0));
    }
}

#[test]
fn neighbor_counting_separates_live_from_infected_and_skips_dead() {
    let mut grid = CellStates::new(3, 3);
    grid.set(0, 0, CellState::Alive);
    grid.set(1, 0, CellState::Infected);
    grid.set(2, 0, CellState::Alive);
    grid.set(0, 1, CellState::Infected);
    grid.set(2, 1, CellState::Infected);
    // The centre cell's own state never counts.
    grid.set(1, 1, CellState::Alive);
    assert_eq!(count_neighbors(&grid, 1, 1), (2, 3));
    // A neighbor of the centre: (0, 0) sees (1, 0) infected, (0, 1)
    // infected and (1, 1) alive.
    assert_eq!(count_neighbors(&grid, 0, 0), (1, 2));
}

#[test]
fn counting_cells_tallies_alive_and_infected() {
    let mut grid = CellStates::new(3, 3);
    assert_eq!(count_cells(&grid), (0, 0));
    grid.set(0, 0, CellState::Alive);
    grid.set(1, 1, CellState::Alive);
    grid.set(2, 2, CellState::Infected);
    assert_eq!(count_cells(&grid), (2, 1));
}

#[test]
fn the_verdict_compares_infected_against_alive_exactly() {
    assert_eq!(assess(0, 0), Verdict::Undetermined);
    assert_eq!(assess(3, 4), Verdict::Pandemic);
    assert_eq!(assess(0, 1), Verdict::Pandemic);
    assert_eq!(assess(4, 4), Verdict::NoPandemic);
    assert_eq!(assess(5, 0), Verdict::NoPandemic);
}
