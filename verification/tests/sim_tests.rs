use contagion::cell::CellState;
use contagion::cursor::{CameraPosition, CursorPosition, Direction, History, PrevCursorPosition};
use contagion::grid::GridError;
use contagion::rules::Rules;
use contagion::sim::{concluded, play_toggled, GameState, Simulation};
use contagion::timer::GameTimer;

fn assert_only_alive(sim: &Simulation, alive: &[(usize, usize)]) {
    for x in 0..sim.grid.width() {
        for y in 0..sim.grid.height() {
            let expected = if alive.contains(&(x, y)) {
                CellState::Alive
            } else {
                CellState::Dead
            };
            assert_eq!(sim.grid.get(x, y), expected, "cell ({}, {})", x, y);
        }
    }
}

#[test]
fn blinker_oscillates_between_vertical_and_horizontal() {
    let mut sim = Simulation::new(6, 6);
    for (x, y) in [(2, 1), (2, 2), (2, 3)] {
        sim.toggle_cell(GameState::Paused, x, y).unwrap();
    }
    assert_only_alive(&sim, &[(2, 1), (2, 2), (2, 3)]);

    let gens = sim.advance(GameState::Play, 500);
    assert_eq!(gens, 1);
    assert_only_alive(&sim, &[(1, 2), (2, 2), (3, 2)]);

    let gens = sim.advance(GameState::Play, 500);
    assert_eq!(gens, 1);
    assert_only_alive(&sim, &[(2, 1), (2, 2), (2, 3)]);
}

#[test]
fn a_block_is_a_still_life_over_many_generations() {
    let mut sim = Simulation::new(6, 6);
    for (x, y) in [(1, 1), (2, 1), (1, 2), (2, 2)] {
        sim.toggle_cell(GameState::Paused, x, y).unwrap();
    }
    for _ in 0..10 {
        assert_eq!(sim.advance(GameState::Play, 500), 1);
        assert_only_alive(&sim, &[(1, 1), (2, 1), (1, 2), (2, 2)]);
    }
}

#[test]
fn an_all_dead_grid_stays_all_dead() {
    let mut sim = Simulation::new(5, 5);
    for _ in 0..8 {
        sim.advance(GameState::Play, 500);
        assert_only_alive(&sim, &[]);
    }
}

#[test]
fn advancing_outside_play_changes_nothing() {
    let mut sim = Simulation::new(4, 4);
    sim.toggle_cell(GameState::Paused, 1, 1).unwrap();
    assert_eq!(sim.advance(GameState::Paused, 10_000), 0);
    assert_eq!(sim.advance(GameState::Complete, 10_000), 0);
    assert_only_alive(&sim, &[(1, 1)]);
    assert_eq!(sim.timer.elapsed_millis(), 0);
}

#[test]
fn the_clock_carries_remainders_instead_of_dropping_them() {
    let mut timer = GameTimer::new(500);
    assert_eq!(timer.tick(300), 0);
    assert_eq!(timer.elapsed_millis(), 300);
    assert_eq!(timer.tick(300), 1);
    assert_eq!(timer.elapsed_millis(), 100);
    assert_eq!(timer.tick(1200), 2);
    assert_eq!(timer.elapsed_millis(), 300);
    timer.set_interval(100);
    assert_eq!(timer.elapsed_millis(), 0);
    assert_eq!(timer.tick(1000), 10);
}

#[test]
fn slow_frames_still_step_every_due_generation() {
    // A blinker under a 1500 ms delta on a 500 ms interval steps three
    // generations at once: vertical, horizontal, vertical again.
    let mut sim = Simulation::new(6, 6);
    for (x, y) in [(2, 1), (2, 2), (2, 3)] {
        sim.toggle_cell(GameState::Paused, x, y).unwrap();
    }
    assert_eq!(sim.advance(GameState::Play, 1500), 3);
    assert_only_alive(&sim, &[(1, 2), (2, 2), (3, 2)]);
}

#[test]
fn round_trip_rule_configuration() {
    let mut sim = Simulation::default();
    sim.set_living_rule(Rules::range(1, 4).unwrap());
    assert_eq!(
        *sim.options(),
        contagion::options::Options {
            living_rule: Rules::Range { min: 1, max: 4 },
            dead_rule: Rules::Default,
            virulence: 2,
            tick_millis: 500,
        }
    );

    sim.set_living_rule_text("1 4 7 8").unwrap();
    assert_eq!(sim.options().living_rule, Rules::Singles(vec![1, 4, 7, 8]));

    let err = sim.set_living_rule_text("1 x 7").unwrap_err();
    assert_eq!(err.token, "x");
    assert_eq!(sim.options().living_rule, Rules::Singles(vec![1, 4, 7, 8]));

    sim.set_dead_rule(Rules::single(2).unwrap());
    assert_eq!(sim.options().dead_rule, Rules::Single(2));
    sim.set_dead_rule_text("0 8").unwrap();
    assert_eq!(sim.options().dead_rule, Rules::Singles(vec![0, 8]));
    let err = sim.set_dead_rule_text("nope").unwrap_err();
    assert_eq!(err.token, "nope");
    assert_eq!(sim.options().dead_rule, Rules::Singles(vec![0, 8]));
}

#[test]
fn manual_override_cycles_dead_alive_infected_dead() {
    let mut sim = Simulation::new(5, 5);
    assert_eq!(
        sim.toggle_cell(GameState::Paused, 2, 2),
        Ok(CellState::Alive)
    );
    assert_eq!(
        sim.toggle_cell(GameState::Paused, 2, 2),
        Ok(CellState::Infected)
    );
    assert_eq!(sim.toggle_cell(GameState::Paused, 2, 2), Ok(CellState::Dead));
    // No generation step happened between the toggles.
    assert_eq!(sim.timer.elapsed_millis(), 0);
    assert_only_alive(&sim, &[]);
}

#[test]
fn manual_override_rejects_coordinates_off_the_grid() {
    let mut sim = Simulation::new(5, 5);
    assert_eq!(
        sim.toggle_cell(GameState::Paused, 5, 0),
        Err(GridError::OutOfBounds)
    );
    assert_eq!(
        sim.toggle_cell(GameState::Complete, 0, 5),
        Err(GridError::OutOfBounds)
    );
    assert_only_alive(&sim, &[]);
}

#[test]
fn clearing_the_simulation_keeps_rules_and_clock() {
    let mut sim = Simulation::new(4, 4);
    sim.set_virulence(4).unwrap();
    sim.toggle_cell(GameState::Paused, 0, 0).unwrap();
    sim.toggle_cell(GameState::Paused, 3, 3).unwrap();
    sim.clear();
    assert_only_alive(&sim, &[]);
    assert_eq!(sim.options().virulence, 4);
}

#[test]
fn changing_the_tick_interval_resets_the_clock() {
    let mut sim = Simulation::new(4, 4);
    sim.advance(GameState::Play, 300);
    assert_eq!(sim.timer.elapsed_millis(), 300);
    sim.set_tick_millis(200).unwrap();
    assert_eq!(sim.timer.elapsed_millis(), 0);
    assert_eq!(sim.timer.interval_millis(), 200);
    assert_eq!(sim.advance(GameState::Play, 450), 2);
    assert_eq!(sim.timer.elapsed_millis(), 50);
}

#[test]
fn mode_transitions_follow_the_two_keys() {
    assert_eq!(play_toggled(GameState::Paused), GameState::Play);
    assert_eq!(play_toggled(GameState::Play), GameState::Paused);
    assert_eq!(play_toggled(GameState::Complete), GameState::Complete);
    assert_eq!(concluded(GameState::Paused), GameState::Complete);
    assert_eq!(concluded(GameState::Play), GameState::Complete);
    assert_eq!(concluded(GameState::Complete), GameState::Paused);
}

#[test]
fn the_cursor_moves_with_clamping_and_remembers_where_it_was() {
    let mut cursor = CursorPosition::default();
    assert_eq!((cursor.0, cursor.1), (50, 50));
    let mut prev = PrevCursorPosition::default();
    cursor.step(&mut prev, Direction::Left, 100, 100);
    assert_eq!((cursor.0, cursor.1), (49, 50));
    assert_eq!((prev.0, prev.1), (50, 50));
    cursor.step(&mut prev, Direction::Down, 100, 100);
    assert_eq!((cursor.0, cursor.1), (49, 51));
    assert_eq!((prev.0, prev.1), (49, 50));

    let mut corner = CursorPosition(0, 0);
    let mut prev2 = PrevCursorPosition(7, 7);
    corner.step(&mut prev2, Direction::Left, 100, 100);
    corner.step(&mut prev2, Direction::Up, 100, 100);
    assert_eq!((corner.0, corner.1), (0, 0));
    assert_eq!((prev2.0, prev2.1), (7, 7));

    corner.centre(&mut prev2, 100, 100);
    assert_eq!((corner.0, corner.1), (50, 50));
    assert_eq!((prev2.0, prev2.1), (0, 0));
}

#[test]
fn the_camera_moves_with_clamping() {
    let mut camera = CameraPosition::default();
    assert_eq!((camera.0, camera.1), (50, 50));
    camera.step(Direction::Right, 100, 100);
    assert_eq!((camera.0, camera.1), (51, 50));
    let mut edge = CameraPosition(99, 99);
    edge.step(Direction::Right, 100, 100);
    edge.step(Direction::Down, 100, 100);
    assert_eq!((edge.0, edge.1), (99, 99));
}

#[test]
fn history_records_and_clears_entries() {
    let mut history = History::default();
    assert_eq!(history.0.len(), 0);
    history.record(String::from("(2, 3): Dead -> Alive"));
    history.record(String::from("(2, 4): Alive -> Infected"));
    assert_eq!(history.0.len(), 2);
    assert_eq!(history.0[0], "(2, 3): Dead -> Alive");
    history.clear();
    assert_eq!(history.0.len(), 0);
}

#[test]
fn overriding_while_paused_is_visible_immediately() {
    let mut sim = Simulation::new(3, 3);
    sim.toggle_cell(GameState::Paused, 1, 1).unwrap();
    assert_eq!(sim.grid.get(1, 1), CellState::Alive);
    let component = contagion::cell::CellComponent {
        coord: (1, 1),
        state: sim.grid.get(1, 1),
    };
    assert_eq!(component.state.sprite_index(), 2);
}
