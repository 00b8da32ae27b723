use contagion::cell::CellState;
use contagion::options::Options;
use contagion::rules::Rules;
use contagion::transition::cell_check;

fn default_opts() -> Options {
    Options::default()
}

#[test]
fn alive_default_rule_follows_classic_thresholds() {
    let opts = default_opts();
    assert_eq!(cell_check(CellState::Alive, 0, 0, &opts), CellState::Dead);
    assert_eq!(cell_check(CellState::Alive, 1, 0, &opts), CellState::Dead);
    assert_eq!(cell_check(CellState::Alive, 2, 0, &opts), CellState::Alive);
    assert_eq!(cell_check(CellState::Alive, 3, 0, &opts), CellState::Alive);
    assert_eq!(cell_check(CellState::Alive, 4, 0, &opts), CellState::Infected);
    assert_eq!(cell_check(CellState::Alive, 8, 0, &opts), CellState::Infected);
}

#[test]
fn alive_default_infection_threshold_is_the_literal_two() {
    // The default path infects at 2 infected neighbors even when the
    // configured virulence is higher.
    let mut opts = default_opts();
    opts.virulence = 8;
    assert_eq!(cell_check(CellState::Alive, 2, 8, &opts), CellState::Alive);
    assert_eq!(cell_check(CellState::Alive, 4, 2, &opts), CellState::Infected);
}

#[test]
fn infection_trigger_beats_overcrowding_death() {
    // An Alive cell outside the surviving band on the high side, with the
    // infected threshold met, becomes Infected, not Dead.
    let opts = default_opts();
    for live in [4u8, 5, 6, 7, 8] {
        for infected in [2u8, 3, 8] {
            assert_eq!(
                cell_check(CellState::Alive, live, infected, &opts),
                CellState::Infected
            );
        }
    }
    // On the low side, underpopulation wins: the cell dies even with the
    // infected threshold met.
    assert_eq!(cell_check(CellState::Alive, 0, 2, &opts), CellState::Dead);
    assert_eq!(cell_check(CellState::Alive, 1, 2, &opts), CellState::Dead);
}

#[test]
fn alive_single_rule_survives_at_the_count_and_one_above() {
    let mut opts = default_opts();
    opts.living_rule = Rules::single(4).unwrap();
    assert_eq!(cell_check(CellState::Alive, 3, 0, &opts), CellState::Dead);
    assert_eq!(cell_check(CellState::Alive, 4, 0, &opts), CellState::Alive);
    assert_eq!(cell_check(CellState::Alive, 4, 8, &opts), CellState::Alive);
    assert_eq!(cell_check(CellState::Alive, 5, 0, &opts), CellState::Alive);
    assert_eq!(cell_check(CellState::Alive, 5, 2, &opts), CellState::Infected);
    assert_eq!(cell_check(CellState::Alive, 6, 0, &opts), CellState::Infected);
}

#[test]
fn alive_range_rule_dies_outside_and_infects_past_or_under_virulence() {
    let mut opts = default_opts();
    opts.living_rule = Rules::range(2, 4).unwrap();
    assert_eq!(cell_check(CellState::Alive, 1, 0, &opts), CellState::Dead);
    assert_eq!(cell_check(CellState::Alive, 5, 0, &opts), CellState::Dead);
    assert_eq!(cell_check(CellState::Alive, 3, 0, &opts), CellState::Alive);
    assert_eq!(cell_check(CellState::Alive, 3, 2, &opts), CellState::Infected);
    assert_eq!(cell_check(CellState::Alive, 4, 1, &opts), CellState::Alive);
}

#[test]
fn alive_singles_rule_uses_the_set_and_its_maximum() {
    let mut opts = default_opts();
    opts.living_rule = Rules::singles(vec![2, 5]).unwrap();
    assert_eq!(cell_check(CellState::Alive, 3, 0, &opts), CellState::Dead);
    assert_eq!(cell_check(CellState::Alive, 2, 0, &opts), CellState::Alive);
    assert_eq!(cell_check(CellState::Alive, 5, 0, &opts), CellState::Alive);
    assert_eq!(cell_check(CellState::Alive, 5, 3, &opts), CellState::Infected);
}

#[test]
fn dead_cells_are_born_where_the_dead_rule_accepts() {
    let mut opts = default_opts();
    assert_eq!(cell_check(CellState::Dead, 3, 0, &opts), CellState::Alive);
    assert_eq!(cell_check(CellState::Dead, 2, 0, &opts), CellState::Dead);
    assert_eq!(cell_check(CellState::Dead, 4, 8, &opts), CellState::Dead);

    opts.dead_rule = Rules::single(2).unwrap();
    assert_eq!(cell_check(CellState::Dead, 2, 0, &opts), CellState::Alive);
    assert_eq!(cell_check(CellState::Dead, 3, 0, &opts), CellState::Dead);

    opts.dead_rule = Rules::range(1, 2).unwrap();
    assert_eq!(cell_check(CellState::Dead, 1, 0, &opts), CellState::Alive);
    assert_eq!(cell_check(CellState::Dead, 3, 0, &opts), CellState::Dead);

    opts.dead_rule = Rules::singles(vec![1, 8]).unwrap();
    assert_eq!(cell_check(CellState::Dead, 8, 0, &opts), CellState::Alive);
    assert_eq!(cell_check(CellState::Dead, 2, 0, &opts), CellState::Dead);
}

#[test]
fn infected_decay_is_rule_independent() {
    // With the default virulence of 2: fewer than 3 live neighbors kill an
    // Infected cell; 3 or more sustain it, whatever the other rules say.
    let mut opts = default_opts();
    assert_eq!(cell_check(CellState::Infected, 0, 0, &opts), CellState::Dead);
    assert_eq!(cell_check(CellState::Infected, 2, 8, &opts), CellState::Dead);
    assert_eq!(cell_check(CellState::Infected, 3, 0, &opts), CellState::Infected);
    assert_eq!(cell_check(CellState::Infected, 8, 0, &opts), CellState::Infected);

    opts.living_rule = Rules::single(1).unwrap();
    opts.dead_rule = Rules::range(0, 8).unwrap();
    assert_eq!(cell_check(CellState::Infected, 2, 8, &opts), CellState::Dead);
    assert_eq!(cell_check(CellState::Infected, 3, 0, &opts), CellState::Infected);

    opts.virulence = 5;
    assert_eq!(cell_check(CellState::Infected, 5, 0, &opts), CellState::Dead);
    assert_eq!(cell_check(CellState::Infected, 6, 0, &opts), CellState::Infected);
}

#[test]
fn cell_cycling_and_sprite_indices() {
    assert_eq!(CellState::Dead.cycled(), CellState::Alive);
    assert_eq!(CellState::Alive.cycled(), CellState::Infected);
    assert_eq!(CellState::Infected.cycled(), CellState::Dead);
    assert_eq!(CellState::Dead.sprite_index(), 0);
    assert_eq!(CellState::Infected.sprite_index(), 1);
    assert_eq!(CellState::Alive.sprite_index(), 2);
    assert_eq!(CellState::default(), CellState::Dead);
}
