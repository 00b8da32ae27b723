//! The per-cell transition function: a pure, total map from the current
//! state, the live and infected neighbor counts, and the rule set to the
//! next state.

use vstd::prelude::*;

use crate::cell::CellState;
use crate::options::Options;
use crate::rules::Rules;
use crate::rules::rule_matches;
use crate::rules::rule_max;
use crate::rules::rule_wf;

verus! {

/// The next state of a currently-Alive cell. Under the classic default rule
/// the infection threshold is the fixed literal 2, deliberately decoupled
/// from the configurable virulence.
pub open spec fn next_alive_spec(live: int, infected: int, opts: Options) -> CellState {
    match opts.living_rule {
        Rules::Single(n) => if live < n {
            CellState::Dead
        } else if live == n {
            CellState::Alive
        } else if live > n + 1 || infected >= opts.virulence {
            CellState::Infected
        } else {
            CellState::Alive
        },
        Rules::Range { min: _, max } => if !rule_matches(opts.living_rule, live as u8) {
            CellState::Dead
        } else if live > max + 1 || infected >= opts.virulence {
            CellState::Infected
        } else {
            CellState::Alive
        },
        Rules::Singles(_) => if !rule_matches(opts.living_rule, live as u8) {
            CellState::Dead
        } else if live > rule_max(opts.living_rule) || infected >= opts.virulence {
            CellState::Infected
        } else {
            CellState::Alive
        },
        Rules::Default => if live < 2 {
            CellState::Dead
        } else if live == 2 || live == 3 {
            CellState::Alive
        } else if live > 3 || infected >= 2 {
            CellState::Infected
        } else {
            CellState::Alive
        },
    }
}

/// The next state of a currently-Dead cell: born when the dead rule accepts
/// the live count (exactly 3 under the default rule), else still Dead.
pub open spec fn next_dead_spec(live: int, opts: Options) -> CellState {
    match opts.dead_rule {
        Rules::Default => if live == 3 {
            CellState::Alive
        } else {
            CellState::Dead
        },
        _ => if rule_matches(opts.dead_rule, live as u8) {
            CellState::Alive
        } else {
            CellState::Dead
        },
    }
}

/// The next state of a currently-Infected cell, independent of both rules:
/// it decays to Dead unless at least virulence + 1 live neighbors sustain
/// it.
pub open spec fn next_infected_spec(live: int, opts: Options) -> CellState {
    if live < opts.virulence + 1 {
        CellState::Dead
    } else {
        CellState::Infected
    }
}

/// The next state of a cell with the given live and infected neighbor
/// counts, under the given rule set.
pub open spec fn next_state_spec(
    current: CellState,
    live: int,
    infected: int,
    opts: Options,
) -> CellState {
    match current {
        CellState::Alive => next_alive_spec(live, infected, opts),
        CellState::Dead => next_dead_spec(live, opts),
        CellState::Infected => next_infected_spec(live, opts),
    }
}

/// Compute the next state of a cell. Pure and total: no input combination
/// is rejected, and nothing else is read or written.
pub fn cell_check(current: CellState, live: u8, infected: u8, opts: &Options) -> (r: CellState)
    requires
        opts.wf(),
    ensures
        r == next_state_spec(current, live as int, infected as int, *opts),
{
    match current {
        CellState::Alive => match &opts.living_rule {
            Rules::Single(n) => {
                if live < *n {
                    CellState::Dead
                } else if live == *n {
                    CellState::Alive
                } else if live > *n + 1 || infected >= opts.virulence {
                    CellState::Infected
                } else {
                    CellState::Alive
                }
            },
            Rules::Range { min: _, max } => {
                if !opts.living_rule.in_range(&live) {
                    CellState::Dead
                } else if live > *max + 1 || infected >= opts.virulence {
                    CellState::Infected
                } else {
                    CellState::Alive
                }
            },
            Rules::Singles(_) => {
                if !opts.living_rule.in_range(&live) {
                    CellState::Dead
                } else if live > opts.living_rule.max() || infected >= opts.virulence {
                    CellState::Infected
                } else {
                    CellState::Alive
                }
            },
            Rules::Default => {
                if live < 2 {
                    CellState::Dead
                } else if live == 2 || live == 3 {
                    CellState::Alive
                } else if live > 3 || infected >= 2 {
                    CellState::Infected
                } else {
                    CellState::Alive
                }
            },
        },
        CellState::Dead => match &opts.dead_rule {
            Rules::Default => {
                if live == 3 {
                    CellState::Alive
                } else {
                    CellState::Dead
                }
            },
            _ => {
                if opts.dead_rule.in_range(&live) {
                    CellState::Alive
                } else {
                    CellState::Dead
                }
            },
        },
        CellState::Infected => {
            if live < opts.virulence + 1 {
                CellState::Dead
            } else {
                CellState::Infected
            }
        },
    }
}

/// Infection beats overcrowding: under the default rule set, an Alive cell
/// whose live count falls outside the surviving band {2, 3} on the high
/// side becomes Infected, never Dead and never Alive, whenever the fixed
/// infection threshold of 2 infected neighbors is met. (On the low side,
/// live < 2, underpopulation wins and the cell dies instead.)
pub proof fn lemma_infection_trigger(live: int, infected: int)
    requires
        !(live == 2 || live == 3),
        live > 3,
        infected >= 2,
    ensures
        next_state_spec(CellState::Alive, live, infected, Options::default_spec())
            == CellState::Infected,
{
}

/// Infected decay is rule-independent: whatever the living and dead rules
/// say, an Infected cell becomes Dead next generation when its live count
/// is below virulence + 1, and stays Infected when it is not.
pub proof fn lemma_infected_decay(live: int, infected: int, opts: Options)
    ensures
        live < opts.virulence + 1 ==> next_state_spec(CellState::Infected, live, infected, opts)
            == CellState::Dead,
        live >= opts.virulence + 1 ==> next_state_spec(CellState::Infected, live, infected, opts)
            == CellState::Infected,
{
}

} // verus!
