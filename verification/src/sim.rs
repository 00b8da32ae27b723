//! The top-level simulation: the grid, the rule set, and the generation
//! clock, owned together and advanced or edited according to the externally
//! owned mode. Stepping runs only during Play; the manual override only
//! while stepping is suspended.

use vstd::prelude::*;

use crate::cell::CellState;
use crate::cell::cycle_spec;
use crate::generation::next_generation;
use crate::generation::step_n_spec;
use crate::grid::CellStates;
use crate::grid::GridError;
use crate::grid::MAP_HEIGHT;
use crate::grid::MAP_WIDTH;
use crate::options::ConfigError;
use crate::options::MAX_TICK_MILLIS;
use crate::options::MIN_TICK_MILLIS;
use crate::options::Options;
use crate::parse::ParseError;
use crate::parse::parse_singles;
use crate::parse::token_ok;
use crate::parse::token_value;
use crate::parse::tokens_of;
use crate::rules::MAX_NEIGHBORS;
use crate::rules::Rules;
use crate::rules::rule_wf;
use crate::timer::GameTimer;

verus! {

/// The externally owned mode: stepping runs during Play, manual editing
/// while Paused, and the closing survey during Complete.
#[derive(PartialEq, Eq, Structural, Clone, Copy, Debug, Hash)]
pub enum GameState {
    Paused,
    Play,
    Complete,
}

/// The mode after the play/pause toggle: Paused and Play swap, Complete
/// stays.
pub open spec fn play_toggled_spec(m: GameState) -> GameState {
    match m {
        GameState::Paused => GameState::Play,
        GameState::Play => GameState::Paused,
        GameState::Complete => GameState::Complete,
    }
}

/// The mode after the conclude key: Complete returns to Paused, any other
/// mode concludes the game.
pub open spec fn concluded_spec(m: GameState) -> GameState {
    match m {
        GameState::Complete => GameState::Paused,
        _ => GameState::Complete,
    }
}

/// Apply the play/pause toggle to a mode.
pub fn play_toggled(m: GameState) -> (r: GameState)
    ensures
        r == play_toggled_spec(m),
{
    match m {
        GameState::Paused => GameState::Play,
        GameState::Play => GameState::Paused,
        GameState::Complete => GameState::Complete,
    }
}

/// Apply the conclude key to a mode.
pub fn concluded(m: GameState) -> (r: GameState)
    ensures
        r == concluded_spec(m),
{
    match m {
        GameState::Complete => GameState::Paused,
        _ => GameState::Complete,
    }
}

/// The simulation: the sole owner of the grid, the rule set, and the
/// generation clock.
pub struct Simulation {
    pub grid: CellStates,
    pub options: Options,
    pub timer: GameTimer,
}

impl Simulation {
    /// A well-formed simulation: grid, rule set, and clock are each well
    /// formed, and the clock ticks at the configured interval.
    pub open spec fn wf(self) -> bool {
        &&& self.grid.wf()
        &&& self.options.wf()
        &&& self.timer.wf()
        &&& self.timer.spec_interval() == self.options.tick_millis
    }

    /// Create a simulation over an all-Dead grid of the given size, with
    /// the default rule set and a fresh clock.
    pub fn new(width: usize, height: usize) -> (r: Simulation)
        requires
            1 <= width,
            1 <= height,
            width * height <= usize::MAX,
        ensures
            r.wf(),
            r.grid.spec_width() == width,
            r.grid.spec_height() == height,
            forall|x: int, y: int| r.grid.contains_coord(x, y) ==> r.grid@[x][y] == CellState::Dead,
            r.options == Options::default_spec(),
            r.timer.spec_elapsed() == 0,
    {
        Simulation {
            grid: CellStates::new(width, height),
            options: Options::default(),
            timer: GameTimer::default(),
        }
    }

    /// Feed an elapsed time delta to the simulation. During Play the clock
    /// accumulates it and the grid advances one generation per whole tick
    /// interval now passed, every generation computed from a snapshot of
    /// the one before; in any other mode nothing changes at all. Returns
    /// how many generations were stepped.
    pub fn advance(&mut self, mode: GameState, delta_millis: u32) -> (gens: u64)
        requires
            old(self).wf(),
        ensures
            final(self).wf(),
            final(self).options == old(self).options,
            final(self).grid.spec_width() == old(self).grid.spec_width(),
            final(self).grid.spec_height() == old(self).grid.spec_height(),
            !(mode is Play) ==> *final(self) == *old(self) && gens == 0,
            mode is Play ==> {
                &&& gens == (old(self).timer.spec_elapsed() + delta_millis) as int / old(
                    self,
                ).options.tick_millis as int
                &&& final(self).timer.spec_elapsed() == (old(self).timer.spec_elapsed()
                    + delta_millis) as int % old(self).options.tick_millis as int
                &&& final(self).grid@ == step_n_spec(
                    old(self).grid@,
                    old(self).grid.spec_height() as int,
                    old(self).options,
                    gens as nat,
                )
            },
    {
        match mode {
            GameState::Play => {
                let fires = self.timer.tick(delta_millis);
                let ghost timer_now = self.timer;
                let ghost start = self.grid@;
                let ghost h = self.grid.spec_height() as int;
                let mut i: u64 = 0;
                while i < fires
                    invariant
                        self.options.wf(),
                        self.options == old(self).options,
                        self.grid.wf(),
                        self.grid.spec_width() == old(self).grid.spec_width(),
                        self.grid.spec_height() == old(self).grid.spec_height(),
                        self.timer == timer_now,
                        start == old(self).grid@,
                        h == old(self).grid.spec_height() as int,
                        i <= fires,
                        self.grid@ == step_n_spec(start, h, self.options, i as nat),
                    decreases fires - i,
                {
                    self.grid = next_generation(&self.grid, &self.options);
                    i = i + 1;
                }
                fires
            },
            _ => 0,
        }
    }

    /// Cycle the cell at `(x, y)` once, bypassing the transition function:
    /// the manual override, available only while stepping is suspended. An
    /// out-of-bounds coordinate is rejected and changes nothing; on the
    /// grid, the change is visible immediately and no generation step
    /// happens. Returns the state the cell now holds.
    pub fn toggle_cell(&mut self, mode: GameState, x: usize, y: usize) -> (r: Result<
        CellState,
        GridError,
    >)
        requires
            old(self).wf(),
            !(mode is Play),
        ensures
            final(self).wf(),
            final(self).options == old(self).options,
            final(self).timer == old(self).timer,
            final(self).grid.spec_width() == old(self).grid.spec_width(),
            final(self).grid.spec_height() == old(self).grid.spec_height(),
            old(self).grid.contains_coord(x as int, y as int) ==> {
                &&& r == Ok::<CellState, GridError>(cycle_spec(old(self).grid@[x as int][y as int]))
                &&& final(self).grid@ == old(self).grid@.update(
                    x as int,
                    old(self).grid@[x as int].update(
                        y as int,
                        cycle_spec(old(self).grid@[x as int][y as int]),
                    ),
                )
            },
            !old(self).grid.contains_coord(x as int, y as int) ==> r == Err::<CellState, GridError>(
                GridError::OutOfBounds,
            ) && final(self).grid@ == old(self).grid@,
    {
        if x < self.grid.width() && y < self.grid.height() {
            let next = self.grid.get(x, y).cycled();
            self.grid.set(x, y, next);
            Ok(next)
        } else {
            Err(GridError::OutOfBounds)
        }
    }

    /// Set every cell to Dead, leaving the rule set and the clock alone.
    pub fn clear(&mut self)
        requires
            old(self).wf(),
        ensures
            final(self).wf(),
            final(self).options == old(self).options,
            final(self).timer == old(self).timer,
            final(self).grid.spec_width() == old(self).grid.spec_width(),
            final(self).grid.spec_height() == old(self).grid.spec_height(),
            forall|x: int, y: int|
                final(self).grid.contains_coord(x, y) ==> final(self).grid@[x][y]
                    == CellState::Dead,
    {
        self.grid.clear();
    }

    /// Replace the living-cell rule with an already validated rule.
    pub fn set_living_rule(&mut self, rule: Rules)
        requires
            old(self).wf(),
            rule_wf(rule),
        ensures
            final(self).wf(),
            final(self).options.living_rule == rule,
            final(self).options.dead_rule == old(self).options.dead_rule,
            final(self).options.virulence == old(self).options.virulence,
            final(self).options.tick_millis == old(self).options.tick_millis,
            final(self).grid == old(self).grid,
            final(self).timer == old(self).timer,
    {
        self.options.living_rule = rule;
    }

    /// Replace the dead-cell rule with an already validated rule.
    pub fn set_dead_rule(&mut self, rule: Rules)
        requires
            old(self).wf(),
            rule_wf(rule),
        ensures
            final(self).wf(),
            final(self).options.dead_rule == rule,
            final(self).options.living_rule == old(self).options.living_rule,
            final(self).options.virulence == old(self).options.virulence,
            final(self).options.tick_millis == old(self).options.tick_millis,
            final(self).grid == old(self).grid,
            final(self).timer == old(self).timer,
    {
        self.options.dead_rule = rule;
    }

    /// Parse a free-text count list into the living-cell rule. A malformed
    /// list is rejected with its first unparsable token, and the previous
    /// rule is retained untouched.
    pub fn set_living_rule_text(&mut self, text: &str) -> (r: Result<(), ParseError>)
        requires
            old(self).wf(),
        ensures
            final(self).wf(),
            final(self).options.dead_rule == old(self).options.dead_rule,
            final(self).options.virulence == old(self).options.virulence,
            final(self).options.tick_millis == old(self).options.tick_millis,
            final(self).grid == old(self).grid,
            final(self).timer == old(self).timer,
            r matches Ok(()) ==> final(self).options.living_rule matches Rules::Singles(v) && {
                &&& v@.len() == tokens_of(text@).len()
                &&& forall|i: int|
                    0 <= i < v@.len() ==> #[trigger] v@[i] == token_value(tokens_of(text@)[i])
                &&& forall|i: int|
                    0 <= i < tokens_of(text@).len() ==> token_ok(#[trigger] tokens_of(text@)[i])
            },
            r matches Err(e) ==> *final(self) == *old(self) && exists|i: int|
                {
                    &&& 0 <= i < tokens_of(text@).len()
                    &&& !token_ok(#[trigger] tokens_of(text@)[i])
                    &&& forall|j: int| 0 <= j < i ==> token_ok(#[trigger] tokens_of(text@)[j])
                    &&& e.token@ == tokens_of(text@)[i]
                },
    {
        match parse_singles(text) {
            Ok(rule) => {
                self.options.living_rule = rule;
                Ok(())
            },
            Err(e) => Err(e),
        }
    }

    /// Parse a free-text count list into the dead-cell rule. A malformed
    /// list is rejected with its first unparsable token, and the previous
    /// rule is retained untouched.
    pub fn set_dead_rule_text(&mut self, text: &str) -> (r: Result<(), ParseError>)
        requires
            old(self).wf(),
        ensures
            final(self).wf(),
            final(self).options.living_rule == old(self).options.living_rule,
            final(self).options.virulence == old(self).options.virulence,
            final(self).options.tick_millis == old(self).options.tick_millis,
            final(self).grid == old(self).grid,
            final(self).timer == old(self).timer,
            r matches Ok(()) ==> final(self).options.dead_rule matches Rules::Singles(v) && {
                &&& v@.len() == tokens_of(text@).len()
                &&& forall|i: int|
                    0 <= i < v@.len() ==> #[trigger] v@[i] == token_value(tokens_of(text@)[i])
                &&& forall|i: int|
                    0 <= i < tokens_of(text@).len() ==> token_ok(#[trigger] tokens_of(text@)[i])
            },
            r matches Err(e) ==> *final(self) == *old(self) && exists|i: int|
                {
                    &&& 0 <= i < tokens_of(text@).len()
                    &&& !token_ok(#[trigger] tokens_of(text@)[i])
                    &&& forall|j: int| 0 <= j < i ==> token_ok(#[trigger] tokens_of(text@)[j])
                    &&& e.token@ == tokens_of(text@)[i]
                },
    {
        match parse_singles(text) {
            Ok(rule) => {
                self.options.dead_rule = rule;
                Ok(())
            },
            Err(e) => Err(e),
        }
    }

    /// Set the virulence threshold, rejecting a count above
    /// `MAX_NEIGHBORS` and leaving everything untouched in that case.
    pub fn set_virulence(&mut self, virulence: u8) -> (r: Result<(), ConfigError>)
        requires
            old(self).wf(),
        ensures
            final(self).wf(),
            virulence <= MAX_NEIGHBORS ==> r == Ok::<(), ConfigError>(()) && final(self).options
                == (Options { virulence, ..old(self).options }) && final(self).grid == old(self).grid
                && final(self).timer == old(self).timer,
            virulence > MAX_NEIGHBORS ==> r == Err::<(), ConfigError>(
                ConfigError::VirulenceOutOfRange,
            ) && *final(self) == *old(self),
    {
        if virulence > MAX_NEIGHBORS {
            Err(ConfigError::VirulenceOutOfRange)
        } else {
            self.options.virulence = virulence;
            Ok(())
        }
    }

    /// Set the tick interval, rejecting one outside
    /// `[MIN_TICK_MILLIS, MAX_TICK_MILLIS]` and leaving everything
    /// untouched in that case. On success the clock restarts at the new
    /// interval with nothing accumulated.
    pub fn set_tick_millis(&mut self, tick_millis: u32) -> (r: Result<(), ConfigError>)
        requires
            old(self).wf(),
        ensures
            final(self).wf(),
            MIN_TICK_MILLIS <= tick_millis <= MAX_TICK_MILLIS ==> {
                &&& r == Ok::<(), ConfigError>(())
                &&& final(self).options == (Options { tick_millis, ..old(self).options })
                &&& final(self).grid == old(self).grid
                &&& final(self).timer.spec_interval() == tick_millis
                &&& final(self).timer.spec_elapsed() == 0
            },
            !(MIN_TICK_MILLIS <= tick_millis <= MAX_TICK_MILLIS) ==> r == Err::<(), ConfigError>(
                ConfigError::TickOutOfRange,
            ) && *final(self) == *old(self),
    {
        if tick_millis < MIN_TICK_MILLIS || tick_millis > MAX_TICK_MILLIS {
            Err(ConfigError::TickOutOfRange)
        } else {
            self.options.tick_millis = tick_millis;
            self.timer.set_interval(tick_millis);
            Ok(())
        }
    }

    /// The current rule set, for the configuration collaborator to read
    /// back.
    pub fn options(&self) -> (r: &Options)
        ensures
            r == self.options,
    {
        &self.options
    }
}

impl Default for Simulation {
    /// A simulation over the default 100-by-100 grid.
    fn default() -> (r: Self)
        ensures
            r.wf(),
            r.grid.spec_width() == MAP_WIDTH,
            r.grid.spec_height() == MAP_HEIGHT,
            forall|x: int, y: int| r.grid.contains_coord(x, y) ==> r.grid@[x][y] == CellState::Dead,
            r.options == Options::default_spec(),
            r.timer.spec_elapsed() == 0,
    {
        Simulation::new(MAP_WIDTH, MAP_HEIGHT)
    }
}

} // verus!
