//! The configurable rule set: a rule for living cells, a rule for dead
//! cells, the virulence threshold, and the tick interval.

use vstd::prelude::*;

use crate::rules::MAX_NEIGHBORS;
use crate::rules::Rules;
use crate::rules::rule_wf;

verus! {

/// The default tick interval, in milliseconds.
pub const BASE_TICK_MILLIS: u32 = 500;

/// The shortest tick interval that can be configured, in milliseconds.
pub const MIN_TICK_MILLIS: u32 = 100;

/// The longest tick interval that can be configured, in milliseconds.
pub const MAX_TICK_MILLIS: u32 = 1000;

/// The default virulence threshold.
pub const BASE_VIRULENCE: u8 = 2;

/// The alterable rules and settings of the game.
#[derive(PartialEq, Eq, Clone, Debug)]
pub struct Options {
    /// The survival criterion applied to currently-Alive cells.
    pub living_rule: Rules,
    /// The birth criterion applied to currently-Dead cells.
    pub dead_rule: Rules,
    /// The infected-neighbor-count threshold controlling infection spread
    /// and infected-cell decay; always in `[0, MAX_NEIGHBORS]`.
    pub virulence: u8,
    /// The tick interval in milliseconds; always in
    /// `[MIN_TICK_MILLIS, MAX_TICK_MILLIS]`.
    pub tick_millis: u32,
}

/// Why a setting was rejected.
#[derive(PartialEq, Eq, Structural, Clone, Copy, Debug)]
pub enum ConfigError {
    /// A virulence above `MAX_NEIGHBORS` was given.
    VirulenceOutOfRange,
    /// A tick interval outside `[MIN_TICK_MILLIS, MAX_TICK_MILLIS]` was given.
    TickOutOfRange,
}

impl Options {
    /// A well-formed rule set: both rules are well formed, the virulence is
    /// a neighbor count, and the tick interval lies in its allowed range.
    pub open spec fn wf(self) -> bool {
        &&& rule_wf(self.living_rule)
        &&& rule_wf(self.dead_rule)
        &&& self.virulence <= MAX_NEIGHBORS
        &&& MIN_TICK_MILLIS <= self.tick_millis <= MAX_TICK_MILLIS
    }

    /// The default rule set: classic rules for living and dead cells,
    /// virulence 2, and a tick every half second.
    pub open spec fn default_spec() -> Options {
        Options {
            living_rule: Rules::Default,
            dead_rule: Rules::Default,
            virulence: BASE_VIRULENCE,
            tick_millis: BASE_TICK_MILLIS,
        }
    }
}

impl Default for Options {
    fn default() -> (r: Self)
        ensures
            r == Options::default_spec(),
            r.wf(),
    {
        Self {
            living_rule: Rules::Default,
            dead_rule: Rules::Default,
            virulence: BASE_VIRULENCE,
            tick_millis: BASE_TICK_MILLIS,
        }
    }
}

/// The state of a rule-editor panel: which variant is selected and the
/// values its widgets currently hold.
pub struct SelectedRules {
    pub single: bool,
    pub range: bool,
    pub singles: bool,
    pub default: bool,
    pub single_value: u8,
    pub range_value: (u8, u8),
    pub singles_value: String,
}

impl Default for SelectedRules {
    fn default() -> (r: Self)
        ensures
            !r.single && !r.range && !r.singles && r.default,
            r.single_value == 2u8,
            r.range_value == (0u8, 2u8),
            r.singles_value@ == "2"@,
    {
        Self {
            single: false,
            range: false,
            singles: false,
            default: true,
            single_value: 2,
            range_value: (0, 2),
            singles_value: String::from_str("2"),
        }
    }
}

} // verus!
