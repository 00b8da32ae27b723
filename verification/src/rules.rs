//! The rule representation: which neighbor counts satisfy a birth or
//! survival condition. A rule is a fixed count, an inclusive range, an
//! explicit set of counts, or the classic default. Construction validates;
//! the count accessors are undefined on the default variant, and callers
//! must branch on the variant before using them.

use vstd::prelude::*;

verus! {

/// The largest neighbor count a cell can have in a Moore neighborhood.
pub const MAX_NEIGHBORS: u8 = 8;

/// A user-configurable criterion on a neighbor count.
#[derive(PartialEq, Eq, Clone, Debug)]
pub enum Rules {
    /// Satisfied by exactly one count.
    Single(u8),
    /// Satisfied by every count in the inclusive range.
    Range { min: u8, max: u8 },
    /// Satisfied by every count in the explicit, non-empty set.
    Singles(Vec<u8>),
    /// The classic fixed semantics; never queried through the accessors.
    Default,
}

impl Default for Rules {
    fn default() -> (r: Self)
        ensures
            r == Rules::Default,
    {
        Rules::Default
    }
}

/// Why a rule was rejected at construction time.
#[derive(PartialEq, Eq, Structural, Clone, Copy, Debug)]
pub enum RuleError {
    /// A count above `MAX_NEIGHBORS` was given.
    ValueOutOfRange,
    /// The lower bound of a range exceeds its upper bound.
    InvertedRange,
    /// An explicit set of counts was empty.
    EmptySet,
}

/// A well-formed rule: every count it mentions lies in `[0, MAX_NEIGHBORS]`,
/// a range is ordered, and an explicit set is non-empty.
pub open spec fn rule_wf(r: Rules) -> bool {
    match r {
        Rules::Single(n) => n <= MAX_NEIGHBORS,
        Rules::Range { min, max } => min <= max && max <= MAX_NEIGHBORS,
        Rules::Singles(v) => v@.len() > 0 && (forall|i: int|
            0 <= i < v@.len() ==> #[trigger] v@[i] <= MAX_NEIGHBORS),
        Rules::Default => true,
    }
}

/// Whether the count `n` satisfies the rule. Meaningful only for the three
/// explicit variants; the default variant is handled by its own code path.
pub open spec fn rule_matches(r: Rules, n: u8) -> bool
    recommends
        !(r is Default),
{
    match r {
        Rules::Single(i) => n == i,
        Rules::Range { min, max } => min <= n && n <= max,
        Rules::Singles(v) => v@.contains(n),
        Rules::Default => false,
    }
}

/// The largest element of a sequence of counts, or 0 if it is empty.
pub open spec fn seq_max(s: Seq<u8>) -> u8
    decreases s.len(),
{
    if s.len() == 0 {
        0u8
    } else if s.last() > seq_max(s.drop_last()) {
        s.last()
    } else {
        seq_max(s.drop_last())
    }
}

/// The upper bound of a rule: the single count, the range's upper end, or
/// the largest member of the set. Meaningful only for the three explicit
/// variants.
pub open spec fn rule_max(r: Rules) -> u8
    recommends
        !(r is Default),
{
    match r {
        Rules::Single(i) => i,
        Rules::Range { min: _, max } => max,
        Rules::Singles(v) => seq_max(v@),
        Rules::Default => 0,
    }
}

impl Rules {
    /// Whether the count `num` satisfies this rule. Undefined on the default
    /// variant: callers branch on the variant first.
    #[verifier::loop_isolation(false)]
    pub fn in_range(&self, num: &u8) -> (r: bool)
        requires
            !(self is Default),
        ensures
            r == rule_matches(*self, *num),
    {
        match self {
            Self::Single(i) => *num == *i,
            Self::Range { min: l, max: u } => *l <= *num && *num <= *u,
            Self::Singles(v) => {
                let mut k: usize = 0;
                while k < v.len()
                    invariant
                        k <= v.len(),
                        forall|i: int| 0 <= i < k ==> v@[i] != *num,
                    decreases v.len() - k,
                {
                    if v[k] == *num {
                        proof {
                            assert(v@.contains(*num)) by {
                                assert(v@[k as int] == *num);
                            }
                        }
                        return true;
                    }
                    k = k + 1;
                }
                false
            },
            Self::Default => false,
        }
    }

    /// The upper bound of this rule. Undefined on the default variant:
    /// callers branch on the variant first.
    pub fn max(&self) -> (r: u8)
        requires
            !(self is Default),
        ensures
            r == rule_max(*self),
    {
        match self {
            Self::Single(i) => *i,
            Self::Range { min: _, max: u } => *u,
            Self::Singles(v) => {
                let mut m: u8 = 0;
                let mut k: usize = 0;
                while k < v.len()
                    invariant
                        k <= v.len(),
                        m == seq_max(v@.subrange(0, k as int)),
                    decreases v.len() - k,
                {
                    proof {
                        assert(v@.subrange(0, k + 1).drop_last() =~= v@.subrange(0, k as int));
                        assert(v@.subrange(0, k + 1).last() == v@[k as int]);
                    }
                    if m < v[k] {
                        m = v[k];
                    }
                    k = k + 1;
                }
                proof {
                    assert(v@.subrange(0, v@.len() as int) =~= v@);
                }
                m
            },
            Self::Default => 0,
        }
    }

    /// Build a fixed-count rule, rejecting a count above `MAX_NEIGHBORS`.
    pub fn single(n: u8) -> (r: Result<Rules, RuleError>)
        ensures
            n <= MAX_NEIGHBORS ==> r == Ok::<Rules, RuleError>(Rules::Single(n)),
            n > MAX_NEIGHBORS ==> r == Err::<Rules, RuleError>(RuleError::ValueOutOfRange),
            r is Ok ==> rule_wf(r->Ok_0),
    {
        if n > MAX_NEIGHBORS {
            Err(RuleError::ValueOutOfRange)
        } else {
            Ok(Rules::Single(n))
        }
    }

    /// Build an inclusive-range rule, rejecting a bound above `MAX_NEIGHBORS`
    /// and a lower bound that exceeds the upper bound.
    pub fn range(min: u8, max: u8) -> (r: Result<Rules, RuleError>)
        ensures
            max > MAX_NEIGHBORS || min > MAX_NEIGHBORS ==> r == Err::<Rules, RuleError>(
                RuleError::ValueOutOfRange,
            ),
            max <= MAX_NEIGHBORS && min <= MAX_NEIGHBORS && min > max ==> r == Err::<
                Rules,
                RuleError,
            >(RuleError::InvertedRange),
            min <= max && max <= MAX_NEIGHBORS ==> r == Ok::<Rules, RuleError>(
                Rules::Range { min, max },
            ),
            r is Ok ==> rule_wf(r->Ok_0),
    {
        if min > MAX_NEIGHBORS || max > MAX_NEIGHBORS {
            Err(RuleError::ValueOutOfRange)
        } else if min > max {
            Err(RuleError::InvertedRange)
        } else {
            Ok(Rules::Range { min, max })
        }
    }

    /// Build an explicit-set rule, rejecting an empty set and any member
    /// above `MAX_NEIGHBORS`.
    pub fn singles(values: Vec<u8>) -> (r: Result<Rules, RuleError>)
        ensures
            values@.len() == 0 ==> r == Err::<Rules, RuleError>(RuleError::EmptySet),
            values@.len() > 0 && (exists|i: int|
                0 <= i < values@.len() && #[trigger] values@[i] > MAX_NEIGHBORS) ==> r == Err::<
                Rules,
                RuleError,
            >(RuleError::ValueOutOfRange),
            values@.len() > 0 && (forall|i: int|
                0 <= i < values@.len() ==> #[trigger] values@[i] <= MAX_NEIGHBORS) ==> r == Ok::<
                Rules,
                RuleError,
            >(Rules::Singles(values)),
            r is Ok ==> rule_wf(r->Ok_0),
    {
        if values.len() == 0 {
            return Err(RuleError::EmptySet);
        }
        let mut k: usize = 0;
        while k < values.len()
            invariant
                k <= values.len(),
                forall|i: int| 0 <= i < k ==> #[trigger] values@[i] <= MAX_NEIGHBORS,
            decreases values.len() - k,
        {
            if values[k] > MAX_NEIGHBORS {
                return Err(RuleError::ValueOutOfRange);
            }
            k = k + 1;
        }
        Ok(Rules::Singles(values))
    }
}

} // verus!
