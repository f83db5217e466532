//! Difficulty tiers of generated boards and their scoring functions.

use vstd::prelude::*;

verus! {

/// Longest accepted solve, in seconds, for an easy board.
pub const EASY_MAX_DURATION_SECS: i64 = 3600;

/// Longest accepted solve, in seconds, for a medium board.
pub const MEDIUM_MAX_DURATION_SECS: i64 = 7200;

/// Longest accepted solve, in seconds, for a hard board.
pub const HARD_MAX_DURATION_SECS: i64 = 14400;

/// A recognized board difficulty tier.
///
/// Boards persist their difficulty as a numeric column between one and
/// three; anything else does not map to a tier.
#[derive(Clone, Copy, Debug, PartialEq, Eq, Structural, Hash)]
pub enum BoardDifficulty {
    Easy,
    Medium,
    Hard,
}

impl BoardDifficulty {
    /// The tier a persisted numeric difficulty stands for, if any.
    pub open spec fn spec_from_numeric(tier: u64) -> Option<BoardDifficulty> {
        if tier == 1 {
            Some(BoardDifficulty::Easy)
        } else if tier == 2 {
            Some(BoardDifficulty::Medium)
        } else if tier == 3 {
            Some(BoardDifficulty::Hard)
        } else {
            None
        }
    }

    /// Map a numeric difficulty column to its tier; `None` for any value
    /// outside the recognized set.
    pub fn from_numeric(tier: u64) -> (r: Option<BoardDifficulty>)
        ensures
            r == Self::spec_from_numeric(tier),
    {
        if tier == 1 {
            Some(BoardDifficulty::Easy)
        } else if tier == 2 {
            Some(BoardDifficulty::Medium)
        } else if tier == 3 {
            Some(BoardDifficulty::Hard)
        } else {
            None
        }
    }

    /// Longest solve duration, in whole seconds, that this tier still scores.
    pub open spec fn spec_max_duration_secs(self) -> i64 {
        match self {
            BoardDifficulty::Easy => EASY_MAX_DURATION_SECS,
            BoardDifficulty::Medium => MEDIUM_MAX_DURATION_SECS,
            BoardDifficulty::Hard => HARD_MAX_DURATION_SECS,
        }
    }

    /// Score weight of this tier: harder boards earn more per spare second.
    pub open spec fn spec_weight(self) -> i64 {
        match self {
            BoardDifficulty::Easy => 1,
            BoardDifficulty::Medium => 2,
            BoardDifficulty::Hard => 3,
        }
    }

    /// The score a solve earns on this tier: the tier's weight times the
    /// seconds left before the tier's ceiling. A duration that is negative
    /// or exceeds the ceiling earns nothing.
    pub open spec fn spec_score(self, duration_secs: i64) -> Option<u64> {
        if 0 <= duration_secs && duration_secs <= self.spec_max_duration_secs() {
            Some((self.spec_weight() * (self.spec_max_duration_secs() - duration_secs)) as u64)
        } else {
            None
        }
    }

    fn max_duration_secs(self) -> (r: i64)
        ensures
            r == self.spec_max_duration_secs(),
    {
        match self {
            BoardDifficulty::Easy => EASY_MAX_DURATION_SECS,
            BoardDifficulty::Medium => MEDIUM_MAX_DURATION_SECS,
            BoardDifficulty::Hard => HARD_MAX_DURATION_SECS,
        }
    }

    fn weight(self) -> (r: i64)
        ensures
            r == self.spec_weight(),
    {
        match self {
            BoardDifficulty::Easy => 1,
            BoardDifficulty::Medium => 2,
            BoardDifficulty::Hard => 3,
        }
    }

    /// Score the given solve duration against this tier, or `None` when the
    /// duration lies outside the range the tier accepts.
    pub fn score(self, duration_secs: i64) -> (r: Option<u64>)
        ensures
            r == self.spec_score(duration_secs),
    {
        let max = self.max_duration_secs();
        if 0 <= duration_secs && duration_secs <= max {
            assert(self.spec_weight() * (max - duration_secs) <= 3 * HARD_MAX_DURATION_SECS)
                by (nonlinear_arith)
                requires
                    1 <= self.spec_weight() <= 3,
                    0 <= max - duration_secs <= HARD_MAX_DURATION_SECS,
            ;
            assert(0 <= self.spec_weight() * (max - duration_secs)) by (nonlinear_arith)
                requires
                    1 <= self.spec_weight(),
                    0 <= max - duration_secs,
            ;
            Some((self.weight() * (max - duration_secs)) as u64)
        } else {
            None
        }
    }
}

/// Every score a tier grants lies between zero and the hard tier's weight
/// times its ceiling, and the accepted duration fits the tier's ceiling.
pub proof fn lemma_score_bounds(tier: BoardDifficulty, duration_secs: i64)
    requires
        tier.spec_score(duration_secs) is Some,
    ensures
        0 <= tier.spec_score(duration_secs).unwrap() <= 3 * HARD_MAX_DURATION_SECS,
        0 <= duration_secs <= HARD_MAX_DURATION_SECS,
{
    match tier {
        BoardDifficulty::Easy => {
            assert(tier.spec_score(duration_secs).unwrap() == 1 * (EASY_MAX_DURATION_SECS
                - duration_secs));
        },
        BoardDifficulty::Medium => {
            assert(tier.spec_score(duration_secs).unwrap() == 2 * (MEDIUM_MAX_DURATION_SECS
                - duration_secs));
        },
        BoardDifficulty::Hard => {
            assert(tier.spec_score(duration_secs).unwrap() == 3 * (HARD_MAX_DURATION_SECS
                - duration_secs));
        },
    }
}

} // verus!
