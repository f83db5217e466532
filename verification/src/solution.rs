//! Solution records: the persisted shape of a submitted solve, and the
//! validating constructor that derives its score.

use vstd::prelude::*;
use crate::board::SudokuBoard;
use crate::difficulty::BoardDifficulty;

verus! {

/// A solution row of the `sudoku_solutions` table.
///
/// Timestamps are whole seconds since the Unix epoch.
#[derive(Clone, Debug, PartialEq, Eq, Hash)]
pub struct SudokuSolution {
    /// Unique solution ID.
    ///
    /// Actually not optional, but this allows us to get an ID from the
    /// database on insert.
    pub id: Option<i32>,
    /// Solver's display name.
    pub display_name: String,
    /// The solved board's ID.
    pub board_id: i32,
    /// The solved board's skeleton: its original, unsolved layout.
    pub skeleton: String,
    /// Board difficulty, copied from the solved board.
    pub difficulty: i32,
    /// Time in seconds taken to achieve the solution.
    pub solution_duration_secs: i32,
    /// Score achieved for the solve.
    pub score: i32,
    /// Time the solution occurred at, in whole seconds since the Unix epoch.
    pub solution_time: i64,
}

/// Relies on chrono's `Utc::now`: the current wall-clock time, which
/// `timestamp` truncates to whole seconds since the Unix epoch. Nothing is
/// assumed of the clock's value. `Utc::now` panics when the system clock
/// reads before the Unix epoch — an environmental condition no input
/// controls.
#[verifier::external_body]
fn now_timestamp_secs() -> i64 {
    chrono::Utc::now().timestamp()
}

impl SudokuSolution {
    /// The tier the board's difficulty column maps to, if it is recognized.
    pub open spec fn spec_tier(board: SudokuBoard) -> Option<BoardDifficulty> {
        if 0 <= board.difficulty {
            BoardDifficulty::spec_from_numeric(board.difficulty as u64)
        } else {
            None
        }
    }

    /// When a solution record can be constructed at all: the board carries
    /// a persisted ID, its difficulty maps to a recognized tier, and that
    /// tier's scoring function accepts the solve duration.
    pub open spec fn spec_constructible(board: SudokuBoard, duration_secs: i64) -> bool {
        &&& board.id is Some
        &&& Self::spec_tier(board) is Some
        &&& Self::spec_tier(board).unwrap().spec_score(duration_secs) is Some
    }

    /// Create a ready-to-insert solution out of the specified data, scoring
    /// the solve duration against the board's difficulty tier.
    ///
    /// Returns `None`, and never a half-valid record, when the board lacks a
    /// persisted ID, its difficulty maps to no recognized tier, or the tier
    /// rejects the duration. The record's `solution_time` is the wall clock
    /// at construction, in whole seconds.
    pub fn new(solver_name: String, skeleton: String, solved_board: &SudokuBoard, solution_duration_secs: i64) -> (r: Option<
        SudokuSolution,
    >)
        ensures
            r is Some <==> Self::spec_constructible(*solved_board, solution_duration_secs),
            r matches Some(s) ==> {
                &&& s.id is None
                &&& s.display_name == solver_name
                &&& s.board_id == solved_board.id.unwrap()
                &&& s.skeleton == skeleton
                &&& s.difficulty == solved_board.difficulty
                &&& s.solution_duration_secs == solution_duration_secs
                &&& s.score == Self::spec_tier(*solved_board).unwrap().spec_score(
                    solution_duration_secs,
                ).unwrap()
            },
    {
        Self::new_impl(solver_name, skeleton, solved_board, solution_duration_secs)
    }

    fn new_impl(solver_name: String, skeleton: String, solved_board: &SudokuBoard, solution_duration_secs: i64) -> (r: Option<
        SudokuSolution,
    >)
        ensures
            r is Some <==> Self::spec_constructible(*solved_board, solution_duration_secs),
            r matches Some(s) ==> {
                &&& s.id is None
                &&& s.display_name == solver_name
                &&& s.board_id == solved_board.id.unwrap()
                &&& s.skeleton == skeleton
                &&& s.difficulty == solved_board.difficulty
                &&& s.solution_duration_secs == solution_duration_secs
                &&& s.score == Self::spec_tier(*solved_board).unwrap().spec_score(
                    solution_duration_secs,
                ).unwrap()
            },
    {
        let board_id = match solved_board.id {
            Some(id) => id,
            None => return None,
        };
        if solved_board.difficulty < 0 {
            return None;
        }
        let tier = match BoardDifficulty::from_numeric(solved_board.difficulty as u64) {
            Some(t) => t,
            None => return None,
        };
        let score = match tier.score(solution_duration_secs) {
            Some(s) => s,
            None => return None,
        };
        proof {
            crate::difficulty::lemma_score_bounds(tier, solution_duration_secs);
        }
        Some(
            SudokuSolution {
                id: None,
                display_name: solver_name,
                board_id,
                skeleton,
                difficulty: solved_board.difficulty,
                solution_duration_secs: solution_duration_secs as i32,
                score: score as i32,
                solution_time: now_timestamp_secs(),
            },
        )
    }
}

/// A board without a persisted ID never yields a solution record, regardless
/// of every other input.
pub proof fn lemma_unsaved_board_never_constructible(board: SudokuBoard, duration_secs: i64)
    requires
        board.id is None,
    ensures
        !SudokuSolution::spec_constructible(board, duration_secs),
{
}

/// A board whose difficulty maps to no recognized tier never yields a
/// solution record, regardless of every other input.
pub proof fn lemma_unrecognized_tier_never_constructible(board: SudokuBoard, duration_secs: i64)
    requires
        SudokuSolution::spec_tier(board) is None,
    ensures
        !SudokuSolution::spec_constructible(board, duration_secs),
{
}

} // verus!
