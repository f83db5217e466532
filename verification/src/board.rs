//! The persisted shape of a generated puzzle board, as far as solution
//! records read it.

use vstd::prelude::*;

verus! {

/// A puzzle board row of the `sudoku_board` table.
///
/// `id` is `None` until storage assigns one on insert; a solution can only
/// be recorded against a board that already carries its persisted `id`.
/// Timestamps are whole seconds since the Unix epoch.
#[derive(Debug)]
pub struct SudokuBoard {
    /// Unique board ID, assigned by the database.
    pub id: Option<i32>,
    /// The full (solved) board layout.
    pub full_board: String,
    /// Numeric difficulty column; recognized tiers lie between one and three.
    pub difficulty: i32,
    /// When the board was generated, in whole seconds since the Unix epoch.
    pub creation_time: i64,
}

} // verus!
