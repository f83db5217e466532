//! Small helpers shared across the crate, and the database schema script.

use vstd::prelude::*;

verus! {

/// The schema script run once against a fresh connection before a pool is
/// handed out: it creates the `sudoku_board` and `sudoku_solutions` tables.
pub const INITIALISE_DATABASE: &'static str = "
CREATE TABLE IF NOT EXISTS sudoku_board (
    id INTEGER PRIMARY KEY AUTOINCREMENT,
    full_board TEXT NOT NULL,
    difficulty INTEGER NOT NULL,
    creation_time DATETIME NOT NULL
);

CREATE TABLE IF NOT EXISTS sudoku_solutions (
    id INTEGER PRIMARY KEY AUTOINCREMENT,
    display_name TEXT NOT NULL,
    board_id INTEGER NOT NULL REFERENCES sudoku_board(id),
    skeleton TEXT NOT NULL,
    difficulty INTEGER NOT NULL,
    solution_duration_secs INTEGER NOT NULL,
    score INTEGER NOT NULL,
    solution_time DATETIME NOT NULL
);
";

/// Character-wise string equality, decided without assuming anything of
/// either argument's contents.
pub fn str_eq(a: &str, b: &str) -> (r: bool)
    ensures
        r <==> a@ == b@,
{
    let a_len = a.unicode_len();
    let b_len = b.unicode_len();
    if a_len != b_len {
        assert(a@ != b@) by {
            assert(a@.len() != b@.len());
        }
        return false;
    }
    let mut i: usize = 0;
    while i < a_len
        invariant
            i <= a_len,
            a_len == a@.len(),
            a_len == b@.len(),
            forall|j: int| 0 <= j < i ==> a@[j] == b@[j],
        decreases a_len - i,
    {
        if a.get_char(i) != b.get_char(i) {
            assert(a@ != b@) by {
                assert(a@[i as int] != b@[i as int]);
            }
            return false;
        }
        i = i + 1;
    }
    assert(a@ =~= b@);
    true
}

} // verus!
