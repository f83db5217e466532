use sudoku_backend::board::SudokuBoard;
use sudoku_backend::difficulty::BoardDifficulty;
use sudoku_backend::solution::SudokuSolution;

fn board(id: Option<i32>, difficulty: i32) -> SudokuBoard {
    SudokuBoard {
        id,
        full_board: "269574813534918726781263594395846271478129365126357948857491632913682457642735189"
            .to_string(),
        difficulty,
        creation_time: 1533167414,
    }
}

#[test]
fn unsaved_board_yields_no_record() {
    let b = board(None, 2);
    assert!(SudokuSolution::new("ann".to_string(), "skeleton".to_string(), &b, 60).is_none());
}

#[test]
fn unrecognized_difficulty_yields_no_record() {
    for difficulty in [0, 4, 5, -1, i32::MIN, i32::MAX] {
        let b = board(Some(1), difficulty);
        assert!(SudokuSolution::new("bob".to_string(), "skeleton".to_string(), &b, 60).is_none());
    }
}

#[test]
fn score_is_tier_formula_applied_to_duration() {
    let b = board(Some(3), 3);
    let s = SudokuSolution::new("cleo".to_string(), "skel".to_string(), &b, 600).unwrap();
    assert_eq!(s.id, None);
    assert_eq!(s.display_name, "cleo");
    assert_eq!(s.board_id, 3);
    assert_eq!(s.skeleton, "skel");
    assert_eq!(s.difficulty, 3);
    assert_eq!(s.solution_duration_secs, 600);
    assert_eq!(s.score, 3 * (14400 - 600));
}

#[test]
fn easy_tier_scores_exactly() {
    let b = board(Some(9), 1);
    let fast = SudokuSolution::new("d".to_string(), "s".to_string(), &b, 0).unwrap();
    assert_eq!(fast.score, 3600);
    let slow = SudokuSolution::new("d".to_string(), "s".to_string(), &b, 3600).unwrap();
    assert_eq!(slow.score, 0);
}

#[test]
fn duration_outside_tier_range_yields_no_record() {
    let b = board(Some(9), 1);
    assert!(SudokuSolution::new("e".to_string(), "s".to_string(), &b, 3601).is_none());
    assert!(SudokuSolution::new("e".to_string(), "s".to_string(), &b, -1).is_none());
    assert!(SudokuSolution::new("e".to_string(), "s".to_string(), &b, i64::MAX).is_none());
}

#[test]
fn from_numeric_recognizes_exactly_three_tiers() {
    assert_eq!(BoardDifficulty::from_numeric(1), Some(BoardDifficulty::Easy));
    assert_eq!(BoardDifficulty::from_numeric(2), Some(BoardDifficulty::Medium));
    assert_eq!(BoardDifficulty::from_numeric(3), Some(BoardDifficulty::Hard));
    assert_eq!(BoardDifficulty::from_numeric(0), None);
    assert_eq!(BoardDifficulty::from_numeric(4), None);
    assert_eq!(BoardDifficulty::from_numeric(u64::MAX), None);
}

#[test]
fn tier_score_rejects_out_of_range_durations() {
    assert_eq!(BoardDifficulty::Medium.score(7200), Some(0));
    assert_eq!(BoardDifficulty::Medium.score(7201), None);
    assert_eq!(BoardDifficulty::Medium.score(-5), None);
    assert_eq!(BoardDifficulty::Medium.score(100), Some(2 * (7200 - 100)));
    assert_eq!(BoardDifficulty::Hard.score(0), Some(3 * 14400));
}
