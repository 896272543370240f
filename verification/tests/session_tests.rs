use sudoku_game::{EntryOutcome, GameClock, GameError, Phase, Puzzle, PuzzleRepository, Sudoku};

const PUZZLE: &str =
    "53..7....6..195....98....6.8...6...34..8.3..17...2...6.6....28....419..5....8..79";
const SOLUTION: &str =
    "534678912672195348198342567859761423426853791713924856961537284287419635345286179";

fn classic() -> Puzzle {
    Puzzle::new(PUZZLE.to_string(), SOLUTION.to_string())
}

fn playing() -> Sudoku {
    let mut session = Sudoku::new("John".to_string(), 2);
    assert_eq!(session.begin("Beginner", &classic(), 1_000), Ok(()));
    session
}

fn read_back(cells: &[[char; 9]; 9]) -> String {
    let mut text = String::new();
    for row in 0..9 {
        for col in 0..9 {
            text.push(cells[row][col]);
        }
    }
    text
}

#[test]
fn new_session_waits_for_a_difficulty() {
    let session = Sudoku::new("John".to_string(), 2);
    assert_eq!(session.phase(), Phase::ChoosingDifficulty);
    assert_eq!(session.strikes(), 0);
    assert_eq!(session.username(), "John");
    assert_eq!(session.user_id(), 2);
    assert_eq!(session.difficulty(), "");
    assert_eq!(session.clock(), GameClock::NotStarted);
    assert_eq!(session.tick(10_000), 0);
    assert_eq!(session.grid().player(), &[['.'; 9]; 9]);
    assert_eq!(session.grid().starting(), &[['.'; 9]; 9]);
    assert_eq!(session.grid().solution(), &[['.'; 9]; 9]);
    assert_eq!(session.grid().selected(), None);
    assert_eq!(session.score(), None);
    assert_eq!(session.completion_time(), None);
}

#[test]
fn player_identity_is_stored_as_given() {
    let session = Sudoku::new("".to_string(), -7);
    assert_eq!(session.username(), "");
    assert_eq!(session.user_id(), -7);
    let other = Sudoku::new("Zoë 数独".to_string(), i32::MAX);
    assert_eq!(other.username(), "Zoë 数独");
    assert_eq!(other.user_id(), i32::MAX);
}

#[test]
fn begin_loads_puzzle_and_starts_clock() {
    let session = playing();
    assert_eq!(session.phase(), Phase::Playing);
    assert_eq!(session.difficulty(), "Beginner");
    assert_eq!(session.strikes(), 0);
    assert_eq!(session.clock(), GameClock::Running { since: 1_000 });
    assert_eq!(read_back(session.grid().starting()), PUZZLE);
    assert_eq!(read_back(session.grid().player()), PUZZLE);
    assert_eq!(read_back(session.grid().solution()), SOLUTION);
    assert_eq!(session.grid().selected(), None);
    assert_eq!(session.username(), "John");
}

#[test]
fn begin_refuses_malformed_puzzle() {
    let mut session = Sudoku::new("John".to_string(), 2);
    let short = Puzzle::new(PUZZLE[..80].to_string(), SOLUTION.to_string());
    assert_eq!(session.begin("Beginner", &short, 1_000), Err(GameError::MalformedPuzzle));
    assert_eq!(session.phase(), Phase::ChoosingDifficulty);
    assert_eq!(session.difficulty(), "");
    assert_eq!(session.clock(), GameClock::NotStarted);
    assert_eq!(session.grid().player(), &[['.'; 9]; 9]);
    assert_eq!(session.begin("Beginner", &classic(), 2_000), Ok(()));
    assert_eq!(session.phase(), Phase::Playing);
    assert_eq!(session.clock(), GameClock::Running { since: 2_000 });
}

#[test]
fn begin_while_playing_changes_nothing() {
    let mut session = playing();
    assert_eq!(session.select(0, 2), Ok(()));
    assert_eq!(session.enter_digit(4, 2_000), Ok(EntryOutcome::Correct));
    let other = Puzzle::new(SOLUTION.to_string(), SOLUTION.to_string());
    assert_eq!(session.begin("Advanced", &other, 5_000), Ok(()));
    assert_eq!(session.difficulty(), "Beginner");
    assert_eq!(session.clock(), GameClock::Running { since: 1_000 });
    assert_eq!(session.grid().player()[0][2], '4');
    assert_eq!(read_back(session.grid().starting()), PUZZLE);
}

#[test]
fn choose_difficulty_starts_game_from_repository() {
    let mut repository = PuzzleRepository::new();
    repository.insert("Beginner", vec![classic()]);
    let mut session = Sudoku::new("John".to_string(), 2);
    assert_eq!(session.choose_difficulty(&repository, "Beginner", 3_000), Ok(()));
    assert_eq!(session.phase(), Phase::Playing);
    assert_eq!(session.difficulty(), "Beginner");
    assert_eq!(session.clock(), GameClock::Running { since: 3_000 });
    assert_eq!(read_back(session.grid().starting()), PUZZLE);
    assert_eq!(read_back(session.grid().player()), PUZZLE);
    assert_eq!(read_back(session.grid().solution()), SOLUTION);
}

#[test]
fn choose_difficulty_draws_from_the_named_collection() {
    let mut repository = PuzzleRepository::new();
    let mut puzzles = Vec::new();
    for digit in ['1', '2', '3'] {
        let mut puzzle = String::from(PUZZLE);
        puzzle.replace_range(2..3, &digit.to_string());
        puzzles.push(Puzzle::new(puzzle, SOLUTION.to_string()));
    }
    repository.insert("Intermediate", puzzles);
    repository.insert("Beginner", Vec::new());
    for _ in 0..50 {
        let mut session = Sudoku::new("John".to_string(), 2);
        assert_eq!(session.choose_difficulty(&repository, "Intermediate", 0), Ok(()));
        let drawn = read_back(session.grid().starting());
        assert!(['1', '2', '3'].contains(&session.grid().starting()[0][2]));
        assert_eq!(&drawn[..2], &PUZZLE[..2]);
        assert_eq!(&drawn[3..], &PUZZLE[3..]);
        assert_eq!(read_back(session.grid().player()), drawn);
    }
}

#[test]
fn choose_difficulty_source_unavailable_keeps_choosing() {
    let repository = PuzzleRepository::new();
    let mut session = Sudoku::new("John".to_string(), 2);
    assert_eq!(
        session.choose_difficulty(&repository, "Beginner", 3_000),
        Err(GameError::SourceUnavailable)
    );
    assert_eq!(session.phase(), Phase::ChoosingDifficulty);
    assert_eq!(session.difficulty(), "");
    assert_eq!(session.clock(), GameClock::NotStarted);
}

#[test]
fn choose_difficulty_empty_collection_keeps_choosing() {
    let mut repository = PuzzleRepository::new();
    repository.insert("Beginner", Vec::new());
    let mut session = Sudoku::new("John".to_string(), 2);
    assert_eq!(
        session.choose_difficulty(&repository, "Beginner", 3_000),
        Err(GameError::EmptyCollection)
    );
    assert_eq!(session.phase(), Phase::ChoosingDifficulty);
    assert_eq!(session.clock(), GameClock::NotStarted);
}

#[test]
fn choose_difficulty_malformed_puzzle_keeps_choosing() {
    let mut repository = PuzzleRepository::new();
    repository.insert("Test", vec![Puzzle::new("53..7".to_string(), SOLUTION.to_string())]);
    let mut session = Sudoku::new("John".to_string(), 2);
    assert_eq!(
        session.choose_difficulty(&repository, "Test", 3_000),
        Err(GameError::MalformedPuzzle)
    );
    assert_eq!(session.phase(), Phase::ChoosingDifficulty);
    assert_eq!(session.grid().player(), &[['.'; 9]; 9]);
}

#[test]
fn choose_difficulty_can_be_retried_after_failure() {
    let mut repository = PuzzleRepository::new();
    repository.insert("Beginner", Vec::new());
    repository.insert("Advanced", vec![classic()]);
    let mut session = Sudoku::new("John".to_string(), 2);
    assert_eq!(
        session.choose_difficulty(&repository, "Beginner", 1_000),
        Err(GameError::EmptyCollection)
    );
    assert_eq!(
        session.choose_difficulty(&repository, "Missing", 2_000),
        Err(GameError::SourceUnavailable)
    );
    assert_eq!(session.choose_difficulty(&repository, "Advanced", 3_000), Ok(()));
    assert_eq!(session.phase(), Phase::Playing);
    assert_eq!(session.difficulty(), "Advanced");
    assert_eq!(session.clock(), GameClock::Running { since: 3_000 });
}

#[test]
fn choose_difficulty_while_playing_changes_nothing() {
    let mut repository = PuzzleRepository::new();
    repository.insert("Advanced", vec![Puzzle::new(SOLUTION.to_string(), SOLUTION.to_string())]);
    let mut session = playing();
    assert_eq!(session.choose_difficulty(&repository, "Advanced", 9_000), Ok(()));
    assert_eq!(session.choose_difficulty(&repository, "Missing", 9_000), Ok(()));
    assert_eq!(session.difficulty(), "Beginner");
    assert_eq!(read_back(session.grid().starting()), PUZZLE);
    assert_eq!(session.clock(), GameClock::Running { since: 1_000 });
}

#[test]
fn get_puzzle_fills_grids_and_keeps_choosing() {
    let mut repository = PuzzleRepository::new();
    repository.insert("Beginner", vec![classic()]);
    let mut session = Sudoku::new("John".to_string(), 2);
    assert_eq!(session.get_puzzle(&repository, "Beginner"), Ok(()));
    assert_eq!(session.phase(), Phase::ChoosingDifficulty);
    assert_eq!(session.difficulty(), "");
    assert_eq!(session.clock(), GameClock::NotStarted);
    assert_eq!(read_back(session.grid().starting()), PUZZLE);
    assert_eq!(read_back(session.grid().player()), PUZZLE);
    assert_eq!(read_back(session.grid().solution()), SOLUTION);
}

#[test]
fn get_puzzle_surfaces_repository_failures() {
    let mut repository = PuzzleRepository::new();
    repository.insert("Beginner", Vec::new());
    repository.insert("Test", vec![Puzzle::new(PUZZLE.to_string(), "12".to_string())]);
    let mut session = Sudoku::new("John".to_string(), 2);
    assert_eq!(session.get_puzzle(&repository, "Missing"), Err(GameError::SourceUnavailable));
    assert_eq!(session.get_puzzle(&repository, "Beginner"), Err(GameError::EmptyCollection));
    assert_eq!(session.get_puzzle(&repository, "Test"), Err(GameError::MalformedPuzzle));
    assert_eq!(session.grid().player(), &[['.'; 9]; 9]);
}

#[test]
fn get_puzzle_while_playing_changes_nothing() {
    let mut repository = PuzzleRepository::new();
    repository.insert("Advanced", vec![Puzzle::new(SOLUTION.to_string(), SOLUTION.to_string())]);
    let mut session = playing();
    assert_eq!(session.get_puzzle(&repository, "Advanced"), Ok(()));
    assert_eq!(read_back(session.grid().starting()), PUZZLE);
    assert_eq!(session.phase(), Phase::Playing);
}

#[test]
fn correct_entry_keeps_strikes_at_zero() {
    let mut session = playing();
    assert_eq!(session.select(0, 2), Ok(()));
    assert_eq!(session.enter_digit(4, 2_000), Ok(EntryOutcome::Correct));
    assert_eq!(session.strikes(), 0);
    assert_eq!(session.grid().player()[0][2], '4');
    assert_eq!(session.phase(), Phase::Playing);
}

#[test]
fn incorrect_entry_is_recorded_and_adds_a_strike() {
    let mut solution = String::from(SOLUTION);
    solution.replace_range(2..3, "9");
    let mut session = Sudoku::new("John".to_string(), 2);
    let puzzle = Puzzle::new(PUZZLE.to_string(), solution);
    assert_eq!(session.begin("Test", &puzzle, 0), Ok(()));
    assert_eq!(session.select(0, 2), Ok(()));
    assert_eq!(session.enter_digit(4, 2_000), Ok(EntryOutcome::Incorrect));
    assert_eq!(session.strikes(), 1);
    assert_eq!(session.grid().player()[0][2], '4');
    assert_eq!(session.phase(), Phase::Playing);
}

#[test]
fn repeated_wrong_entry_in_same_cell_counts_each_time() {
    let mut session = playing();
    assert_eq!(session.select(0, 2), Ok(()));
    assert_eq!(session.enter_digit(1, 2_000), Ok(EntryOutcome::Incorrect));
    assert_eq!(session.strikes(), 1);
    assert_eq!(session.enter_digit(1, 2_100), Ok(EntryOutcome::Incorrect));
    assert_eq!(session.strikes(), 2);
    assert_eq!(session.phase(), Phase::Playing);
}

#[test]
fn strikes_equal_number_of_incorrect_entries() {
    let mut session = playing();
    let entries: [(usize, usize, u8, bool); 7] = [
        (0, 2, 4, false),
        (0, 3, 6, false),
        (0, 3, 1, true),
        (0, 0, 9, false),
        (0, 3, 6, false),
        (1, 1, 1, true),
        (1, 1, 7, false),
    ];
    let mut wrong = 0;
    let mut last = 0;
    for (row, col, digit, is_wrong) in entries {
        assert_eq!(session.select(row, col), Ok(()));
        let outcome = session.enter_digit(digit, 2_000).unwrap();
        assert_eq!(outcome == EntryOutcome::Incorrect, is_wrong);
        if is_wrong {
            wrong += 1;
        }
        assert_eq!(session.strikes(), wrong);
        assert!(session.strikes() >= last);
        last = session.strikes();
    }
    assert_eq!(session.strikes(), 2);
    assert_eq!(session.phase(), Phase::Playing);
}

#[test]
fn entry_on_clue_is_ignored_without_strike() {
    let mut session = playing();
    assert_eq!(session.select(0, 0), Ok(()));
    assert_eq!(session.enter_digit(9, 2_000), Ok(EntryOutcome::Ignored));
    assert_eq!(session.strikes(), 0);
    assert_eq!(session.grid().player()[0][0], '5');
    assert_eq!(session.phase(), Phase::Playing);
}

#[test]
fn entry_without_selection_is_refused() {
    let mut session = playing();
    assert_eq!(session.enter_digit(4, 2_000), Err(GameError::NoSelection));
    assert_eq!(session.strikes(), 0);
    assert_eq!(read_back(session.grid().player()), PUZZLE);
}

#[test]
fn entry_of_invalid_digit_is_refused() {
    let mut session = playing();
    assert_eq!(session.select(0, 2), Ok(()));
    assert_eq!(session.enter_digit(0, 2_000), Err(GameError::InvalidDigit));
    assert_eq!(session.enter_digit(10, 2_000), Err(GameError::InvalidDigit));
    assert_eq!(session.strikes(), 0);
    assert_eq!(session.grid().player()[0][2], '.');
    assert_eq!(session.phase(), Phase::Playing);
}

#[test]
fn third_strike_loses_and_freezes_clock() {
    let mut session = playing();
    assert_eq!(session.select(0, 2), Ok(()));
    assert_eq!(session.enter_digit(1, 2_000), Ok(EntryOutcome::Incorrect));
    assert_eq!(session.select(0, 3), Ok(()));
    assert_eq!(session.enter_digit(6, 3_000), Ok(EntryOutcome::Correct));
    assert_eq!(session.enter_digit(2, 4_000), Ok(EntryOutcome::Incorrect));
    assert_eq!(session.strikes(), 2);
    assert_eq!(session.phase(), Phase::Playing);
    assert_eq!(session.score(), None);
    assert_eq!(session.enter_digit(6, 4_500), Ok(EntryOutcome::Correct));
    assert_eq!(session.select(4, 4), Ok(()));
    assert_eq!(session.enter_digit(9, 61_000), Ok(EntryOutcome::Incorrect));
    assert_eq!(session.strikes(), 3);
    assert_eq!(session.phase(), Phase::Lost);
    assert_eq!(session.clock(), GameClock::Frozen { elapsed: 60_000 });
    assert_eq!(session.tick(61_000), 60_000);
    assert_eq!(session.tick(999_000), 60_000);
    assert_eq!(session.grid().player()[4][4], '9');
    assert_eq!(session.grid().correct_cells(), 31);
    let expected = ((31.0f32 / 81.0) * 100.0).round() as u8;
    assert_eq!(expected, 38);
    assert_eq!(session.score(), Some(38));
    assert_eq!(session.completion_time(), None);
}

#[test]
fn lost_score_is_rounded_percentage_of_correct_cells() {
    let mut session = playing();
    assert_eq!(session.select(0, 2), Ok(()));
    for now in [1u64, 2, 3] {
        assert_eq!(session.enter_digit(1, now), Ok(EntryOutcome::Incorrect));
    }
    assert_eq!(session.phase(), Phase::Lost);
    assert_eq!(session.grid().correct_cells(), 30);
    assert_eq!(session.score(), Some(37));
}

#[test]
fn lost_session_accepts_no_further_input() {
    let mut session = playing();
    assert_eq!(session.select(0, 2), Ok(()));
    for now in [1u64, 2, 3] {
        assert_eq!(session.enter_digit(1, now), Ok(EntryOutcome::Incorrect));
    }
    assert_eq!(session.phase(), Phase::Lost);
    let player = read_back(session.grid().player());
    assert_eq!(session.enter_digit(4, 10_000), Ok(EntryOutcome::Ignored));
    assert_eq!(session.enter_digit(1, 10_000), Ok(EntryOutcome::Ignored));
    assert_eq!(session.clear(), Ok(()));
    assert_eq!(session.select(5, 5), Ok(()));
    assert_eq!(session.select(9, 9), Err(GameError::OutOfRange));
    assert_eq!(session.enter_digit(0, 10_000), Err(GameError::InvalidDigit));
    assert_eq!(session.begin("Advanced", &classic(), 10_000), Ok(()));
    assert_eq!(session.strikes(), 3);
    assert_eq!(session.phase(), Phase::Lost);
    assert_eq!(session.grid().selected(), Some((0, 2)));
    assert_eq!(read_back(session.grid().player()), player);
    assert_eq!(session.clock(), GameClock::Frozen { elapsed: 0 });
    assert_eq!(session.difficulty(), "Beginner");
}

fn fill_all_but_last(session: &mut Sudoku) {
    let solution: Vec<char> = SOLUTION.chars().collect();
    let puzzle: Vec<char> = PUZZLE.chars().collect();
    let last_empty = puzzle.iter().rposition(|c| *c == '.').unwrap();
    for i in 0..81 {
        if puzzle[i] == '.' && i != last_empty {
            assert_eq!(session.select(i / 9, i % 9), Ok(()));
            let digit = solution[i] as u8 - b'0';
            assert_eq!(session.enter_digit(digit, 5_000), Ok(EntryOutcome::Correct));
            assert_eq!(session.phase(), Phase::Playing);
        }
    }
    assert_eq!(session.select(last_empty / 9, last_empty % 9), Ok(()));
}

#[test]
fn completing_the_grid_wins_and_freezes_clock() {
    let mut session = playing();
    fill_all_but_last(&mut session);
    let (row, col) = session.grid().selected().unwrap();
    let digit = session.grid().solution()[row][col] as u8 - b'0';
    assert_eq!(session.completion_time(), None);
    assert_eq!(session.enter_digit(digit, 91_000), Ok(EntryOutcome::Correct));
    assert_eq!(session.phase(), Phase::Won);
    assert!(session.grid().is_complete());
    assert_eq!(session.strikes(), 0);
    assert_eq!(session.clock(), GameClock::Frozen { elapsed: 90_000 });
    assert_eq!(session.completion_time(), Some(90_000));
    assert_eq!(session.tick(500_000), 90_000);
    assert_eq!(session.score(), None);
}

#[test]
fn winning_with_strikes_keeps_them() {
    let mut session = playing();
    fill_all_but_last(&mut session);
    let (row, col) = session.grid().selected().unwrap();
    let right = session.grid().solution()[row][col] as u8 - b'0';
    let wrong = right % 9 + 1;
    assert_eq!(session.enter_digit(wrong, 6_000), Ok(EntryOutcome::Incorrect));
    assert_eq!(session.enter_digit(wrong, 6_000), Ok(EntryOutcome::Incorrect));
    assert_eq!(session.phase(), Phase::Playing);
    assert_eq!(session.enter_digit(right, 7_000), Ok(EntryOutcome::Correct));
    assert_eq!(session.phase(), Phase::Won);
    assert_eq!(session.strikes(), 2);
    assert_eq!(session.completion_time(), Some(6_000));
}

#[test]
fn third_strike_on_last_cell_loses_instead_of_winning() {
    let mut session = playing();
    fill_all_but_last(&mut session);
    let (row, col) = session.grid().selected().unwrap();
    let right = session.grid().solution()[row][col] as u8 - b'0';
    let wrong = right % 9 + 1;
    for now in [6_000u64, 6_001, 6_002] {
        assert_eq!(session.enter_digit(wrong, now), Ok(EntryOutcome::Incorrect));
    }
    assert_eq!(session.phase(), Phase::Lost);
    assert!(!session.grid().is_complete());
    assert_eq!(session.grid().correct_cells(), 80);
    assert_eq!(session.score(), Some(99));
    assert_eq!(session.enter_digit(right, 7_000), Ok(EntryOutcome::Ignored));
    assert_eq!(session.phase(), Phase::Lost);
}

#[test]
fn won_session_accepts_no_further_input() {
    let mut session = playing();
    fill_all_but_last(&mut session);
    let (row, col) = session.grid().selected().unwrap();
    let digit = session.grid().solution()[row][col] as u8 - b'0';
    assert_eq!(session.enter_digit(digit, 91_000), Ok(EntryOutcome::Correct));
    assert_eq!(session.phase(), Phase::Won);
    let wrong = digit % 9 + 1;
    assert_eq!(session.enter_digit(wrong, 95_000), Ok(EntryOutcome::Ignored));
    assert_eq!(session.clear(), Ok(()));
    assert_eq!(session.select(0, 0), Ok(()));
    assert_eq!(session.grid().selected(), Some((row, col)));
    assert_eq!(read_back(session.grid().player()), SOLUTION);
    assert_eq!(session.strikes(), 0);
    assert_eq!(session.phase(), Phase::Won);
    assert_eq!(session.completion_time(), Some(90_000));
}

#[test]
fn select_out_of_range_leaves_selection_unchanged() {
    let mut session = playing();
    assert_eq!(session.select(9, 0), Err(GameError::OutOfRange));
    assert_eq!(session.grid().selected(), None);
    assert_eq!(session.select(3, 3), Ok(()));
    assert_eq!(session.select(9, 0), Err(GameError::OutOfRange));
    assert_eq!(session.select(0, 9), Err(GameError::OutOfRange));
    assert_eq!(session.grid().selected(), Some((3, 3)));
    assert_eq!(session.phase(), Phase::Playing);
}

#[test]
fn select_before_a_game_changes_nothing() {
    let mut session = Sudoku::new("John".to_string(), 2);
    assert_eq!(session.select(3, 3), Ok(()));
    assert_eq!(session.grid().selected(), None);
    assert_eq!(session.select(9, 0), Err(GameError::OutOfRange));
    assert_eq!(session.enter_digit(4, 0), Ok(EntryOutcome::Ignored));
    assert_eq!(session.enter_digit(0, 0), Err(GameError::InvalidDigit));
    assert_eq!(session.clear(), Ok(()));
    assert_eq!(session.phase(), Phase::ChoosingDifficulty);
    assert_eq!(session.strikes(), 0);
}

#[test]
fn clear_is_free_and_keeps_phase() {
    let mut session = playing();
    assert_eq!(session.select(0, 2), Ok(()));
    assert_eq!(session.enter_digit(1, 2_000), Ok(EntryOutcome::Incorrect));
    assert_eq!(session.clear(), Ok(()));
    assert_eq!(session.grid().player()[0][2], '.');
    assert_eq!(session.strikes(), 1);
    assert_eq!(session.phase(), Phase::Playing);
    assert_eq!(session.clear(), Ok(()));
    assert_eq!(session.strikes(), 1);
}

#[test]
fn clear_without_selection_is_refused() {
    let mut session = playing();
    assert_eq!(session.clear(), Err(GameError::NoSelection));
    assert_eq!(session.phase(), Phase::Playing);
}

#[test]
fn clear_on_clue_changes_nothing() {
    let mut session = playing();
    assert_eq!(session.select(0, 0), Ok(()));
    assert_eq!(session.clear(), Ok(()));
    assert_eq!(session.grid().player()[0][0], '5');
}

#[test]
fn tick_reads_the_running_clock() {
    let session = playing();
    assert_eq!(session.tick(1_000), 0);
    assert_eq!(session.tick(1_500), 500);
    assert_eq!(session.tick(61_000), 60_000);
    assert_eq!(session.tick(500), 0);
    assert_eq!(session.phase(), Phase::Playing);
    assert_eq!(session.clock(), GameClock::Running { since: 1_000 });
}

#[test]
fn puzzle_equal_to_its_solution_starts_as_playing() {
    let mut session = Sudoku::new("John".to_string(), 2);
    let solved = Puzzle::new(SOLUTION.to_string(), SOLUTION.to_string());
    assert_eq!(session.begin("Test", &solved, 0), Ok(()));
    assert_eq!(session.phase(), Phase::Playing);
    assert!(session.grid().is_complete());
    assert_eq!(session.select(0, 0), Ok(()));
    assert_eq!(session.phase(), Phase::Playing);
    assert_eq!(session.enter_digit(5, 4_000), Ok(EntryOutcome::Ignored));
    assert_eq!(session.enter_digit(1, 4_000), Ok(EntryOutcome::Ignored));
    assert_eq!(session.clear(), Ok(()));
    assert_eq!(session.phase(), Phase::Playing);
    assert_eq!(session.strikes(), 0);
    assert_eq!(session.completion_time(), None);
    assert_eq!(session.clock(), GameClock::Running { since: 0 });
}
