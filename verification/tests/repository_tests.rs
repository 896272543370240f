use sudoku_game::{GameError, Puzzle, PuzzleRepository};

const PUZZLE: &str =
    "53..7....6..195....98....6.8...6...34..8.3..17...2...6.6....28....419..5....8..79";
const SOLUTION: &str =
    "534678912672195348198342567859761423426853791713924856961537284287419635345286179";

fn numbered(count: usize) -> Vec<Puzzle> {
    let mut puzzles = Vec::new();
    for i in 0..count {
        puzzles.push(Puzzle::new(format!("puzzle {}", i), format!("solution {}", i)));
    }
    puzzles
}

#[test]
fn puzzle_new_keeps_both_strings() {
    let pair = Puzzle::new(PUZZLE.to_string(), SOLUTION.to_string());
    assert_eq!(pair.puzzle, PUZZLE);
    assert_eq!(pair.solution, SOLUTION);
}

#[test]
fn load_unknown_difficulty_is_source_unavailable() {
    let repository = PuzzleRepository::new();
    assert_eq!(repository.load("Beginner").err(), Some(GameError::SourceUnavailable));
    let mut other = PuzzleRepository::new();
    other.insert("Advanced", numbered(3));
    assert_eq!(other.load("Beginner").err(), Some(GameError::SourceUnavailable));
    assert_eq!(other.load("advanced").err(), Some(GameError::SourceUnavailable));
    assert_eq!(other.load("").err(), Some(GameError::SourceUnavailable));
}

#[test]
fn load_empty_collection_is_empty_collection() {
    let mut repository = PuzzleRepository::new();
    repository.insert("Beginner", Vec::new());
    assert_eq!(repository.load("Beginner").err(), Some(GameError::EmptyCollection));
}

#[test]
fn load_single_entry_returns_it() {
    let mut repository = PuzzleRepository::new();
    repository.insert("Test", vec![Puzzle::new(PUZZLE.to_string(), SOLUTION.to_string())]);
    for _ in 0..20 {
        let drawn = repository.load("Test").unwrap();
        assert_eq!(drawn.puzzle, PUZZLE);
        assert_eq!(drawn.solution, SOLUTION);
    }
}

#[test]
fn load_returns_an_entry_of_the_named_collection() {
    let mut repository = PuzzleRepository::new();
    repository.insert("Beginner", numbered(5));
    repository.insert("Advanced", vec![Puzzle::new("hard".to_string(), "solved".to_string())]);
    for _ in 0..200 {
        let drawn = repository.load("Beginner").unwrap();
        let index: usize = drawn.puzzle["puzzle ".len()..].parse().unwrap();
        assert!(index < 5);
        assert_eq!(drawn.solution, format!("solution {}", index));
    }
    assert_eq!(repository.load("Advanced").unwrap().puzzle, "hard");
}

#[test]
fn load_draws_more_than_one_entry_over_many_calls() {
    let mut repository = PuzzleRepository::new();
    repository.insert("Beginner", numbered(4));
    let mut seen = [false; 4];
    for _ in 0..2_000 {
        let drawn = repository.load("Beginner").unwrap();
        let index: usize = drawn.puzzle["puzzle ".len()..].parse().unwrap();
        seen[index] = true;
    }
    assert_eq!(seen, [true; 4]);
}

#[test]
fn contains_tells_which_collections_are_held() {
    let mut repository = PuzzleRepository::new();
    assert!(!repository.contains("Beginner"));
    repository.insert("Beginner", Vec::new());
    assert!(repository.contains("Beginner"));
    assert!(!repository.contains("Intermediate"));
    repository.insert("Intermediate", numbered(1));
    assert!(repository.contains("Beginner"));
    assert!(repository.contains("Intermediate"));
}

#[test]
fn insert_replaces_collection_of_same_name() {
    let mut repository = PuzzleRepository::new();
    repository.insert("Beginner", Vec::new());
    repository.insert("Advanced", numbered(2));
    assert_eq!(repository.load("Beginner").err(), Some(GameError::EmptyCollection));
    repository.insert("Beginner", vec![Puzzle::new("new".to_string(), "entry".to_string())]);
    assert_eq!(repository.load("Beginner").unwrap().puzzle, "new");
    repository.insert("Beginner", Vec::new());
    assert_eq!(repository.load("Beginner").err(), Some(GameError::EmptyCollection));
    assert!(repository.load("Advanced").is_ok());
}
