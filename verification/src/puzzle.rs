//! A puzzle and its solution, as they come from a puzzle collection.

use vstd::prelude::*;
use crate::grid_view::EMPTY;

verus! {

/// A puzzle with its solution. Each is a string of 81 cells, rows first; an
/// empty cell of the puzzle is written `.`.
#[derive(Clone, Debug)]
pub struct Puzzle {
    /// The unsolved board.
    pub puzzle: String,
    /// The solved board.
    pub solution: String,
}

/// Whether `c` is one of the digits `1` to `9`.
pub open spec fn is_digit(c: char) -> bool {
    '1' <= c <= '9'
}

/// Whether `puzzle` and `solution` make a proper pair: both have 81 cells,
/// every cell of the solution is a digit, and every cell of the puzzle is
/// either empty or the digit that the solution has there.
pub open spec fn is_proper_pair(puzzle: Seq<char>, solution: Seq<char>) -> bool {
    &&& puzzle.len() == 81
    &&& solution.len() == 81
    &&& forall|i: int| 0 <= i < 81 ==> is_digit(#[trigger] solution[i])
    &&& forall|i: int| 0 <= i < 81 ==> #[trigger] puzzle[i] == EMPTY || puzzle[i] == solution[i]
}

impl Puzzle {
    /// A puzzle with its solution.
    pub fn new(puzzle: String, solution: String) -> (pair: Puzzle)
        ensures
            pair.puzzle == puzzle,
            pair.solution == solution,
    {
        Puzzle { puzzle, solution }
    }
}

} // verus!
