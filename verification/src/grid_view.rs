//! The model of the grids: what every operation on them does, stated on
//! sequences of 81 cells, and the laws that hold of all of them.

use vstd::prelude::*;
use crate::error::GameError;

verus! {

/// The character that marks a cell without a digit.
pub const EMPTY: char = '.';

/// What entering a digit did to the selected cell.
#[derive(Clone, Copy, Debug, PartialEq, Eq, Structural)]
pub enum EntryOutcome {
    /// The digit was written and agrees with the solution.
    Correct,
    /// The digit was written and disagrees with the solution.
    Incorrect,
    /// Nothing was written: the selected cell holds a clue, or no game is
    /// being played.
    Ignored,
}

/// How a cell of the player's copy stands against the clues and the solution.
#[derive(Clone, Copy, Debug, PartialEq, Eq, Structural)]
pub enum CellMark {
    /// The cell is empty.
    Empty,
    /// The cell holds a clue that agrees with the solution.
    Clue,
    /// The cell holds an entry of the player that agrees with the solution.
    Correct,
    /// The cell holds a character that disagrees with the solution.
    Incorrect,
}

/// The flat position of the cell in row `row` and column `col`, rows first.
pub open spec fn cell_index(row: int, col: int) -> int {
    row * 9 + col
}

/// Whether `row` and `col` address a cell of the grid.
pub open spec fn in_grid(row: int, col: int) -> bool {
    0 <= row < 9 && 0 <= col < 9
}

/// The character that stands for the digit `digit` in a cell.
pub open spec fn digit_char(digit: u8) -> char {
    (digit + 48) as char
}

/// The number of positions below `upto` at which `player` and `solution` hold
/// the same character.
pub open spec fn agreeing(player: Seq<char>, solution: Seq<char>, upto: nat) -> nat
    decreases upto,
{
    if upto == 0 {
        0
    } else {
        agreeing(player, solution, (upto - 1) as nat) + if player[upto - 1] == solution[upto - 1] {
            1nat
        } else {
            0nat
        }
    }
}

/// The share of `correct` among 81 cells as a whole percentage, rounded to the
/// nearest integer.
pub open spec fn rounded_percent(correct: nat) -> nat {
    (200 * correct + 81) / 162
}

/// Whether two cells lie in the same 3 by 3 box.
pub open spec fn same_box(row: int, col: int, other_row: int, other_col: int) -> bool {
    row / 3 == other_row / 3 && col / 3 == other_col / 3
}

/// Whether a cell lies in one of the four boxes that are set apart from the
/// rest: top middle, bottom middle, middle left and middle right. The centre
/// box is not among them.
pub open spec fn in_marked_box(row: int, col: int) -> bool {
    ||| (0 <= row <= 2 && 3 <= col <= 5)
    ||| (6 <= row <= 8 && 3 <= col <= 5)
    ||| (3 <= row <= 5 && 0 <= col <= 2)
    ||| (3 <= row <= 5 && 6 <= col <= 8)
}

/// The model of a [`GridState`]: each grid as the sequence of its 81 cells,
/// rows first, and the selected cell as its row and column.
pub struct GridView {
    /// The clues, never changed after loading.
    pub starting: Seq<char>,
    /// The player's working copy.
    pub player: Seq<char>,
    /// The answer.
    pub solution: Seq<char>,
    /// The selected cell, if any.
    pub selected: Option<(int, int)>,
}

/// One operation on the grids.
pub enum GridOp {
    /// Select the cell in `row` and `col`.
    Select { row: int, col: int },
    /// Enter `digit` into the selected cell.
    SetDigit { digit: u8 },
    /// Empty the selected cell.
    Clear,
}

impl GridView {
    /// Every grid has 81 cells, the selection lies in the grid, and the
    /// player's copy shows every clue.
    pub open spec fn wf(self) -> bool {
        &&& self.starting.len() == 81
        &&& self.player.len() == 81
        &&& self.solution.len() == 81
        &&& (self.selected matches Some((row, col)) ==> in_grid(row, col))
        &&& forall|i: int|
            0 <= i < 81 && self.starting[i] != EMPTY ==> self.player[i] == #[trigger] self.starting[i]
    }

    /// The grids before any puzzle is loaded: every cell empty, none selected.
    pub open spec fn blank() -> GridView {
        GridView {
            starting: Seq::new(81, |i: int| EMPTY),
            player: Seq::new(81, |i: int| EMPTY),
            solution: Seq::new(81, |i: int| EMPTY),
            selected: None,
        }
    }

    /// The grids right after loading `puzzle` with its `solution`.
    pub open spec fn loaded(puzzle: Seq<char>, solution: Seq<char>) -> GridView {
        GridView { starting: puzzle, player: puzzle, solution, selected: None }
    }

    /// The clue in row `row` and column `col`.
    pub open spec fn starting_at(self, row: int, col: int) -> char {
        self.starting[cell_index(row, col)]
    }

    /// The cell of the player's copy in row `row` and column `col`.
    pub open spec fn player_at(self, row: int, col: int) -> char {
        self.player[cell_index(row, col)]
    }

    /// The cell of the solution in row `row` and column `col`.
    pub open spec fn solution_at(self, row: int, col: int) -> char {
        self.solution[cell_index(row, col)]
    }

    /// How the cell in `row` and `col` of the player's copy stands: empty;
    /// else in disagreement with the solution; else an entry of the player
    /// where the clues are empty; else a clue.
    pub open spec fn mark_at(self, row: int, col: int) -> CellMark {
        if self.player_at(row, col) == EMPTY {
            CellMark::Empty
        } else if self.player_at(row, col) != self.solution_at(row, col) {
            CellMark::Incorrect
        } else if self.starting_at(row, col) == EMPTY {
            CellMark::Correct
        } else {
            CellMark::Clue
        }
    }

    /// The grids after `select(row, col)`: the cell is selected if it lies in
    /// the grid, and nothing changes otherwise.
    pub open spec fn select(self, row: int, col: int) -> GridView {
        if in_grid(row, col) {
            GridView { selected: Some((row, col)), ..self }
        } else {
            self
        }
    }

    /// Whether the cell at flat position `i` holds a clue.
    pub open spec fn is_clue(self, i: int) -> bool {
        self.starting[i] != EMPTY
    }

    /// What entering `digit` returns: a value outside 1 to 9 is refused, then
    /// an entry without a selected cell; an entry on a clue is ignored; any
    /// other entry is written and judged against the solution.
    pub open spec fn entry_outcome(self, digit: u8) -> Result<EntryOutcome, GameError> {
        if !(1 <= digit <= 9) {
            Err(GameError::InvalidDigit)
        } else {
            match self.selected {
                None => Err(GameError::NoSelection),
                Some((row, col)) => if self.is_clue(cell_index(row, col)) {
                    Ok(EntryOutcome::Ignored)
                } else if digit_char(digit) == self.solution[cell_index(row, col)] {
                    Ok(EntryOutcome::Correct)
                } else {
                    Ok(EntryOutcome::Incorrect)
                },
            }
        }
    }

    /// The grids after entering `digit`: where the entry is written, the
    /// player's copy holds the digit in the selected cell, right or wrong;
    /// otherwise nothing changes.
    pub open spec fn set_digit(self, digit: u8) -> GridView {
        match (self.entry_outcome(digit), self.selected) {
            (Ok(EntryOutcome::Correct), Some((row, col))) | (
                Ok(EntryOutcome::Incorrect),
                Some((row, col)),
            ) => GridView {
                player: self.player.update(cell_index(row, col), digit_char(digit)),
                ..self
            },
            _ => self,
        }
    }

    /// What clearing returns: it is refused only while no cell is selected.
    pub open spec fn clear_outcome(self) -> Result<(), GameError> {
        if self.selected is None {
            Err(GameError::NoSelection)
        } else {
            Ok(())
        }
    }

    /// The grids after clearing: the selected cell of the player's copy is
    /// emptied unless it holds a clue.
    pub open spec fn clear_cell(self) -> GridView {
        match self.selected {
            Some((row, col)) => if self.is_clue(cell_index(row, col)) {
                self
            } else {
                GridView { player: self.player.update(cell_index(row, col), EMPTY), ..self }
            },
            None => self,
        }
    }

    /// Whether the player's copy equals the solution in all 81 cells.
    pub open spec fn is_complete(self) -> bool {
        self.player == self.solution
    }

    /// Whether no cell of the solution is empty, as in every proper puzzle.
    pub open spec fn solution_is_filled(self) -> bool {
        forall|i: int| 0 <= i < 81 ==> #[trigger] self.solution[i] != EMPTY
    }

    /// The number of cells in which the player's copy agrees with the solution.
    pub open spec fn correct_cells(self) -> nat {
        agreeing(self.player, self.solution, 81)
    }

    /// Whether the cell in `row` and `col` shows, in the player's copy, the
    /// same digit as the selected cell.
    pub open spec fn matches_selected_value(self, row: int, col: int) -> bool {
        &&& in_grid(row, col)
        &&& self.selected matches Some((selected_row, selected_col))
        &&& self.player[cell_index(row, col)] != EMPTY
        &&& self.player[cell_index(row, col)] == self.player[cell_index(
            selected_row,
            selected_col,
        )]
    }

    /// Whether the cell in `row` and `col` lies in the row or in the column of
    /// the selected cell.
    pub open spec fn is_peer(self, row: int, col: int) -> bool {
        self.selected matches Some((selected_row, selected_col)) && (row == selected_row || col
            == selected_col)
    }

    /// The grids after the operation `op`.
    pub open spec fn apply(self, op: GridOp) -> GridView {
        match op {
            GridOp::Select { row, col } => self.select(row, col),
            GridOp::SetDigit { digit } => self.set_digit(digit),
            GridOp::Clear => self.clear_cell(),
        }
    }

    /// The grids after the operations `ops`, first to last.
    pub open spec fn apply_all(self, ops: Seq<GridOp>) -> GridView
        decreases ops.len(),
    {
        if ops.len() == 0 {
            self
        } else {
            self.apply_all(ops.drop_last()).apply(ops.last())
        }
    }

    /// Right after loading, the clues and the player's copy are the same grid,
    /// and the invariant holds.
    pub proof fn lemma_loaded_is_wf(puzzle: Seq<char>, solution: Seq<char>)
        requires
            puzzle.len() == 81,
            solution.len() == 81,
        ensures
            GridView::loaded(puzzle, solution).wf(),
            GridView::loaded(puzzle, solution).starting == GridView::loaded(
                puzzle,
                solution,
            ).player,
    {
    }

    /// Reading a freshly loaded grid cell by cell, row after row, gives back
    /// the puzzle and the solution exactly as they were loaded.
    pub proof fn lemma_load_round_trip(puzzle: Seq<char>, solution: Seq<char>)
        requires
            puzzle.len() == 81,
            solution.len() == 81,
        ensures
            ({
                let grid = GridView::loaded(puzzle, solution);
                &&& Seq::new(81, |i: int| grid.starting_at(i / 9, i % 9)) == puzzle
                &&& Seq::new(81, |i: int| grid.player_at(i / 9, i % 9)) == puzzle
                &&& Seq::new(81, |i: int| grid.solution_at(i / 9, i % 9)) == solution
            }),
    {
    }

    /// Selecting a cell twice is the same as selecting it once.
    pub proof fn lemma_select_is_idempotent(self, row: int, col: int)
        ensures
            self.select(row, col).select(row, col) == self.select(row, col),
    {
    }

    /// No operation touches the clues, the solution or a cell of the player's
    /// copy that holds a clue, and every operation keeps the invariant.
    pub proof fn lemma_apply_keeps_clues(self, op: GridOp)
        requires
            self.wf(),
        ensures
            self.apply(op).wf(),
            self.apply(op).starting == self.starting,
            self.apply(op).solution == self.solution,
            forall|i: int|
                0 <= i < 81 && self.is_clue(i) ==> #[trigger] self.apply(op).player[i]
                    == self.starting[i],
    {
    }

    /// Whatever the player does, in whatever order, the clues and the solution
    /// stay as they were loaded, and the player's copy keeps showing every
    /// clue.
    pub proof fn lemma_clues_never_change(self, ops: Seq<GridOp>)
        requires
            self.wf(),
        ensures
            self.apply_all(ops).wf(),
            self.apply_all(ops).starting == self.starting,
            self.apply_all(ops).solution == self.solution,
            forall|i: int|
                0 <= i < 81 && self.is_clue(i) ==> #[trigger] self.apply_all(ops).player[i]
                    == self.starting[i],
        decreases ops.len(),
    {
        if ops.len() > 0 {
            self.lemma_clues_never_change(ops.drop_last());
            self.apply_all(ops.drop_last()).lemma_apply_keeps_clues(ops.last());
        }
    }

    /// The grid is complete exactly when all 81 cells are counted as correct.
    pub proof fn lemma_complete_means_all_correct(self)
        requires
            self.wf(),
        ensures
            self.is_complete() <==> self.correct_cells() == 81,
            self.correct_cells() <= 81,
    {
        lemma_all_agree(self.player, self.solution, 81);
        if self.correct_cells() == 81 {
            assert(self.player =~= self.solution);
        }
    }

    /// An entry that is judged incorrect leaves the player's copy different
    /// from the solution: a wrong digit never completes the grid.
    pub proof fn lemma_incorrect_entry_is_incomplete(self, digit: u8)
        requires
            self.wf(),
            self.entry_outcome(digit) matches Ok(EntryOutcome::Incorrect),
        ensures
            !self.set_digit(digit).is_complete(),
    {
        let (row, col) = self.selected->0;
        let i = cell_index(row, col);
        assert(self.set_digit(digit).player[i] != self.solution[i]);
    }
}

/// All of the first `upto` positions agree exactly when each of them does.
pub proof fn lemma_all_agree(player: Seq<char>, solution: Seq<char>, upto: nat)
    ensures
        agreeing(player, solution, upto) <= upto,
        agreeing(player, solution, upto) == upto <==> forall|i: int|
            0 <= i < upto ==> player[i] == solution[i],
    decreases upto,
{
    if upto > 0 {
        lemma_all_agree(player, solution, (upto - 1) as nat);
    }
}

/// The rounded percentage lies within half a point of the exact share
/// `100 * correct / 81`, and between 0 and 100.
pub proof fn lemma_rounded_percent_is_nearest(correct: nat)
    requires
        correct <= 81,
    ensures
        rounded_percent(correct) <= 100,
        -81 < 200 * correct - 162 * rounded_percent(correct) < 81,
{
}

} // verus!
