//! The grids of a game and the cell the player has selected.

use vstd::prelude::*;
use vstd::string::*;
use crate::error::GameError;
use crate::grid_view::{
    cell_index, in_grid, in_marked_box, rounded_percent, same_box, agreeing, CellMark,
    EntryOutcome, GridView, EMPTY,
};

verus! {

/// The three grids of a game and the selected cell.
pub struct GridState {
    starting: [[char; 9]; 9],
    player: [[char; 9]; 9],
    solution: [[char; 9]; 9],
    selected: Option<(usize, usize)>,
}

/// The 81 cells of a 9 by 9 grid, rows first.
spec fn flatten(rows: [[char; 9]; 9]) -> Seq<char> {
    Seq::new(81, |i: int| rows[i / 9][i % 9])
}

impl View for GridState {
    type V = GridView;

    closed spec fn view(&self) -> GridView {
        GridView {
            starting: flatten(self.starting),
            player: flatten(self.player),
            solution: flatten(self.solution),
            selected: match self.selected {
                Some((row, col)) => Some((row as int, col as int)),
                None => None,
            },
        }
    }
}

impl GridState {
    /// The invariant of the grids, stated on their model.
    pub open spec fn wf(&self) -> bool {
        self@.wf()
    }

    /// Grids with every cell empty and none selected.
    pub fn new() -> (grid: GridState)
        ensures
            grid@ == GridView::blank(),
            grid.wf(),
    {
        let grid = GridState {
            starting: [[EMPTY; 9]; 9],
            player: [[EMPTY; 9]; 9],
            solution: [[EMPTY; 9]; 9],
            selected: None,
        };
        assert(grid@.starting =~= GridView::blank().starting);
        assert(grid@.player =~= GridView::blank().player);
        assert(grid@.solution =~= GridView::blank().solution);
        grid
    }

    /// Loads a puzzle and its solution, both given as 81 cells, rows first: the
    /// cell in row `r` and column `c` comes from position `r * 9 + c`. The
    /// clues and the player's copy both start as the puzzle, and no cell is
    /// selected. A puzzle or solution of another length is refused and leaves
    /// the grids as they were.
    pub fn load(&mut self, puzzle: &str, solution: &str) -> (r: Result<(), GameError>)
        ensures
            puzzle@.len() == 81 && solution@.len() == 81 ==> r == Ok::<(), GameError>(())
                && final(self)@ == GridView::loaded(puzzle@, solution@) && final(self).wf(),
            puzzle@.len() != 81 || solution@.len() != 81 ==> r == Err::<(), GameError>(
                GameError::MalformedPuzzle,
            ) && *final(self) == *old(self),
    {
        if puzzle.unicode_len() != 81 || solution.unicode_len() != 81 {
            return Err(GameError::MalformedPuzzle);
        }
        let mut clues: [[char; 9]; 9] = [[EMPTY; 9]; 9];
        let mut answer: [[char; 9]; 9] = [[EMPTY; 9]; 9];
        let mut row: usize = 0;
        while row < 9
            invariant
                row <= 9,
                puzzle@.len() == 81,
                solution@.len() == 81,
                forall|r: int, c: int|
                    0 <= r < row && 0 <= c < 9 ==> #[trigger] clues[r][c] == puzzle@[r * 9 + c],
                forall|r: int, c: int|
                    0 <= r < row && 0 <= c < 9 ==> #[trigger] answer[r][c] == solution@[r * 9 + c],
            decreases 9 - row,
        {
            let mut col: usize = 0;
            while col < 9
                invariant
                    row < 9,
                    col <= 9,
                    puzzle@.len() == 81,
                    solution@.len() == 81,
                    forall|r: int, c: int|
                        0 <= r < row && 0 <= c < 9 ==> #[trigger] clues[r][c] == puzzle@[r * 9 + c],
                    forall|r: int, c: int|
                        0 <= r < row && 0 <= c < 9 ==> #[trigger] answer[r][c] == solution@[r * 9
                            + c],
                    forall|c: int|
                        0 <= c < col ==> #[trigger] clues[row as int][c] == puzzle@[row * 9 + c],
                    forall|c: int|
                        0 <= c < col ==> #[trigger] answer[row as int][c] == solution@[row * 9 + c],
                decreases 9 - col,
            {
                let index: usize = row * 9 + col;
                clues[row][col] = puzzle.get_char(index);
                answer[row][col] = solution.get_char(index);
                col += 1;
            }
            row += 1;
        }
        self.starting = clues;
        self.player = clues;
        self.solution = answer;
        self.selected = None;
        assert(self@.starting =~= puzzle@);
        assert(self@.player =~= puzzle@);
        assert(self@.solution =~= solution@);
        Ok(())
    }

    /// Selects the cell in `row` and `col`. Coordinates outside 0 to 8 are
    /// refused and leave the selection as it was. Nothing else changes.
    pub fn select(&mut self, row: usize, col: usize) -> (r: Result<(), GameError>)
        ensures
            in_grid(row as int, col as int) ==> r == Ok::<(), GameError>(()),
            !in_grid(row as int, col as int) ==> r == Err::<(), GameError>(GameError::OutOfRange),
            final(self)@ == old(self)@.select(row as int, col as int),
            old(self).wf() ==> final(self).wf(),
    {
        if row < 9 && col < 9 {
            self.selected = Some((row, col));
            Ok(())
        } else {
            Err(GameError::OutOfRange)
        }
    }

    /// Enters `digit` into the selected cell of the player's copy and says
    /// whether it agrees with the solution. The digit is written even when it
    /// is wrong. A clue is never overwritten: an entry on a clue is ignored.
    pub fn set_digit(&mut self, digit: u8) -> (r: Result<EntryOutcome, GameError>)
        requires
            old(self).wf(),
        ensures
            r == old(self)@.entry_outcome(digit),
            final(self)@ == old(self)@.set_digit(digit),
            final(self).wf(),
    {
        if digit < 1 || digit > 9 {
            return Err(GameError::InvalidDigit);
        }
        match self.selected {
            None => Err(GameError::NoSelection),
            Some((row, col)) => {
                let ghost before = self@;
                if self.starting[row][col] != EMPTY {
                    Ok(EntryOutcome::Ignored)
                } else {
                    let entered: char = (digit + 48) as char;
                    self.player[row][col] = entered;
                    assert(self@.player =~= before.player.update(
                        cell_index(row as int, col as int),
                        entered,
                    ));
                    if self.solution[row][col] == entered {
                        Ok(EntryOutcome::Correct)
                    } else {
                        Ok(EntryOutcome::Incorrect)
                    }
                }
            },
        }
    }

    /// Empties the selected cell of the player's copy. A clue is never
    /// cleared. Refused only while no cell is selected.
    pub fn clear_cell(&mut self) -> (r: Result<(), GameError>)
        requires
            old(self).wf(),
        ensures
            r == old(self)@.clear_outcome(),
            final(self)@ == old(self)@.clear_cell(),
            final(self).wf(),
    {
        match self.selected {
            None => Err(GameError::NoSelection),
            Some((row, col)) => {
                let ghost before = self@;
                if self.starting[row][col] == EMPTY {
                    self.player[row][col] = EMPTY;
                    assert(self@.player =~= before.player.update(
                        cell_index(row as int, col as int),
                        EMPTY,
                    ));
                }
                Ok(())
            },
        }
    }

    /// Whether the player's copy equals the solution in all 81 cells.
    pub fn is_complete(&self) -> (complete: bool)
        ensures
            complete == self@.is_complete(),
    {
        let mut row: usize = 0;
        while row < 9
            invariant
                row <= 9,
                forall|i: int| 0 <= i < row * 9 ==> self@.player[i] == self@.solution[i],
            decreases 9 - row,
        {
            let mut col: usize = 0;
            while col < 9
                invariant
                    row < 9,
                    col <= 9,
                    forall|i: int| 0 <= i < row * 9 + col ==> self@.player[i] == self@.solution[i],
                decreases 9 - col,
            {
                if self.player[row][col] != self.solution[row][col] {
                    assert(self@.player[cell_index(row as int, col as int)]
                        != self@.solution[cell_index(row as int, col as int)]);
                    return false;
                }
                col += 1;
            }
            row += 1;
        }
        assert(self@.player =~= self@.solution);
        true
    }

    /// The number of cells in which the player's copy agrees with the solution.
    pub fn correct_cells(&self) -> (count: u8)
        ensures
            count == self@.correct_cells(),
            count <= 81,
    {
        let mut count: u8 = 0;
        let mut row: usize = 0;
        while row < 9
            invariant
                row <= 9,
                count <= row * 9,
                count == agreeing(self@.player, self@.solution, (row * 9) as nat),
            decreases 9 - row,
        {
            let mut col: usize = 0;
            while col < 9
                invariant
                    row < 9,
                    col <= 9,
                    count <= row * 9 + col,
                    count == agreeing(self@.player, self@.solution, (row * 9 + col) as nat),
                decreases 9 - col,
            {
                if self.player[row][col] == self.solution[row][col] {
                    count += 1;
                }
                col += 1;
            }
            row += 1;
        }
        count
    }

    /// The share of cells in which the player's copy agrees with the solution,
    /// as a whole percentage of the 81 cells, rounded to the nearest integer.
    pub fn percent_correct(&self) -> (percent: u8)
        ensures
            percent == rounded_percent(self@.correct_cells()),
            percent <= 100,
    {
        let correct: u32 = self.correct_cells() as u32;
        ((200 * correct + 81) / 162) as u8
    }

    /// Whether the cell in `row` and `col` is not empty in the player's copy
    /// and shows the same digit as the selected cell. False while no cell is
    /// selected and for coordinates outside the grid.
    pub fn match_selected_value(&self, row: usize, col: usize) -> (same: bool)
        requires
            self.wf(),
        ensures
            same == self@.matches_selected_value(row as int, col as int),
    {
        match self.selected {
            None => false,
            Some((selected_row, selected_col)) => {
                if row < 9 && col < 9 {
                    self.player[row][col] != EMPTY && self.player[row][col]
                        == self.player[selected_row][selected_col]
                } else {
                    false
                }
            },
        }
    }

    /// How the cell in `row` and `col` of the player's copy stands against
    /// the clues and the solution. `None` for coordinates outside the grid.
    pub fn cell_mark(&self, row: usize, col: usize) -> (mark: Option<CellMark>)
        ensures
            in_grid(row as int, col as int) ==> mark == Some(self@.mark_at(row as int, col as int)),
            !in_grid(row as int, col as int) ==> mark is None,
    {
        if row < 9 && col < 9 {
            let shown: char = self.player[row][col];
            if shown == EMPTY {
                Some(CellMark::Empty)
            } else if shown != self.solution[row][col] {
                Some(CellMark::Incorrect)
            } else if self.starting[row][col] == EMPTY {
                Some(CellMark::Correct)
            } else {
                Some(CellMark::Clue)
            }
        } else {
            None
        }
    }

    /// Whether the cell in `row` and `col` shares its row or its column with
    /// the selected cell. False while no cell is selected.
    pub fn is_peer(&self, row: usize, col: usize) -> (peer: bool)
        ensures
            peer == self@.is_peer(row as int, col as int),
    {
        match self.selected {
            None => false,
            Some((selected_row, selected_col)) => row == selected_row || col == selected_col,
        }
    }

    /// Whether the cell in `row` and `col` lies in the same 3 by 3 box as the
    /// cell `other`, given as its row and column.
    pub fn is_same_box(row: usize, col: usize, other: (usize, usize)) -> (same: bool)
        ensures
            same == same_box(row as int, col as int, other.0 as int, other.1 as int),
    {
        row / 3 == other.0 / 3 && col / 3 == other.1 / 3
    }

    /// Whether the cell in `row` and `col` lies in one of the four boxes that
    /// are set apart from the rest: top middle, bottom middle, middle left and
    /// middle right.
    pub fn is_marked_box(row: usize, col: usize) -> (marked: bool)
        ensures
            marked == in_marked_box(row as int, col as int),
    {
        (row <= 2 && 3 <= col && col <= 5) || (6 <= row && row <= 8 && 3 <= col && col <= 5) || (3
            <= row && row <= 5 && col <= 2) || (3 <= row && row <= 5 && 6 <= col && col <= 8)
    }

    /// The clues, by row and column.
    pub fn starting(&self) -> (cells: &[[char; 9]; 9])
        ensures
            forall|row: int, col: int|
                in_grid(row, col) ==> #[trigger] cells[row][col] == self@.starting_at(row, col),
    {
        &self.starting
    }

    /// The player's copy, by row and column.
    pub fn player(&self) -> (cells: &[[char; 9]; 9])
        ensures
            forall|row: int, col: int|
                in_grid(row, col) ==> #[trigger] cells[row][col] == self@.player_at(row, col),
    {
        &self.player
    }

    /// The solution, by row and column.
    pub fn solution(&self) -> (cells: &[[char; 9]; 9])
        ensures
            forall|row: int, col: int|
                in_grid(row, col) ==> #[trigger] cells[row][col] == self@.solution_at(row, col),
    {
        &self.solution
    }

    /// The selected cell as its row and column, if any.
    pub fn selected(&self) -> (cell: Option<(usize, usize)>)
        ensures
            cell is Some <==> self@.selected is Some,
            cell matches Some((row, col)) ==> self@.selected == Some((row as int, col as int)),
    {
        self.selected
    }
}

} // verus!
