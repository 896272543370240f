//! The model of a game session: its phases, its invariant, and what every
//! input does to it.

use vstd::prelude::*;
use crate::clock::GameClock;
use crate::error::GameError;
use crate::grid_view::{in_grid, rounded_percent, EntryOutcome, GridView};

verus! {

/// Where a session stands.
#[derive(Clone, Copy, Debug, PartialEq, Eq, Structural)]
pub enum Phase {
    /// No puzzle has been chosen yet.
    ChoosingDifficulty,
    /// The puzzle is being played.
    Playing,
    /// The player's copy equals the solution. Final.
    Won,
    /// The third strike has fallen. Final.
    Lost,
}

/// The model of a [`Sudoku`] session.
pub struct SessionView {
    /// Where the session stands.
    pub phase: Phase,
    /// The grids and the selected cell.
    pub grid: GridView,
    /// The game clock.
    pub clock: GameClock,
    /// The number of incorrect entries so far.
    pub strikes: nat,
    /// The name of the chosen difficulty; empty until one is chosen.
    pub difficulty: Seq<char>,
    /// The player's name, kept for reporting the score.
    pub username: Seq<char>,
    /// The player's number, kept for reporting the score.
    pub user_id: i32,
}

impl SessionView {
    /// The invariant of a session: at most three strikes, lost exactly at the
    /// third; a won grid is complete and a lost one is not; the clock is idle
    /// before the game, runs during it and is frozen after it.
    pub open spec fn wf(self) -> bool {
        &&& self.grid.wf()
        &&& self.strikes <= 3
        &&& (self.phase == Phase::Lost <==> self.strikes == 3)
        &&& (self.phase == Phase::Won ==> self.grid.is_complete())
        &&& (self.phase == Phase::Lost ==> !self.grid.is_complete())
        &&& match self.phase {
            Phase::ChoosingDifficulty => self.clock is NotStarted && self.strikes == 0,
            Phase::Playing => self.clock is Running,
            Phase::Won | Phase::Lost => self.clock is Frozen,
        }
    }

    /// A session before a difficulty is chosen.
    pub open spec fn fresh(username: Seq<char>, user_id: i32) -> SessionView {
        SessionView {
            phase: Phase::ChoosingDifficulty,
            grid: GridView::blank(),
            clock: GameClock::NotStarted,
            strikes: 0,
            difficulty: Seq::empty(),
            username,
            user_id,
        }
    }

    /// What loading or starting with a puzzle returns: while a difficulty is
    /// being chosen, a puzzle or solution that is not 81 cells long is refused.
    pub open spec fn puzzle_outcome(self, puzzle: Seq<char>, solution: Seq<char>) -> Result<
        (),
        GameError,
    > {
        if self.phase == Phase::ChoosingDifficulty && !(puzzle.len() == 81 && solution.len()
            == 81) {
            Err(GameError::MalformedPuzzle)
        } else {
            Ok(())
        }
    }

    /// The session after a puzzle has been put into its grids: while a
    /// difficulty is being chosen, a puzzle of the right size is loaded; in
    /// every other case nothing changes.
    pub open spec fn with_puzzle(self, puzzle: Seq<char>, solution: Seq<char>) -> SessionView {
        if self.phase == Phase::ChoosingDifficulty && puzzle.len() == 81 && solution.len() == 81 {
            SessionView { grid: GridView::loaded(puzzle, solution), ..self }
        } else {
            self
        }
    }

    /// The session after starting the game of difficulty `difficulty` with a
    /// puzzle at the reading `now`: while a difficulty is being chosen, a
    /// puzzle of the right size is loaded, the clock starts and the game is
    /// being played; in every other case nothing changes.
    pub open spec fn begin(
        self,
        difficulty: Seq<char>,
        puzzle: Seq<char>,
        solution: Seq<char>,
        now: u64,
    ) -> SessionView {
        if self.phase == Phase::ChoosingDifficulty && puzzle.len() == 81 && solution.len() == 81 {
            SessionView {
                phase: Phase::Playing,
                grid: GridView::loaded(puzzle, solution),
                clock: self.clock.started_at(now),
                difficulty,
                ..self
            }
        } else {
            self
        }
    }

    /// What `select` returns: coordinates outside the grid are refused.
    pub open spec fn select_outcome(self, row: int, col: int) -> Result<(), GameError> {
        if in_grid(row, col) {
            Ok(())
        } else {
            Err(GameError::OutOfRange)
        }
    }

    /// The session after `select`: while playing, the grids select the cell.
    pub open spec fn select(self, row: int, col: int) -> SessionView {
        if self.phase == Phase::Playing {
            SessionView { grid: self.grid.select(row, col), ..self }
        } else {
            self
        }
    }

    /// What `enter_digit` returns: a value outside 1 to 9 is refused in every
    /// phase; outside a game any other entry is ignored; during a game the
    /// grids judge the entry.
    pub open spec fn entry_outcome(self, digit: u8) -> Result<EntryOutcome, GameError> {
        if !(1 <= digit <= 9) {
            Err(GameError::InvalidDigit)
        } else if self.phase != Phase::Playing {
            Ok(EntryOutcome::Ignored)
        } else {
            self.grid.entry_outcome(digit)
        }
    }

    /// Whether entering `digit` now would count as a strike.
    pub open spec fn is_strike(self, digit: u8) -> bool {
        self.entry_outcome(digit) matches Ok(EntryOutcome::Incorrect)
    }

    /// Whether entering `digit` now would write into the player's copy: the
    /// game is being played and the grids judge the entry correct or
    /// incorrect.
    pub open spec fn is_written(self, digit: u8) -> bool {
        &&& self.phase == Phase::Playing
        &&& self.grid.entry_outcome(digit) matches Ok(outcome)
        &&& outcome != EntryOutcome::Ignored
    }

    /// The session after `enter_digit` at the reading `now`. An entry that is
    /// not written (refused, ignored on a clue, or made outside a game) changes
    /// nothing. A written entry changes the player's copy, and an incorrect
    /// one adds a strike; then the third strike ends the game lost, and
    /// failing that a complete grid ends it won; either end freezes the clock.
    pub open spec fn enter_digit(self, digit: u8, now: u64) -> SessionView {
        if !self.is_written(digit) {
            self
        } else {
            let grid = self.grid.set_digit(digit);
            let strikes = if self.is_strike(digit) {
                self.strikes + 1
            } else {
                self.strikes
            };
            if strikes >= 3 {
                SessionView {
                    phase: Phase::Lost,
                    grid,
                    strikes,
                    clock: self.clock.frozen_at(now),
                    ..self
                }
            } else if grid.is_complete() {
                SessionView {
                    phase: Phase::Won,
                    grid,
                    strikes,
                    clock: self.clock.frozen_at(now),
                    ..self
                }
            } else {
                SessionView { grid, strikes, ..self }
            }
        }
    }

    /// What `clear` returns: during a game it is refused while no cell is
    /// selected; outside a game it is ignored.
    pub open spec fn clear_outcome(self) -> Result<(), GameError> {
        if self.phase == Phase::Playing {
            self.grid.clear_outcome()
        } else {
            Ok(())
        }
    }

    /// The session after `clear`: while playing, the grids empty the selected
    /// cell. The strikes are never touched.
    pub open spec fn clear(self) -> SessionView {
        if self.phase == Phase::Playing {
            SessionView { grid: self.grid.clear_cell(), ..self }
        } else {
            self
        }
    }

    /// The score of a lost game: the rounded percentage of cells in which the
    /// player's copy agrees with the solution.
    pub open spec fn score(self) -> Option<nat> {
        if self.phase == Phase::Lost {
            Some(rounded_percent(self.grid.correct_cells()))
        } else {
            None
        }
    }

    /// The completion time of a won game: what the frozen clock shows.
    pub open spec fn completion_time(self) -> Option<u64> {
        match (self.phase, self.clock) {
            (Phase::Won, GameClock::Frozen { elapsed }) => Some(elapsed),
            _ => None,
        }
    }
}

} // verus!
