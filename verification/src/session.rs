//! The game session: one player, one puzzle, three strikes.
//!
//! A session starts by choosing a difficulty, is played by selecting cells and
//! entering digits, and ends won, when the player's copy equals the solution,
//! or lost, at the third incorrect entry. Every input is a transition of the
//! model [`SessionView`]; the time-dependent ones take the current reading of
//! the caller's clock.

use vstd::prelude::*;
use crate::clock::GameClock;
use crate::error::GameError;
use crate::grid::GridState;
use crate::grid_view::EntryOutcome;
use crate::puzzle::Puzzle;
use crate::repository::{refusal, PuzzleRepository};
use crate::session_view::{Phase, SessionView};

verus! {

/// A game session. It owns the grids, the clock and the strike counter, and
/// carries the player's name and number without looking at them.
pub struct Sudoku {
    username: String,
    user_id: i32,
    grid: GridState,
    difficulty: String,
    strikes: u8,
    clock: GameClock,
    phase: Phase,
}

impl View for Sudoku {
    type V = SessionView;

    closed spec fn view(&self) -> SessionView {
        SessionView {
            phase: self.phase,
            grid: self.grid@,
            clock: self.clock,
            strikes: self.strikes as nat,
            difficulty: self.difficulty@,
            username: self.username@,
            user_id: self.user_id,
        }
    }
}

impl Sudoku {
    /// The invariant of the session, stated on its model.
    pub open spec fn wf(&self) -> bool {
        self@.wf()
    }

    /// A session for the player `username` with the number `user_id`, waiting
    /// for a difficulty to be chosen: empty grids, no strikes, clock idle.
    pub fn new(username: String, user_id: i32) -> (session: Sudoku)
        ensures
            session@ == SessionView::fresh(username@, user_id),
            session.wf(),
    {
        Sudoku {
            username,
            user_id,
            grid: GridState::new(),
            difficulty: String::new(),
            strikes: 0,
            clock: GameClock::new(),
            phase: Phase::ChoosingDifficulty,
        }
    }

    /// Starts the game of difficulty `difficulty` with the given puzzle at the
    /// reading `now`. While a difficulty is being chosen, a puzzle of 81 cells
    /// with a solution of 81 cells is loaded, the clock starts and the game is
    /// being played; a puzzle of another size is refused. In every other phase
    /// the call changes nothing.
    pub fn begin(&mut self, difficulty: &str, puzzle: &Puzzle, now: u64) -> (r: Result<
        (),
        GameError,
    >)
        requires
            old(self).wf(),
        ensures
            r == old(self)@.puzzle_outcome(puzzle.puzzle@, puzzle.solution@),
            final(self)@ == old(self)@.begin(difficulty@, puzzle.puzzle@, puzzle.solution@, now),
            final(self).wf(),
    {
        match self.phase {
            Phase::ChoosingDifficulty => {
                match self.grid.load(puzzle.puzzle.as_str(), puzzle.solution.as_str()) {
                    Err(e) => Err(e),
                    Ok(()) => {
                        self.difficulty = difficulty.to_owned();
                        self.clock.start(now);
                        self.phase = Phase::Playing;
                        Ok(())
                    },
                }
            },
            _ => Ok(()),
        }
    }

    /// Draws a puzzle of the difficulty `difficulty` from the repository and
    /// puts it into the grids, while a difficulty is being chosen. A missing
    /// or empty collection and a puzzle of the wrong size are refused and
    /// change nothing. In every other phase the call changes nothing.
    pub fn get_puzzle(&mut self, repository: &PuzzleRepository, difficulty: &str) -> (r: Result<
        (),
        GameError,
    >)
        requires
            old(self).wf(),
            repository.wf(),
        ensures
            final(self).wf(),
            old(self)@.phase != Phase::ChoosingDifficulty ==> r == Ok::<(), GameError>(())
                && final(self)@ == old(self)@,
            old(self)@.phase == Phase::ChoosingDifficulty ==> match refusal(
                repository@,
                difficulty@,
            ) {
                Some(e) => r == Err::<(), GameError>(e) && final(self)@ == old(self)@,
                None => exists|drawn: Puzzle| #[trigger]
                    repository@[difficulty@].contains(drawn) && r == old(self)@.puzzle_outcome(
                        drawn.puzzle@,
                        drawn.solution@,
                    ) && final(self)@ == old(self)@.with_puzzle(drawn.puzzle@, drawn.solution@),
            },
    {
        match self.phase {
            Phase::ChoosingDifficulty => match repository.load(difficulty) {
                Err(e) => Err(e),
                Ok(drawn) => self.grid.load(drawn.puzzle.as_str(), drawn.solution.as_str()),
            },
            _ => Ok(()),
        }
    }

    /// Chooses the difficulty `difficulty` at the reading `now`: draws a
    /// puzzle of that difficulty from the repository and starts the game with
    /// it. A missing or empty collection and a puzzle of the wrong size are
    /// refused; the session then keeps waiting for a difficulty. In every
    /// phase but the first the call changes nothing.
    pub fn choose_difficulty(
        &mut self,
        repository: &PuzzleRepository,
        difficulty: &str,
        now: u64,
    ) -> (r: Result<(), GameError>)
        requires
            old(self).wf(),
            repository.wf(),
        ensures
            final(self).wf(),
            old(self)@.phase != Phase::ChoosingDifficulty ==> r == Ok::<(), GameError>(())
                && final(self)@ == old(self)@,
            old(self)@.phase == Phase::ChoosingDifficulty ==> match refusal(
                repository@,
                difficulty@,
            ) {
                Some(e) => r == Err::<(), GameError>(e) && final(self)@ == old(self)@,
                None => exists|drawn: Puzzle| #[trigger]
                    repository@[difficulty@].contains(drawn) && r == old(self)@.puzzle_outcome(
                        drawn.puzzle@,
                        drawn.solution@,
                    ) && final(self)@ == old(self)@.begin(
                        difficulty@,
                        drawn.puzzle@,
                        drawn.solution@,
                        now,
                    ),
            },
    {
        match self.phase {
            Phase::ChoosingDifficulty => match repository.load(difficulty) {
                Err(e) => Err(e),
                Ok(drawn) => self.begin(difficulty, drawn, now),
            },
            _ => Ok(()),
        }
    }

    /// Selects the cell in `row` and `col`. Coordinates outside 0 to 8 are
    /// refused. Outside a game the call changes nothing. The phase never
    /// changes.
    pub fn select(&mut self, row: usize, col: usize) -> (r: Result<(), GameError>)
        requires
            old(self).wf(),
        ensures
            r == old(self)@.select_outcome(row as int, col as int),
            final(self)@ == old(self)@.select(row as int, col as int),
            final(self).wf(),
    {
        match self.phase {
            Phase::Playing => self.grid.select(row, col),
            _ => if row < 9 && col < 9 {
                Ok(())
            } else {
                Err(GameError::OutOfRange)
            },
        }
    }

    /// Enters `digit` into the selected cell at the reading `now`. During a
    /// game the grids take the entry; an incorrect one adds a strike and stays
    /// visible. The third strike ends the game lost; failing that, a complete
    /// grid ends it won; either end freezes the clock at `now`. An entry that
    /// is refused, ignored on a clue or made outside a game changes nothing.
    pub fn enter_digit(&mut self, digit: u8, now: u64) -> (r: Result<EntryOutcome, GameError>)
        requires
            old(self).wf(),
        ensures
            r == old(self)@.entry_outcome(digit),
            final(self)@ == old(self)@.enter_digit(digit, now),
            final(self).wf(),
    {
        match self.phase {
            Phase::Playing => {
                let ghost before = self@;
                match self.grid.set_digit(digit) {
                    Err(e) => Err(e),
                    Ok(EntryOutcome::Ignored) => Ok(EntryOutcome::Ignored),
                    Ok(outcome) => {
                        if outcome == EntryOutcome::Incorrect {
                            self.strikes += 1;
                            proof {
                                before.grid.lemma_incorrect_entry_is_incomplete(digit);
                            }
                        }
                        if self.strikes >= 3 {
                            self.phase = Phase::Lost;
                            self.clock.freeze(now);
                        } else if self.grid.is_complete() {
                            self.phase = Phase::Won;
                            self.clock.freeze(now);
                        }
                        Ok(outcome)
                    },
                }
            },
            _ => if digit < 1 || digit > 9 {
                Err(GameError::InvalidDigit)
            } else {
                Ok(EntryOutcome::Ignored)
            },
        }
    }

    /// Empties the selected cell. During a game the call is refused while no
    /// cell is selected; outside a game it changes nothing. Clearing never
    /// changes the strikes or the phase.
    pub fn clear(&mut self) -> (r: Result<(), GameError>)
        requires
            old(self).wf(),
        ensures
            r == old(self)@.clear_outcome(),
            final(self)@ == old(self)@.clear(),
            final(self).wf(),
    {
        match self.phase {
            Phase::Playing => self.grid.clear_cell(),
            _ => Ok(()),
        }
    }

    /// The time to show at the reading `now`: what the clock shows. Nothing
    /// changes.
    pub fn tick(&self, now: u64) -> (shown: u64)
        ensures
            shown == self@.clock.elapsed_at(now),
    {
        self.clock.elapsed(now)
    }

    /// Where the session stands.
    pub fn phase(&self) -> (phase: Phase)
        ensures
            phase == self@.phase,
    {
        self.phase
    }

    /// The number of incorrect entries so far.
    pub fn strikes(&self) -> (strikes: u8)
        ensures
            strikes == self@.strikes,
    {
        self.strikes
    }

    /// The grids and the selected cell.
    pub fn grid(&self) -> (grid: &GridState)
        ensures
            grid@ == self@.grid,
    {
        &self.grid
    }

    /// The game clock.
    pub fn clock(&self) -> (clock: GameClock)
        ensures
            clock == self@.clock,
    {
        self.clock
    }

    /// The name of the chosen difficulty; empty until one is chosen.
    pub fn difficulty(&self) -> (name: &str)
        ensures
            name@ == self@.difficulty,
    {
        self.difficulty.as_str()
    }

    /// The player's name.
    pub fn username(&self) -> (name: &str)
        ensures
            name@ == self@.username,
    {
        self.username.as_str()
    }

    /// The player's number.
    pub fn user_id(&self) -> (id: i32)
        ensures
            id == self@.user_id,
    {
        self.user_id
    }

    /// The score of a lost game: the percentage of the 81 cells in which the
    /// player's copy agrees with the solution, rounded to the nearest integer.
    /// `None` unless the game is lost.
    pub fn score(&self) -> (score: Option<u8>)
        ensures
            score is Some <==> self@.score() is Some,
            score matches Some(percent) ==> self@.score() == Some(percent as nat),
    {
        match self.phase {
            Phase::Lost => Some(self.grid.percent_correct()),
            _ => None,
        }
    }

    /// The completion time of a won game: the time that the frozen clock
    /// shows. `None` unless the game is won.
    pub fn completion_time(&self) -> (time: Option<u64>)
        ensures
            time == self@.completion_time(),
    {
        match (self.phase, self.clock) {
            (Phase::Won, GameClock::Frozen { elapsed }) => Some(elapsed),
            _ => None,
        }
    }
}

} // verus!
