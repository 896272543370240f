//! Whole games: sequences of inputs, and what holds of every one of them.

use vstd::prelude::*;
use crate::grid_view::{cell_index, digit_char, EMPTY};
use crate::puzzle::{is_digit, is_proper_pair};
use crate::session_view::{Phase, SessionView};

verus! {

/// One input of the player, or of the loop that redraws the game.
pub enum Input {
    /// Select the cell in `row` and `col`.
    Select { row: int, col: int },
    /// Enter `digit` into the selected cell at the reading `now`.
    EnterDigit { digit: u8, now: u64 },
    /// Empty the selected cell.
    Clear,
    /// Read the clock at the reading `now`.
    Tick { now: u64 },
}

impl SessionView {
    /// The session after one input.
    pub open spec fn step(self, input: Input) -> SessionView {
        match input {
            Input::Select { row, col } => self.select(row, col),
            Input::EnterDigit { digit, now } => self.enter_digit(digit, now),
            Input::Clear => self.clear(),
            Input::Tick { now } => self,
        }
    }

    /// The session after the inputs `inputs`, first to last.
    pub open spec fn run(self, inputs: Seq<Input>) -> SessionView
        decreases inputs.len(),
    {
        if inputs.len() == 0 {
            self
        } else {
            self.run(inputs.drop_last()).step(inputs.last())
        }
    }

    /// Whether `input` is an entry that is judged incorrect in this state.
    pub open spec fn counts_as_strike(self, input: Input) -> bool {
        input matches Input::EnterDigit { digit, .. } && self.is_strike(digit)
    }

    /// An entry counts as a strike exactly when it is written and disagrees
    /// with the solution: the game is being played, the digit is one of 1 to
    /// 9, a cell without a clue is selected, and the solution holds another
    /// character in that cell.
    pub proof fn lemma_strike_means_disagreement(self, digit: u8)
        ensures
            self.is_strike(digit) <==> {
                &&& self.phase == Phase::Playing
                &&& 1 <= digit <= 9
                &&& self.grid.selected matches Some((row, col))
                &&& !self.grid.is_clue(cell_index(row, col))
                &&& digit_char(digit) != self.grid.solution[cell_index(row, col)]
            },
    {
    }

    /// The number of inputs among `inputs` that are entries judged incorrect,
    /// each in the state that the inputs before it have led to.
    pub open spec fn strikes_in(self, inputs: Seq<Input>) -> nat
        decreases inputs.len(),
    {
        if inputs.len() == 0 {
            0
        } else {
            self.strikes_in(inputs.drop_last()) + if self.run(inputs.drop_last()).counts_as_strike(
                inputs.last(),
            ) {
                1nat
            } else {
                0nat
            }
        }
    }

    /// Whether the game is still open while it is played: the invariant
    /// holds, no cell of the solution is empty, and during the game the
    /// player's copy differs from the solution.
    pub open spec fn open_while_playing(self) -> bool {
        &&& self.wf()
        &&& self.grid.solution_is_filled()
        &&& (self.phase == Phase::Playing ==> !self.grid.is_complete())
    }

    /// Every input keeps the invariant of the session.
    pub proof fn lemma_step_keeps_wf(self, input: Input)
        requires
            self.wf(),
        ensures
            self.step(input).wf(),
    {
        if let Input::EnterDigit { digit, now } = input {
            if self.is_strike(digit) {
                self.grid.lemma_incorrect_entry_is_incomplete(digit);
            }
        }
    }

    /// Every sequence of inputs keeps the invariant of the session.
    pub proof fn lemma_run_keeps_wf(self, inputs: Seq<Input>)
        requires
            self.wf(),
        ensures
            self.run(inputs).wf(),
        decreases inputs.len(),
    {
        if inputs.len() > 0 {
            self.lemma_run_keeps_wf(inputs.drop_last());
            self.run(inputs.drop_last()).lemma_step_keeps_wf(inputs.last());
        }
    }

    /// Running two sequences of inputs one after the other is running their
    /// concatenation, and the strikes of the two parts add up.
    pub proof fn lemma_run_splits(self, first: Seq<Input>, rest: Seq<Input>)
        ensures
            self.run(first + rest) == self.run(first).run(rest),
            self.strikes_in(first + rest) == self.strikes_in(first) + self.run(first).strikes_in(
                rest,
            ),
        decreases rest.len(),
    {
        if rest.len() > 0 {
            assert((first + rest).drop_last() =~= first + rest.drop_last());
            self.lemma_run_splits(first, rest.drop_last());
        } else {
            assert(first + rest =~= first);
        }
    }

    /// One input raises the strike counter by one if it is an entry judged
    /// incorrect, and leaves it as it is otherwise.
    pub proof fn lemma_step_counts_strike(self, input: Input)
        requires
            self.wf(),
        ensures
            self.step(input).strikes == self.strikes + if self.counts_as_strike(input) {
                1nat
            } else {
                0nat
            },
    {
    }

    /// After any sequence of inputs the strike counter has grown by exactly
    /// the number of entries that were judged incorrect.
    pub proof fn lemma_strikes_count_incorrect_entries(self, inputs: Seq<Input>)
        requires
            self.wf(),
        ensures
            self.run(inputs).strikes == self.strikes + self.strikes_in(inputs),
        decreases inputs.len(),
    {
        if inputs.len() > 0 {
            self.lemma_strikes_count_incorrect_entries(inputs.drop_last());
            self.lemma_run_keeps_wf(inputs.drop_last());
            self.run(inputs.drop_last()).lemma_step_counts_strike(inputs.last());
        }
    }

    /// The strike counter never decreases: after more inputs it is at least
    /// what it was after fewer.
    pub proof fn lemma_strikes_never_decrease(self, first: Seq<Input>, rest: Seq<Input>)
        requires
            self.wf(),
        ensures
            self.run(first).strikes <= self.run(first + rest).strikes,
    {
        self.lemma_run_splits(first, rest);
        self.lemma_run_keeps_wf(first);
        self.run(first).lemma_strikes_count_incorrect_entries(rest);
    }

    /// A game that has ended accepts no further input: every input leaves
    /// the whole session as it is.
    pub proof fn lemma_ended_game_is_final(self, inputs: Seq<Input>)
        requires
            self.phase == Phase::Won || self.phase == Phase::Lost,
        ensures
            self.run(inputs) == self,
        decreases inputs.len(),
    {
        if inputs.len() > 0 {
            self.lemma_ended_game_is_final(inputs.drop_last());
        }
    }

    /// No single entry ends a game both ways: an entry that brings the third
    /// strike leaves the grid incomplete, so a game is never lost and won at
    /// once. After an entry the game is lost exactly when the counter stands
    /// at three, and after a written entry it is won exactly when the grid is
    /// complete.
    pub proof fn lemma_entry_ends_one_way(self, digit: u8, now: u64)
        requires
            self.wf(),
            self.phase == Phase::Playing,
        ensures
            !(self.enter_digit(digit, now).strikes == 3 && self.enter_digit(
                digit,
                now,
            ).grid.is_complete()),
            self.enter_digit(digit, now).phase == Phase::Lost <==> self.enter_digit(
                digit,
                now,
            ).strikes == 3,
            self.is_written(digit) ==> (self.enter_digit(digit, now).phase == Phase::Won
                <==> self.enter_digit(digit, now).grid.is_complete()),
    {
        if self.is_strike(digit) {
            self.grid.lemma_incorrect_entry_is_incomplete(digit);
        }
    }

    /// A game that starts with a puzzle that differs from its solution, the
    /// solution without an empty cell, is open while it is played.
    pub proof fn lemma_begin_is_open(
        self,
        difficulty: Seq<char>,
        puzzle: Seq<char>,
        solution: Seq<char>,
        now: u64,
    )
        requires
            self.wf(),
            self.phase == Phase::ChoosingDifficulty,
            puzzle.len() == 81,
            solution.len() == 81,
            puzzle != solution,
            forall|i: int| 0 <= i < 81 ==> #[trigger] solution[i] != EMPTY,
        ensures
            self.begin(difficulty, puzzle, solution, now).phase == Phase::Playing,
            self.begin(difficulty, puzzle, solution, now).open_while_playing(),
    {
    }

    /// A proper puzzle with at least one empty cell starts an open game, and
    /// every cell of its solution is a digit.
    pub proof fn lemma_proper_puzzle_begins_open(
        self,
        difficulty: Seq<char>,
        puzzle: Seq<char>,
        solution: Seq<char>,
        now: u64,
    )
        requires
            self.wf(),
            self.phase == Phase::ChoosingDifficulty,
            is_proper_pair(puzzle, solution),
            exists|i: int| 0 <= i < 81 && #[trigger] puzzle[i] == EMPTY,
        ensures
            self.begin(difficulty, puzzle, solution, now).phase == Phase::Playing,
            self.begin(difficulty, puzzle, solution, now).open_while_playing(),
            forall|i: int|
                0 <= i < 81 ==> is_digit(
                    #[trigger] self.begin(difficulty, puzzle, solution, now).grid.solution[i],
                ),
    {
        let i = choose|i: int| 0 <= i < 81 && #[trigger] puzzle[i] == EMPTY;
        assert(puzzle[i] != solution[i]) by {
            assert(is_digit(solution[i]));
        }
        assert forall|j: int| 0 <= j < 81 implies #[trigger] solution[j] != EMPTY by {
            assert(is_digit(solution[j]));
        }
        self.lemma_begin_is_open(difficulty, puzzle, solution, now);
    }

    /// In a game that was open when it started, after any sequence of inputs:
    /// the game is lost exactly when the strike counter stands at three, and,
    /// once a puzzle has been chosen, won exactly when the player's copy equals
    /// the solution in all 81 cells.
    pub proof fn lemma_phase_follows_board(self, inputs: Seq<Input>)
        requires
            self.open_while_playing(),
        ensures
            self.run(inputs).open_while_playing(),
            self.run(inputs).phase == Phase::Lost <==> self.run(inputs).strikes == 3,
            self.run(inputs).phase != Phase::ChoosingDifficulty ==> (self.run(inputs).phase
                == Phase::Won <==> self.run(inputs).grid.is_complete()),
        decreases inputs.len(),
    {
        if inputs.len() > 0 {
            let before = self.run(inputs.drop_last());
            self.lemma_phase_follows_board(inputs.drop_last());
            before.lemma_step_keeps_wf(inputs.last());
            match inputs.last() {
                Input::Select { row, col } => {},
                Input::EnterDigit { digit, now } => {
                    if before.phase == Phase::Playing {
                        before.lemma_entry_ends_one_way(digit, now);
                    }
                },
                Input::Clear => {
                    before.lemma_clear_keeps_open();
                },
                Input::Tick { now } => {},
            }
        }
    }

    /// Every game that starts with a proper puzzle with at least one empty
    /// cell, whatever the inputs that follow: it is lost exactly when the
    /// strike counter stands at three, won exactly when the player's copy
    /// equals the solution in all 81 cells, and never both.
    pub proof fn lemma_outcome_of_any_game(
        self,
        difficulty: Seq<char>,
        puzzle: Seq<char>,
        solution: Seq<char>,
        now: u64,
        inputs: Seq<Input>,
    )
        requires
            self.wf(),
            self.phase == Phase::ChoosingDifficulty,
            is_proper_pair(puzzle, solution),
            exists|i: int| 0 <= i < 81 && #[trigger] puzzle[i] == EMPTY,
        ensures
            ({
                let end = self.begin(difficulty, puzzle, solution, now).run(inputs);
                &&& end.wf()
                &&& end.phase != Phase::ChoosingDifficulty
                &&& (end.phase == Phase::Lost <==> end.strikes == 3)
                &&& (end.phase == Phase::Won <==> end.grid.is_complete())
                &&& !(end.strikes == 3 && end.grid.is_complete())
            }),
    {
        let start = self.begin(difficulty, puzzle, solution, now);
        self.lemma_proper_puzzle_begins_open(difficulty, puzzle, solution, now);
        start.lemma_phase_follows_board(inputs);
        start.lemma_never_back_to_choosing(inputs);
    }

    /// No input leads back to the choice of a difficulty.
    pub proof fn lemma_never_back_to_choosing(self, inputs: Seq<Input>)
        requires
            self.phase != Phase::ChoosingDifficulty,
        ensures
            self.run(inputs).phase != Phase::ChoosingDifficulty,
        decreases inputs.len(),
    {
        if inputs.len() > 0 {
            self.lemma_never_back_to_choosing(inputs.drop_last());
        }
    }

    /// Once a game has ended, the clock shows the same time at every reading.
    pub proof fn lemma_ended_clock_is_constant(self, now: u64, later: u64)
        requires
            self.wf(),
            self.phase == Phase::Won || self.phase == Phase::Lost,
        ensures
            self.clock.elapsed_at(now) == self.clock.elapsed_at(later),
    {
    }

    /// Clearing a cell of an open game leaves it open: emptying a cell never
    /// completes the grid.
    pub proof fn lemma_clear_keeps_open(self)
        requires
            self.open_while_playing(),
        ensures
            self.clear().open_while_playing(),
    {
        if self.phase == Phase::Playing && self.grid.selected is Some {
            let (row, col) = self.grid.selected->0;
            let i = cell_index(row, col);
            if !self.grid.is_clue(i) {
                assert(self.clear().grid.player[i] != self.clear().grid.solution[i]);
            }
        }
    }
}

} // verus!
