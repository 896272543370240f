//! A verified engine for a single-player Sudoku game.
//!
//! The engine keeps the three grids of a game (the clues, the player's working
//! copy and the answer), validates every move against the answer, counts
//! strikes, times the game, and reports how it ended. Every operation carries a
//! contract over a mathematical model of the game, and the laws that relate the
//! operations are proved as lemmas next to the model.
//!
//! The engine reads neither files nor the clock. Puzzle collections are handed
//! to the [`PuzzleRepository`] by the caller, and every operation that depends
//! on the time takes the current reading of the caller's clock.

pub mod clock;
pub mod error;
pub mod grid;
pub mod grid_view;
pub mod play;
pub mod puzzle;
pub mod repository;
pub mod session;
pub mod session_view;

pub use clock::GameClock;
pub use error::GameError;
pub use grid::GridState;
pub use grid_view::{CellMark, EntryOutcome, GridOp, GridView};
pub use play::Input;
pub use puzzle::Puzzle;
pub use repository::PuzzleRepository;
pub use session::Sudoku;
pub use session_view::{Phase, SessionView};
