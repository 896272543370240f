//! The ways in which an operation of the engine can be refused.

use vstd::prelude::*;

verus! {

/// Why an operation was refused. A refused operation leaves the game as it was.
#[derive(Clone, Copy, Debug, PartialEq, Eq, Structural)]
pub enum GameError {
    /// The puzzle collection of the requested difficulty could not be read.
    SourceUnavailable,
    /// The puzzle collection holds no puzzle to choose from.
    EmptyCollection,
    /// The puzzle or its solution is not exactly 81 cells long.
    MalformedPuzzle,
    /// A cell was addressed outside rows and columns 0 to 8.
    OutOfRange,
    /// A value other than the digits 1 to 9 was entered.
    InvalidDigit,
    /// A cell was to be filled or cleared while none is selected.
    NoSelection,
}

} // verus!
