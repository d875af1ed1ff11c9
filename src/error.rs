use vstd::prelude::*;

verus! {

/// Why an operation of the engine was refused.
#[derive(Clone, Copy, Debug, PartialEq, Eq, Structural)]
pub enum GameError {
    /// A coordinate, or a cell that a vessel would cover, lies off the grid.
    OutOfRange,
    /// A vessel code that names no vessel.
    UnknownShipType,
    /// An identifier that names neither live seat.
    UnknownSeat,
    /// Both seats are already taken.
    SeatsFull,
    /// The fleet already holds as many vessels of that kind as the rules allow.
    StageOrLimit,
    /// The operation is not allowed in the current stage.
    WrongStage,
    /// It is the other seat's turn to fire.
    WrongTurn,
    /// Nothing is placed on the named cell.
    EmptyCell,
    /// The board holds a run of cells that no vessel kind could have left.
    CorruptState,
}

} // verus!
