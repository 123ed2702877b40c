//! The plain values that the rest of the crate speaks of: colours, pieces,
//! squares and moves.

use vstd::prelude::*;

verus! {

/// One of the two sides of the board.
#[derive(Clone, Copy, Debug, PartialEq, Eq, Structural)]
pub enum Color {
    White,
    Black,
}

impl Color {
    /// The side that faces this one.
    pub open spec fn other(self) -> Color {
        match self {
            Color::White => Color::Black,
            Color::Black => Color::White,
        }
    }
}

/// A kind of chess piece.
#[derive(Clone, Copy, Debug, PartialEq, Eq, Structural)]
pub enum Piece {
    Pawn,
    Knight,
    Bishop,
    Rook,
    Queen,
    King,
}

/// A square of the board by its coordinates: `file` counts the columns from
/// `a` (0) to `h` (7), `rank` the rows from `1` (0) to `8` (7).
#[derive(Clone, Copy, Debug, PartialEq, Eq, Structural)]
pub struct Square {
    pub file: u8,
    pub rank: u8,
}

impl Square {
    /// Both coordinates lie on the board.
    pub open spec fn wf(self) -> bool {
        self.file < 8 && self.rank < 8
    }

    /// Tells whether both coordinates lie on the board.
    pub fn is_valid(&self) -> (valid: bool)
        ensures
            valid == self.wf(),
    {
        self.file < 8 && self.rank < 8
    }
}

/// A move as an engine names it: where a piece stands, where it goes, and the
/// piece a pawn turns into, if any. Nothing here says that the move is legal.
#[derive(Clone, Copy, Debug, PartialEq, Eq, Structural)]
pub struct Move {
    pub source: Square,
    pub destination: Square,
    pub promotion: Option<Piece>,
}

impl Move {
    /// Both squares lie on the board.
    pub open spec fn wf(self) -> bool {
        self.source.wf() && self.destination.wf()
    }

    /// Tells whether both squares lie on the board.
    pub fn is_valid(&self) -> (valid: bool)
        ensures
            valid == self.wf(),
    {
        self.source.is_valid() && self.destination.is_valid()
    }
}

} // verus!
