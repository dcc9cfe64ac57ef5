//! The conditions that end a conversion.

use vstd::prelude::*;

verus! {

/// Why a game cannot be converted.
#[derive(Clone, Copy, Debug, PartialEq, Eq, Structural)]
pub enum Fault {
    /// A move has no packed code: it has no origin square, names a square
    /// off the board, or promotes to a pawn or a king.
    UnencodableMove,
    /// The action-space list does not name the packed code of a legal move.
    UnlistedMove,
    /// Two legal moves share a packed code.
    CodeCollision,
    /// The move played shares its packed code with no legal move.
    MoveNotLegal,
    /// The move text names no legal move of the position, or more than one.
    IllegalMove,
    /// The game ended without a result.
    MissingOutcome,
    /// The document of the game would grow past the size that is written.
    DocumentTooLarge,
    /// The finished document could not be compressed.
    Compression,
}

} // verus!
