//! What the encoder reads of a position: the pieces on their squares and
//! sets of squares kept as 64 bits.

use vstd::prelude::*;
use crate::moves::Role;

verus! {

/// The square a1, where White's queenside rook starts.
pub const A1: u8 = 0;

/// The square h1, where White's kingside rook starts.
pub const H1: u8 = 7;

/// The square a8, where Black's queenside rook starts.
pub const A8: u8 = 56;

/// The square h8, where Black's kingside rook starts.
pub const H8: u8 = 63;

/// The colour of a side.
#[derive(Clone, Copy, Debug, PartialEq, Eq, Structural)]
pub enum Color {
    Black,
    White,
}

/// A piece standing on a square.
#[derive(Clone, Copy, Debug, PartialEq, Eq)]
pub struct PlacedPiece {
    pub square: u8,
    pub color: Color,
    pub role: Role,
}

/// A piece of the given colour and role on the given square.
pub open spec fn piece(square: u8, color: Color, role: Role) -> PlacedPiece {
    PlacedPiece { square, color, role }
}

/// The set of the four corner squares.
pub const CORNERS: u64 = 0x8100_0000_0000_0081;

/// The pieces of the standard starting position, kind by kind from pawns to
/// kings, and within a kind from a1 towards h8.
pub open spec fn standard_placement() -> Seq<PlacedPiece> {
    seq![
        piece(8, Color::White, Role::Pawn),
        piece(9, Color::White, Role::Pawn),
        piece(10, Color::White, Role::Pawn),
        piece(11, Color::White, Role::Pawn),
        piece(12, Color::White, Role::Pawn),
        piece(13, Color::White, Role::Pawn),
        piece(14, Color::White, Role::Pawn),
        piece(15, Color::White, Role::Pawn),
        piece(48, Color::Black, Role::Pawn),
        piece(49, Color::Black, Role::Pawn),
        piece(50, Color::Black, Role::Pawn),
        piece(51, Color::Black, Role::Pawn),
        piece(52, Color::Black, Role::Pawn),
        piece(53, Color::Black, Role::Pawn),
        piece(54, Color::Black, Role::Pawn),
        piece(55, Color::Black, Role::Pawn),
        piece(1, Color::White, Role::Knight),
        piece(6, Color::White, Role::Knight),
        piece(57, Color::Black, Role::Knight),
        piece(62, Color::Black, Role::Knight),
        piece(2, Color::White, Role::Bishop),
        piece(5, Color::White, Role::Bishop),
        piece(58, Color::Black, Role::Bishop),
        piece(61, Color::Black, Role::Bishop),
        piece(0, Color::White, Role::Rook),
        piece(7, Color::White, Role::Rook),
        piece(56, Color::Black, Role::Rook),
        piece(63, Color::Black, Role::Rook),
        piece(3, Color::White, Role::Queen),
        piece(59, Color::Black, Role::Queen),
        piece(4, Color::White, Role::King),
        piece(60, Color::Black, Role::King),
    ]
}

/// Every piece of the sequence stands on a square of the board.
pub open spec fn on_board(pieces: Seq<PlacedPiece>) -> bool {
    forall|i: int| 0 <= i < pieces.len() ==> (#[trigger] pieces[i]).square < 64
}

/// Whether a set of squares, one bit for each square, holds `square`.
pub open spec fn has_square(squares: u64, square: u8) -> bool
    recommends
        square < 64,
{
    squares & (1u64 << square) != 0
}

/// Tells whether a set of squares holds `square`.
pub fn contains_square(squares: u64, square: u8) -> (held: bool)
    requires
        square < 64,
    ensures
        held == has_square(squares, square),
{
    squares & (1u64 << square) != 0
}

} // verus!
