//! The position encoder: from the pieces, castling rights and side to move
//! of a position to its record.

use vstd::prelude::*;
use crate::board::{contains_square, has_square, on_board, Color, PlacedPiece, A1, A8, H1, H8};
use crate::moves::Role;
use crate::record::{PieceType, Pieces, PiecesView, Position, PositionView, Side};

verus! {

/// The record's name for a role.
pub open spec fn type_of_role(role: Role) -> PieceType {
    match role {
        Role::Pawn => PieceType::Pawn,
        Role::Knight => PieceType::Knight,
        Role::Bishop => PieceType::Bishop,
        Role::Rook => PieceType::Rook,
        Role::Queen => PieceType::Queen,
        Role::King => PieceType::King,
    }
}

/// The record's name for a side to move.
pub open spec fn side_of_color(color: Color) -> Side {
    match color {
        Color::White => Side::White,
        Color::Black => Side::Black,
    }
}

/// The test that picks the pieces of one colour.
pub open spec fn of_color(color: Color) -> spec_fn(PlacedPiece) -> bool {
    |piece: PlacedPiece| piece.color == color
}

/// The pieces of one colour, in the order in which `pieces` has them.
pub open spec fn pieces_of_color(pieces: Seq<PlacedPiece>, color: Color) -> Seq<PlacedPiece> {
    pieces.filter(of_color(color))
}

/// The kinds of the pieces, in order.
pub open spec fn piece_types(pieces: Seq<PlacedPiece>) -> Seq<PieceType> {
    pieces.map_values(|piece: PlacedPiece| type_of_role(piece.role))
}

/// The squares of the pieces, in order.
pub open spec fn piece_squares(pieces: Seq<PlacedPiece>) -> Seq<u8> {
    pieces.map_values(|piece: PlacedPiece| piece.square)
}

/// The record of one side's pieces.
pub open spec fn pieces_record(pieces: Seq<PlacedPiece>, color: Color) -> PiecesView {
    PiecesView {
        types: piece_types(pieces_of_color(pieces, color)),
        indices: piece_squares(pieces_of_color(pieces, color)),
    }
}

/// The record of a position with these pieces, these castling rights (the
/// set of rooks that may still castle) and this side to move.
pub open spec fn position_record(
    pieces: Seq<PlacedPiece>,
    castling: u64,
    turn: Color,
) -> PositionView {
    PositionView {
        white: pieces_record(pieces, Color::White),
        black: pieces_record(pieces, Color::Black),
        repetitions: 0,
        us_ooo: has_square(castling, A1),
        us_oo: has_square(castling, H1),
        them_ooo: has_square(castling, A8),
        them_oo: has_square(castling, H8),
        side_to_move: side_of_color(turn),
        rule_50: 0,
    }
}

/// Gives the record's name for a role.
pub fn role_to_type(role: Role) -> (kind: PieceType)
    ensures
        kind == type_of_role(role),
{
    match role {
        Role::Pawn => PieceType::Pawn,
        Role::Knight => PieceType::Knight,
        Role::Bishop => PieceType::Bishop,
        Role::Rook => PieceType::Rook,
        Role::Queen => PieceType::Queen,
        Role::King => PieceType::King,
    }
}

/// Picks the pieces of one colour and splits them into their kinds and their
/// squares, two sequences in the same order.
pub fn pieces_to_vec(pieces: &[PlacedPiece], color: Color) -> (split: (Vec<PieceType>, Vec<u8>))
    ensures
        split.0@ == pieces_record(pieces@, color).types,
        split.1@ == pieces_record(pieces@, color).indices,
        split.0.len() == split.1.len(),
        split.0.len() <= pieces.len(),
{
    let mut types: Vec<PieceType> = Vec::new();
    let mut squares: Vec<u8> = Vec::new();
    let mut i: usize = 0;
    while i < pieces.len()
        invariant
            i <= pieces.len(),
            types@ == piece_types(pieces_of_color(pieces@.take(i as int), color)),
            squares@ == piece_squares(pieces_of_color(pieces@.take(i as int), color)),
            types.len() <= i,
        decreases pieces.len() - i,
    {
        let piece = pieces[i];
        proof {
            reveal(Seq::filter);
            assert(pieces@.take(i + 1).drop_last() =~= pieces@.take(i as int));
        }
        if piece.color == color {
            types.push(role_to_type(piece.role));
            squares.push(piece.square);
        }
        i += 1;
    }
    assert(pieces@.take(i as int) =~= pieces@);
    (types, squares)
}

/// The record of one side's pieces.
pub fn encode_pieces(pieces: &[PlacedPiece], color: Color) -> (record: Pieces)
    ensures
        record@ == pieces_record(pieces@, color),
{
    let (types, indices) = pieces_to_vec(pieces, color);
    Pieces { types, indices }
}

/// The record of a position.
pub fn encode_position(pieces: &[PlacedPiece], castling: u64, turn: Color) -> (record: Position)
    ensures
        record@ == position_record(pieces@, castling, turn),
{
    Position {
        white: encode_pieces(pieces, Color::White),
        black: encode_pieces(pieces, Color::Black),
        repetitions: 0,
        us_ooo: contains_square(castling, A1),
        us_oo: contains_square(castling, H1),
        them_ooo: contains_square(castling, A8),
        them_oo: contains_square(castling, H8),
        side_to_move: match turn {
            Color::White => Side::White,
            Color::Black => Side::Black,
        },
        rule_50: 0,
    }
}

/// The two sequences of one side's pieces have the same length, and every
/// piece of that colour is in them: none of another colour is.
pub proof fn lemma_pieces_record_wf(pieces: Seq<PlacedPiece>, color: Color)
    requires
        on_board(pieces),
    ensures
        pieces_record(pieces, color).wf(),
        pieces_record(pieces, color).types.len() <= pieces.len(),
        forall|i: int|
            0 <= i < pieces_of_color(pieces, color).len() ==> (#[trigger] pieces_of_color(
                pieces,
                color,
            )[i]).color == color && pieces.contains(pieces_of_color(pieces, color)[i]),
        forall|i: int|
            0 <= i < pieces.len() && pieces[i].color == color ==> pieces_of_color(
                pieces,
                color,
            ).contains(#[trigger] pieces[i]),
{
    let kept = pieces_of_color(pieces, color);
    pieces.lemma_filter_len(of_color(color));
    assert forall|i: int| 0 <= i < kept.len() implies (#[trigger] kept[i]).color == color
        && pieces.contains(kept[i]) && kept[i].square < 64 by {
        pieces.lemma_filter_pred(of_color(color), i);
        pieces.lemma_filter_contains_rev(of_color(color), kept[i]);
    }
}

/// The record of a position on the board is well formed.
pub proof fn lemma_position_record_wf(pieces: Seq<PlacedPiece>, castling: u64, turn: Color)
    requires
        on_board(pieces),
    ensures
        position_record(pieces, castling, turn).wf(),
{
    lemma_pieces_record_wf(pieces, Color::White);
    lemma_pieces_record_wf(pieces, Color::Black);
}

} // verus!
