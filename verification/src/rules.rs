//! The rules engine: a live position of standard chess, kept by the
//! `shakmaty` crate, and what the encoder asks of it.
//!
//! Nothing in this file is proved. Each function states what the engine's
//! source shows of the calls in its body; the rest of the crate is verified
//! against these statements. The engine computes each answer from the
//! position alone, so each answer has a name, a function of the position.

use vstd::prelude::*;
use shakmaty::fen::Fen;
use shakmaty::san::San;
use shakmaty::{Chess, Position, Setup};
use crate::board::{on_board, standard_placement, Color, PlacedPiece, CORNERS};
use crate::fen::{one_king_each, slashes, KingBoards, RANK_STEPS};
use crate::moves::{Move, Role};

verus! {

/// A parsed FEN text: a board and what else a set-up takes.
#[verifier::external_type_specification]
#[verifier::external_body]
pub struct ExFen(shakmaty::fen::Fen);

/// A legal position of standard chess.
#[verifier::external_type_specification]
#[verifier::external_body]
pub struct ExChess(shakmaty::Chess);

/// The pieces of a position, in the order in which the engine's board hands
/// them out.
pub uninterp spec fn placement_of(pos: Chess) -> Seq<PlacedPiece>;

/// The side to move in a position.
pub uninterp spec fn side_to_move_of(pos: Chess) -> Color;

/// The castling rights of a position: the set of the squares of the rooks
/// that may still castle, one bit for each square.
pub uninterp spec fn castling_rights_of(pos: Chess) -> u64;

/// The legal moves of a position, in the order in which the engine
/// generates them.
pub uninterp spec fn legal_moves_of(pos: Chess) -> Seq<Move>;

/// The move that a move text names in a position: the one legal move that
/// the text fits, or none if the text is malformed or fits no legal move or
/// several.
pub uninterp spec fn san_move_of(pos: Chess, san: Seq<u8>) -> Option<Move>;

/// The position reached by playing, in a position, the move that a move
/// text names there.
pub uninterp spec fn position_after(pos: Chess, san: Seq<u8>) -> Chess;

/// What a FEN text parses to, or none if the engine refuses the text.
pub uninterp spec fn parsed_fen(text: Seq<u8>) -> Option<Fen>;

/// The sets of squares that tell the kings of a parsed FEN text.
pub uninterp spec fn king_boards_of(fen: Fen) -> KingBoards;

/// The position that a parsed FEN text sets up, or none if the engine finds
/// the set-up not legal.
pub uninterp spec fn set_up_of(fen: Fen) -> Option<Chess>;

/// The standard starting position. Calls `Chess::default`: the board of
/// `Board::new`, White to move, all four rooks with their castling rights.
#[verifier::external_body]
pub(crate) fn standard_position() -> (pos: Chess)
    ensures
        placement_of(pos) == standard_placement(),
        side_to_move_of(pos) == Color::White,
        castling_rights_of(pos) == CORNERS,
{
    Chess::default()
}

/// Parses a FEN text. Calls `Fen::from_ascii`. The engine counts the ranks
/// of the board part down in eight bits from 7, one step for a `/` that
/// follows a full rank, and the count has no lower bound: with fewer than
/// `RANK_STEPS` bytes `/` in the text it stays in range.
#[verifier::external_body]
pub(crate) fn parse_fen(text: &[u8]) -> (fen: Option<Fen>)
    requires
        slashes(text@) < RANK_STEPS,
    ensures
        fen == parsed_fen(text@),
{
    Fen::from_ascii(text).ok()
}

/// The sets of squares that tell the kings of a parsed FEN text. Takes, of
/// the text's board, the 64 bits of `Board::kings`, `Board::white`,
/// `Board::black` and `Board::promoted`.
#[verifier::external_body]
pub(crate) fn king_boards(fen: &Fen) -> (boards: KingBoards)
    ensures
        boards == king_boards_of(*fen),
{
    KingBoards {
        kings: fen.board.kings().0,
        white: fen.board.white().0,
        black: fen.board.black().0,
        promoted: fen.board.promoted().0,
    }
}

/// Sets up the position of a parsed FEN text. Calls `Fen::position`, which
/// builds the position and then asks whether it is legal. To ask, the engine
/// first looks for en passant captures, and where it finds one it takes the
/// king of the side to move for granted; it looks at the kings only
/// afterwards. So each side has exactly one king that is not marked as
/// promoted; the engine refuses every other set-up anyway.
#[verifier::external_body]
pub(crate) fn set_up(fen: &Fen) -> (pos: Option<Chess>)
    requires
        one_king_each(king_boards_of(*fen)),
    ensures
        pos == set_up_of(*fen),
{
    fen.position().ok()
}

/// Lists the pieces on the board. Calls `Board::pieces` on the position's
/// board and takes square, colour and role of each piece it yields; a square
/// is a number below 64.
#[verifier::external_body]
pub(crate) fn board_pieces(pos: &Chess) -> (pieces: Vec<PlacedPiece>)
    ensures
        pieces@ == placement_of(*pos),
        on_board(pieces@),
{
    pos.board().pieces().map(|(square, piece)| PlacedPiece {
        square: u8::from(square),
        color: match piece.color {
            shakmaty::Color::White => Color::White,
            shakmaty::Color::Black => Color::Black,
        },
        role: match piece.role {
            shakmaty::Role::Pawn => Role::Pawn,
            shakmaty::Role::Knight => Role::Knight,
            shakmaty::Role::Bishop => Role::Bishop,
            shakmaty::Role::Rook => Role::Rook,
            shakmaty::Role::Queen => Role::Queen,
            shakmaty::Role::King => Role::King,
        },
    }).collect()
}

/// The side to move. Calls `Setup::turn`.
#[verifier::external_body]
pub(crate) fn side_to_move(pos: &Chess) -> (turn: Color)
    ensures
        turn == side_to_move_of(*pos),
{
    match pos.turn() {
        shakmaty::Color::White => Color::White,
        shakmaty::Color::Black => Color::Black,
    }
}

/// The castling rights. Calls `Setup::castling_rights` and takes the 64 bits
/// of the set of squares it returns.
#[verifier::external_body]
pub(crate) fn castling_rights(pos: &Chess) -> (rooks: u64)
    ensures
        rooks == castling_rights_of(*pos),
{
    pos.castling_rights().0
}

/// Lists the legal moves. Calls `Position::legals` and takes origin,
/// destination and promotion of each move; a square is a number below 64.
#[verifier::external_body]
pub(crate) fn legal_moves(pos: &Chess) -> (legal: Vec<Move>)
    ensures
        legal@ == legal_moves_of(*pos),
        forall|i: int| 0 <= i < legal.len() ==> (#[trigger] legal[i]).wf(),
{
    pos.legals().iter().map(|m| Move {
        from: m.from().map(u8::from),
        to: u8::from(m.to()),
        promotion: m.promotion().map(|role| match role {
            shakmaty::Role::Pawn => Role::Pawn,
            shakmaty::Role::Knight => Role::Knight,
            shakmaty::Role::Bishop => Role::Bishop,
            shakmaty::Role::Rook => Role::Rook,
            shakmaty::Role::Queen => Role::Queen,
            shakmaty::Role::King => Role::King,
        }),
    }).collect()
}

/// Plays the move that a move text names. Calls `San::from_ascii`, then
/// `San::to_move`, which picks the one legal move of the position that the
/// text fits, then `Position::play_unchecked` with that move. Where the text
/// is refused or names no single legal move, the position is left as it was.
#[verifier::external_body]
pub(crate) fn play_san(pos: &mut Chess, san: &[u8]) -> (played: Option<Move>)
    ensures
        played == san_move_of(*old(pos), san@),
        played matches Some(m) ==> {
            &&& m.wf()
            &&& legal_moves_of(*old(pos)).contains(m)
            &&& *final(pos) == position_after(*old(pos), san@)
        },
        played is None ==> *final(pos) == *old(pos),
{
    let m = San::from_ascii(san).ok()?.to_move(pos).ok()?;
    pos.play_unchecked(&m);
    Some(Move {
        from: m.from().map(u8::from),
        to: u8::from(m.to()),
        promotion: m.promotion().map(|role| match role {
            shakmaty::Role::Pawn => Role::Pawn,
            shakmaty::Role::Knight => Role::Knight,
            shakmaty::Role::Bishop => Role::Bishop,
            shakmaty::Role::Rook => Role::Rook,
            shakmaty::Role::Queen => Role::Queen,
            shakmaty::Role::King => Role::King,
        }),
    })
}

} // verus!
