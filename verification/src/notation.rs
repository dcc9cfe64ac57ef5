//! The notation in which an action-space list names its moves: the origin
//! square, the destination square, and for a promotion to a queen, a rook or
//! a bishop one more letter. A knight promotion carries no letter and so is
//! written like the plain move between the same squares.

use vstd::prelude::*;
use vstd::slice::slice_subrange;
use crate::moves::{promotion_class, Move, Role};

verus! {

/// The letter `a`, the first file.
pub const FILE_A: u8 = 97;

/// The letter `h`, the last file.
pub const FILE_H: u8 = 104;

/// The digit `1`, the first rank.
pub const RANK_1: u8 = 49;

/// The digit `8`, the last rank.
pub const RANK_8: u8 = 56;

/// The letter `q`, for a promotion to a queen.
pub const SUFFIX_QUEEN: u8 = 113;

/// The letter `r`, for a promotion to a rook.
pub const SUFFIX_ROOK: u8 = 114;

/// The letter `b`, for a promotion to a bishop.
pub const SUFFIX_BISHOP: u8 = 98;

/// The square that two bytes name: a file letter `a` to `h`, then a rank
/// digit `1` to `8`. Files count within a rank, ranks count in eights.
pub open spec fn square_of_text(text: Seq<u8>) -> Option<u8> {
    if text.len() == 2 && FILE_A <= text[0] <= FILE_H && RANK_1 <= text[1] <= RANK_8 {
        Some(((text[1] - RANK_1) * 8 + (text[0] - FILE_A)) as u8)
    } else {
        None
    }
}

/// The two bytes that name a square.
pub open spec fn text_of_square(square: u8) -> Seq<u8> {
    seq![(FILE_A + square % 8) as u8, (RANK_1 + square / 8) as u8]
}

/// The promotion that the fifth byte of a notation stands for. A notation of
/// four bytes names no promotion. Bytes after the fifth are not read.
pub open spec fn promotion_of_text(text: Seq<u8>) -> Option<Option<Role>> {
    if text.len() <= 4 {
        Some(None)
    } else if text[4] == SUFFIX_QUEEN {
        Some(Some(Role::Queen))
    } else if text[4] == SUFFIX_ROOK {
        Some(Some(Role::Rook))
    } else if text[4] == SUFFIX_BISHOP {
        Some(Some(Role::Bishop))
    } else {
        None
    }
}

/// The move that a notation names, if it is well formed: at least four
/// bytes, of which the first two and the next two each name a square, and a
/// fifth byte, where there is one, that is `q`, `r` or `b`.
pub open spec fn notation_move(text: Seq<u8>) -> Option<Move> {
    if text.len() < 4 {
        None
    } else {
        match (
            square_of_text(text.subrange(0, 2)),
            square_of_text(text.subrange(2, 4)),
            promotion_of_text(text),
        ) {
            (Some(from), Some(to), Some(promotion)) => Some(
                Move { from: Some(from), to, promotion },
            ),
            _ => None,
        }
    }
}

/// The packed code of the move that a well-formed notation names.
pub open spec fn notation_code(text: Seq<u8>) -> int
    recommends
        notation_move(text) is Some,
{
    notation_move(text).unwrap().packed_code()
}

/// The letter that a promotion class is written with; none for class 0.
pub open spec fn suffix_of_class(class: int) -> Seq<u8> {
    if class == 1 {
        seq![SUFFIX_QUEEN]
    } else if class == 2 {
        seq![SUFFIX_ROOK]
    } else if class == 3 {
        seq![SUFFIX_BISHOP]
    } else {
        Seq::empty()
    }
}

/// The notation under which an action-space list names a packable move.
pub open spec fn canonical_notation(m: Move) -> Seq<u8>
    recommends
        m.packable(),
{
    text_of_square(m.from.unwrap()) + text_of_square(m.to) + suffix_of_class(
        promotion_class(m.promotion).unwrap(),
    )
}

/// Reads a square's name: exactly two bytes, a file letter `a` to `h` and a
/// rank digit `1` to `8`.
pub fn square_from_ascii(text: &[u8]) -> (square: Option<u8>)
    ensures
        square == square_of_text(text@),
{
    if text.len() == 2 && FILE_A <= text[0] && text[0] <= FILE_H && RANK_1 <= text[1] && text[1]
        <= RANK_8 {
        Some((text[1] - RANK_1) * 8 + (text[0] - FILE_A))
    } else {
        None
    }
}

/// Reads one entry of an action-space list.
pub fn parse_notation(text: &[u8]) -> (m: Option<Move>)
    ensures
        m == notation_move(text@),
        m matches Some(named) ==> named.packable(),
{
    if text.len() < 4 {
        return None;
    }
    let from = square_from_ascii(slice_subrange(text, 0, 2));
    let to = square_from_ascii(slice_subrange(text, 2, 4));
    let promotion: Option<Option<Role>> = if text.len() == 4 {
        Some(None)
    } else if text[4] == SUFFIX_QUEEN {
        Some(Some(Role::Queen))
    } else if text[4] == SUFFIX_ROOK {
        Some(Some(Role::Rook))
    } else if text[4] == SUFFIX_BISHOP {
        Some(Some(Role::Bishop))
    } else {
        None
    };
    match (from, to, promotion) {
        (Some(from), Some(to), Some(promotion)) => Some(Move { from: Some(from), to, promotion }),
        _ => None,
    }
}

/// Naming a square and reading the name back gives the square.
pub proof fn lemma_square_text_round_trip(square: u8)
    requires
        square < 64,
    ensures
        square_of_text(text_of_square(square)) == Some(square),
{
}

/// A well-formed notation names a packable move.
pub proof fn lemma_notation_move_packable(text: Seq<u8>)
    requires
        notation_move(text) is Some,
    ensures
        notation_move(text).unwrap().packable(),
        0 <= notation_code(text) < 16384,
{
}

/// The canonical notation of a packable move is well formed, and the move it
/// names has the same packed code: the same squares and the same promotion
/// class.
pub proof fn lemma_canonical_notation_names_move(m: Move)
    requires
        m.packable(),
    ensures
        notation_move(canonical_notation(m)) is Some,
        notation_code(canonical_notation(m)) == m.packed_code(),
{
    lemma_square_text_round_trip(m.from.unwrap());
    lemma_square_text_round_trip(m.to);
}

} // verus!
