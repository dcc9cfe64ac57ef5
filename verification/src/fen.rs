//! Starting positions given as FEN text.
//!
//! The rules engine parses the text and sets the position up. Two kinds of
//! text are kept from it, for it does not return on them: a text with so
//! many `/` that the engine's count of ranks leaves its range, and a board
//! on which a side has no king, several kings or only a king marked as
//! promoted. No such text sets up a position: a board has seven `/`, and the
//! engine refuses a set-up without exactly one king for each side.

use vstd::prelude::*;
use shakmaty::Chess;
use crate::rules::{king_boards, king_boards_of, parse_fen, parsed_fen, set_up, set_up_of};

verus! {

/// The byte `/`, which parts the ranks of a board.
pub const SLASH: u8 = 47;

/// A text with this many `/` or more is not handed to the engine.
pub const RANK_STEPS: usize = 136;

/// The sets of squares that tell where the kings of a board are, one bit for
/// each square: the kings, White's pieces, Black's pieces, and the pieces
/// marked as promoted.
#[derive(Clone, Copy, Debug, PartialEq, Eq)]
pub struct KingBoards {
    pub kings: u64,
    pub white: u64,
    pub black: u64,
    pub promoted: u64,
}

/// The number of bytes `/` in a text.
pub open spec fn slashes(text: Seq<u8>) -> nat
    decreases text.len(),
{
    if text.len() == 0 {
        0
    } else if text.last() == SLASH {
        slashes(text.drop_last()) + 1
    } else {
        slashes(text.drop_last())
    }
}

/// The set holds exactly one square.
pub open spec fn single(squares: u64) -> bool {
    squares != 0 && squares & ((squares - 1) as u64) == 0
}

/// Each side has exactly one king that is not marked as promoted.
pub open spec fn one_king_each(boards: KingBoards) -> bool {
    &&& single(boards.kings & boards.white & !boards.promoted)
    &&& single(boards.kings & boards.black & !boards.promoted)
}

/// The position that a FEN text sets up: none if the text has `RANK_STEPS`
/// bytes `/` or more, if the engine refuses the text, if a side has not
/// exactly one unpromoted king, or if the engine finds the set-up not legal.
pub open spec fn fen_position(text: Seq<u8>) -> Option<Chess> {
    if slashes(text) >= RANK_STEPS {
        None
    } else {
        match parsed_fen(text) {
            Some(fen) => if one_king_each(king_boards_of(fen)) {
                set_up_of(fen)
            } else {
                None
            },
            None => None,
        }
    }
}

/// Counts the bytes `/` in a text.
pub fn count_slashes(text: &[u8]) -> (count: usize)
    ensures
        count == slashes(text@),
{
    let mut count: usize = 0;
    let mut i: usize = 0;
    while i < text.len()
        invariant
            i <= text.len(),
            count == slashes(text@.take(i as int)),
            count <= i,
        decreases text.len() - i,
    {
        proof {
            assert(text@.take(i + 1).drop_last() =~= text@.take(i as int));
        }
        if text[i] == SLASH {
            count += 1;
        }
        i += 1;
    }
    assert(text@.take(i as int) =~= text@);
    count
}

/// Tells whether a set of squares holds exactly one square.
pub fn is_single(squares: u64) -> (one: bool)
    ensures
        one == single(squares),
{
    squares != 0 && squares & (squares - 1) == 0
}

/// Tells whether each side has exactly one king that is not marked as
/// promoted.
pub fn has_one_king_each(boards: &KingBoards) -> (ok: bool)
    ensures
        ok == one_king_each(*boards),
{
    is_single(boards.kings & boards.white & !boards.promoted) && is_single(
        boards.kings & boards.black & !boards.promoted,
    )
}

/// Sets up the position of a FEN text.
pub fn position_from_fen(text: &[u8]) -> (pos: Option<Chess>)
    ensures
        pos == fen_position(text@),
{
    if count_slashes(text) >= RANK_STEPS {
        return None;
    }
    match parse_fen(text) {
        Some(fen) => {
            let boards = king_boards(&fen);
            if has_one_king_each(&boards) {
                set_up(&fen)
            } else {
                None
            }
        },
        None => None,
    }
}

} // verus!
