//! Chess moves as plain values, and their packed 14-bit code.
//!
//! Squares are numbered rank by rank: a1 is 0, h1 is 7, a8 is 56, h8 is 63.
//! A packed code keeps the destination square in bits 0..6, the origin square
//! in bits 6..12 and the promotion class in bits 12..14.

use vstd::prelude::*;

verus! {

/// Number of distinct packed codes: four promotion classes over 64 x 64 squares.
pub const PACKED_CODES: usize = 16384;

/// The kind of a piece.
#[derive(Clone, Copy, Debug, PartialEq, Eq, Structural)]
pub enum Role {
    Pawn,
    Knight,
    Bishop,
    Rook,
    Queen,
    King,
}

/// A move as the encoder reads it.
///
/// `from` is the origin square, the king's square for castling, and absent
/// for a drop. `to` is the destination square, the rook's square for
/// castling. `promotion` is the role promoted to, if any.
#[derive(Clone, Copy, Debug, PartialEq, Eq)]
pub struct Move {
    pub from: Option<u8>,
    pub to: u8,
    pub promotion: Option<Role>,
}

/// The promotion class of a promotion role: 0 for none or a knight, 1 for a
/// queen, 2 for a rook, 3 for a bishop. A pawn or a king has no class.
pub open spec fn promotion_class(promotion: Option<Role>) -> Option<int> {
    match promotion {
        None => Some(0),
        Some(Role::Knight) => Some(0),
        Some(Role::Queen) => Some(1),
        Some(Role::Rook) => Some(2),
        Some(Role::Bishop) => Some(3),
        Some(Role::Pawn) => None,
        Some(Role::King) => None,
    }
}

/// The code of a promotion class, an origin and a destination: the three
/// fields added into disjoint bit ranges.
pub open spec fn pack(class: int, from: int, to: int) -> int {
    class * 4096 + from * 64 + to
}

impl Move {
    /// Every square named by the move is on the board.
    pub open spec fn wf(&self) -> bool {
        &&& self.to < 64
        &&& self.from matches Some(from) ==> from < 64
    }

    /// The move has a packed code: it is well formed, it has an origin, and
    /// it promotes to neither a pawn nor a king.
    pub open spec fn packable(&self) -> bool {
        &&& self.wf()
        &&& self.from is Some
        &&& promotion_class(self.promotion) is Some
    }

    /// The packed code of a packable move.
    pub open spec fn packed_code(&self) -> int
        recommends
            self.packable(),
    {
        pack(
            promotion_class(self.promotion).unwrap(),
            self.from.unwrap() as int,
            self.to as int,
        )
    }

    /// Tells whether the move has a packed code.
    pub fn is_packable(&self) -> (packable: bool)
        ensures
            packable == self.packable(),
    {
        let from_ok = match self.from {
            Some(from) => from < 64,
            None => false,
        };
        let promotion_ok = match self.promotion {
            Some(Role::Pawn) => false,
            Some(Role::King) => false,
            _ => true,
        };
        from_ok && self.to < 64 && promotion_ok
    }
}

/// Packs a move into its code: promotion class, origin and destination, each
/// in its own bit range.
pub fn move_to_packed_int(m: &Move) -> (code: u16)
    requires
        m.packable(),
    ensures
        code == m.packed_code(),
        code < PACKED_CODES,
{
    let from: u16 = match m.from {
        Some(from) => from as u16,
        None => 0,
    };
    let to: u16 = m.to as u16;
    let promotion: u16 = match m.promotion {
        None => 0,
        Some(Role::Knight) => 0,
        Some(Role::Queen) => 1,
        Some(Role::Rook) => 2,
        Some(Role::Bishop) => 3,
        Some(Role::Pawn) => 0,
        Some(Role::King) => 0,
    };
    promotion * 64 * 64 + from * 64 + to
}

/// Packs a move if it has a code, and reports that it has none otherwise.
pub fn try_pack(m: &Move) -> (code: Option<u16>)
    ensures
        code is Some <==> m.packable(),
        code matches Some(c) ==> c == m.packed_code() && c < PACKED_CODES,
{
    if m.is_packable() {
        Some(move_to_packed_int(m))
    } else {
        None
    }
}

/// A code determines its three fields: two triples of fields in range with
/// the same code are the same triple.
pub proof fn lemma_pack_injective(c1: int, f1: int, t1: int, c2: int, f2: int, t2: int)
    requires
        0 <= c1 < 4,
        0 <= f1 < 64,
        0 <= t1 < 64,
        0 <= c2 < 4,
        0 <= f2 < 64,
        0 <= t2 < 64,
        pack(c1, f1, t1) == pack(c2, f2, t2),
    ensures
        c1 == c2,
        f1 == f2,
        t1 == t2,
{
}

/// The three fields can be read back from a code: the destination is the
/// code modulo 64, the origin the next six bits, the class the two above.
pub proof fn lemma_pack_fields(class: int, from: int, to: int)
    requires
        0 <= class < 4,
        0 <= from < 64,
        0 <= to < 64,
    ensures
        0 <= pack(class, from, to) < 16384,
        pack(class, from, to) % 64 == to,
        (pack(class, from, to) / 64) % 64 == from,
        pack(class, from, to) / 4096 == class,
{
}

/// Two packable moves share a packed code exactly when they agree on
/// origin, destination and promotion class. In particular two moves that
/// leave different squares, reach different squares or promote to pieces of
/// different classes never share a code.
pub proof fn lemma_packed_code_injective(a: Move, b: Move)
    requires
        a.packable(),
        b.packable(),
    ensures
        a.packed_code() == b.packed_code() <==> {
            &&& a.from == b.from
            &&& a.to == b.to
            &&& promotion_class(a.promotion) == promotion_class(b.promotion)
        },
{
    if a.packed_code() == b.packed_code() {
        lemma_pack_injective(
            promotion_class(a.promotion).unwrap(),
            a.from.unwrap() as int,
            a.to as int,
            promotion_class(b.promotion).unwrap(),
            b.from.unwrap() as int,
            b.to as int,
        );
    }
}

} // verus!
