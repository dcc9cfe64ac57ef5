//! The records that a game is written as: one state for each half-move,
//! holding the position before the move and the policy target, and the
//! game's winner.

use vstd::prelude::*;

verus! {

/// The kind of a piece, as a record names it.
#[derive(Clone, Copy, Debug, PartialEq, Eq, Structural)]
pub enum PieceType {
    Pawn,
    Knight,
    Bishop,
    Rook,
    Queen,
    King,
}

/// The side to move, as a record names it.
#[derive(Clone, Copy, Debug, PartialEq, Eq, Structural)]
pub enum Side {
    White,
    Black,
}

/// How a game ended.
#[derive(Clone, Copy, Debug, PartialEq, Eq, Structural)]
pub enum Winner {
    White,
    Black,
    Draw,
}

/// The pieces of one side: their kinds and, in the same order, their squares.
#[derive(Debug, PartialEq, Eq)]
pub struct Pieces {
    pub types: Vec<PieceType>,
    pub indices: Vec<u8>,
}

/// What a `Pieces` record holds.
pub struct PiecesView {
    pub types: Seq<PieceType>,
    pub indices: Seq<u8>,
}

impl View for Pieces {
    type V = PiecesView;

    open spec fn view(&self) -> PiecesView {
        PiecesView { types: self.types@, indices: self.indices@ }
    }
}

impl PiecesView {
    /// One square for each piece, each on the board.
    pub open spec fn wf(&self) -> bool {
        &&& self.types.len() == self.indices.len()
        &&& forall|i: int| 0 <= i < self.indices.len() ==> #[trigger] self.indices[i] < 64
    }
}

/// A position: both sides' pieces, the castling rights of White (`us`) and
/// of Black (`them`), and the side to move. Repetitions and the fifty-move
/// counter are part of the record and always 0.
#[derive(Debug, PartialEq, Eq)]
pub struct Position {
    pub white: Pieces,
    pub black: Pieces,
    pub repetitions: u8,
    pub us_ooo: bool,
    pub us_oo: bool,
    pub them_ooo: bool,
    pub them_oo: bool,
    pub side_to_move: Side,
    pub rule_50: u8,
}

/// What a `Position` record holds.
pub struct PositionView {
    pub white: PiecesView,
    pub black: PiecesView,
    pub repetitions: u8,
    pub us_ooo: bool,
    pub us_oo: bool,
    pub them_ooo: bool,
    pub them_oo: bool,
    pub side_to_move: Side,
    pub rule_50: u8,
}

impl View for Position {
    type V = PositionView;

    open spec fn view(&self) -> PositionView {
        PositionView {
            white: self.white@,
            black: self.black@,
            repetitions: self.repetitions,
            us_ooo: self.us_ooo,
            us_oo: self.us_oo,
            them_ooo: self.them_ooo,
            them_oo: self.them_oo,
            side_to_move: self.side_to_move,
            rule_50: self.rule_50,
        }
    }
}

impl PositionView {
    /// Both sides' pieces are well formed.
    pub open spec fn wf(&self) -> bool {
        self.white.wf() && self.black.wf()
    }
}

/// A policy target: the policy index of every legal move and, in the same
/// order, its probability, 1 for the move played and 0 for any other.
#[derive(Debug, PartialEq, Eq)]
pub struct Policy {
    pub index: Vec<u16>,
    pub probability: Vec<u8>,
}

/// What a `Policy` record holds.
pub struct PolicyView {
    pub index: Seq<u16>,
    pub probability: Seq<u8>,
}

impl View for Policy {
    type V = PolicyView;

    open spec fn view(&self) -> PolicyView {
        PolicyView { index: self.index@, probability: self.probability@ }
    }
}

impl PolicyView {
    /// One probability for each index, each 0 or 1.
    pub open spec fn wf(&self) -> bool {
        &&& self.index.len() == self.probability.len()
        &&& forall|i: int|
            0 <= i < self.probability.len() ==> #[trigger] self.probability[i] <= 1
    }
}

/// One half-move: the position before the move and the policy target.
#[derive(Debug, PartialEq, Eq)]
pub struct State {
    pub position: Position,
    pub policy: Policy,
}

/// What a `State` record holds.
pub struct StateView {
    pub position: PositionView,
    pub policy: PolicyView,
}

impl View for State {
    type V = StateView;

    open spec fn view(&self) -> StateView {
        StateView { position: self.position@, policy: self.policy@ }
    }
}

impl StateView {
    /// Position and policy are well formed.
    pub open spec fn wf(&self) -> bool {
        self.position.wf() && self.policy.wf()
    }
}

/// What a sequence of `State` records holds.
pub open spec fn states_view(states: Seq<State>) -> Seq<StateView> {
    states.map_values(|state: State| state@)
}

/// A game: its states in the order of play, and its winner.
#[derive(Debug, PartialEq, Eq)]
pub struct Game {
    pub states: Vec<State>,
    pub winner: Winner,
}

/// What a `Game` record holds.
pub struct GameView {
    pub states: Seq<StateView>,
    pub winner: Winner,
}

impl View for Game {
    type V = GameView;

    open spec fn view(&self) -> GameView {
        GameView { states: states_view(self.states@), winner: self.winner }
    }
}

impl GameView {
    /// Every state is well formed.
    pub open spec fn wf(&self) -> bool {
        forall|i: int| 0 <= i < self.states.len() ==> (#[trigger] self.states[i]).wf()
    }
}

} // verus!
