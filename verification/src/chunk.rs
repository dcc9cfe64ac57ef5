//! The game accumulator: it follows the events of a game transcript, keeps
//! the live position, records one state for each half-move of the main line
//! and hands the finished game out when the game ends.

use vstd::prelude::*;
use crate::board::{on_board, standard_placement, Color, PlacedPiece, CORNERS};
use crate::fault::Fault;
use crate::fen::{fen_position, position_from_fen};
use crate::moves::Move;
use crate::naming::{file_name, game_file_name};
use crate::policy::{
    all_listed, all_moves_listed, all_moves_packable, all_packable, codes_distinct,
    distinct_packed_codes, encode_policy, lemma_policy_indices_distinct,
    lemma_policy_indices_name_moves, lemma_policy_is_one_hot, lemma_policy_target_wf,
    names_played, one_hot_at, policy_target, total,
};
use crate::notation::notation_code;
use crate::position::{
    encode_pieces, encode_position, lemma_pieces_record_wf, lemma_position_record_wf,
    pieces_record, position_record,
};
use crate::record::{
    states_view, Game, GameView, Pieces, PolicyView, State, StateView, Winner,
};
use crate::rules::{
    board_pieces, castling_rights, castling_rights_of, legal_moves, legal_moves_of, placement_of,
    play_san, position_after, san_move_of, side_to_move, side_to_move_of, standard_position,
};
use crate::table::MoveTable;
use shakmaty::Chess;

verus! {

/// The result of a finished game.
#[derive(Clone, Copy, Debug, PartialEq, Eq)]
pub enum Outcome {
    /// One side won.
    Decisive { winner: Color },
    /// Nobody won.
    Draw,
}

/// The record's name for an outcome.
pub open spec fn winner_of(outcome: Outcome) -> Winner {
    match outcome {
        Outcome::Draw => Winner::Draw,
        Outcome::Decisive { winner: Color::White } => Winner::White,
        Outcome::Decisive { winner: Color::Black } => Winner::Black,
    }
}

/// The header key under which a transcript gives a starting position: `FEN`.
pub open spec fn fen_key() -> Seq<u8> {
    seq![70u8, 69u8, 78u8]
}

/// The state recorded for a half-move: the position before the move, and
/// the policy target of its legal moves and the move played.
pub open spec fn state_record(
    pieces: Seq<PlacedPiece>,
    castling: u64,
    turn: Color,
    legal: Seq<Move>,
    played: Move,
    table: Seq<u16>,
) -> StateView {
    StateView {
        position: position_record(pieces, castling, turn),
        policy: policy_target(legal, played, table),
    }
}

/// The state recorded when, in the position `pos`, the move `played` is
/// played.
pub open spec fn state_of_position(pos: Chess, played: Move, table: Seq<u16>) -> StateView {
    state_record(
        placement_of(pos),
        castling_rights_of(pos),
        side_to_move_of(pos),
        legal_moves_of(pos),
        played,
        table,
    )
}

/// The state recorded when, in the position `pos`, the move that the text
/// `san` names there is played.
pub open spec fn recorded_state(pos: Chess, san: Seq<u8>, table: MoveTable) -> StateView
    recommends
        san_move_of(pos, san) is Some,
{
    state_of_position(pos, san_move_of(pos, san).unwrap(), table.slots())
}

/// The fault that a move text meets in a position, the first of: a legal
/// move without a packed code, a legal move whose code the action-space list
/// does not name, two legal moves with one code, a text that names no legal
/// move. None if the move can be recorded and played.
pub open spec fn fault_of(pos: Chess, san: Seq<u8>, table: MoveTable) -> Option<Fault> {
    let legal = legal_moves_of(pos);
    if !all_packable(legal) {
        Some(Fault::UnencodableMove)
    } else if !all_listed(legal, table.listing()) {
        Some(Fault::UnlistedMove)
    } else if !distinct_packed_codes(legal) {
        Some(Fault::CodeCollision)
    } else if san_move_of(pos, san) is None {
        Some(Fault::IllegalMove)
    } else {
        None
    }
}

/// The policy has one probability for each index, their sum is 1, and
/// exactly one of them is 1: that of the move played.
pub open spec fn one_hot_on_played(legal: Seq<Move>, played: Move, policy: PolicyView) -> bool {
    &&& policy.index.len() == legal.len()
    &&& policy.probability.len() == legal.len()
    &&& total(policy.probability) == 1
    &&& exists|k: int|
        #![trigger legal[k]]
        one_hot_at(policy.probability, k) && legal[k] == played
}

/// Every index of the policy is the position at which the list of the move
/// table names the packed code of its legal move, and no two indices are the
/// same.
pub open spec fn indexed_by_list(legal: Seq<Move>, policy: PolicyView, table: MoveTable) -> bool {
    &&& policy.index.len() == legal.len()
    &&& forall|i: int|
        0 <= i < legal.len() ==> {
            &&& (#[trigger] policy.index[i]) < table.listing().len()
            &&& notation_code(table.listing()[policy.index[i] as int]) == legal[i].packed_code()
        }
    &&& forall|i: int, j: int|
        0 <= i < legal.len() && 0 <= j < legal.len() && i != j ==> (#[trigger] policy.index[i])
            != (#[trigger] policy.index[j])
}

/// The live position after a header: under the key `FEN`, the position that
/// the value sets up, if it sets one up; else the position as it was.
pub open spec fn position_under(pos: Chess, key: Seq<u8>, value: Seq<u8>) -> Chess {
    if key == fen_key() && fen_position(value) is Some {
        fen_position(value).unwrap()
    } else {
        pos
    }
}

/// What a game's end hands out: the name of the file to write, and the game.
#[derive(Debug, PartialEq, Eq)]
pub struct Artifact {
    pub file_name: String,
    pub game: Game,
}

/// Tells whether a header key is `FEN`.
pub fn is_fen_key(key: &[u8]) -> (is_fen: bool)
    ensures
        is_fen == (key@ == fen_key()),
{
    let is_fen = key.len() == 3 && key[0] == 70 && key[1] == 69 && key[2] == 78;
    assert(is_fen ==> key@ =~= fen_key());
    is_fen
}

/// Builds the state of a half-move from what the rules engine tells of the
/// position before the move and from the move played. Fails as the policy
/// encoder does.
pub fn record_state(
    pieces: &[PlacedPiece],
    castling: u64,
    turn: Color,
    legal: &[Move],
    played: &Move,
    table: &MoveTable,
) -> (state: Result<State, Fault>)
    requires
        table.wf(),
    ensures
        match state {
            Ok(state) => {
                &&& all_packable(legal@)
                &&& played.packable()
                &&& all_listed(legal@, table.listing())
                &&& names_played(legal@, *played)
                &&& state@ == state_record(
                    pieces@,
                    castling,
                    turn,
                    legal@,
                    *played,
                    table.slots(),
                )
            },
            Err(Fault::UnencodableMove) => !all_packable(legal@) || !played.packable(),
            Err(Fault::UnlistedMove) => {
                &&& all_packable(legal@)
                &&& played.packable()
                &&& !all_listed(legal@, table.listing())
            },
            Err(Fault::MoveNotLegal) => {
                &&& all_packable(legal@)
                &&& played.packable()
                &&& all_listed(legal@, table.listing())
                &&& !names_played(legal@, *played)
            },
            Err(_) => false,
        },
{
    let position = encode_position(pieces, castling, turn);
    match encode_policy(legal, played, table) {
        Ok(policy) => Ok(State { position, policy }),
        Err(fault) => Err(fault),
    }
}

/// The state recorded for a move is well formed: its pieces have one square
/// each, on the board, and its policy one probability for each index.
pub proof fn lemma_recorded_state_wf(pos: Chess, played: Move, table: Seq<u16>)
    requires
        on_board(placement_of(pos)),
    ensures
        state_of_position(pos, played, table).wf(),
        state_of_position(pos, played, table).policy.index.len() == legal_moves_of(pos).len(),
{
    lemma_position_record_wf(placement_of(pos), castling_rights_of(pos), side_to_move_of(pos));
    lemma_policy_target_wf(legal_moves_of(pos), played, table);
}

/// Where no two legal moves of a position share a packed code, the state
/// recorded for a legal move has a one-hot policy: as many probabilities as
/// indices, their sum 1, and exactly one of them 1, that of the move played.
pub proof fn lemma_recorded_policy_is_one_hot(pos: Chess, played: Move, table: Seq<u16>)
    requires
        all_packable(legal_moves_of(pos)),
        distinct_packed_codes(legal_moves_of(pos)),
        legal_moves_of(pos).contains(played),
    ensures
        state_of_position(pos, played, table).policy.index.len() == state_of_position(
            pos,
            played,
            table,
        ).policy.probability.len(),
        total(state_of_position(pos, played, table).policy.probability) == 1,
        exists|k: int|
            #![trigger legal_moves_of(pos)[k]]
            one_hot_at(state_of_position(pos, played, table).policy.probability, k)
                && legal_moves_of(pos)[k] == played,
{
    lemma_policy_is_one_hot(legal_moves_of(pos), played, table);
}

/// The accumulator of one transcript's games.
pub struct Chunk {
    pos: Chess,
    states: Vec<State>,
    move_table: MoveTable,
    game_id: i32,
    result: Option<Winner>,
}

impl Chunk {
    /// The live position.
    pub closed spec fn position(&self) -> Chess {
        self.pos
    }

    /// The states recorded for the game so far, in the order of play.
    pub closed spec fn records(&self) -> Seq<StateView> {
        states_view(self.states@)
    }

    /// The move table.
    pub closed spec fn table(&self) -> MoveTable {
        self.move_table
    }

    /// The number of the game: -1 before the first game, then 0, 1, 2.
    pub closed spec fn game_number(&self) -> int {
        self.game_id as int
    }

    /// The winner of the game, once its outcome was reported.
    pub closed spec fn winner(&self) -> Option<Winner> {
        self.result
    }

    /// The move table is well formed, and so is every state recorded.
    pub open spec fn wf(&self) -> bool {
        &&& self.table().wf()
        &&& forall|i: int| 0 <= i < self.records().len() ==> (#[trigger] self.records()[i]).wf()
    }

    /// An accumulator before its first game: the standard starting position,
    /// no states, game number -1, no winner.
    pub fn new(move_table: MoveTable) -> (chunk: Chunk)
        requires
            move_table.wf(),
        ensures
            chunk.wf(),
            chunk.table() == move_table,
            chunk.records() == Seq::<StateView>::empty(),
            chunk.game_number() == -1,
            chunk.winner() == None::<Winner>,
            placement_of(chunk.position()) == standard_placement(),
            side_to_move_of(chunk.position()) == Color::White,
            castling_rights_of(chunk.position()) == CORNERS,
    {
        let chunk = Chunk {
            pos: standard_position(),
            states: Vec::new(),
            move_table,
            game_id: -1,
            result: None,
        };
        chunk
    }

    /// The number of the game.
    pub fn game_id(&self) -> (id: i32)
        ensures
            id == self.game_number(),
    {
        self.game_id
    }

    /// The number of states recorded for the game so far.
    pub fn state_count(&self) -> (count: usize)
        ensures
            count == self.records().len(),
    {
        self.states.len()
    }

    /// The states recorded for the game so far.
    pub fn states(&self) -> (states: &Vec<State>)
        ensures
            states_view(states@) == self.records(),
    {
        &self.states
    }

    /// The winner of the game, once its outcome was reported.
    pub fn result(&self) -> (winner: Option<Winner>)
        ensures
            winner == self.winner(),
    {
        self.result
    }

    /// The record of one side's pieces in the live position.
    pub fn pieces(&self, color: Color) -> (record: Pieces)
        ensures
            record@ == pieces_record(placement_of(self.position()), color),
            record@.wf(),
    {
        let pieces = board_pieces(&self.pos);
        proof {
            lemma_pieces_record_wf(pieces@, color);
        }
        encode_pieces(pieces.as_slice(), color)
    }

    /// A game begins: the live position is the standard starting position,
    /// no state is recorded, no winner is known, and the game number goes up
    /// by one.
    pub fn begin_game(&mut self)
        requires
            old(self).wf(),
            old(self).game_number() < i32::MAX,
        ensures
            final(self).wf(),
            final(self).table() == old(self).table(),
            final(self).records() == Seq::<StateView>::empty(),
            final(self).game_number() == old(self).game_number() + 1,
            final(self).winner() == None::<Winner>,
            placement_of(final(self).position()) == standard_placement(),
            side_to_move_of(final(self).position()) == Color::White,
            castling_rights_of(final(self).position()) == CORNERS,
    {
        self.states.clear();
        self.pos = standard_position();
        self.game_id += 1;
        self.result = None;
    }

    /// A header of the game. Under the key `FEN`, a value that sets up a
    /// legal position makes that position the live one. Any other header,
    /// and a `FEN` value that sets up no position, changes nothing.
    pub fn header(&mut self, key: &[u8], value: &[u8])
        requires
            old(self).wf(),
        ensures
            final(self).wf(),
            final(self).table() == old(self).table(),
            final(self).records() == old(self).records(),
            final(self).game_number() == old(self).game_number(),
            final(self).winner() == old(self).winner(),
            final(self).position() == position_under(old(self).position(), key@, value@),
    {
        if is_fen_key(key) {
            if let Some(pos) = position_from_fen(value) {
                self.pos = pos;
            }
        }
        assert(self.records() == old(self).records());
    }

    /// A move of the main line, as its text. The state of the half-move is
    /// recorded from the live position, then the move is played.
    ///
    /// Fails with the fault that `fault_of` gives, and then changes nothing.
    pub fn try_san(&mut self, san: &[u8]) -> (done: Result<(), Fault>)
        requires
            old(self).wf(),
        ensures
            final(self).wf(),
            final(self).table() == old(self).table(),
            final(self).game_number() == old(self).game_number(),
            final(self).winner() == old(self).winner(),
            match fault_of(old(self).position(), san@, old(self).table()) {
                Some(fault) => {
                    &&& done == Err::<(), Fault>(fault)
                    &&& final(self).records() == old(self).records()
                    &&& final(self).position() == old(self).position()
                },
                None => {
                    &&& done == Ok::<(), Fault>(())
                    &&& final(self).records() == old(self).records().push(
                        recorded_state(old(self).position(), san@, old(self).table()),
                    )
                    &&& final(self).position() == position_after(old(self).position(), san@)
                    &&& one_hot_on_played(
                        legal_moves_of(old(self).position()),
                        san_move_of(old(self).position(), san@).unwrap(),
                        recorded_state(old(self).position(), san@, old(self).table()).policy,
                    )
                    &&& indexed_by_list(
                        legal_moves_of(old(self).position()),
                        recorded_state(old(self).position(), san@, old(self).table()).policy,
                        old(self).table(),
                    )
                },
            },
    {
        let pieces = board_pieces(&self.pos);
        let castling = castling_rights(&self.pos);
        let turn = side_to_move(&self.pos);
        let legal = legal_moves(&self.pos);
        if !all_moves_packable(legal.as_slice()) {
            return Err(Fault::UnencodableMove);
        }
        if !all_moves_listed(legal.as_slice(), &self.move_table) {
            return Err(Fault::UnlistedMove);
        }
        if !codes_distinct(legal.as_slice()) {
            return Err(Fault::CodeCollision);
        }
        let played = match play_san(&mut self.pos, san) {
            Some(played) => played,
            None => {
                return Err(Fault::IllegalMove);
            },
        };
        let recorded = record_state(
            pieces.as_slice(),
            castling,
            turn,
            legal.as_slice(),
            &played,
            &self.move_table,
        );
        match recorded {
            Ok(state) => {
                proof {
                    lemma_position_record_wf(pieces@, castling, turn);
                    lemma_policy_target_wf(legal@, played, self.move_table.slots());
                    lemma_recorded_policy_is_one_hot(
                        old(self).position(),
                        played,
                        self.move_table.slots(),
                    );
                    lemma_policy_indices_name_moves(legal@, self.move_table);
                    lemma_policy_indices_distinct(legal@, self.move_table);
                }
                self.states.push(state);
                assert(self.records() == old(self).records().push(state@));
                Ok(())
            },
            Err(fault) => Err(fault),
        }
    }

    /// A move of the main line, as its text, where the text names a legal
    /// move of the live position and every legal move has a packed code. The
    /// state of the half-move is recorded, then the move is played.
    ///
    /// Fails, and changes nothing, if the action-space list does not name a
    /// legal move's code, or if two legal moves share a code.
    pub fn san(&mut self, san: &[u8]) -> (done: Result<(), Fault>)
        requires
            old(self).wf(),
            all_packable(legal_moves_of(old(self).position())),
            san_move_of(old(self).position(), san@) is Some,
        ensures
            final(self).wf(),
            final(self).table() == old(self).table(),
            final(self).game_number() == old(self).game_number(),
            final(self).winner() == old(self).winner(),
            match done {
                Ok(()) => {
                    &&& fault_of(old(self).position(), san@, old(self).table()) is None
                    &&& final(self).records() == old(self).records().push(
                        recorded_state(old(self).position(), san@, old(self).table()),
                    )
                    &&& final(self).position() == position_after(old(self).position(), san@)
                    &&& one_hot_on_played(
                        legal_moves_of(old(self).position()),
                        san_move_of(old(self).position(), san@).unwrap(),
                        recorded_state(old(self).position(), san@, old(self).table()).policy,
                    )
                    &&& indexed_by_list(
                        legal_moves_of(old(self).position()),
                        recorded_state(old(self).position(), san@, old(self).table()).policy,
                        old(self).table(),
                    )
                },
                Err(Fault::UnlistedMove) => {
                    &&& !all_listed(
                        legal_moves_of(old(self).position()),
                        old(self).table().listing(),
                    )
                    &&& final(self).records() == old(self).records()
                    &&& final(self).position() == old(self).position()
                },
                Err(Fault::CodeCollision) => {
                    &&& all_listed(
                        legal_moves_of(old(self).position()),
                        old(self).table().listing(),
                    )
                    &&& !distinct_packed_codes(legal_moves_of(old(self).position()))
                    &&& final(self).records() == old(self).records()
                    &&& final(self).position() == old(self).position()
                },
                Err(_) => false,
            },
    {
        self.try_san(san)
    }

    /// A side variation begins. It is skipped: only moves of the main line
    /// are recorded.
    pub fn begin_variation(&self) -> (skip: bool)
        ensures
            skip,
    {
        true
    }

    /// The outcome of the game is reported: the winner is known from now
    /// on.
    pub fn outcome(&mut self, outcome: Option<Outcome>)
        requires
            old(self).wf(),
            outcome is Some,
        ensures
            final(self).wf(),
            final(self).table() == old(self).table(),
            final(self).records() == old(self).records(),
            final(self).game_number() == old(self).game_number(),
            final(self).position() == old(self).position(),
            final(self).winner() == Some(winner_of(outcome.unwrap())),
    {
        let winner = match outcome {
            Some(Outcome::Decisive { winner: Color::White }) => Winner::White,
            Some(Outcome::Decisive { winner: Color::Black }) => Winner::Black,
            _ => Winner::Draw,
        };
        self.result = Some(winner);
        assert(self.records() == old(self).records());
    }

    /// The outcome of the game is reported, or that it has none. A game
    /// without a result is a fault, and changes nothing.
    pub fn try_outcome(&mut self, outcome: Option<Outcome>) -> (done: Result<(), Fault>)
        requires
            old(self).wf(),
        ensures
            final(self).wf(),
            final(self).table() == old(self).table(),
            final(self).records() == old(self).records(),
            final(self).game_number() == old(self).game_number(),
            final(self).position() == old(self).position(),
            match done {
                Ok(()) => outcome matches Some(reported) && final(self).winner() == Some(
                    winner_of(reported),
                ),
                Err(Fault::MissingOutcome) => outcome is None && final(self).winner() == old(
                    self,
                ).winner(),
                Err(_) => false,
            },
    {
        if outcome.is_none() {
            return Err(Fault::MissingOutcome);
        }
        self.outcome(outcome);
        Ok(())
    }

    /// The game ends. Its states and its winner leave the accumulator as one
    /// game, with the name of the file it is to be written to.
    ///
    /// Fails, and changes nothing, if no outcome was reported for the game.
    pub fn end_game(&mut self) -> (ended: Result<Artifact, Fault>)
        requires
            old(self).wf(),
        ensures
            final(self).wf(),
            final(self).table() == old(self).table(),
            final(self).game_number() == old(self).game_number(),
            final(self).winner() == old(self).winner(),
            final(self).position() == old(self).position(),
            match ended {
                Ok(artifact) => {
                    &&& old(self).winner() matches Some(winner)
                    &&& artifact.file_name@ == game_file_name(old(self).game_number())
                    &&& artifact.game@ == GameView { states: old(self).records(), winner }
                    &&& artifact.game@.wf()
                    &&& final(self).records() == Seq::<StateView>::empty()
                },
                Err(Fault::MissingOutcome) => {
                    &&& old(self).winner() is None
                    &&& final(self).records() == old(self).records()
                },
                Err(_) => false,
            },
    {
        let winner = match self.result {
            Some(winner) => winner,
            None => {
                return Err(Fault::MissingOutcome);
            },
        };
        let mut states: Vec<State> = Vec::new();
        std::mem::swap(&mut self.states, &mut states);
        Ok(Artifact { file_name: file_name(self.game_id), game: Game { states, winner } })
    }
}

} // verus!
