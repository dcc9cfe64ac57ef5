//! The document of a finished game: the game's records laid out as one
//! FlatBuffers table, and the gzip stream of that document.
//!
//! A document is what a builder lays out when it is told, in order, to
//! write every vector and table of the game. `told_game` lists these calls;
//! the functions below make them, each only as the builder allows, and none
//! once the document has grown past `DOCUMENT_LIMIT`.
//!
//! A table's references are told before its bytes, and each from the last
//! slot to the first; a byte that is 0 takes no room in the document.

use vstd::prelude::*;
use flatbuffers::FlatBufferBuilder;
use crate::codec::{
    create_vector_of_tables, create_vector_u16, create_vector_u32, create_vector_u8, end_table,
    finish_minimal, finished_data, gzip, gzip_of, idle, layout, new_builder, push_slot_offset,
    push_slot_u8, size, start_table, table_offset, told, written_len, Instruction, LAST_SLOT,
};
use crate::fault::Fault;
use crate::record::{
    Game, GameView, PieceType, Pieces, PiecesView, Policy, PolicyView, Position, PositionView,
    Side, State, StateView, Winner,
};

verus! {

/// No table is begun once this many bytes are written: a quarter of the
/// format's range of offsets.
pub const DOCUMENT_LIMIT: usize = 0x4000_0000;

/// The 32 bits of the single-precision number 1.
pub const ONE_BITS: u32 = 0x3F80_0000;

/// Slot of the kinds in a table of pieces.
pub const PIECES_TYPES: i16 = 4;

/// Slot of the squares in a table of pieces.
pub const PIECES_INDICES: i16 = 6;

/// Slot of White's pieces in a position.
pub const POSITION_WHITE: i16 = 4;

/// Slot of Black's pieces in a position.
pub const POSITION_BLACK: i16 = 6;

/// Slot of the repetition count in a position.
pub const POSITION_REPETITIONS: i16 = 8;

/// Slot of White's queenside castling right in a position.
pub const POSITION_US_OOO: i16 = 10;

/// Slot of White's kingside castling right in a position.
pub const POSITION_US_OO: i16 = 12;

/// Slot of Black's queenside castling right in a position.
pub const POSITION_THEM_OOO: i16 = 14;

/// Slot of Black's kingside castling right in a position.
pub const POSITION_THEM_OO: i16 = 16;

/// Slot of the side to move in a position.
pub const POSITION_SIDE_TO_MOVE: i16 = 18;

/// Slot of the fifty-move counter in a position.
pub const POSITION_RULE_50: i16 = 20;

/// Slot of the policy indices in a policy.
pub const POLICY_INDEX: i16 = 4;

/// Slot of the probabilities in a policy.
pub const POLICY_PROBABILITY: i16 = 6;

/// Slot of the position in a state.
pub const STATE_POSITION: i16 = 4;

/// Slot of the policy in a state.
pub const STATE_POLICY: i16 = 6;

/// Slot of the states in a game.
pub const GAME_STATES: i16 = 4;

/// Slot of the winner in a game.
pub const GAME_WINNER: i16 = 6;

/// The number under which a document names a kind of piece.
pub open spec fn piece_type_code(kind: PieceType) -> u8 {
    match kind {
        PieceType::Pawn => 0,
        PieceType::Knight => 1,
        PieceType::Bishop => 2,
        PieceType::Rook => 3,
        PieceType::Queen => 4,
        PieceType::King => 5,
    }
}

/// The number under which a document names a side.
pub open spec fn side_code(side: Side) -> u8 {
    match side {
        Side::White => 0,
        Side::Black => 1,
    }
}

/// The number under which a document names a winner.
pub open spec fn winner_code(winner: Winner) -> u8 {
    match winner {
        Winner::White => 0,
        Winner::Black => 1,
        Winner::Draw => 2,
    }
}

/// The 32 bits under which a document holds a probability: those of the
/// single-precision number 1 for 1, and those of 0 for anything else.
pub open spec fn probability_bits(probability: u8) -> u32 {
    if probability == 1 {
        ONE_BITS
    } else {
        0
    }
}

/// The numbers of a sequence of kinds of pieces.
pub open spec fn type_codes(kinds: Seq<PieceType>) -> Seq<u8> {
    kinds.map_values(|kind: PieceType| piece_type_code(kind))
}

/// The bits of a sequence of probabilities.
pub open spec fn bits_of(probabilities: Seq<u8>) -> Seq<u32> {
    probabilities.map_values(|probability: u8| probability_bits(probability))
}

/// The byte of a flag: 1 if it is set, 0 if not.
pub open spec fn flag_code(flag: bool) -> u8 {
    if flag {
        1
    } else {
        0
    }
}

/// Gives the numbers of a sequence of kinds of pieces.
pub fn piece_type_codes(kinds: &[PieceType]) -> (codes: Vec<u8>)
    ensures
        codes@ == type_codes(kinds@),
{
    let mut codes: Vec<u8> = Vec::new();
    let mut i: usize = 0;
    while i < kinds.len()
        invariant
            i <= kinds.len(),
            codes@ == type_codes(kinds@.take(i as int)),
        decreases kinds.len() - i,
    {
        let code: u8 = match kinds[i] {
            PieceType::Pawn => 0,
            PieceType::Knight => 1,
            PieceType::Bishop => 2,
            PieceType::Rook => 3,
            PieceType::Queen => 4,
            PieceType::King => 5,
        };
        codes.push(code);
        i += 1;
    }
    codes
}

/// Gives the bits of a sequence of probabilities.
pub fn probabilities_bits(probabilities: &[u8]) -> (bits: Vec<u32>)
    ensures
        bits@ == bits_of(probabilities@),
{
    let mut bits: Vec<u32> = Vec::new();
    let mut i: usize = 0;
    while i < probabilities.len()
        invariant
            i <= probabilities.len(),
            bits@ == bits_of(probabilities@.take(i as int)),
        decreases probabilities.len() - i,
    {
        let word: u32 = if probabilities[i] == 1 {
            ONE_BITS
        } else {
            0
        };
        bits.push(word);
        i += 1;
    }
    bits
}

/// The offset that a call hands out which, as the last of these calls,
/// writes a vector or begins a table: the number of bytes written after
/// them, where 32 bits hold it.
pub open spec fn end_of(told: Seq<Instruction>) -> u32 {
    layout(told).len() as u32
}

/// The calls that begin a table after the calls `before`.
pub open spec fn begun(before: Seq<Instruction>) -> Seq<Instruction> {
    before.push(Instruction::StartTable)
}

/// The calls `table`, which begin and fill a table after the calls
/// `before`, and the call that ends that table.
pub open spec fn ended(before: Seq<Instruction>, table: Seq<Instruction>) -> Seq<Instruction> {
    table.push(Instruction::EndTable { start: end_of(begun(before)) })
}

/// With one more reference field.
pub open spec fn with_offset(
    table: Seq<Instruction>,
    slot: i16,
    offset: u32,
) -> Seq<Instruction> {
    table.push(Instruction::OffsetField { slot, offset })
}

/// With one more byte field, whose default is 0.
pub open spec fn with_byte(table: Seq<Instruction>, slot: i16, value: u8) -> Seq<Instruction> {
    table.push(Instruction::ByteField { slot, value, default: 0 })
}

/// The calls `before`, then those that write the vector of kinds.
pub open spec fn told_types(before: Seq<Instruction>, pieces: PiecesView) -> Seq<Instruction> {
    before.push(Instruction::Bytes { bytes: type_codes(pieces.types) })
}

/// The calls `before`, then those that write both vectors of one side's
/// pieces.
pub open spec fn told_indices(before: Seq<Instruction>, pieces: PiecesView) -> Seq<Instruction> {
    told_types(before, pieces).push(Instruction::Bytes { bytes: pieces.indices })
}

/// The calls `before`, then those that write one side's pieces: the vector
/// of kinds, the vector of squares, and the table that refers to both.
pub open spec fn told_pieces(before: Seq<Instruction>, pieces: PiecesView) -> Seq<Instruction> {
    let vectors = told_indices(before, pieces);
    let fields = with_offset(
        with_offset(begun(vectors), PIECES_INDICES, end_of(vectors)),
        PIECES_TYPES,
        end_of(told_types(before, pieces)),
    );
    ended(vectors, fields)
}

/// The calls `before`, then those that write both sides' pieces.
pub open spec fn told_sides(before: Seq<Instruction>, position: PositionView) -> Seq<Instruction> {
    told_pieces(told_pieces(before, position.white), position.black)
}

/// The calls `before`, then those that write a position: both sides'
/// pieces, and the table that refers to them and holds flags and counters.
pub open spec fn told_position(
    before: Seq<Instruction>,
    position: PositionView,
) -> Seq<Instruction> {
    let sides = told_sides(before, position);
    let references = with_offset(
        with_offset(begun(sides), POSITION_BLACK, table_offset(sides)),
        POSITION_WHITE,
        table_offset(told_pieces(before, position.white)),
    );
    let counters = with_byte(
        with_byte(references, POSITION_RULE_50, position.rule_50),
        POSITION_SIDE_TO_MOVE,
        side_code(position.side_to_move),
    );
    let flags = with_byte(
        with_byte(
            with_byte(
                with_byte(counters, POSITION_THEM_OO, flag_code(position.them_oo)),
                POSITION_THEM_OOO,
                flag_code(position.them_ooo),
            ),
            POSITION_US_OO,
            flag_code(position.us_oo),
        ),
        POSITION_US_OOO,
        flag_code(position.us_ooo),
    );
    ended(sides, with_byte(flags, POSITION_REPETITIONS, position.repetitions))
}

/// The calls `before`, then those that write the vector of policy indices.
pub open spec fn told_index(before: Seq<Instruction>, policy: PolicyView) -> Seq<Instruction> {
    before.push(Instruction::Shorts { shorts: policy.index })
}

/// The calls `before`, then those that write both vectors of a policy.
pub open spec fn told_probability(
    before: Seq<Instruction>,
    policy: PolicyView,
) -> Seq<Instruction> {
    told_index(before, policy).push(Instruction::Words { words: bits_of(policy.probability) })
}

/// The calls `before`, then those that write a policy target: the vector of
/// indices, the vector of probabilities, and the table that refers to both.
pub open spec fn told_policy(before: Seq<Instruction>, policy: PolicyView) -> Seq<Instruction> {
    let vectors = told_probability(before, policy);
    let fields = with_offset(
        with_offset(begun(vectors), POLICY_PROBABILITY, end_of(vectors)),
        POLICY_INDEX,
        end_of(told_index(before, policy)),
    );
    ended(vectors, fields)
}

/// The calls `before`, then those that write the position and the policy of
/// a state.
pub open spec fn told_parts(before: Seq<Instruction>, state: StateView) -> Seq<Instruction> {
    told_policy(told_position(before, state.position), state.policy)
}

/// The calls `before`, then those that write a state: its position, its
/// policy, and the table that refers to both.
pub open spec fn told_state(before: Seq<Instruction>, state: StateView) -> Seq<Instruction> {
    let parts = told_parts(before, state);
    let fields = with_offset(
        with_offset(begun(parts), STATE_POLICY, table_offset(parts)),
        STATE_POSITION,
        table_offset(told_position(before, state.position)),
    );
    ended(parts, fields)
}

/// The calls `before`, then those that write the states, in order.
pub open spec fn told_states(
    before: Seq<Instruction>,
    states: Seq<StateView>,
) -> Seq<Instruction>
    decreases states.len(),
{
    if states.len() == 0 {
        before
    } else {
        told_state(told_states(before, states.drop_last()), states.last())
    }
}

/// The offsets of the states' tables, in order.
pub open spec fn state_tables(before: Seq<Instruction>, states: Seq<StateView>) -> Seq<u32>
    decreases states.len(),
{
    if states.len() == 0 {
        Seq::empty()
    } else {
        state_tables(before, states.drop_last()).push(table_offset(told_states(before, states)))
    }
}

/// The calls that write the states of a game and the vector that refers to
/// them.
pub open spec fn told_vector(game: GameView) -> Seq<Instruction> {
    told_states(Seq::empty(), game.states).push(
        Instruction::Tables { offsets: state_tables(Seq::empty(), game.states) },
    )
}

/// The calls that write the table of a game.
pub open spec fn told_root(game: GameView) -> Seq<Instruction> {
    let vector = told_vector(game);
    let fields = with_byte(
        with_offset(begun(vector), GAME_STATES, end_of(vector)),
        GAME_WINNER,
        winner_code(game.winner),
    );
    ended(vector, fields)
}

/// The calls that write a game as a document: its states in the order of
/// play, the vector of the states, the game's table, and the end of the
/// document with that table as its root.
pub open spec fn told_game(game: GameView) -> Seq<Instruction> {
    told_root(game).push(Instruction::Finish { root: table_offset(told_root(game)) })
}

/// The document of a game.
pub open spec fn document_of(game: GameView) -> Seq<u8> {
    layout(told_game(game))
}

/// A table may be begun after these calls: the document is below its limit.
pub open spec fn room(told: Seq<Instruction>) -> bool {
    layout(told).len() < DOCUMENT_LIMIT
}

/// Each table of one side's pieces can be begun below the limit.
pub open spec fn pieces_fit(before: Seq<Instruction>, pieces: PiecesView) -> bool {
    room(told_indices(before, pieces))
}

/// Each table of a position can be begun below the limit.
pub open spec fn position_fits(before: Seq<Instruction>, position: PositionView) -> bool {
    &&& pieces_fit(before, position.white)
    &&& pieces_fit(told_pieces(before, position.white), position.black)
    &&& room(told_sides(before, position))
}

/// The table of a policy can be begun below the limit.
pub open spec fn policy_fits(before: Seq<Instruction>, policy: PolicyView) -> bool {
    room(told_probability(before, policy))
}

/// Each table of a state can be begun below the limit.
pub open spec fn state_fits(before: Seq<Instruction>, state: StateView) -> bool {
    &&& position_fits(before, state.position)
    &&& policy_fits(told_position(before, state.position), state.policy)
    &&& room(told_parts(before, state))
}

/// Each table of each state can be begun below the limit.
pub open spec fn states_fit(before: Seq<Instruction>, states: Seq<StateView>) -> bool
    decreases states.len(),
{
    if states.len() == 0 {
        true
    } else {
        &&& states_fit(before, states.drop_last())
        &&& state_fits(told_states(before, states.drop_last()), states.last())
    }
}

/// Every table of a game can be begun below the limit.
pub open spec fn game_fits(game: GameView) -> bool {
    &&& states_fit(Seq::empty(), game.states)
    &&& room(told_vector(game))
}

/// The most that ending a table adds to a document: its head, padding, and
/// its list of slots.
pub open spec fn table_end_room() -> int {
    7 + LAST_SLOT + 2
}

/// The most that one side's pieces add to a document.
pub open spec fn pieces_room(pieces: PiecesView) -> int {
    (pieces.types.len() + 7) + (pieces.indices.len() + 7) + 7 + 7 + table_end_room()
}

/// The most that a position adds to a document.
pub open spec fn position_room(position: PositionView) -> int {
    pieces_room(position.white) + pieces_room(position.black) + 7 + 7 + 7 + table_end_room()
}

/// The most that a policy target adds to a document.
pub open spec fn policy_room(policy: PolicyView) -> int {
    (2 * policy.index.len() + 7) + (4 * policy.probability.len() + 7) + 7 + 7
        + table_end_room()
}

/// The most that a state adds to a document.
pub open spec fn state_room(state: StateView) -> int {
    position_room(state.position) + policy_room(state.policy) + 7 + 7 + table_end_room()
}

/// The most that the states add to a document.
pub open spec fn states_room(states: Seq<StateView>) -> int
    decreases states.len(),
{
    if states.len() == 0 {
        0
    } else {
        states_room(states.drop_last()) + state_room(states.last())
    }
}

/// The most that a game has added to a document when its last table is
/// begun: its states and the vector that refers to them. A game with less
/// than `DOCUMENT_LIMIT` of it has a document.
pub open spec fn game_room(game: GameView) -> int {
    states_room(game.states) + 4 * game.states.len() + 7
}

/// A byte for a flag: 1 if it is set.
fn flag_byte(flag: bool) -> (byte: u8)
    ensures
        byte == flag_code(flag),
{
    if flag {
        1
    } else {
        0
    }
}

/// What a function that writes a table leaves behind: on success the calls
/// `after` were made and the table's offset is the last one handed out; on
/// failure some table had no room. No more than `room` bytes were added, and
/// the function succeeds where even that many stay below the limit.
pub open spec fn table_written(
    old_builder: FlatBufferBuilder<'static>,
    new_builder: FlatBufferBuilder<'static>,
    table: Result<u32, Fault>,
    after: Seq<Instruction>,
    fits: bool,
    room: int,
) -> bool {
    &&& idle(new_builder)
    &&& size(old_builder) <= size(new_builder) <= size(old_builder) + room
    &&& size(old_builder) + room < DOCUMENT_LIMIT ==> table is Ok
    &&& match table {
        Ok(table) => {
            &&& fits
            &&& told(new_builder) == after
            &&& table == table_offset(after)
            &&& table <= size(new_builder)
        },
        Err(fault) => fault == Fault::DocumentTooLarge && !fits,
    }
}

/// Writes the table of one side's pieces: the vector of kinds, the vector of
/// squares, then the table that refers to both.
fn write_pieces(
    builder: &mut FlatBufferBuilder<'static>,
    pieces: &Pieces,
) -> (table: Result<u32, Fault>)
    requires
        idle(*old(builder)),
    ensures
        table_written(
            *old(builder),
            *final(builder),
            table,
            told_pieces(told(*old(builder)), pieces@),
            pieces_fit(told(*old(builder)), pieces@),
            pieces_room(pieces@),
        ),
{
    let codes = piece_type_codes(pieces.types.as_slice());
    let types = create_vector_u8(builder, codes.as_slice());
    let indices = create_vector_u8(builder, pieces.indices.as_slice());
    if written_len(builder) >= DOCUMENT_LIMIT {
        return Err(Fault::DocumentTooLarge);
    }
    let start = start_table(builder);
    push_slot_offset(builder, PIECES_INDICES, indices);
    push_slot_offset(builder, PIECES_TYPES, types);
    Ok(end_table(builder, start))
}

/// Writes the table of a position: the tables of both sides' pieces, then
/// the table that refers to them and holds the flags and counters.
fn write_position(
    builder: &mut FlatBufferBuilder<'static>,
    position: &Position,
) -> (table: Result<u32, Fault>)
    requires
        idle(*old(builder)),
    ensures
        table_written(
            *old(builder),
            *final(builder),
            table,
            told_position(told(*old(builder)), position@),
            position_fits(told(*old(builder)), position@),
            position_room(position@),
        ),
{
    let white = match write_pieces(builder, &position.white) {
        Ok(table) => table,
        Err(fault) => {
            return Err(fault);
        },
    };
    let black = match write_pieces(builder, &position.black) {
        Ok(table) => table,
        Err(fault) => {
            return Err(fault);
        },
    };
    if written_len(builder) >= DOCUMENT_LIMIT {
        return Err(Fault::DocumentTooLarge);
    }
    let side: u8 = match position.side_to_move {
        Side::White => 0,
        Side::Black => 1,
    };
    let start = start_table(builder);
    push_slot_offset(builder, POSITION_BLACK, black);
    push_slot_offset(builder, POSITION_WHITE, white);
    push_slot_u8(builder, POSITION_RULE_50, position.rule_50, 0);
    push_slot_u8(builder, POSITION_SIDE_TO_MOVE, side, 0);
    push_slot_u8(builder, POSITION_THEM_OO, flag_byte(position.them_oo), 0);
    push_slot_u8(builder, POSITION_THEM_OOO, flag_byte(position.them_ooo), 0);
    push_slot_u8(builder, POSITION_US_OO, flag_byte(position.us_oo), 0);
    push_slot_u8(builder, POSITION_US_OOO, flag_byte(position.us_ooo), 0);
    push_slot_u8(builder, POSITION_REPETITIONS, position.repetitions, 0);
    Ok(end_table(builder, start))
}

/// Writes the table of a policy target: the vector of indices, the vector
/// of probabilities as single-precision numbers, then the table that refers
/// to both.
fn write_policy(
    builder: &mut FlatBufferBuilder<'static>,
    policy: &Policy,
) -> (table: Result<u32, Fault>)
    requires
        idle(*old(builder)),
    ensures
        table_written(
            *old(builder),
            *final(builder),
            table,
            told_policy(told(*old(builder)), policy@),
            policy_fits(told(*old(builder)), policy@),
            policy_room(policy@),
        ),
{
    let index = create_vector_u16(builder, policy.index.as_slice());
    let bits = probabilities_bits(policy.probability.as_slice());
    let probability = create_vector_u32(builder, bits.as_slice());
    if written_len(builder) >= DOCUMENT_LIMIT {
        return Err(Fault::DocumentTooLarge);
    }
    let start = start_table(builder);
    push_slot_offset(builder, POLICY_PROBABILITY, probability);
    push_slot_offset(builder, POLICY_INDEX, index);
    Ok(end_table(builder, start))
}

/// Writes the table of a state: the tables of its position and its policy,
/// then the table that refers to both.
fn write_state(
    builder: &mut FlatBufferBuilder<'static>,
    state: &State,
) -> (table: Result<u32, Fault>)
    requires
        idle(*old(builder)),
    ensures
        table_written(
            *old(builder),
            *final(builder),
            table,
            told_state(told(*old(builder)), state@),
            state_fits(told(*old(builder)), state@),
            state_room(state@),
        ),
{
    let position = match write_position(builder, &state.position) {
        Ok(table) => table,
        Err(fault) => {
            return Err(fault);
        },
    };
    let policy = match write_policy(builder, &state.policy) {
        Ok(table) => table,
        Err(fault) => {
            return Err(fault);
        },
    };
    if written_len(builder) >= DOCUMENT_LIMIT {
        return Err(Fault::DocumentTooLarge);
    }
    let start = start_table(builder);
    push_slot_offset(builder, STATE_POLICY, policy);
    push_slot_offset(builder, STATE_POSITION, position);
    Ok(end_table(builder, start))
}

/// If the tables of some states fit, so do those of the first `n` of them.
pub proof fn lemma_states_fit_prefix(before: Seq<Instruction>, states: Seq<StateView>, n: int)
    requires
        states_fit(before, states),
        0 <= n <= states.len(),
    ensures
        states_fit(before, states.take(n)),
    decreases states.len(),
{
    if n == states.len() {
        assert(states.take(n) =~= states);
    } else {
        lemma_states_fit_prefix(before, states.drop_last(), n);
        assert(states.drop_last().take(n) =~= states.take(n));
    }
}

/// The states of a prefix add no more than all of them.
pub proof fn lemma_states_room_prefix(states: Seq<StateView>, n: int)
    requires
        0 <= n <= states.len(),
    ensures
        0 <= states_room(states.take(n)) <= states_room(states),
    decreases states.len(),
{
    if n == states.len() {
        assert(states.take(n) =~= states);
        if n > 0 {
            lemma_states_room_prefix(states.drop_last(), n - 1);
        }
    } else {
        lemma_states_room_prefix(states.drop_last(), n);
        assert(states.drop_last().take(n) =~= states.take(n));
    }
}

/// Lays a game out as a document: every state's tables in the order of
/// play, the vector of the states, and the game's table as the root.
///
/// Fails exactly if a table would be begun at or past `DOCUMENT_LIMIT`,
/// and never for a game whose `game_room` is below that limit.
pub fn encode_game(game: &Game) -> (document: Result<Vec<u8>, Fault>)
    ensures
        match document {
            Ok(bytes) => game_fits(game@) && bytes@ == document_of(game@),
            Err(fault) => fault == Fault::DocumentTooLarge && !game_fits(game@),
        },
        game_room(game@) < DOCUMENT_LIMIT ==> document is Ok,
{
    let ghost states = game@.states;
    let ghost nothing = Seq::<Instruction>::empty();
    let mut builder = new_builder();
    let mut tables: Vec<u32> = Vec::new();
    let mut i: usize = 0;
    while i < game.states.len()
        invariant
            i <= game.states.len(),
            states == game@.states,
            nothing == Seq::<Instruction>::empty(),
            idle(builder),
            told(builder) == told_states(nothing, states.take(i as int)),
            tables@ == state_tables(nothing, states.take(i as int)),
            tables.len() == i,
            states_fit(nothing, states.take(i as int)),
            size(builder) <= states_room(states.take(i as int)),
            forall|j: int| 0 <= j < tables.len() ==> #[trigger] tables[j] <= size(builder),
        decreases game.states.len() - i,
    {
        proof {
            assert(states.take(i + 1).drop_last() =~= states.take(i as int));
        }
        let table = match write_state(&mut builder, &game.states[i]) {
            Ok(table) => table,
            Err(fault) => {
                proof {
                    if states_fit(nothing, states) {
                        lemma_states_fit_prefix(nothing, states, i + 1);
                    }
                    lemma_states_room_prefix(states, i + 1);
                }
                return Err(fault);
            },
        };
        tables.push(table);
        i += 1;
    }
    assert(states.take(i as int) =~= states);
    let vector = create_vector_of_tables(&mut builder, tables.as_slice());
    if written_len(&builder) >= DOCUMENT_LIMIT {
        return Err(Fault::DocumentTooLarge);
    }
    let winner: u8 = match game.winner {
        Winner::White => 0,
        Winner::Black => 1,
        Winner::Draw => 2,
    };
    let start = start_table(&mut builder);
    push_slot_offset(&mut builder, GAME_STATES, vector);
    push_slot_u8(&mut builder, GAME_WINNER, winner, 0);
    let root = end_table(&mut builder, start);
    finish_minimal(&mut builder, root);
    Ok(finished_data(&builder))
}

/// What compressing a document comes to, given what the compressor handed
/// back: its stream, or a fault if it handed back none.
pub fn compressed(stream: Option<Vec<u8>>) -> (data: Result<Vec<u8>, Fault>)
    ensures
        data == match stream {
            Some(bytes) => Ok::<Vec<u8>, Fault>(bytes),
            None => Err::<Vec<u8>, Fault>(Fault::Compression),
        },
{
    match stream {
        Some(bytes) => Ok(bytes),
        None => Err(Fault::Compression),
    }
}

/// Compresses a document into the gzip stream that is written to the game's
/// file.
pub fn compress(document: &[u8]) -> (data: Result<Vec<u8>, Fault>)
    ensures
        match data {
            Ok(bytes) => gzip_of(document@) == Some(bytes@),
            Err(fault) => fault == Fault::Compression && gzip_of(document@) is None,
        },
{
    compressed(gzip(document))
}

} // verus!
