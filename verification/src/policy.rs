//! The policy encoder: from the legal moves of a position and the move
//! played to the policy target, one index and one probability for each
//! legal move.

use vstd::prelude::*;
use crate::fault::Fault;
use crate::moves::{
    lemma_packed_code_injective, move_to_packed_int, promotion_class, Move, PACKED_CODES,
};
use crate::record::{Policy, PolicyView};
use crate::notation::notation_code;
use crate::table::{is_listed, lemma_table_entry_is_last, MoveTable};

verus! {

/// Every move has a packed code.
pub open spec fn all_packable(moves: Seq<Move>) -> bool {
    forall|i: int| 0 <= i < moves.len() ==> (#[trigger] moves[i]).packable()
}

/// The list names the packed code of every move.
pub open spec fn all_listed(moves: Seq<Move>, texts: Seq<Seq<u8>>) -> bool {
    forall|i: int|
        0 <= i < moves.len() ==> is_listed(texts, (#[trigger] moves[i]).packed_code())
}

/// Some legal move has the packed code of the move played.
pub open spec fn names_played(legal: Seq<Move>, played: Move) -> bool {
    exists|i: int|
        0 <= i < legal.len() && (#[trigger] legal[i]).packed_code() == played.packed_code()
}

/// No two of the moves share a packed code.
pub open spec fn distinct_packed_codes(moves: Seq<Move>) -> bool {
    forall|i: int, j: int|
        0 <= i < moves.len() && 0 <= j < moves.len() && i != j ==> (#[trigger] moves[i]).packed_code()
            != (#[trigger] moves[j]).packed_code()
}

/// No two of the moves agree on origin, destination and promotion class.
pub open spec fn distinct_moves(moves: Seq<Move>) -> bool {
    forall|i: int, j: int|
        0 <= i < moves.len() && 0 <= j < moves.len() && i != j ==> {
            ||| (#[trigger] moves[i]).from != (#[trigger] moves[j]).from
            ||| moves[i].to != moves[j].to
            ||| promotion_class(moves[i].promotion) != promotion_class(moves[j].promotion)
        }
}

/// The policy index of each legal move: the table entry at its packed code.
pub open spec fn policy_index(legal: Seq<Move>, table: Seq<u16>) -> Seq<u16> {
    Seq::new(legal.len(), |i: int| table[legal[i].packed_code()])
}

/// The probability of each legal move: 1 where its packed code is that of
/// the move played, 0 elsewhere.
pub open spec fn policy_probability(legal: Seq<Move>, played: Move) -> Seq<u8> {
    Seq::new(
        legal.len(),
        |i: int|
            if legal[i].packed_code() == played.packed_code() {
                1u8
            } else {
                0u8
            },
    )
}

/// The policy target of a position with these legal moves in which `played`
/// was played.
pub open spec fn policy_target(legal: Seq<Move>, played: Move, table: Seq<u16>) -> PolicyView {
    PolicyView { index: policy_index(legal, table), probability: policy_probability(legal, played) }
}

/// The sum of the probabilities.
pub open spec fn total(probability: Seq<u8>) -> int
    decreases probability.len(),
{
    if probability.len() == 0 {
        0
    } else {
        total(probability.drop_last()) + probability.last()
    }
}

/// The probability at `k` is 1 and every other is 0.
pub open spec fn one_hot_at(probability: Seq<u8>, k: int) -> bool {
    &&& 0 <= k < probability.len()
    &&& probability[k] == 1
    &&& forall|j: int| 0 <= j < probability.len() && j != k ==> #[trigger] probability[j] == 0
}

/// Tells whether every move has a packed code.
pub fn all_moves_packable(moves: &[Move]) -> (packable: bool)
    ensures
        packable == all_packable(moves@),
{
    let mut i: usize = 0;
    while i < moves.len()
        invariant
            i <= moves.len(),
            forall|j: int| 0 <= j < i ==> (#[trigger] moves@[j]).packable(),
        decreases moves.len() - i,
    {
        if !moves[i].is_packable() {
            return false;
        }
        i += 1;
    }
    true
}

/// Tells whether the list of a move table names the code of every move.
pub fn all_moves_listed(moves: &[Move], table: &MoveTable) -> (listed: bool)
    requires
        table.wf(),
        all_packable(moves@),
    ensures
        listed == all_listed(moves@, table.listing()),
{
    let mut i: usize = 0;
    while i < moves.len()
        invariant
            i <= moves.len(),
            table.wf(),
            all_packable(moves@),
            forall|j: int|
                0 <= j < i ==> is_listed(table.listing(), (#[trigger] moves@[j]).packed_code()),
        decreases moves.len() - i,
    {
        if !table.is_listed(move_to_packed_int(&moves[i])) {
            return false;
        }
        i += 1;
    }
    true
}

/// Tells whether no two of the moves share a packed code.
pub fn codes_distinct(moves: &[Move]) -> (distinct: bool)
    requires
        all_packable(moves@),
    ensures
        distinct == distinct_packed_codes(moves@),
{
    let mut i: usize = 0;
    while i < moves.len()
        invariant
            i <= moves.len(),
            all_packable(moves@),
            forall|a: int, b: int|
                0 <= a < i && 0 <= b < a ==> (#[trigger] moves@[a]).packed_code()
                    != (#[trigger] moves@[b]).packed_code(),
        decreases moves.len() - i,
    {
        let code = move_to_packed_int(&moves[i]);
        let mut j: usize = 0;
        while j < i
            invariant
                j <= i < moves.len(),
                all_packable(moves@),
                code == moves@[i as int].packed_code(),
                forall|b: int| 0 <= b < j ==> (#[trigger] moves@[b]).packed_code() != code,
            decreases i - j,
        {
            if move_to_packed_int(&moves[j]) == code {
                return false;
            }
            j += 1;
        }
        i += 1;
    }
    assert forall|a: int, b: int|
        0 <= a < moves.len() && 0 <= b < moves.len() && a != b implies (#[trigger] moves@[a]).packed_code()
        != (#[trigger] moves@[b]).packed_code() by {
        if a < b {
            assert(moves@[b].packed_code() != moves@[a].packed_code());
        }
    }
    true
}

/// Builds the policy target. Fails if a legal move or the move played has no
/// packed code, if the list of the move table does not name the code of a
/// legal move, and if no legal move has the code of the move played.
pub fn encode_policy(
    legal: &[Move],
    played: &Move,
    table: &MoveTable,
) -> (target: Result<Policy, Fault>)
    requires
        table.wf(),
    ensures
        match target {
            Ok(policy) => {
                &&& all_packable(legal@)
                &&& played.packable()
                &&& all_listed(legal@, table.listing())
                &&& names_played(legal@, *played)
                &&& policy@ == policy_target(legal@, *played, table.slots())
            },
            Err(Fault::UnencodableMove) => !all_packable(legal@) || !played.packable(),
            Err(Fault::UnlistedMove) => {
                &&& all_packable(legal@)
                &&& played.packable()
                &&& !all_listed(legal@, table.listing())
            },
            Err(Fault::MoveNotLegal) => {
                &&& all_packable(legal@)
                &&& played.packable()
                &&& all_listed(legal@, table.listing())
                &&& !names_played(legal@, *played)
            },
            Err(_) => false,
        },
{
    if !played.is_packable() || !all_moves_packable(legal) {
        return Err(Fault::UnencodableMove);
    }
    if !all_moves_listed(legal, table) {
        return Err(Fault::UnlistedMove);
    }
    let played_code = move_to_packed_int(played);
    let slots = table.as_slice();
    let mut index: Vec<u16> = Vec::new();
    let mut probability: Vec<u8> = Vec::new();
    let mut found = false;
    let mut i: usize = 0;
    while i < legal.len()
        invariant
            i <= legal.len(),
            slots@ == table.slots(),
            slots.len() == PACKED_CODES,
            played.packable(),
            played_code == played.packed_code(),
            all_packable(legal@),
            index@ == policy_index(legal@.take(i as int), slots@),
            probability@ == policy_probability(legal@.take(i as int), *played),
            found == names_played(legal@.take(i as int), *played),
        decreases legal.len() - i,
    {
        let code = move_to_packed_int(&legal[i]);
        index.push(slots[code as usize]);
        let hit = code == played_code;
        probability.push(
            if hit {
                1
            } else {
                0
            },
        );
        proof {
            if hit {
                assert(legal@.take(i + 1)[i as int].packed_code() == played.packed_code());
            }
        }
        found = found || hit;
        i += 1;
    }
    assert(legal@.take(i as int) =~= legal@);
    if found {
        Ok(Policy { index, probability })
    } else {
        Err(Fault::MoveNotLegal)
    }
}

/// A policy target has one index and one probability for each legal move,
/// and every probability is 0 or 1.
pub proof fn lemma_policy_target_wf(legal: Seq<Move>, played: Move, table: Seq<u16>)
    ensures
        policy_target(legal, played, table).wf(),
        policy_target(legal, played, table).index.len() == legal.len(),
        policy_target(legal, played, table).probability.len() == legal.len(),
{
}

/// Probabilities that are all 0 sum to 0.
pub proof fn lemma_total_of_zeros(probability: Seq<u8>)
    requires
        forall|j: int| 0 <= j < probability.len() ==> #[trigger] probability[j] == 0,
    ensures
        total(probability) == 0,
    decreases probability.len(),
{
    if probability.len() > 0 {
        lemma_total_of_zeros(probability.drop_last());
    }
}

/// Probabilities of which one is 1 and the others are 0 sum to 1.
pub proof fn lemma_total_of_one_hot(probability: Seq<u8>, k: int)
    requires
        one_hot_at(probability, k),
    ensures
        total(probability) == 1,
    decreases probability.len(),
{
    let front = probability.drop_last();
    if k == probability.len() - 1 {
        lemma_total_of_zeros(front);
    } else {
        lemma_total_of_one_hot(front, k);
    }
}

/// Moves that differ in origin, destination or promotion class have
/// different packed codes.
pub proof fn lemma_distinct_moves_have_distinct_codes(moves: Seq<Move>)
    requires
        all_packable(moves),
        distinct_moves(moves),
    ensures
        distinct_packed_codes(moves),
{
    assert forall|i: int, j: int|
        0 <= i < moves.len() && 0 <= j < moves.len() && i != j implies (#[trigger] moves[i]).packed_code()
        != (#[trigger] moves[j]).packed_code() by {
        lemma_packed_code_injective(moves[i], moves[j]);
    }
}

/// Where no two legal moves share a packed code and the move played is one
/// of them, the policy target is one-hot: its probabilities sum to 1, and
/// exactly one of them is 1, the one of the legal move with the code of the
/// move played.
pub proof fn lemma_policy_is_one_hot(legal: Seq<Move>, played: Move, table: Seq<u16>)
    requires
        all_packable(legal),
        played.packable(),
        distinct_packed_codes(legal),
        names_played(legal, played),
    ensures
        policy_target(legal, played, table).index.len() == policy_target(
            legal,
            played,
            table,
        ).probability.len(),
        total(policy_target(legal, played, table).probability) == 1,
        exists|k: int|
            #![trigger legal[k]]
            one_hot_at(policy_target(legal, played, table).probability, k)
                && legal[k].packed_code() == played.packed_code(),
{
    let probability = policy_probability(legal, played);
    let k = choose|k: int|
        0 <= k < legal.len() && (#[trigger] legal[k]).packed_code() == played.packed_code();
    lemma_total_of_one_hot(probability, k);
}

/// Every index of a policy target is the position at which the list of the
/// move table names the packed code of its legal move.
pub proof fn lemma_policy_indices_name_moves(legal: Seq<Move>, table: MoveTable)
    requires
        table.wf(),
        all_packable(legal),
        all_listed(legal, table.listing()),
    ensures
        forall|i: int|
            0 <= i < legal.len() ==> {
                &&& (#[trigger] policy_index(legal, table.slots())[i]) < table.listing().len()
                &&& notation_code(table.listing()[policy_index(legal, table.slots())[i] as int])
                    == legal[i].packed_code()
            },
{
    assert forall|i: int| 0 <= i < legal.len() implies {
        &&& (#[trigger] policy_index(legal, table.slots())[i]) < table.listing().len()
        &&& notation_code(table.listing()[policy_index(legal, table.slots())[i] as int])
            == legal[i].packed_code()
    } by {
        assert(legal[i].packable());
        lemma_table_entry_is_last(table.listing(), legal[i].packed_code());
    }
}

/// Where no two legal moves share a packed code, no two indices of the
/// policy target are the same.
pub proof fn lemma_policy_indices_distinct(legal: Seq<Move>, table: MoveTable)
    requires
        table.wf(),
        all_packable(legal),
        all_listed(legal, table.listing()),
        distinct_packed_codes(legal),
    ensures
        forall|i: int, j: int|
            0 <= i < legal.len() && 0 <= j < legal.len() && i != j ==> (#[trigger] policy_index(
                legal,
                table.slots(),
            )[i]) != (#[trigger] policy_index(legal, table.slots())[j]),
{
    lemma_policy_indices_name_moves(legal, table);
}

} // verus!
