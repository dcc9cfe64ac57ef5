//! The table from packed move codes to policy indices.
//!
//! An action-space list names one move per entry; the position of an entry
//! is the policy index of its move. The table holds, for every packed code,
//! the position of the last entry of the list with that code, and 0 for a
//! code that no entry has. Index 0 is thus both the first entry's index and
//! the answer for an absent code. A `MoveTable` tells the two apart: beside
//! the table it keeps the code of the first entry, so that a code is listed
//! exactly if its table entry is not 0 or it is the first entry's code. A
//! `MoveTable` is made only of a list that names no code twice; looking a
//! listed code up in it gives the one position at which the list names it.

use vstd::prelude::*;
use vstd::set_lib::{lemma_int_range, lemma_map_size, set_int_range};
use vstd::string::StringSliceAdditionalSpecFns;
use crate::moves::{move_to_packed_int, try_pack, Move, PACKED_CODES};
use crate::notation::{
    canonical_notation, lemma_canonical_notation_names_move, lemma_notation_move_packable,
    notation_code, notation_move, parse_notation,
};

verus! {

/// The largest number of entries whose positions fit a policy index.
pub const MAX_POLICY_SIZE: usize = 65536;

/// The bytes of every entry of a list.
pub open spec fn notation_texts(notations: Seq<&str>) -> Seq<Seq<u8>> {
    Seq::new(notations.len(), |i: int| notations[i].spec_bytes())
}

/// Every entry is a well-formed notation.
pub open spec fn well_formed_list(texts: Seq<Seq<u8>>) -> bool {
    forall|i: int| 0 <= i < texts.len() ==> notation_move(#[trigger] texts[i]) is Some
}

/// No two entries have the same packed code.
pub open spec fn distinct_codes(texts: Seq<Seq<u8>>) -> bool {
    forall|i: int, j: int|
        0 <= i < texts.len() && 0 <= j < texts.len() && i != j ==> notation_code(
            #[trigger] texts[i],
        ) != notation_code(#[trigger] texts[j])
}

/// The table entry for `code` after the entries of `texts` were written in
/// order: the position of the last entry with that code, and 0 if there is
/// none.
pub open spec fn table_entry(texts: Seq<Seq<u8>>, code: int) -> int
    decreases texts.len(),
{
    if texts.len() == 0 {
        0
    } else if notation_code(texts.last()) == code {
        texts.len() - 1
    } else {
        table_entry(texts.drop_last(), code)
    }
}

/// Some entry of the list has the packed code `code`.
pub open spec fn is_listed(texts: Seq<Seq<u8>>, code: int) -> bool {
    exists|i: int| 0 <= i < texts.len() && notation_code(#[trigger] texts[i]) == code
}

/// The packed code of the first entry of a list, if it has one.
pub open spec fn first_code(texts: Seq<Seq<u8>>) -> Option<u16> {
    if texts.len() == 0 {
        None
    } else {
        Some(notation_code(texts[0]) as u16)
    }
}

/// `table` is the move table of the list `texts`.
pub open spec fn is_move_table(table: Seq<u16>, texts: Seq<Seq<u8>>) -> bool {
    &&& table.len() == PACKED_CODES
    &&& forall|code: int|
        0 <= code < PACKED_CODES ==> #[trigger] table[code] == table_entry(texts, code)
}

/// Tells whether every entry of a list is a well-formed notation.
pub fn is_well_formed_list(notations: &[&str]) -> (ok: bool)
    ensures
        ok == well_formed_list(notation_texts(notations@)),
{
    let ghost texts = notation_texts(notations@);
    let mut i: usize = 0;
    while i < notations.len()
        invariant
            i <= notations.len(),
            texts == notation_texts(notations@),
            forall|j: int| 0 <= j < i ==> notation_move(#[trigger] texts[j]) is Some,
        decreases notations.len() - i,
    {
        if parse_notation(notations[i].as_bytes()).is_none() {
            assert(notation_move(texts[i as int]) is None);
            return false;
        }
        i += 1;
    }
    true
}

/// Builds the move table of an action-space list.
pub fn build_move_table(notations: &[&str]) -> (table: Vec<u16>)
    requires
        notations.len() <= MAX_POLICY_SIZE,
        well_formed_list(notation_texts(notations@)),
    ensures
        is_move_table(table@, notation_texts(notations@)),
        forall|code: int|
            0 <= code < PACKED_CODES ==> #[trigger] table[code] == 0 || table[code]
                < notations.len(),
{
    let ghost texts = notation_texts(notations@);
    let mut table: Vec<u16> = Vec::new();
    let mut k: usize = 0;
    while k < PACKED_CODES
        invariant
            k <= PACKED_CODES,
            table.len() == k,
            forall|code: int| 0 <= code < k ==> #[trigger] table[code] == 0,
        decreases PACKED_CODES - k,
    {
        table.push(0);
        k += 1;
    }
    let mut i: usize = 0;
    while i < notations.len()
        invariant
            i <= notations.len(),
            notations.len() <= MAX_POLICY_SIZE,
            texts == notation_texts(notations@),
            well_formed_list(texts),
            table.len() == PACKED_CODES,
            forall|code: int|
                0 <= code < PACKED_CODES ==> #[trigger] table[code] == table_entry(
                    texts.take(i as int),
                    code,
                ),
        decreases notations.len() - i,
    {
        let named = parse_notation(notations[i].as_bytes());
        assert(notation_move(texts[i as int]) is Some);
        let m = named.unwrap();
        let code = move_to_packed_int(&m);
        proof {
            assert(texts.take(i + 1).drop_last() =~= texts.take(i as int));
        }
        table.set(code as usize, i as u16);
        i += 1;
    }
    assert(texts.take(i as int) =~= texts);
    assert forall|code: int| 0 <= code < PACKED_CODES implies #[trigger] table[code] == 0
        || table[code] < notations.len() by {
        lemma_table_entry_is_last(texts, code);
    }
    table
}

/// The policy index of a move: the table entry at the move's packed code.
pub fn move_to_nn_index(m: &Move, table: &[u16]) -> (index: u16)
    requires
        m.packable(),
        m.packed_code() < table@.len(),
    ensures
        index == table@[m.packed_code()],
{
    let code = move_to_packed_int(m);
    table[code as usize]
}

/// Tells whether a well-formed list names no packed code twice.
pub fn names_each_code_once(notations: &[&str]) -> (once: bool)
    requires
        notations.len() <= MAX_POLICY_SIZE,
        well_formed_list(notation_texts(notations@)),
    ensures
        once == distinct_codes(notation_texts(notations@)),
{
    let ghost texts = notation_texts(notations@);
    let table = build_move_table(notations);
    let mut i: usize = 0;
    while i < notations.len()
        invariant
            i <= notations.len(),
            notations.len() <= MAX_POLICY_SIZE,
            texts == notation_texts(notations@),
            well_formed_list(texts),
            is_move_table(table@, texts),
            forall|j: int| 0 <= j < i ==> table_entry(texts, notation_code(#[trigger] texts[j])) == j,
        decreases notations.len() - i,
    {
        let named = parse_notation(notations[i].as_bytes());
        assert(notation_move(texts[i as int]) is Some);
        let code = move_to_packed_int(&named.unwrap());
        if table[code as usize] != i as u16 {
            proof {
                if distinct_codes(texts) {
                    lemma_table_entry_of_listed(texts, i as int);
                }
            }
            return false;
        }
        i += 1;
    }
    assert forall|a: int, b: int|
        0 <= a < texts.len() && 0 <= b < texts.len() && a != b implies notation_code(
        #[trigger] texts[a],
    ) != notation_code(#[trigger] texts[b]) by {
        assert(table_entry(texts, notation_code(texts[a])) == a);
        assert(table_entry(texts, notation_code(texts[b])) == b);
    }
    true
}

/// The move table of an action-space list that names no packed code twice,
/// with what tells a listed code from an absent one.
pub struct MoveTable {
    slots: Vec<u16>,
    first: Option<u16>,
    texts: Ghost<Seq<Seq<u8>>>,
}

impl MoveTable {
    /// The list that the table was made of.
    pub closed spec fn listing(&self) -> Seq<Seq<u8>> {
        self.texts@
    }

    /// The table: for every packed code a policy index.
    pub closed spec fn slots(&self) -> Seq<u16> {
        self.slots@
    }

    /// The packed code of the list's first entry, if it has one.
    pub closed spec fn first(&self) -> Option<u16> {
        self.first
    }

    /// The table is the move table of its list, and the list is well formed,
    /// names no code twice and is no longer than policy indices reach.
    pub open spec fn wf(&self) -> bool {
        &&& is_move_table(self.slots(), self.listing())
        &&& well_formed_list(self.listing())
        &&& distinct_codes(self.listing())
        &&& self.listing().len() <= MAX_POLICY_SIZE
        &&& self.first() == first_code(self.listing())
    }

    /// Builds the move table of a list. Every listed code is then found at
    /// the position of its entry.
    pub fn new(notations: &[&str]) -> (table: MoveTable)
        requires
            notations.len() <= MAX_POLICY_SIZE,
            well_formed_list(notation_texts(notations@)),
            distinct_codes(notation_texts(notations@)),
        ensures
            table.wf(),
            table.listing() == notation_texts(notations@),
            forall|i: int|
                0 <= i < notations.len() ==> table.slots()[notation_code(
                    #[trigger] table.listing()[i],
                )] == i,
    {
        let ghost texts = notation_texts(notations@);
        let slots = build_move_table(notations);
        let first = if notations.len() == 0 {
            None
        } else {
            let named = parse_notation(notations[0].as_bytes());
            assert(notation_move(texts[0]) is Some);
            Some(move_to_packed_int(&named.unwrap()))
        };
        proof {
            assert forall|i: int| 0 <= i < texts.len() implies slots@[notation_code(
                #[trigger] texts[i],
            )] == i by {
                lemma_notation_move_packable(texts[i]);
                lemma_table_entry_of_listed(texts, i);
            }
        }
        MoveTable { slots, first, texts: Ghost(texts) }
    }

    /// The table as a slice, one policy index for every packed code.
    pub fn as_slice(&self) -> (slots: &[u16])
        ensures
            slots@ == self.slots(),
    {
        self.slots.as_slice()
    }

    /// Tells whether the list names a packed code.
    pub fn is_listed(&self, code: u16) -> (listed: bool)
        requires
            self.wf(),
            code < PACKED_CODES,
        ensures
            listed == is_listed(self.listing(), code as int),
    {
        proof {
            lemma_table_entry_is_last(self.listing(), code as int);
            if self.listing().len() > 0 {
                lemma_notation_move_packable(self.listing()[0]);
            }
        }
        self.slots[code as usize] != 0 || self.first == Some(code)
    }

    /// The policy index of a move: the position at which the list names the
    /// move's packed code, or none if the move has no code or the list does
    /// not name it.
    pub fn index_of(&self, m: &Move) -> (index: Option<u16>)
        requires
            self.wf(),
        ensures
            match index {
                Some(index) => {
                    &&& m.packable()
                    &&& index < self.listing().len()
                    &&& notation_code(self.listing()[index as int]) == m.packed_code()
                    &&& index == self.slots()[m.packed_code()]
                },
                None => !m.packable() || !is_listed(self.listing(), m.packed_code()),
            },
    {
        match try_pack(m) {
            Some(code) => {
                if self.is_listed(code) {
                    proof {
                        lemma_table_entry_is_last(self.listing(), code as int);
                    }
                    Some(self.slots[code as usize])
                } else {
                    None
                }
            },
            None => None,
        }
    }
}

/// A table entry is 0 or the position of an entry of the list with that
/// code, and no later entry has the code.
pub proof fn lemma_table_entry_is_last(texts: Seq<Seq<u8>>, code: int)
    ensures
        0 <= table_entry(texts, code),
        table_entry(texts, code) < texts.len() || texts.len() == 0,
        forall|j: int|
            table_entry(texts, code) < j < texts.len() ==> notation_code(#[trigger] texts[j])
                != code,
        (exists|j: int| 0 <= j < texts.len() && notation_code(#[trigger] texts[j]) == code)
            ==> notation_code(texts[table_entry(texts, code)]) == code,
        (forall|j: int| 0 <= j < texts.len() ==> notation_code(#[trigger] texts[j]) != code)
            ==> table_entry(texts, code) == 0,
    decreases texts.len(),
{
    if texts.len() > 0 && notation_code(texts.last()) != code {
        let front = texts.drop_last();
        lemma_table_entry_is_last(front, code);
        assert forall|j: int| table_entry(texts, code) < j < texts.len() implies notation_code(
            #[trigger] texts[j],
        ) != code by {
            if j < front.len() {
                assert(front[j] == texts[j]);
            }
        }
    }
}

/// In a list without repeated codes the table entry at an entry's code is
/// that entry's position.
pub proof fn lemma_table_entry_of_listed(texts: Seq<Seq<u8>>, i: int)
    requires
        distinct_codes(texts),
        0 <= i < texts.len(),
    ensures
        table_entry(texts, notation_code(texts[i])) == i,
{
    lemma_table_entry_is_last(texts, notation_code(texts[i]));
}

/// Looking a move up in the table of a list gives the position at which the
/// list names the move, provided the list is well formed and names no code
/// twice.
pub proof fn lemma_lookup_gives_list_position(
    table: Seq<u16>,
    texts: Seq<Seq<u8>>,
    m: Move,
    i: int,
)
    requires
        is_move_table(table, texts),
        well_formed_list(texts),
        distinct_codes(texts),
        m.packable(),
        0 <= i < texts.len(),
        texts[i] == canonical_notation(m),
    ensures
        0 <= m.packed_code() < table.len(),
        table[m.packed_code()] == i,
{
    lemma_canonical_notation_names_move(m);
    lemma_notation_move_packable(texts[i]);
    lemma_table_entry_of_listed(texts, i);
}

/// In the table of a list that names no code twice, a position of the list
/// is the entry of one listed code only, the code of the entry at that
/// position.
pub proof fn lemma_position_has_one_code(table: MoveTable, code: int, i: int)
    requires
        table.wf(),
        0 <= code < PACKED_CODES,
        is_listed(table.listing(), code),
        0 <= i < table.listing().len(),
    ensures
        table.slots()[code] == i <==> code == notation_code(table.listing()[i]),
{
    lemma_table_entry_is_last(table.listing(), code);
    lemma_table_entry_of_listed(table.listing(), i);
    lemma_notation_move_packable(table.listing()[i]);
}

/// The packed codes whose table entry is not 0.
pub open spec fn nonzero_slots(table: Seq<u16>) -> Set<int> {
    Set::new(|code: int| 0 <= code < table.len() && table[code] != 0)
}

/// The table of a list of n entries that names no code twice holds a
/// position other than 0 at n - 1 codes: at the code of every entry but the
/// first.
pub proof fn lemma_nonzero_slots_count(table: MoveTable)
    requires
        table.wf(),
        table.listing().len() >= 1,
    ensures
        nonzero_slots(table.slots()).finite(),
        nonzero_slots(table.slots()).len() == table.listing().len() - 1,
{
    let texts = table.listing();
    let slots = table.slots();
    let later = set_int_range(1, texts.len() as int);
    let code_at = |i: int| notation_code(texts[i]);
    lemma_int_range(1, texts.len() as int);
    assert forall|i: int, j: int|
        later.contains(i) && later.contains(j) && #[trigger] code_at(i) == #[trigger] code_at(
            j,
        ) implies i == j by {}
    assert forall|code: int| later.map(code_at).contains(code) == nonzero_slots(slots).contains(
        code,
    ) by {
        if later.map(code_at).contains(code) {
            let i = choose|i: int| later.contains(i) && code == code_at(i);
            lemma_notation_move_packable(texts[i]);
            lemma_table_entry_of_listed(texts, i);
        }
        if nonzero_slots(slots).contains(code) {
            lemma_table_entry_is_last(texts, code);
            let i = table_entry(texts, code);
            assert(later.contains(i));
            assert(code_at(i) == code);
        }
    }
    assert(later.map(code_at) =~= nonzero_slots(slots));
    lemma_map_size(later, nonzero_slots(slots), code_at);
}

/// Looking a move up in a `MoveTable` gives the position at which its list
/// names the move.
pub proof fn lemma_listed_move_is_found(table: MoveTable, m: Move, i: int)
    requires
        table.wf(),
        m.packable(),
        0 <= i < table.listing().len(),
        table.listing()[i] == canonical_notation(m),
    ensures
        is_listed(table.listing(), m.packed_code()),
        0 <= m.packed_code() < table.slots().len(),
        table.slots()[m.packed_code()] == i,
{
    lemma_lookup_gives_list_position(table.slots(), table.listing(), m, i);
    lemma_canonical_notation_names_move(m);
}

} // verus!
