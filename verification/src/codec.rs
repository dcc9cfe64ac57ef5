//! The two crates that turn a game into bytes: `flatbuffers`, whose builder
//! lays a document out, and `flate2`, which compresses it.
//!
//! Nothing in this file is proved. Each function states what the crate's
//! source shows of the call in its body; the layout of a game is verified
//! against these statements.
//!
//! The builder writes vectors and tables from the back of the document to
//! its front and hands out, for each, an offset: its distance from the
//! document's end. What it has written, and each offset it hands out, follow
//! from the calls made on it since it was new; `told` names these calls,
//! `layout` the bytes written after them, and `table_offset` the offset of
//! the table that the last of them ended.
//!
//! `told` stands for no field of the builder: it is the history of the calls
//! that the functions of this file made on it. Two histories can leave the
//! same bytes behind (a byte field that holds its default writes nothing),
//! so what is said of `told` holds only of builders that come from
//! `new_builder` and change through these functions alone. None of them is
//! visible outside the crate, and the crate makes and changes builders in no
//! other way.

use vstd::prelude::*;
use flatbuffers::{FlatBufferBuilder, TableFinishedWIPOffset, TableUnfinishedWIPOffset, WIPOffset};
use flate2::write::GzEncoder;
use flate2::Compression;
use std::io::Write;

verus! {

/// A builder of FlatBuffers documents.
#[verifier::external_type_specification]
#[verifier::external_body]
pub struct ExFlatBufferBuilder<'fbb>(FlatBufferBuilder<'fbb>);

/// A call on a builder.
pub enum Instruction {
    /// Write a vector of bytes.
    Bytes { bytes: Seq<u8> },
    /// Write a vector of 16-bit numbers.
    Shorts { shorts: Seq<u16> },
    /// Write a vector of 32-bit numbers.
    Words { words: Seq<u32> },
    /// Write a vector of references to the tables at these offsets.
    Tables { offsets: Seq<u32> },
    /// Begin a table.
    StartTable,
    /// Fill a slot of the table with a byte, unless the byte is the default.
    ByteField { slot: i16, value: u8, default: u8 },
    /// Fill a slot of the table with a reference to what the offset names.
    OffsetField { slot: i16, offset: u32 },
    /// End the table that the call with the offset `start` began.
    EndTable { start: u32 },
    /// Finish the document with the table at the offset `root` as its root.
    Finish { root: u32 },
}

/// The calls made on a builder since it was new, in order.
pub uninterp spec fn told(builder: FlatBufferBuilder<'static>) -> Seq<Instruction>;

/// The bytes that a builder has written after these calls.
pub uninterp spec fn layout(told: Seq<Instruction>) -> Seq<u8>;

/// The offset of the table that the last of these calls ended.
pub uninterp spec fn table_offset(told: Seq<Instruction>) -> u32;

/// Whether a table is under construction in a builder.
pub uninterp spec fn in_table(builder: FlatBufferBuilder<'static>) -> bool;

/// Whether a builder's document is finished.
pub uninterp spec fn is_finished(builder: FlatBufferBuilder<'static>) -> bool;

/// The slots filled so far in the table under construction.
pub uninterp spec fn filled_slots(builder: FlatBufferBuilder<'static>) -> Set<i16>;

/// The gzip stream that `flate2` writes for a sequence of bytes at its
/// default level, or none if it reports an error.
pub uninterp spec fn gzip_of(data: Seq<u8>) -> Option<Seq<u8>>;

/// The number of bytes that a builder has written.
pub open spec fn size(builder: FlatBufferBuilder<'static>) -> nat {
    layout(told(builder)).len()
}

/// The last slot that a table is given here. A table's list of slots then
/// takes at most two bytes more than this.
pub const LAST_SLOT: i16 = 30;

/// A slot that a field of a table is given here: an even number from 4 to
/// `LAST_SLOT`.
pub open spec fn is_slot(slot: i16) -> bool {
    4 <= slot <= LAST_SLOT && slot % 2 == 0
}

/// Every slot filled in the table under construction is a slot.
pub open spec fn slots_in_range(builder: FlatBufferBuilder<'static>) -> bool {
    forall|slot: i16| #[trigger] filled_slots(builder).contains(slot) ==> is_slot(slot)
}

/// The builder is between two tables of an unfinished document.
pub open spec fn idle(builder: FlatBufferBuilder<'static>) -> bool {
    &&& !in_table(builder)
    &&& !is_finished(builder)
    &&& filled_slots(builder) == Set::<i16>::empty()
}

/// A call that only adds a vector: the document does not shrink, the offset
/// handed out lies within it, and tables and slots are as before.
pub open spec fn vector_added(
    before: FlatBufferBuilder<'static>,
    after: FlatBufferBuilder<'static>,
    call: Instruction,
    offset: u32,
) -> bool {
    &&& told(after) == told(before).push(call)
    &&& size(before) <= size(after)
    &&& offset <= size(after)
    &&& in_table(after) == in_table(before)
    &&& is_finished(after) == is_finished(before)
    &&& filled_slots(after) == filled_slots(before)
}

/// A new builder. Calls `FlatBufferBuilder::new`: nothing is written, no
/// table is begun, the document is not finished.
#[verifier::external_body]
pub(crate) fn new_builder() -> (builder: FlatBufferBuilder<'static>)
    ensures
        told(builder) == Seq::<Instruction>::empty(),
        size(builder) == 0,
        idle(builder),
{
    FlatBufferBuilder::new()
}

/// The number of bytes written. Calls `FlatBufferBuilder::unfinished_data`
/// and takes the length of the slice.
#[verifier::external_body]
pub(crate) fn written_len(builder: &FlatBufferBuilder<'static>) -> (len: usize)
    ensures
        len == size(*builder),
{
    builder.unfinished_data().len()
}

/// Writes a vector of bytes. Calls `FlatBufferBuilder::create_vector`, which
/// only adds bytes and returns the number of bytes written, cut to 32 bits.
/// It adds up to three bytes of padding, the items and four bytes of length.
#[verifier::external_body]
pub(crate) fn create_vector_u8(
    builder: &mut FlatBufferBuilder<'static>,
    items: &[u8],
) -> (offset: u32)
    ensures
        vector_added(*old(builder), *final(builder), Instruction::Bytes { bytes: items@ }, offset),
        size(*final(builder)) <= u32::MAX ==> offset == size(*final(builder)),
        size(*final(builder)) <= size(*old(builder)) + items.len() + 7,
{
    builder.create_vector(items).value()
}

/// Writes a vector of 16-bit numbers. Calls `FlatBufferBuilder::create_vector`,
/// which only adds bytes and returns the number of bytes written, cut to 32
/// bits. It adds up to three bytes of padding, the items and four bytes of
/// length.
#[verifier::external_body]
pub(crate) fn create_vector_u16(
    builder: &mut FlatBufferBuilder<'static>,
    items: &[u16],
) -> (offset: u32)
    ensures
        vector_added(
            *old(builder),
            *final(builder),
            Instruction::Shorts { shorts: items@ },
            offset,
        ),
        size(*final(builder)) <= u32::MAX ==> offset == size(*final(builder)),
        size(*final(builder)) <= size(*old(builder)) + 2 * items.len() + 7,
{
    builder.create_vector(items).value()
}

/// Writes a vector of 32-bit numbers. Calls `FlatBufferBuilder::create_vector`,
/// which only adds bytes and returns the number of bytes written, cut to 32
/// bits. It adds up to three bytes of padding, the items and four bytes of
/// length.
#[verifier::external_body]
pub(crate) fn create_vector_u32(
    builder: &mut FlatBufferBuilder<'static>,
    items: &[u32],
) -> (offset: u32)
    ensures
        vector_added(*old(builder), *final(builder), Instruction::Words { words: items@ }, offset),
        size(*final(builder)) <= u32::MAX ==> offset == size(*final(builder)),
        size(*final(builder)) <= size(*old(builder)) + 4 * items.len() + 7,
{
    builder.create_vector(items).value()
}

/// Writes a vector of references to tables. Calls
/// `FlatBufferBuilder::create_vector` with the offsets of the tables; each
/// is written as its distance from the place of writing, so none may exceed
/// the number of bytes written. It adds up to three bytes of padding, four
/// bytes for each table and four bytes of length.
#[verifier::external_body]
pub(crate) fn create_vector_of_tables(
    builder: &mut FlatBufferBuilder<'static>,
    tables: &[u32],
) -> (offset: u32)
    requires
        forall|i: int| 0 <= i < tables.len() ==> #[trigger] tables[i] <= size(*old(builder)),
    ensures
        vector_added(
            *old(builder),
            *final(builder),
            Instruction::Tables { offsets: tables@ },
            offset,
        ),
        size(*final(builder)) <= u32::MAX ==> offset == size(*final(builder)),
        size(*final(builder)) <= size(*old(builder)) + 4 * tables.len() + 7,
{
    let tables: Vec<WIPOffset<TableFinishedWIPOffset>> = tables.iter().map(
        |table| WIPOffset::new(*table),
    ).collect();
    builder.create_vector(&tables).value()
}

/// Begins a table. Calls `FlatBufferBuilder::start_table`, which asserts
/// that no table is under construction, writes nothing and returns the
/// number of bytes written, cut to 32 bits.
#[verifier::external_body]
pub(crate) fn start_table(builder: &mut FlatBufferBuilder<'static>) -> (start: u32)
    requires
        !in_table(*old(builder)),
    ensures
        told(*final(builder)) == told(*old(builder)).push(Instruction::StartTable),
        layout(told(*final(builder))) == layout(told(*old(builder))),
        size(*old(builder)) <= u32::MAX ==> start == size(*old(builder)),
        in_table(*final(builder)),
        is_finished(*final(builder)) == is_finished(*old(builder)),
        filled_slots(*final(builder)) == filled_slots(*old(builder)),
{
    builder.start_table().value()
}

/// Fills a slot of the table under construction with a byte. Calls
/// `FlatBufferBuilder::push_slot`, which asserts that a table is under
/// construction, does nothing if the byte is the default, and else writes
/// the one byte and notes the slot. A slot noted twice fails an assertion
/// when the table ends.
#[verifier::external_body]
pub(crate) fn push_slot_u8(
    builder: &mut FlatBufferBuilder<'static>,
    slot: i16,
    value: u8,
    default: u8,
)
    requires
        in_table(*old(builder)),
        is_slot(slot),
        !filled_slots(*old(builder)).contains(slot),
    ensures
        told(*final(builder)) == told(*old(builder)).push(
            Instruction::ByteField { slot, value, default },
        ),
        in_table(*final(builder)),
        is_finished(*final(builder)) == is_finished(*old(builder)),
        value == default ==> layout(told(*final(builder))) == layout(told(*old(builder)))
            && filled_slots(*final(builder)) == filled_slots(*old(builder)),
        value != default ==> size(*final(builder)) == size(*old(builder)) + 1 && filled_slots(
            *final(builder),
        ) == filled_slots(*old(builder)).insert(slot),
{
    builder.push_slot::<u8>(slot, value, default)
}

/// Fills a slot of the table under construction with a reference to a
/// vector or a table. Calls `FlatBufferBuilder::push_slot_always`, which
/// asserts that a table is under construction, writes up to three bytes of
/// padding and the four bytes of the distance to what the offset names, and
/// notes the slot.
#[verifier::external_body]
pub(crate) fn push_slot_offset(builder: &mut FlatBufferBuilder<'static>, slot: i16, offset: u32)
    requires
        in_table(*old(builder)),
        is_slot(slot),
        !filled_slots(*old(builder)).contains(slot),
        offset <= size(*old(builder)),
    ensures
        told(*final(builder)) == told(*old(builder)).push(
            Instruction::OffsetField { slot, offset },
        ),
        in_table(*final(builder)),
        is_finished(*final(builder)) == is_finished(*old(builder)),
        size(*old(builder)) + 4 <= size(*final(builder)),
        size(*final(builder)) <= size(*old(builder)) + 7,
        filled_slots(*final(builder)) == filled_slots(*old(builder)).insert(slot),
{
    builder.push_slot_always(slot, WIPOffset::<TableFinishedWIPOffset>::new(offset))
}

/// Ends the table under construction. Calls `FlatBufferBuilder::end_table`
/// with the offset that began the table. It asserts that a table is under
/// construction and that the table's fields take less than 65536 bytes,
/// computes with offsets of 32 bits, adds the table's head (four bytes and
/// up to three of padding) and, unless an equal one is written already, its
/// list of slots (two bytes more than the last slot noted), and forgets the
/// slots noted. The offset returned names the table.
#[verifier::external_body]
pub(crate) fn end_table(builder: &mut FlatBufferBuilder<'static>, start: u32) -> (table: u32)
    requires
        in_table(*old(builder)),
        start <= size(*old(builder)),
        size(*old(builder)) - start < 0x8000,
        size(*old(builder)) <= 0x7FFF_0000,
        slots_in_range(*old(builder)),
    ensures
        told(*final(builder)) == told(*old(builder)).push(Instruction::EndTable { start }),
        table == table_offset(told(*final(builder))),
        size(*old(builder)) <= size(*final(builder)),
        size(*final(builder)) <= size(*old(builder)) + 7 + LAST_SLOT + 2,
        table <= size(*final(builder)),
        !in_table(*final(builder)),
        is_finished(*final(builder)) == is_finished(*old(builder)),
        filled_slots(*final(builder)) == Set::<i16>::empty(),
{
    builder.end_table(WIPOffset::<TableUnfinishedWIPOffset>::new(start)).value()
}

/// Finishes the document with its root table. Calls
/// `FlatBufferBuilder::finish_minimal`, which asserts that the document is
/// not finished and no table under construction, pads to the largest
/// alignment met so far, and writes the distance to the root.
#[verifier::external_body]
pub(crate) fn finish_minimal(builder: &mut FlatBufferBuilder<'static>, root: u32)
    requires
        !in_table(*old(builder)),
        !is_finished(*old(builder)),
        0 < size(*old(builder)),
        root <= size(*old(builder)),
    ensures
        told(*final(builder)) == told(*old(builder)).push(Instruction::Finish { root }),
        size(*old(builder)) <= size(*final(builder)),
        is_finished(*final(builder)),
        !in_table(*final(builder)),
{
    builder.finish_minimal(WIPOffset::<TableFinishedWIPOffset>::new(root))
}

/// The finished document. Calls `FlatBufferBuilder::finished_data`, which
/// asserts that the document is finished, and copies the bytes.
#[verifier::external_body]
pub(crate) fn finished_data(builder: &FlatBufferBuilder<'static>) -> (data: Vec<u8>)
    requires
        is_finished(*builder),
    ensures
        data@ == layout(told(*builder)),
{
    builder.finished_data().to_vec()
}

/// Compresses bytes into a gzip stream. Makes a `GzEncoder` at the default
/// level over an empty vector, writes the bytes with `write_all` and takes
/// the vector back with `finish`; none if either reports an error.
#[verifier::external_body]
pub(crate) fn gzip(data: &[u8]) -> (stream: Option<Vec<u8>>)
    ensures
        match stream {
            Some(bytes) => gzip_of(data@) == Some(bytes@),
            None => gzip_of(data@) is None,
        },
{
    let mut encoder = GzEncoder::new(Vec::new(), Compression::default());
    encoder.write_all(data).ok()?;
    encoder.finish().ok()
}

} // verus!
