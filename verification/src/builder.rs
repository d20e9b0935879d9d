//! The `Message` / `Login` schema of the game protocol, writing side.
//!
//! The tables are written through `flatbuffers::FlatBufferBuilder`, which
//! writes its buffer back to front: every new value goes in front of the
//! bytes written so far, and an offset names a value by how many bytes had
//! been written once the value was in place. The builder asserts a usage
//! protocol: a table is started, its fields are pushed, and the table is
//! ended before anything else is started or the buffer is finished. The
//! contracts here track that protocol, the bytes written and the fields
//! recorded for the table under construction, so that what a table was
//! written with can be read back with the reading spec of `crate::wire`.
use vstd::prelude::*;
use vstd::utf8::encode_utf8;
use core::marker::PhantomData;
use flatbuffers::{FlatBufferBuilder, WIPOffset, TableUnfinishedWIPOffset, UnionWIPOffset};
use crate::message::{
    Event, Message, Login, tag_of_event, message_event_type, message_has_event, message_event_loc,
    event_type_readable,
};
use crate::wire::{
    le_u32, table_readable, slot_readable, field_offset, field_target, offset_field_readable,
};

verus! {

/// `flatbuffers::FlatBufferBuilder`, opaque to Verus.
#[verifier::external_type_specification]
#[verifier::external_body]
pub struct ExFlatBufferBuilder<'fbb>(FlatBufferBuilder<'fbb>);

/// `flatbuffers::TableUnfinishedWIPOffset`, opaque to Verus.
#[verifier::external_type_specification]
#[verifier::external_body]
pub struct ExTableUnfinishedWIPOffset(TableUnfinishedWIPOffset);

/// `flatbuffers::UnionWIPOffset`, opaque to Verus.
#[verifier::external_type_specification]
#[verifier::external_body]
pub struct ExUnionWIPOffset(UnionWIPOffset);

/// The bytes written so far, the most recent first (`unfinished_data`).
pub uninterp spec fn fbb_data(fbb: FlatBufferBuilder) -> Seq<u8>;

/// The fields recorded for the table under construction, in the order they
/// were pushed: the vtable byte of each, and its offset (`field_locs`).
pub uninterp spec fn fbb_field_locs(fbb: FlatBufferBuilder) -> Seq<(u16, u32)>;

/// Whether a table is under construction (the builder's `nested` flag).
pub uninterp spec fn fbb_nested(fbb: FlatBufferBuilder) -> bool;

/// Whether the buffer has been finished (the builder's `finished` flag).
pub uninterp spec fn fbb_finished(fbb: FlatBufferBuilder) -> bool;

/// Whether fields equal to their default are written all the same
/// (the builder's `force_defaults` flag).
pub uninterp spec fn fbb_force_defaults(fbb: FlatBufferBuilder) -> bool;

/// The largest alignment that anything written so far asked for (the
/// builder's `min_align`).
pub uninterp spec fn fbb_min_align(fbb: FlatBufferBuilder) -> nat;

/// The builder's alignment once a value that asks for alignment `a` is written.
pub open spec fn aligned_to(min_align: nat, a: nat) -> nat {
    if min_align >= a {
        min_align
    } else {
        a
    }
}

/// The number of bytes written so far (the builder's used space).
pub open spec fn fbb_used(fbb: FlatBufferBuilder) -> nat {
    fbb_data(fbb).len()
}

/// An offset as the builder stores it: a byte count, in 32 bits.
pub open spec fn offset_of(n: int) -> u32 {
    (n % 0x1_0000_0000) as u32
}

/// The largest buffer the FlatBuffers format allows
/// (`flatbuffers::FLATBUFFERS_MAX_BUFFER_SIZE`, 2 GiB).
pub open spec fn max_buffer_size() -> nat {
    0x8000_0000
}

/// Room for ending a table: with the at most 0x1_0006 bytes that
/// `end_table` adds, every position stays inside the format's limit, where
/// the builder's signed 32-bit arithmetic on positions is exact.
pub open spec fn fbb_room(fbb: FlatBufferBuilder) -> bool {
    fbb_used(fbb) + 0x1_0010 <= max_buffer_size()
}

/// A size-prefixed buffer: it starts with the number of bytes after the
/// size, and the distance to the root comes right after it.
pub open spec fn unpadded_size_prefix(d: Seq<u8>, root: u32) -> bool {
    &&& le_u32(d, 0) == offset_of(d.len() - 4)
    &&& le_u32(d, 4) == offset_of(d.len() - 4 - root)
}

/// The string `s` was written as `create_string` writes it, at the front of
/// the bytes: its UTF-8 byte count, its bytes and a zero byte, after at most
/// 3 bytes of padding; `o` names it.
pub open spec fn string_written(pre: FlatBufferBuilder, post: FlatBufferBuilder, o: u32, s: Seq<char>) -> bool {
    let d = fbb_data(post);
    let bytes = encode_utf8(s);
    &&& !fbb_nested(post)
    &&& fbb_field_locs(post) == fbb_field_locs(pre)
    &&& fbb_finished(post) == fbb_finished(pre)
    &&& fbb_force_defaults(post) == fbb_force_defaults(pre)
    &&& fbb_min_align(post) == aligned_to(fbb_min_align(pre), 4)
    &&& is_suffix(fbb_data(pre), d)
    &&& fbb_used(pre) + bytes.len() + 5 <= fbb_used(post) <= fbb_used(pre) + bytes.len() + 8
    &&& o == fbb_used(post)
    &&& le_u32(d, 0) == bytes.len()
    &&& d.subrange(4, 4 + bytes.len() as int) == bytes
    &&& d[4 + bytes.len() as int] == 0
}

/// `old` is what `new` ends with: the bytes written before stay in place.
pub open spec fn is_suffix(old: Seq<u8>, new: Seq<u8>) -> bool {
    &&& old.len() <= new.len()
    &&& new.subrange(new.len() - old.len(), new.len() as int) == old
}

/// A field with this vtable byte is recorded.
pub open spec fn has_slot(locs: Seq<(u16, u32)>, slot: u16) -> bool {
    exists|i: int| 0 <= i < locs.len() && (#[trigger] locs[i]).0 == slot
}

/// The recorded fields can be written into a vtable: each vtable byte is
/// even, past the two header entries, and leaves the vtable's length within
/// a `u16`; no byte is recorded twice; each offset lies between the table's
/// start and the bytes written so far.
pub open spec fn locs_ok(locs: Seq<(u16, u32)>, start: u32, used: nat) -> bool {
    &&& forall|i: int|
        0 <= i < locs.len() ==> {
            &&& (#[trigger] locs[i]).0 >= 4
            &&& locs[i].0 % 2 == 0
            &&& locs[i].0 + 2 <= 0xFFFF
            &&& start < locs[i].1 <= used
        }
    &&& forall|i: int, j: int| 0 <= i < j < locs.len() ==> (#[trigger] locs[i]).0 != (#[trigger] locs[j]).0
}

/// `FlatBufferBuilder::new`: nothing written, no table under construction,
/// defaults not forced, no alignment asked for yet.
#[verifier::external_body]
fn fbb_new<'a>() -> (fbb: FlatBufferBuilder<'a>)
    ensures
        fbb_data(fbb) == Seq::<u8>::empty(),
        fbb_field_locs(fbb) == Seq::<(u16, u32)>::empty(),
        !fbb_nested(fbb),
        !fbb_finished(fbb),
        !fbb_force_defaults(fbb),
        fbb_min_align(fbb) == 0,
{
    FlatBufferBuilder::new()
}

/// `FlatBufferBuilder::create_string`: pads so that the byte count lands on
/// 4 bytes, then writes a zero byte, the string's UTF-8 bytes and their
/// count, all in front of what was there, and returns the number of bytes
/// written. The count is a `u32` and the buffer has the format's limit.
#[verifier::external_body]
fn fbb_create_string<'a, 'b>(fbb: &mut FlatBufferBuilder<'a>, s: &'b str) -> (o: Offset<&'a str>)
    requires
        !fbb_nested(*old(fbb)),
        fbb_used(*old(fbb)) + encode_utf8(s@).len() + 8 <= max_buffer_size(),
    ensures
        string_written(*old(fbb), *final(fbb), o.value, s@),
{
    Offset { value: fbb.create_string(s).value(), kind: PhantomData }
}

/// `FlatBufferBuilder::start_table`: enters the nested state, writes nothing,
/// and returns the number of bytes written so far.
#[verifier::external_body]
fn fbb_start_table(fbb: &mut FlatBufferBuilder) -> (o: Offset<TableUnfinishedWIPOffset>)
    requires
        !fbb_nested(*old(fbb)),
    ensures
        o.value == offset_of(fbb_used(*old(fbb)) as int),
        fbb_nested(*final(fbb)),
        fbb_finished(*final(fbb)) == fbb_finished(*old(fbb)),
        fbb_force_defaults(*final(fbb)) == fbb_force_defaults(*old(fbb)),
        fbb_field_locs(*final(fbb)) == fbb_field_locs(*old(fbb)),
        fbb_data(*final(fbb)) == fbb_data(*old(fbb)),
        fbb_min_align(*final(fbb)) == fbb_min_align(*old(fbb)),
{
    Offset { value: fbb.start_table().value(), kind: PhantomData }
}

/// `FlatBufferBuilder::push_slot::<u8>`: unless the byte equals the default
/// and defaults are not forced, writes the byte and records the field.
#[verifier::external_body]
fn fbb_push_slot_u8(fbb: &mut FlatBufferBuilder, slot: u16, x: u8, default: u8)
    requires
        fbb_nested(*old(fbb)),
    ensures
        fbb_nested(*final(fbb)),
        fbb_finished(*final(fbb)) == fbb_finished(*old(fbb)),
        fbb_force_defaults(*final(fbb)) == fbb_force_defaults(*old(fbb)),
        if x != default || fbb_force_defaults(*old(fbb)) {
            &&& fbb_data(*final(fbb)) == seq![x] + fbb_data(*old(fbb))
            &&& fbb_field_locs(*final(fbb)) == fbb_field_locs(*old(fbb)).push(
                (slot, offset_of(fbb_used(*final(fbb)) as int)),
            )
            &&& fbb_min_align(*final(fbb)) == aligned_to(fbb_min_align(*old(fbb)), 1)
        } else {
            &&& fbb_data(*final(fbb)) == fbb_data(*old(fbb))
            &&& fbb_field_locs(*final(fbb)) == fbb_field_locs(*old(fbb))
            &&& fbb_min_align(*final(fbb)) == fbb_min_align(*old(fbb))
        },
{
    fbb.push_slot::<u8>(slot, x, default)
}

/// `FlatBufferBuilder::push_slot_always::<WIPOffset<UnionWIPOffset>>`: pads
/// to 4 bytes, writes the distance from the new field to the offset's value,
/// and records the field. The value must not exceed the bytes written, or
/// that distance would underflow.
#[verifier::external_body]
fn fbb_push_union(fbb: &mut FlatBufferBuilder, slot: u16, x: Offset<UnionWIPOffset>)
    requires
        fbb_nested(*old(fbb)),
        x.value <= fbb_used(*old(fbb)),
    ensures
        fbb_nested(*final(fbb)),
        fbb_finished(*final(fbb)) == fbb_finished(*old(fbb)),
        fbb_force_defaults(*final(fbb)) == fbb_force_defaults(*old(fbb)),
        fbb_used(*old(fbb)) + 4 <= fbb_used(*final(fbb)) <= fbb_used(*old(fbb)) + 7,
        is_suffix(fbb_data(*old(fbb)), fbb_data(*final(fbb))),
        le_u32(fbb_data(*final(fbb)), 0) == offset_of(fbb_used(*final(fbb)) - x.value),
        fbb_field_locs(*final(fbb)) == fbb_field_locs(*old(fbb)).push(
            (slot, offset_of(fbb_used(*final(fbb)) as int)),
        ),
        fbb_min_align(*final(fbb)) == aligned_to(fbb_min_align(*old(fbb)), 4),
{
    fbb.push_slot_always::<WIPOffset<UnionWIPOffset>>(slot, WIPOffset::new(x.value))
}

/// `FlatBufferBuilder::push_slot_always::<WIPOffset<&str>>`: pads to 4
/// bytes, writes the distance from the new field to the offset's value, and
/// records the field. The value must not exceed the bytes written, or that
/// distance would underflow.
#[verifier::external_body]
fn fbb_push_str<'a, 'b>(fbb: &mut FlatBufferBuilder<'a>, slot: u16, x: Offset<&'b str>)
    requires
        fbb_nested(*old(fbb)),
        x.value <= fbb_used(*old(fbb)),
    ensures
        fbb_nested(*final(fbb)),
        fbb_finished(*final(fbb)) == fbb_finished(*old(fbb)),
        fbb_force_defaults(*final(fbb)) == fbb_force_defaults(*old(fbb)),
        fbb_used(*old(fbb)) + 4 <= fbb_used(*final(fbb)) <= fbb_used(*old(fbb)) + 7,
        is_suffix(fbb_data(*old(fbb)), fbb_data(*final(fbb))),
        le_u32(fbb_data(*final(fbb)), 0) == offset_of(fbb_used(*final(fbb)) - x.value),
        fbb_field_locs(*final(fbb)) == fbb_field_locs(*old(fbb)).push(
            (slot, offset_of(fbb_used(*final(fbb)) as int)),
        ),
        fbb_min_align(*final(fbb)) == aligned_to(fbb_min_align(*old(fbb)), 4),
{
    fbb.push_slot_always::<WIPOffset<&'b str>>(slot, WIPOffset::new(x.value))
}

/// `FlatBufferBuilder::end_table`: writes the table's reference to its
/// vtable and, unless a byte-equal vtable was written before, the vtable;
/// leaves the nested state and forgets the recorded fields; the reference
/// asks for 4-byte alignment. It returns the
/// table's offset. The table at that offset then has, for each recorded
/// field, the distance from the table to the field, and 0 for every other
/// field. The debug assertions of `write_vtable` need the start offset that
/// `start_table` returned, a table of less than 64 KiB, and fields that fit
/// the vtable once each.
#[verifier::external_body]
fn fbb_end_table<T>(fbb: &mut FlatBufferBuilder, start: Offset<TableUnfinishedWIPOffset>) -> (o:
    Offset<T>)
    requires
        fbb_nested(*old(fbb)),
        fbb_room(*old(fbb)),
        start.value <= fbb_used(*old(fbb)) <= start.value + 0xFFF0,
        locs_ok(fbb_field_locs(*old(fbb)), start.value, fbb_used(*old(fbb))),
    ensures
        table_ended(*old(fbb), *final(fbb), o.value),
{
    Offset { value: fbb.end_table(WIPOffset::new(start.value)).value(), kind: PhantomData }
}

/// `FlatBufferBuilder::finish` without a file identifier: pads by less than
/// the builder's alignment (so that the root offset ends aligned) and by at
/// most 3 bytes more for the offset itself, writes the distance from the
/// start of the buffer to the root, and marks the buffer finished. Padding needs the builder's alignment, which is set once
/// anything was written; the root must not exceed the bytes written.
#[verifier::external_body]
fn fbb_finish<T>(fbb: &mut FlatBufferBuilder, root: Offset<T>)
    requires
        !fbb_nested(*old(fbb)),
        !fbb_finished(*old(fbb)),
        fbb_used(*old(fbb)) > 0,
        root.value <= fbb_used(*old(fbb)),
    ensures
        fbb_finished(*final(fbb)),
        !fbb_nested(*final(fbb)),
        fbb_force_defaults(*final(fbb)) == fbb_force_defaults(*old(fbb)),
        fbb_used(*old(fbb)) + 4 <= fbb_used(*final(fbb)) <= fbb_used(*old(fbb)) + fbb_min_align(
            *old(fbb),
        ) + 7,
        is_suffix(fbb_data(*old(fbb)), fbb_data(*final(fbb))),
        le_u32(fbb_data(*final(fbb)), 0) == offset_of(fbb_used(*final(fbb)) - root.value),
{
    fbb.finish(WIPOffset::<T>::new(root.value), None)
}

/// `FlatBufferBuilder::finish_size_prefixed` without a file identifier:
/// pads as `finish` does, writes the distance to the root, which leaves the
/// buffer 4-byte aligned, then right in front of it the number of bytes
/// written before the size, and marks the buffer finished.
#[verifier::external_body]
fn fbb_finish_size_prefixed<T>(fbb: &mut FlatBufferBuilder, root: Offset<T>)
    requires
        !fbb_nested(*old(fbb)),
        !fbb_finished(*old(fbb)),
        fbb_used(*old(fbb)) > 0,
        root.value <= fbb_used(*old(fbb)),
    ensures
        fbb_finished(*final(fbb)),
        !fbb_nested(*final(fbb)),
        fbb_force_defaults(*final(fbb)) == fbb_force_defaults(*old(fbb)),
        fbb_used(*old(fbb)) + 8 <= fbb_used(*final(fbb)) <= fbb_used(*old(fbb)) + fbb_min_align(
            *old(fbb),
        ) + 11,
        is_suffix(fbb_data(*old(fbb)), fbb_data(*final(fbb))),
        unpadded_size_prefix(fbb_data(*final(fbb)), root.value),
{
    fbb.finish_size_prefixed(WIPOffset::<T>::new(root.value), None)
}


/// An offset into a buffer under construction: the number of bytes that had
/// been written once the object it names was in place.
pub struct Offset<T> {
    pub value: u32,
    pub kind: PhantomData<T>,
}

impl<T> Clone for Offset<T> {
    fn clone(&self) -> (o: Self)
        ensures
            o == *self,
    {
        Offset { value: self.value, kind: PhantomData }
    }
}

impl<T> Copy for Offset<T> {
}

impl<T> Offset<T> {
    /// The offset with this value.
    pub fn new(value: u32) -> (o: Self)
        ensures
            o.value == value,
    {
        Offset { value, kind: PhantomData }
    }

    /// The same offset, as the value of a union field.
    pub fn as_union_value(self) -> (o: Offset<UnionWIPOffset>)
        ensures
            o.value == self.value,
    {
        Offset { value: self.value, kind: PhantomData }
    }
}

/// The bytes written before stay where they are when more are written.
pub proof fn lemma_suffix_trans(a: Seq<u8>, b: Seq<u8>, c: Seq<u8>)
    requires
        is_suffix(a, b),
        is_suffix(b, c),
    ensures
        is_suffix(a, c),
{
    assert forall|k: int| 0 <= k < a.len() implies c[c.len() - a.len() + k] == a[k] by {
        assert(b[b.len() - a.len() + k] == a[k]);
        assert(c[c.len() - b.len() + (b.len() - a.len() + k)] == b[b.len() - a.len() + k]);
    }
    assert(c.subrange(c.len() - a.len(), c.len() as int) =~= a);
}

/// A byte written `f` bytes before the end reads the same later on.
pub proof fn lemma_suffix_index(a: Seq<u8>, b: Seq<u8>, f: int)
    requires
        is_suffix(a, b),
        1 <= f <= a.len(),
    ensures
        b[b.len() - f] == a[a.len() - f],
{
    assert(b.subrange(b.len() - a.len(), b.len() as int)[a.len() - f] == a[a.len() - f]);
}

/// A 32-bit value written `f` bytes before the end reads the same later on.
pub proof fn lemma_suffix_le_u32(a: Seq<u8>, b: Seq<u8>, f: int)
    requires
        is_suffix(a, b),
        4 <= f <= a.len(),
    ensures
        le_u32(b, b.len() - f) == le_u32(a, a.len() - f),
{
    lemma_suffix_index(a, b, f);
    lemma_suffix_index(a, b, f - 1);
    lemma_suffix_index(a, b, f - 2);
    lemma_suffix_index(a, b, f - 3);
}

/// Writes the string `s` in front of the bytes written so far, and returns
/// its offset.
pub fn create_string<'a, 'b>(fbb: &mut FlatBufferBuilder<'a>, s: &'b str) -> (o: Offset<&'a str>)
    requires
        !fbb_nested(*old(fbb)),
        fbb_used(*old(fbb)) + encode_utf8(s@).len() + 8 <= max_buffer_size(),
    ensures
        string_written(*old(fbb), *final(fbb), o.value, s@),
{
    fbb_create_string(fbb, s)
}

/// A new builder, with nothing written and no table under construction.
pub fn new_builder<'a>() -> (fbb: FlatBufferBuilder<'a>)
    ensures
        ready_for_table(fbb),
        fbb_used(fbb) == 0,
        !fbb_finished(fbb),
        !fbb_force_defaults(fbb),
        fbb_min_align(fbb) == 0,
{
    fbb_new()
}

/// The builder may start a table: none is under construction, no field is
/// recorded, and a small table leaves room to end it.
pub open spec fn ready_for_table(fbb: FlatBufferBuilder) -> bool {
    &&& !fbb_nested(fbb)
    &&& fbb_field_locs(fbb) == Seq::<(u16, u32)>::empty()
    &&& fbb_used(fbb) + 0x1_0020 <= max_buffer_size()
}

/// A table was written in front of what was there: the builder is left
/// with no table under construction and no field recorded.
pub open spec fn table_written(pre: FlatBufferBuilder, post: FlatBufferBuilder) -> bool {
    &&& !fbb_nested(post)
    &&& fbb_field_locs(post) == Seq::<(u16, u32)>::empty()
    &&& fbb_finished(post) == fbb_finished(pre)
    &&& fbb_force_defaults(post) == fbb_force_defaults(pre)
    &&& fbb_min_align(post) == aligned_to(fbb_min_align(pre), 4)
    &&& is_suffix(fbb_data(pre), fbb_data(post))
    &&& fbb_used(pre) + 4 <= fbb_used(post) <= fbb_used(pre) + 0x1_0020
}

/// What `end_table` leaves behind: the table at `o` carries the recorded
/// fields of `pre`, each at its distance from the table, and no other.
pub open spec fn table_ended(pre: FlatBufferBuilder, post: FlatBufferBuilder, o: u32) -> bool {
    let d = fbb_data(post);
    let loc = fbb_used(post) - o;
    let locs = fbb_field_locs(pre);
    &&& !fbb_nested(post)
    &&& fbb_finished(post) == fbb_finished(pre)
    &&& fbb_force_defaults(post) == fbb_force_defaults(pre)
    &&& fbb_min_align(post) == aligned_to(fbb_min_align(pre), 4)
    &&& fbb_field_locs(post) == Seq::<(u16, u32)>::empty()
    &&& is_suffix(fbb_data(pre), d)
    &&& fbb_used(pre) + 4 <= o <= fbb_used(pre) + 7
    &&& o <= fbb_used(post) <= fbb_used(pre) + 0x1_0006
    &&& table_readable(d, loc)
    &&& forall|s: int| s >= 0 ==> slot_readable(d, loc, s)
    &&& forall|i: int|
        0 <= i < locs.len() ==> field_offset(d, loc, (#[trigger] locs[i]).0 as int) == o - locs[i].1
    &&& forall|s: u16| s >= 4 && s % 2 == 0 && !has_slot(locs, s) ==> field_offset(d, loc, s as int) == 0
}

/// The table at `loc` of `d` reads back as a `Message` written with `args`.
pub open spec fn message_written_as(d: Seq<u8>, loc: int, args: MessageArgs) -> bool {
    &&& table_readable(d, loc)
    &&& event_type_readable(d, loc)
    &&& message_event_type(d, loc) == args.event_type
    &&& offset_field_readable(d, loc, Message::VT_EVENT as int)
    &&& (message_has_event(d, loc) <==> args.event is Some)
    &&& args.event matches Some(e) ==> message_event_loc(d, loc) == d.len() - e.value
}

/// The table at `loc` of `d` reads back as a `Login` written with `args`.
pub open spec fn login_written_as(d: Seq<u8>, loc: int, args: LoginArgs) -> bool {
    &&& table_readable(d, loc)
    &&& offset_field_readable(d, loc, Login::VT_ID as int)
    &&& offset_field_readable(d, loc, Login::VT_PW as int)
    &&& (field_offset(d, loc, Login::VT_ID as int) != 0 <==> args.id is Some)
    &&& (field_offset(d, loc, Login::VT_PW as int) != 0 <==> args.pw is Some)
    &&& args.id matches Some(x) ==> field_target(d, loc, Login::VT_ID as int) == d.len() - x.value
    &&& args.pw matches Some(x) ==> field_target(d, loc, Login::VT_PW as int) == d.len() - x.value
}


/// Writing a table leaves the builder able to write another table right
/// away while room remains, or to finish a buffer that was not finished.
pub proof fn lemma_written_table_keeps_builder_usable(pre: FlatBufferBuilder, post: FlatBufferBuilder)
    requires
        ready_for_table(pre),
        fbb_used(pre) + 0x2_0040 <= max_buffer_size(),
        table_written(pre, post),
    ensures
        ready_for_table(post),
        fbb_used(post) > 0,
        !fbb_finished(pre) ==> !fbb_nested(post) && !fbb_finished(post),
{
}

/// The fields of a `Message` to be written.
pub struct MessageArgs {
    pub event_type: Event,
    pub event: Option<Offset<UnionWIPOffset>>,
}

impl Default for MessageArgs {
    fn default() -> (r: Self)
        ensures
            r.event_type == Event::NONE,
            r.event is None,
    {
        MessageArgs { event_type: Event::NONE, event: None }
    }
}

/// Writes the fields of one `Message` table.
pub struct MessageBuilder<'a: 'b, 'b> {
    pub fbb_: &'b mut FlatBufferBuilder<'a>,
    pub start_: Offset<TableUnfinishedWIPOffset>,
}

/// What pushing a byte field does: unless it equals the default and
/// defaults are not forced, the byte goes in front and the field is recorded.
pub open spec fn byte_field_pushed(pre: FlatBufferBuilder, post: FlatBufferBuilder, slot: u16, x: u8, default: u8) -> bool {
    &&& fbb_nested(post)
    &&& fbb_finished(post) == fbb_finished(pre)
    &&& fbb_force_defaults(post) == fbb_force_defaults(pre)
    &&& if x != default || fbb_force_defaults(pre) {
        &&& fbb_data(post) == seq![x] + fbb_data(pre)
        &&& fbb_field_locs(post) == fbb_field_locs(pre).push((slot, offset_of(fbb_used(post) as int)))
        &&& fbb_min_align(post) == aligned_to(fbb_min_align(pre), 1)
    } else {
        &&& fbb_data(post) == fbb_data(pre)
        &&& fbb_field_locs(post) == fbb_field_locs(pre)
        &&& fbb_min_align(post) == fbb_min_align(pre)
    }
}

/// What pushing an offset field does: the distance to the offset's value
/// goes in front, after at most 3 bytes of padding, and the field is recorded.
pub open spec fn offset_field_pushed(pre: FlatBufferBuilder, post: FlatBufferBuilder, slot: u16, value: u32) -> bool {
    &&& fbb_nested(post)
    &&& fbb_finished(post) == fbb_finished(pre)
    &&& fbb_force_defaults(post) == fbb_force_defaults(pre)
    &&& fbb_used(pre) + 4 <= fbb_used(post) <= fbb_used(pre) + 7
    &&& is_suffix(fbb_data(pre), fbb_data(post))
    &&& le_u32(fbb_data(post), 0) == offset_of(fbb_used(post) - value)
    &&& fbb_field_locs(post) == fbb_field_locs(pre).push((slot, offset_of(fbb_used(post) as int)))
    &&& fbb_min_align(post) == aligned_to(fbb_min_align(pre), 4)
}

/// What starting a table does: the builder is nested and nothing else changes.
pub open spec fn table_started(pre: FlatBufferBuilder, post: FlatBufferBuilder) -> bool {
    &&& fbb_nested(post)
    &&& fbb_finished(post) == fbb_finished(pre)
    &&& fbb_force_defaults(post) == fbb_force_defaults(pre)
    &&& fbb_field_locs(post) == fbb_field_locs(pre)
    &&& fbb_data(post) == fbb_data(pre)
    &&& fbb_min_align(post) == fbb_min_align(pre)
}

/// The table under construction, started at `start`, can be ended.
pub open spec fn table_endable(fbb: FlatBufferBuilder, start: u32) -> bool {
    &&& fbb_nested(fbb)
    &&& fbb_room(fbb)
    &&& start <= fbb_used(fbb) <= start + 0xFFF0
    &&& locs_ok(fbb_field_locs(fbb), start, fbb_used(fbb))
}

impl<'a: 'b, 'b> MessageBuilder<'a, 'b> {
    /// Starts a `Message` table.
    pub fn new(_fbb: &'b mut FlatBufferBuilder<'a>) -> (b: MessageBuilder<'a, 'b>)
        requires
            !fbb_nested(*old(_fbb)),
        ensures
            table_started(*old(_fbb), *b.fbb_),
            b.start_.value == offset_of(fbb_used(*old(_fbb)) as int),
            *final(b.fbb_) == *final(_fbb),
    {
        let start = fbb_start_table(_fbb);
        MessageBuilder { fbb_: _fbb, start_: start }
    }

    /// Writes the event tag, unless it is `NONE` (the default) and defaults
    /// are not forced.
    pub fn add_event_type(&mut self, event_type: Event)
        requires
            fbb_nested(*old(self).fbb_),
        ensures
            byte_field_pushed(
                *old(self).fbb_,
                *final(self).fbb_,
                Message::VT_EVENT_TYPE,
                tag_of_event(event_type),
                0,
            ),
            final(self).start_ == old(self).start_,
            *final(final(self).fbb_) == *final(old(self).fbb_),
    {
        let tag = event_type.tag();
        fbb_push_slot_u8(self.fbb_, Message::VT_EVENT_TYPE, tag, 0);
    }

    /// Writes the offset of the event table.
    pub fn add_event(&mut self, event: Offset<UnionWIPOffset>)
        requires
            fbb_nested(*old(self).fbb_),
            event.value <= fbb_used(*old(self).fbb_),
        ensures
            offset_field_pushed(*old(self).fbb_, *final(self).fbb_, Message::VT_EVENT, event.value),
            final(self).start_ == old(self).start_,
            *final(final(self).fbb_) == *final(old(self).fbb_),
    {
        fbb_push_union(self.fbb_, Message::VT_EVENT, event);
    }

    /// Ends the `Message` table, and returns its offset.
    pub fn finish(self) -> (o: Offset<Message<'a>>)
        requires
            table_endable(*self.fbb_, self.start_.value),
        ensures
            table_ended(*old(self.fbb_), *final(self.fbb_), o.value),
    {
        fbb_end_table(self.fbb_, self.start_)
    }
}

impl<'a> Message<'a> {
    /// Writes a `Message` table: the event offset when there is one, then the
    /// event tag unless it is `NONE` and defaults are not forced, then the
    /// table's vtable. The table at the returned offset reads back as `args`.
    pub fn create<'bldr: 'args, 'args: 'mut_bldr, 'mut_bldr>(
        _fbb: &'mut_bldr mut FlatBufferBuilder<'bldr>,
        args: &'args MessageArgs,
    ) -> (o: Offset<Message<'bldr>>)
        requires
            ready_for_table(*old(_fbb)),
            args.event matches Some(e) ==> e.value <= fbb_used(*old(_fbb)),
        ensures
            table_written(*old(_fbb), *final(_fbb)),
            message_written_as(fbb_data(*final(_fbb)), fbb_used(*final(_fbb)) - o.value, *args),
            field_offset(
                fbb_data(*final(_fbb)),
                fbb_used(*final(_fbb)) - o.value,
                Message::VT_EVENT_TYPE as int,
            ) != 0 <==> (args.event_type != Event::NONE || fbb_force_defaults(*old(_fbb))),
    {
        let mut builder = MessageBuilder::new(_fbb);
        let ghost b0 = *builder.fbb_;
        if let Some(x) = args.event {
            builder.add_event(x);
        }
        let ghost b1 = *builder.fbb_;
        builder.add_event_type(args.event_type);
        let ghost b2 = *builder.fbb_;
        proof {
            lemma_message_fields_endable(b0, b1, b2, builder.start_.value, *args);
        }
        let o = builder.finish();
        proof {
            lemma_message_read_back(b0, b1, b2, *final(_fbb), o.value, *args);
        }
        o
    }
}

/// The fields a `Message` builder recorded can be ended as a table.
proof fn lemma_message_fields_endable(
    b0: FlatBufferBuilder,
    b1: FlatBufferBuilder,
    b2: FlatBufferBuilder,
    start: u32,
    args: MessageArgs,
)
    requires
        fbb_nested(b0),
        fbb_field_locs(b0) == Seq::<(u16, u32)>::empty(),
        fbb_used(b0) + 0x1_0020 <= max_buffer_size(),
        start == fbb_used(b0),
        match args.event {
            Some(e) => offset_field_pushed(b0, b1, Message::VT_EVENT, e.value),
            None => b1 == b0,
        },
        byte_field_pushed(b1, b2, Message::VT_EVENT_TYPE, tag_of_event(args.event_type), 0),
    ensures
        table_endable(b2, start),
{
    let l1 = fbb_field_locs(b1);
    let l2 = fbb_field_locs(b2);
    assert(fbb_used(b2) <= fbb_used(b0) + 8);
    assert forall|i: int, j: int| 0 <= i < j < l2.len() implies (#[trigger] l2[i]).0 != (
    #[trigger] l2[j]).0 by {
        if args.event is Some {
            assert(l1 =~= seq![(Message::VT_EVENT, offset_of(fbb_used(b1) as int))]);
        }
    }
    assert forall|i: int| 0 <= i < l2.len() implies {
        &&& (#[trigger] l2[i]).0 >= 4
        &&& l2[i].0 % 2 == 0
        &&& l2[i].0 + 2 <= 0xFFFF
        &&& start < l2[i].1 <= fbb_used(b2)
    } by {
        if args.event is Some {
            assert(l1 =~= seq![(Message::VT_EVENT, offset_of(fbb_used(b1) as int))]);
        }
    }
}

/// The table ended after the `Message` fields were pushed reads back as the
/// arguments it was written with.
proof fn lemma_message_read_back(
    b0: FlatBufferBuilder,
    b1: FlatBufferBuilder,
    b2: FlatBufferBuilder,
    b3: FlatBufferBuilder,
    o: u32,
    args: MessageArgs,
)
    requires
        fbb_field_locs(b0) == Seq::<(u16, u32)>::empty(),
        fbb_used(b0) + 0x1_0020 <= max_buffer_size(),
        match args.event {
            Some(e) => offset_field_pushed(b0, b1, Message::VT_EVENT, e.value) && e.value
                <= fbb_used(b0),
            None => b1 == b0,
        },
        byte_field_pushed(b1, b2, Message::VT_EVENT_TYPE, tag_of_event(args.event_type), 0),
        table_ended(b2, b3, o),
    ensures
        message_written_as(fbb_data(b3), fbb_used(b3) - o, args),
        field_offset(fbb_data(b3), fbb_used(b3) - o, Message::VT_EVENT_TYPE as int) != 0 <==> (
        tag_of_event(args.event_type) != 0 || fbb_force_defaults(b1)),
        is_suffix(fbb_data(b0), fbb_data(b3)),
        fbb_used(b0) + 4 <= fbb_used(b3) <= fbb_used(b0) + 0x1_0020,
        fbb_finished(b3) == fbb_finished(b0),
        fbb_force_defaults(b3) == fbb_force_defaults(b0),
        fbb_min_align(b3) == aligned_to(fbb_min_align(b0), 4),
{
    let d1 = fbb_data(b1);
    let d2 = fbb_data(b2);
    let d3 = fbb_data(b3);
    let u1 = fbb_used(b1);
    let u2 = fbb_used(b2);
    let u3 = fbb_used(b3);
    let loc = u3 - o;
    let l1 = fbb_field_locs(b1);
    let l2 = fbb_field_locs(b2);
    if args.event is Some {
        assert(l1 =~= seq![(Message::VT_EVENT, offset_of(u1 as int))]);
    } else {
        assert(l1 =~= Seq::<(u16, u32)>::empty());
    }
    assert(is_suffix(d1, d2)) by {
        if d2 != d1 {
            assert(d2.subrange(d2.len() - d1.len(), d2.len() as int) =~= d1);
        } else {
            assert(d2.subrange(0, d2.len() as int) =~= d2);
        }
    }
    lemma_suffix_trans(d1, d2, d3);
    let d0 = fbb_data(b0);
    assert(is_suffix(d0, d1)) by {
        if d1 == d0 {
            assert(d1.subrange(0, d1.len() as int) =~= d1);
        }
    }
    lemma_suffix_trans(d0, d1, d3);
    // the event offset
    match args.event {
        Some(e) => {
            assert(l2[0] == (Message::VT_EVENT, offset_of(u1 as int)));
            assert(field_offset(d3, loc, l2[0].0 as int) == o - l2[0].1);
            lemma_suffix_le_u32(d1, d3, u1 as int);
        },
        None => {
            assert(!has_slot(l2, Message::VT_EVENT));
        },
    }
    // the event tag
    if tag_of_event(args.event_type) != 0 || fbb_force_defaults(b1) {
        let k = l2.len() - 1;
        assert(l2[k] == (Message::VT_EVENT_TYPE, offset_of(u2 as int)));
        assert(field_offset(d3, loc, l2[k].0 as int) == o - l2[k].1);
        lemma_suffix_index(d2, d3, u2 as int);
    } else {
        assert(!has_slot(l2, Message::VT_EVENT_TYPE));
        assert(args.event_type == Event::NONE);
    }
    assert(slot_readable(d3, loc, Message::VT_EVENT_TYPE as int));
    assert(slot_readable(d3, loc, Message::VT_EVENT as int));
}


/// The fields of a `Login` to be written.
pub struct LoginArgs<'a> {
    pub id: Option<Offset<&'a str>>,
    pub pw: Option<Offset<&'a str>>,
}

impl<'a> Default for LoginArgs<'a> {
    fn default() -> (r: Self)
        ensures
            r.id is None,
            r.pw is None,
    {
        LoginArgs { id: None, pw: None }
    }
}

/// Writes the fields of one `Login` table.
pub struct LoginBuilder<'a: 'b, 'b> {
    pub fbb_: &'b mut FlatBufferBuilder<'a>,
    pub start_: Offset<TableUnfinishedWIPOffset>,
}

impl<'a: 'b, 'b> LoginBuilder<'a, 'b> {
    /// Starts a `Login` table.
    pub fn new(_fbb: &'b mut FlatBufferBuilder<'a>) -> (b: LoginBuilder<'a, 'b>)
        requires
            !fbb_nested(*old(_fbb)),
        ensures
            table_started(*old(_fbb), *b.fbb_),
            b.start_.value == offset_of(fbb_used(*old(_fbb)) as int),
            *final(b.fbb_) == *final(_fbb),
    {
        let start = fbb_start_table(_fbb);
        LoginBuilder { fbb_: _fbb, start_: start }
    }

    /// Writes the offset of the id string.
    pub fn add_id(&mut self, id: Offset<&'b str>)
        requires
            fbb_nested(*old(self).fbb_),
            id.value <= fbb_used(*old(self).fbb_),
        ensures
            offset_field_pushed(*old(self).fbb_, *final(self).fbb_, Login::VT_ID, id.value),
            final(self).start_ == old(self).start_,
            *final(final(self).fbb_) == *final(old(self).fbb_),
    {
        fbb_push_str(self.fbb_, Login::VT_ID, id);
    }

    /// Writes the offset of the password string.
    pub fn add_pw(&mut self, pw: Offset<&'b str>)
        requires
            fbb_nested(*old(self).fbb_),
            pw.value <= fbb_used(*old(self).fbb_),
        ensures
            offset_field_pushed(*old(self).fbb_, *final(self).fbb_, Login::VT_PW, pw.value),
            final(self).start_ == old(self).start_,
            *final(final(self).fbb_) == *final(old(self).fbb_),
    {
        fbb_push_str(self.fbb_, Login::VT_PW, pw);
    }

    /// Ends the `Login` table, and returns its offset.
    pub fn finish(self) -> (o: Offset<Login<'a>>)
        requires
            table_endable(*self.fbb_, self.start_.value),
        ensures
            table_ended(*old(self.fbb_), *final(self.fbb_), o.value),
    {
        fbb_end_table(self.fbb_, self.start_)
    }
}

impl<'a> Login<'a> {
    /// Writes a `Login` table: the password offset, then the id offset, each
    /// when there is one, then the table's vtable. The table at the returned
    /// offset reads back as `args`.
    pub fn create<'bldr: 'args, 'args: 'mut_bldr, 'mut_bldr>(
        _fbb: &'mut_bldr mut FlatBufferBuilder<'bldr>,
        args: &'args LoginArgs<'args>,
    ) -> (o: Offset<Login<'bldr>>)
        requires
            ready_for_table(*old(_fbb)),
            args.id matches Some(x) ==> x.value <= fbb_used(*old(_fbb)),
            args.pw matches Some(x) ==> x.value <= fbb_used(*old(_fbb)),
        ensures
            table_written(*old(_fbb), *final(_fbb)),
            login_written_as(fbb_data(*final(_fbb)), fbb_used(*final(_fbb)) - o.value, *args),
    {
        let mut builder = LoginBuilder::new(_fbb);
        let ghost b0 = *builder.fbb_;
        if let Some(x) = args.pw {
            builder.add_pw(x);
        }
        let ghost b1 = *builder.fbb_;
        if let Some(x) = args.id {
            builder.add_id(x);
        }
        let ghost b2 = *builder.fbb_;
        proof {
            lemma_login_fields_endable(b0, b1, b2, builder.start_.value, *args);
        }
        let o = builder.finish();
        proof {
            lemma_login_read_back(b0, b1, b2, *final(_fbb), o.value, *args);
            lemma_login_table_written(b0, b1, b2, *final(_fbb), o.value, *args);
        }
        o
    }
}

/// The fields a `Login` builder recorded can be ended as a table.
proof fn lemma_login_fields_endable(
    b0: FlatBufferBuilder,
    b1: FlatBufferBuilder,
    b2: FlatBufferBuilder,
    start: u32,
    args: LoginArgs,
)
    requires
        fbb_nested(b0),
        fbb_field_locs(b0) == Seq::<(u16, u32)>::empty(),
        fbb_used(b0) + 0x1_0020 <= max_buffer_size(),
        start == fbb_used(b0),
        match args.pw {
            Some(x) => offset_field_pushed(b0, b1, Login::VT_PW, x.value),
            None => b1 == b0,
        },
        match args.id {
            Some(x) => offset_field_pushed(b1, b2, Login::VT_ID, x.value),
            None => b2 == b1,
        },
    ensures
        table_endable(b2, start),
{
    let l1 = fbb_field_locs(b1);
    let l2 = fbb_field_locs(b2);
    if args.pw is Some {
        assert(l1 =~= seq![(Login::VT_PW, offset_of(fbb_used(b1) as int))]);
    } else {
        assert(l1 =~= Seq::<(u16, u32)>::empty());
    }
    assert(fbb_used(b2) <= fbb_used(b0) + 14);
    assert forall|i: int, j: int| 0 <= i < j < l2.len() implies (#[trigger] l2[i]).0 != (
    #[trigger] l2[j]).0 by {}
    assert forall|i: int| 0 <= i < l2.len() implies {
        &&& (#[trigger] l2[i]).0 >= 4
        &&& l2[i].0 % 2 == 0
        &&& l2[i].0 + 2 <= 0xFFFF
        &&& start < l2[i].1 <= fbb_used(b2)
    } by {}
}

/// The table ended after the `Login` fields were pushed reads back as the
/// arguments it was written with.
#[verifier::rlimit(40)]
proof fn lemma_login_read_back(
    b0: FlatBufferBuilder,
    b1: FlatBufferBuilder,
    b2: FlatBufferBuilder,
    b3: FlatBufferBuilder,
    o: u32,
    args: LoginArgs,
)
    requires
        fbb_field_locs(b0) == Seq::<(u16, u32)>::empty(),
        fbb_used(b0) + 0x1_0020 <= max_buffer_size(),
        match args.pw {
            Some(x) => offset_field_pushed(b0, b1, Login::VT_PW, x.value) && x.value <= fbb_used(b0),
            None => b1 == b0,
        },
        match args.id {
            Some(x) => offset_field_pushed(b1, b2, Login::VT_ID, x.value) && x.value <= fbb_used(b1),
            None => b2 == b1,
        },
        table_ended(b2, b3, o),
    ensures
        login_written_as(fbb_data(b3), fbb_used(b3) - o, args),
{
    let d1 = fbb_data(b1);
    let d2 = fbb_data(b2);
    let d3 = fbb_data(b3);
    let u1 = fbb_used(b1);
    let u2 = fbb_used(b2);
    let u3 = fbb_used(b3);
    let loc = u3 - o;
    let l1 = fbb_field_locs(b1);
    let l2 = fbb_field_locs(b2);
    if args.pw is Some {
        assert(l1 =~= seq![(Login::VT_PW, offset_of(u1 as int))]);
    } else {
        assert(l1 =~= Seq::<(u16, u32)>::empty());
    }
    assert(is_suffix(d2, d3));
    assert(is_suffix(d1, d2)) by {
        if args.id is None {
            assert(d2.subrange(0, d2.len() as int) =~= d2);
        }
    }
    lemma_suffix_trans(d1, d2, d3);
    match args.pw {
        Some(x) => {
            assert(l2[0] == (Login::VT_PW, offset_of(u1 as int)));
            assert(field_offset(d3, loc, l2[0].0 as int) == o - l2[0].1);
            lemma_suffix_le_u32(d1, d3, u1 as int);
        },
        None => {
            assert(!has_slot(l2, Login::VT_PW));
        },
    }
    match args.id {
        Some(x) => {
            let k = l2.len() - 1;
            assert(l2[k] == (Login::VT_ID, offset_of(u2 as int)));
            assert(field_offset(d3, loc, l2[k].0 as int) == o - l2[k].1);
            lemma_suffix_le_u32(d2, d3, u2 as int);
        },
        None => {
            assert(!has_slot(l2, Login::VT_ID));
        },
    }
    assert(slot_readable(d3, loc, Login::VT_ID as int));
    assert(slot_readable(d3, loc, Login::VT_PW as int));
}

/// Pushing the `Login` fields and ending the table wrote a table after the
/// bytes the builder held before.
proof fn lemma_login_table_written(
    b0: FlatBufferBuilder,
    b1: FlatBufferBuilder,
    b2: FlatBufferBuilder,
    b3: FlatBufferBuilder,
    o: u32,
    args: LoginArgs,
)
    requires
        match args.pw {
            Some(x) => offset_field_pushed(b0, b1, Login::VT_PW, x.value),
            None => b1 == b0,
        },
        match args.id {
            Some(x) => offset_field_pushed(b1, b2, Login::VT_ID, x.value),
            None => b2 == b1,
        },
        table_ended(b2, b3, o),
    ensures
        is_suffix(fbb_data(b0), fbb_data(b3)),
        fbb_used(b0) + 4 <= fbb_used(b3) <= fbb_used(b0) + 0x1_0020,
        fbb_finished(b3) == fbb_finished(b0),
        fbb_force_defaults(b3) == fbb_force_defaults(b0),
        fbb_min_align(b3) == aligned_to(fbb_min_align(b0), 4),
{
    let d0 = fbb_data(b0);
    let d1 = fbb_data(b1);
    let d2 = fbb_data(b2);
    let d3 = fbb_data(b3);
    assert(is_suffix(d0, d1)) by {
        if d1 == d0 {
            assert(d1.subrange(0, d1.len() as int) =~= d1);
        }
    }
    assert(is_suffix(d1, d2)) by {
        if d2 == d1 {
            assert(d2.subrange(0, d2.len() as int) =~= d2);
        }
    }
    lemma_suffix_trans(d0, d1, d2);
    lemma_suffix_trans(d0, d2, d3);
}

/// `FlatBufferBuilder::finished_data`: the bytes of the finished buffer,
/// which are the bytes written (its debug assertion needs a finished buffer).
#[verifier::external_body]
fn fbb_finished_data<'a, 'b>(fbb: &'b FlatBufferBuilder<'a>) -> (d: &'b [u8])
    requires
        fbb_finished(*fbb),
    ensures
        d@ == fbb_data(*fbb),
{
    fbb.finished_data()
}

/// The bytes of a finished buffer.
pub fn finished_data<'a, 'b>(fbb: &'b FlatBufferBuilder<'a>) -> (d: &'b [u8])
    requires
        fbb_finished(*fbb),
    ensures
        d@ == fbb_data(*fbb),
{
    fbb_finished_data(fbb)
}

/// What finishing a buffer does: the buffer is marked finished, the bytes
/// written stay in place, and the buffer starts with the distance to the root.
pub open spec fn buffer_finished(pre: FlatBufferBuilder, post: FlatBufferBuilder, root: u32) -> bool {
    &&& fbb_finished(post)
    &&& !fbb_nested(post)
    &&& fbb_used(pre) + 4 <= fbb_used(post) <= fbb_used(pre) + fbb_min_align(pre) + 7
    &&& is_suffix(fbb_data(pre), fbb_data(post))
    &&& le_u32(fbb_data(post), 0) == offset_of(fbb_used(post) - root)
}

/// What finishing a buffer with its size in front does: the buffer is marked
/// finished, the bytes written stay in place, and the buffer starts with its
/// size and then the distance to the root.
pub open spec fn size_prefixed_buffer_finished(pre: FlatBufferBuilder, post: FlatBufferBuilder, root: u32) -> bool {
    &&& fbb_finished(post)
    &&& !fbb_nested(post)
    &&& fbb_used(pre) + 8 <= fbb_used(post) <= fbb_used(pre) + fbb_min_align(pre) + 11
    &&& is_suffix(fbb_data(pre), fbb_data(post))
    &&& unpadded_size_prefix(fbb_data(post), root)
}

/// Finishes a buffer whose root is a `Message`: the buffer then starts
/// with the distance to the root table.
pub fn finish_message_buffer<'a, 'b>(fbb: &'b mut FlatBufferBuilder<'a>, root: Offset<Message<'a>>)
    requires
        !fbb_nested(*old(fbb)),
        !fbb_finished(*old(fbb)),
        fbb_used(*old(fbb)) > 0,
        root.value <= fbb_used(*old(fbb)),
    ensures
        buffer_finished(*old(fbb), *final(fbb), root.value),
{
    fbb_finish(fbb, root);
}

/// Finishes a buffer whose root is a `Message`, with its size in front:
/// the size, then (after the padding it counts out) the distance to the root.
pub fn finish_size_prefixed_message_buffer<'a, 'b>(
    fbb: &'b mut FlatBufferBuilder<'a>,
    root: Offset<Message<'a>>,
)
    requires
        !fbb_nested(*old(fbb)),
        !fbb_finished(*old(fbb)),
        fbb_used(*old(fbb)) > 0,
        root.value <= fbb_used(*old(fbb)),
    ensures
        size_prefixed_buffer_finished(*old(fbb), *final(fbb), root.value),
{
    fbb_finish_size_prefixed(fbb, root);
}

} // verus!
