//! The FlatBuffers wire format, reading side.
//!
//! A buffer starts with a little-endian `u32` offset to its root table. A
//! table starts with a signed `i32` that points back to its vtable; the
//! vtable holds its own length in bytes, the table's inline length, and then
//! one `u16` per field: the field's offset from the table start, or 0 when
//! the field is absent. A string is a `u32` byte length followed by that
//! many UTF-8 bytes. Every read here states the bytes it needs in range.
use vstd::prelude::*;
use vstd::utf8::{valid_utf8, decode_utf8};
use flatbuffers::{Follow, ForwardsUOffset, read_scalar_at};

verus! {

/// The little-endian `u16` at position `p`.
pub open spec fn le_u16(b: Seq<u8>, p: int) -> int {
    b[p] as int + 256 * (b[p + 1] as int)
}

/// The little-endian `u32` at position `p`.
pub open spec fn le_u32(b: Seq<u8>, p: int) -> int {
    b[p] as int + 256 * (b[p + 1] as int) + 65536 * (b[p + 2] as int) + 16777216 * (b[p + 3] as int)
}

/// The little-endian two's-complement `i32` at position `p`.
pub open spec fn le_i32(b: Seq<u8>, p: int) -> int {
    if le_u32(b, p) < 0x8000_0000 {
        le_u32(b, p)
    } else {
        le_u32(b, p) - 0x1_0000_0000
    }
}

/// Where the vtable of the table at `loc` starts.
pub open spec fn vtable_pos(b: Seq<u8>, loc: int) -> int {
    loc - le_i32(b, loc)
}

/// The length in bytes of the vtable of the table at `loc`.
pub open spec fn vtable_len(b: Seq<u8>, loc: int) -> int {
    le_u16(b, vtable_pos(b, loc))
}

/// The table at `loc` and the head of its vtable can be read.
pub open spec fn table_readable(b: Seq<u8>, loc: int) -> bool {
    &&& 0 <= loc
    &&& loc + 4 <= b.len()
    &&& loc <= 0x7fff_ffff
    &&& 0 <= vtable_pos(b, loc) <= 0x7fff_ffff
    &&& vtable_pos(b, loc) + 2 <= b.len()
}

/// The vtable entry of the field whose entry sits at byte `slot` can be read.
pub open spec fn slot_readable(b: Seq<u8>, loc: int, slot: int) -> bool {
    &&& table_readable(b, loc)
    &&& slot < vtable_len(b, loc) ==> vtable_pos(b, loc) + slot + 2 <= b.len()
}

/// The offset of a field from the start of its table; 0 when the field is absent.
pub open spec fn field_offset(b: Seq<u8>, loc: int, slot: int) -> int {
    if slot < vtable_len(b, loc) {
        le_u16(b, vtable_pos(b, loc) + slot)
    } else {
        0
    }
}

/// A `u8` field can be read.
pub open spec fn u8_field_readable(b: Seq<u8>, loc: int, slot: int) -> bool {
    &&& slot_readable(b, loc, slot)
    &&& field_offset(b, loc, slot) != 0 ==> loc + field_offset(b, loc, slot) + 1 <= b.len()
}

/// The value of a `u8` field, or the default when it is absent.
pub open spec fn field_u8(b: Seq<u8>, loc: int, slot: int, default: u8) -> u8 {
    if field_offset(b, loc, slot) == 0 {
        default
    } else {
        b[loc + field_offset(b, loc, slot)]
    }
}

/// Where the object that an offset field points at starts.
pub open spec fn field_target(b: Seq<u8>, loc: int, slot: int) -> int {
    let pos = loc + field_offset(b, loc, slot);
    pos + le_u32(b, pos)
}

/// An offset field (to a table or a string) can be read.
pub open spec fn offset_field_readable(b: Seq<u8>, loc: int, slot: int) -> bool {
    &&& slot_readable(b, loc, slot)
    &&& field_offset(b, loc, slot) != 0 ==> {
        &&& loc + field_offset(b, loc, slot) + 4 <= b.len()
        &&& field_target(b, loc, slot) <= usize::MAX
    }
}

/// The bytes of the string at `sloc`.
pub open spec fn string_bytes(b: Seq<u8>, sloc: int) -> Seq<u8> {
    b.subrange(sloc + 4, sloc + 4 + le_u32(b, sloc))
}

/// The string at `sloc` lies inside the buffer and is valid UTF-8.
pub open spec fn string_readable(b: Seq<u8>, sloc: int) -> bool {
    &&& 0 <= sloc
    &&& sloc + 4 <= b.len()
    &&& sloc + 4 + le_u32(b, sloc) <= b.len()
    &&& valid_utf8(string_bytes(b, sloc))
}

/// A string field can be read.
pub open spec fn string_field_readable(b: Seq<u8>, loc: int, slot: int) -> bool {
    &&& offset_field_readable(b, loc, slot)
    &&& field_offset(b, loc, slot) != 0 ==> string_readable(b, field_target(b, loc, slot))
}

/// The characters of a present string field.
pub open spec fn field_string(b: Seq<u8>, loc: int, slot: int) -> Seq<char> {
    decode_utf8(string_bytes(b, field_target(b, loc, slot)))
}

/// `flatbuffers::read_scalar_at::<u16>`: the little-endian `u16` at `loc`.
#[verifier::external_body]
pub fn read_u16_at(buf: &[u8], loc: usize) -> (v: u16)
    requires
        loc + 2 <= buf@.len(),
    ensures
        v == le_u16(buf@, loc as int),
{
    read_scalar_at::<u16>(buf, loc)
}

/// `flatbuffers::read_scalar_at::<u32>`: the little-endian `u32` at `loc`.
#[verifier::external_body]
pub fn read_u32_at(buf: &[u8], loc: usize) -> (v: u32)
    requires
        loc + 4 <= buf@.len(),
    ensures
        v == le_u32(buf@, loc as int),
{
    read_scalar_at::<u32>(buf, loc)
}

/// `flatbuffers::read_scalar_at::<i32>`: the little-endian `i32` at `loc`.
#[verifier::external_body]
pub fn read_i32_at(buf: &[u8], loc: usize) -> (v: i32)
    requires
        loc + 4 <= buf@.len(),
    ensures
        v == le_i32(buf@, loc as int),
{
    read_scalar_at::<i32>(buf, loc)
}

/// `std::str::from_utf8`, reduced to whether it accepts the bytes.
#[verifier::external_body]
pub fn is_valid_utf8(bytes: &[u8]) -> (ok: bool)
    ensures
        ok == valid_utf8(bytes@),
{
    std::str::from_utf8(bytes).is_ok()
}

/// `flatbuffers::Table::get::<u8>` with a default: the field's byte, or the default.
#[verifier::external_body]
pub fn table_get_u8(buf: &[u8], loc: usize, slot: u16, default: u8) -> (r: Option<u8>)
    requires
        u8_field_readable(buf@, loc as int, slot as int),
    ensures
        r == Some(field_u8(buf@, loc as int, slot as int, default)),
{
    flatbuffers::Table::new(buf, loc).get::<u8>(slot, Some(default))
}

/// `flatbuffers::Table::get::<ForwardsUOffset<Table>>`: where the table that
/// the field points at starts, if the field is present.
#[verifier::external_body]
pub fn table_get_table(buf: &[u8], loc: usize, slot: u16) -> (r: Option<usize>)
    requires
        offset_field_readable(buf@, loc as int, slot as int),
    ensures
        r == (if field_offset(buf@, loc as int, slot as int) == 0 {
            None
        } else {
            Some(field_target(buf@, loc as int, slot as int) as usize)
        }),
{
    flatbuffers::Table::new(buf, loc).get::<ForwardsUOffset<flatbuffers::Table>>(slot, None).map(|t| t.loc)
}

/// `flatbuffers::Table::get::<ForwardsUOffset<&str>>`: the string that the
/// field points at, if the field is present.
#[verifier::external_body]
pub fn table_get_str<'a>(buf: &'a [u8], loc: usize, slot: u16) -> (r: Option<&'a str>)
    requires
        string_field_readable(buf@, loc as int, slot as int),
    ensures
        r is Some <==> field_offset(buf@, loc as int, slot as int) != 0,
        r matches Some(s) ==> s@ == field_string(buf@, loc as int, slot as int),
{
    flatbuffers::Table::new(buf, loc).get::<ForwardsUOffset<&'a str>>(slot, None)
}

/// `<ForwardsUOffset<Table>>::follow(buf, pos)`: where the table that the
/// offset at `pos` points at starts.
#[verifier::external_body]
pub fn follow_offset(buf: &[u8], pos: usize) -> (loc: usize)
    requires
        pos + 4 <= buf@.len(),
        pos + le_u32(buf@, pos as int) <= usize::MAX,
    ensures
        loc == pos + le_u32(buf@, pos as int),
{
    <ForwardsUOffset<flatbuffers::Table>>::follow(buf, pos).loc
}

/// Whether the table at `loc` and the head of its vtable can be read.
pub fn check_table(buf: &[u8], loc: usize) -> (ok: bool)
    ensures
        ok == table_readable(buf@, loc as int),
{
    if buf.len() < 4 || loc > buf.len() - 4 || loc > 0x7fff_ffff {
        return false;
    }
    let back = read_i32_at(buf, loc);
    let vt: i64 = loc as i64 - back as i64;
    if vt < 0 || vt > 0x7fff_ffff {
        return false;
    }
    (vt as usize) + 2 <= buf.len()
}

/// Where the vtable of a readable table starts.
pub fn vtable_start(buf: &[u8], loc: usize) -> (vt: usize)
    requires
        table_readable(buf@, loc as int),
    ensures
        vt == vtable_pos(buf@, loc as int),
{
    let back = read_i32_at(buf, loc);
    let vt: i64 = loc as i64 - back as i64;
    vt as usize
}

/// The offset of a field, when its vtable entry can be read.
pub fn check_slot(buf: &[u8], loc: usize, slot: u16) -> (r: Option<u16>)
    requires
        table_readable(buf@, loc as int),
    ensures
        r is Some <==> slot_readable(buf@, loc as int, slot as int),
        r matches Some(o) ==> o == field_offset(buf@, loc as int, slot as int),
{
    let vt = vtable_start(buf, loc);
    let n = read_u16_at(buf, vt);
    if (slot as usize) >= (n as usize) {
        return Some(0);
    }
    if vt + (slot as usize) + 2 > buf.len() {
        return None;
    }
    Some(read_u16_at(buf, vt + slot as usize))
}

/// Whether a `u8` field of a readable table can be read.
pub fn check_u8_field(buf: &[u8], loc: usize, slot: u16) -> (ok: bool)
    requires
        table_readable(buf@, loc as int),
    ensures
        ok == u8_field_readable(buf@, loc as int, slot as int),
{
    match check_slot(buf, loc, slot) {
        None => false,
        Some(o) => o == 0 || loc + (o as usize) + 1 <= buf.len(),
    }
}

/// Whether an offset field of a readable table can be read.
pub fn check_offset_field(buf: &[u8], loc: usize, slot: u16) -> (ok: bool)
    requires
        table_readable(buf@, loc as int),
    ensures
        ok == offset_field_readable(buf@, loc as int, slot as int),
{
    match check_slot(buf, loc, slot) {
        None => false,
        Some(o) => {
            if o == 0 {
                true
            } else {
                let pos = loc + (o as usize);
                if pos + 4 > buf.len() {
                    false
                } else {
                    let rel = read_u32_at(buf, pos);
                    (rel as usize) <= usize::MAX - pos
                }
            }
        },
    }
}

/// Whether the string at `sloc` lies inside the buffer and is valid UTF-8.
pub fn check_string(buf: &[u8], sloc: usize) -> (ok: bool)
    ensures
        ok == string_readable(buf@, sloc as int),
{
    if buf.len() < 4 || sloc > buf.len() - 4 {
        return false;
    }
    let n = read_u32_at(buf, sloc);
    if (n as usize) > buf.len() - 4 - sloc {
        return false;
    }
    let bytes = &buf[sloc + 4..sloc + 4 + n as usize];
    is_valid_utf8(bytes)
}

/// Whether a string field of a readable table can be read.
pub fn check_string_field(buf: &[u8], loc: usize, slot: u16) -> (ok: bool)
    requires
        table_readable(buf@, loc as int),
    ensures
        ok == string_field_readable(buf@, loc as int, slot as int),
{
    if !check_offset_field(buf, loc, slot) {
        return false;
    }
    match table_get_table(buf, loc, slot) {
        None => true,
        Some(target) => check_string(buf, target),
    }
}

} // verus!
