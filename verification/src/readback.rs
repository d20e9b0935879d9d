//! What a written buffer reads back as.
//!
//! A builder writes back to front, so everything written later lands in
//! front of a table: the table's bytes do not change, they only move by the
//! number of bytes put in front. Every read of the wire format is relative to
//! the table's start, so a table reads the same after the move. From that,
//! the tables that `Message::create` and `Login::create` write read back, in
//! the finished buffer, as the arguments they were written with.
use vstd::prelude::*;
use flatbuffers::FlatBufferBuilder;
use vstd::utf8::{encode_utf8, decode_utf8, encode_utf8_valid_utf8, encode_utf8_decode_utf8};
use crate::builder::{
    fbb_data, fbb_used, is_suffix, table_written, buffer_finished,
    size_prefixed_buffer_finished, string_written, message_written_as, login_written_as,
    lemma_suffix_trans, MessageArgs, LoginArgs,
};
use crate::message::{
    Event, Message, Login, message_event_loc, login_readable, message_buffer_readable,
};
use crate::wire::{
    le_u16, le_u32, le_i32, vtable_pos, vtable_len, table_readable, slot_readable, field_offset,
    field_u8, field_target, offset_field_readable, u8_field_readable, string_bytes,
    string_readable, field_string,
};

verus! {

/// A byte of `d` sits `d2.len() - d.len()` positions further on in `d2`.
proof fn lemma_moved_byte(d: Seq<u8>, d2: Seq<u8>, p: int)
    requires
        is_suffix(d, d2),
        0 <= p < d.len(),
    ensures
        d2[p + (d2.len() - d.len())] == d[p],
{
    let k = d2.len() - d.len();
    assert(d2.subrange(k, d2.len() as int)[p] == d[p]);
}

/// The integers of `d` read the same at their moved positions in `d2`.
proof fn lemma_moved_ints(d: Seq<u8>, d2: Seq<u8>, p: int)
    requires
        is_suffix(d, d2),
        0 <= p,
        p + 2 <= d.len(),
    ensures
        le_u16(d2, p + (d2.len() - d.len())) == le_u16(d, p),
        p + 4 <= d.len() ==> le_u32(d2, p + (d2.len() - d.len())) == le_u32(d, p),
        p + 4 <= d.len() ==> le_i32(d2, p + (d2.len() - d.len())) == le_i32(d, p),
{
    lemma_moved_byte(d, d2, p);
    lemma_moved_byte(d, d2, p + 1);
    if p + 4 <= d.len() {
        lemma_moved_byte(d, d2, p + 2);
        lemma_moved_byte(d, d2, p + 3);
    }
}

/// A table of `d` reads the same in `d2`, moved: its vtable moves with it,
/// and each vtable entry it can read keeps its value.
proof fn lemma_moved_table(d: Seq<u8>, d2: Seq<u8>, loc: int, slot: int)
    requires
        is_suffix(d, d2),
        d2.len() <= 0x7fff_ffff,
        slot_readable(d, loc, slot),
        0 <= slot,
    ensures
        table_readable(d2, loc + (d2.len() - d.len())),
        vtable_pos(d2, loc + (d2.len() - d.len())) == vtable_pos(d, loc) + (d2.len() - d.len()),
        vtable_len(d2, loc + (d2.len() - d.len())) == vtable_len(d, loc),
        slot_readable(d2, loc + (d2.len() - d.len()), slot),
        field_offset(d2, loc + (d2.len() - d.len()), slot) == field_offset(d, loc, slot),
{
    let k = d2.len() - d.len();
    lemma_moved_ints(d, d2, loc);
    let vt = vtable_pos(d, loc);
    lemma_moved_ints(d, d2, vt);
    if slot < vtable_len(d, loc) {
        lemma_moved_ints(d, d2, vt + slot);
    }
}

/// A byte field of `d` reads the same in `d2`, moved.
proof fn lemma_moved_u8_field(d: Seq<u8>, d2: Seq<u8>, loc: int, slot: int, default: u8)
    requires
        is_suffix(d, d2),
        d2.len() <= 0x7fff_ffff,
        u8_field_readable(d, loc, slot),
        0 <= slot,
    ensures
        u8_field_readable(d2, loc + (d2.len() - d.len()), slot),
        field_offset(d2, loc + (d2.len() - d.len()), slot) == field_offset(d, loc, slot),
        field_u8(d2, loc + (d2.len() - d.len()), slot, default) == field_u8(d, loc, slot, default),
{
    lemma_moved_table(d, d2, loc, slot);
    let off = field_offset(d, loc, slot);
    if off != 0 {
        lemma_moved_byte(d, d2, loc + off);
    }
}

/// An offset field of `d` that points inside `d` reads the same in `d2`,
/// moved, and points at the moved target.
proof fn lemma_moved_offset_field(d: Seq<u8>, d2: Seq<u8>, loc: int, slot: int)
    requires
        is_suffix(d, d2),
        d2.len() <= 0x7fff_ffff,
        offset_field_readable(d, loc, slot),
        field_offset(d, loc, slot) != 0 ==> field_target(d, loc, slot) <= d.len(),
        0 <= slot,
    ensures
        offset_field_readable(d2, loc + (d2.len() - d.len()), slot),
        field_offset(d2, loc + (d2.len() - d.len()), slot) == field_offset(d, loc, slot),
        field_offset(d, loc, slot) != 0 ==> field_target(d2, loc + (d2.len() - d.len()), slot)
            == field_target(d, loc, slot) + (d2.len() - d.len()),
{
    lemma_moved_table(d, d2, loc, slot);
    let off = field_offset(d, loc, slot);
    if off != 0 {
        lemma_moved_ints(d, d2, loc + off);
    }
}

/// A string of `d` reads the same in `d2`, moved.
proof fn lemma_moved_string(d: Seq<u8>, d2: Seq<u8>, sloc: int)
    requires
        is_suffix(d, d2),
        string_readable(d, sloc),
    ensures
        string_readable(d2, sloc + (d2.len() - d.len())),
        string_bytes(d2, sloc + (d2.len() - d.len())) == string_bytes(d, sloc),
{
    let k = d2.len() - d.len();
    lemma_moved_ints(d, d2, sloc);
    let n = le_u32(d, sloc);
    let b = string_bytes(d, sloc);
    let b2 = string_bytes(d2, sloc + k);
    assert forall|i: int| 0 <= i < n implies #[trigger] b2[i] == b[i] by {
        lemma_moved_byte(d, d2, sloc + 4 + i);
    }
    assert(b2 =~= b);
}

/// A string that `create_string` wrote reads back, in any buffer that the
/// builder's bytes then end, as the string it was written with.
proof fn lemma_written_string_reads_back(
    pre: FlatBufferBuilder,
    post: FlatBufferBuilder,
    o: u32,
    text: Seq<char>,
    d: Seq<u8>,
)
    requires
        string_written(pre, post, o, text),
        is_suffix(fbb_data(post), d),
    ensures
        string_readable(d, d.len() - o),
        decode_utf8(string_bytes(d, d.len() - o)) == text,
{
    broadcast use encode_utf8_valid_utf8, encode_utf8_decode_utf8;

    let d1 = fbb_data(post);
    assert(string_bytes(d1, 0) =~= encode_utf8(text));
    lemma_moved_string(d1, d, 0);
}

/// A `Message` table reads back as the same arguments after more bytes are
/// written in front of it, at its moved position.
pub proof fn lemma_message_moved(d: Seq<u8>, d2: Seq<u8>, loc: int, args: MessageArgs)
    requires
        is_suffix(d, d2),
        d2.len() <= 0x7fff_ffff,
        message_written_as(d, loc, args),
    ensures
        message_written_as(d2, loc + (d2.len() - d.len()), args),
        field_offset(d2, loc + (d2.len() - d.len()), Message::VT_EVENT_TYPE as int) == field_offset(
            d,
            loc,
            Message::VT_EVENT_TYPE as int,
        ),
{
    lemma_moved_u8_field(d, d2, loc, Message::VT_EVENT_TYPE as int, 0);
    lemma_moved_offset_field(d, d2, loc, Message::VT_EVENT as int);
}

/// A `Login` table reads back as the same arguments after more bytes are
/// written in front of it, at its moved position.
pub proof fn lemma_login_moved(d: Seq<u8>, d2: Seq<u8>, loc: int, args: LoginArgs)
    requires
        is_suffix(d, d2),
        d2.len() <= 0x7fff_ffff,
        login_written_as(d, loc, args),
    ensures
        login_written_as(d2, loc + (d2.len() - d.len()), args),
{
    lemma_moved_offset_field(d, d2, loc, Login::VT_ID as int);
    lemma_moved_offset_field(d, d2, loc, Login::VT_PW as int);
}

/// A `Message` that `Message::create` wrote, in a buffer that
/// `finish_message_buffer` then finished with it as the root, reads back
/// from the root offset at the front of the buffer (where
/// `get_root_as_message` reads it) as the arguments it was written with.
#[verifier::spinoff_prover]
#[verifier::rlimit(30)]
pub proof fn lemma_finished_message_reads_back(
    pre: FlatBufferBuilder,
    mid: FlatBufferBuilder,
    post: FlatBufferBuilder,
    root: u32,
    args: MessageArgs,
)
    requires
        table_written(pre, mid),
        message_written_as(fbb_data(mid), fbb_used(mid) - root, args),
        root <= fbb_used(mid),
        buffer_finished(mid, post, root),
        fbb_used(post) <= 0x7fff_ffff,
    ensures
        message_written_as(fbb_data(post), le_u32(fbb_data(post), 0), args),
        field_offset(fbb_data(post), le_u32(fbb_data(post), 0), Message::VT_EVENT_TYPE as int)
            == field_offset(fbb_data(mid), fbb_used(mid) - root, Message::VT_EVENT_TYPE as int),
{
    let d = fbb_data(post);
    assert(le_u32(d, 0) == fbb_used(post) - root);
    lemma_message_moved(fbb_data(mid), d, fbb_used(mid) - root, args);
}

/// A `Message` that `Message::create` wrote, in a buffer that
/// `finish_size_prefixed_message_buffer` then finished with it as the root,
/// reads back from the root offset after the size (where
/// `get_size_prefixed_root_as_message` reads it) as the arguments it was
/// written with.
#[verifier::spinoff_prover]
#[verifier::rlimit(30)]
pub proof fn lemma_finished_size_prefixed_message_reads_back(
    pre: FlatBufferBuilder,
    mid: FlatBufferBuilder,
    post: FlatBufferBuilder,
    root: u32,
    args: MessageArgs,
)
    requires
        table_written(pre, mid),
        message_written_as(fbb_data(mid), fbb_used(mid) - root, args),
        root <= fbb_used(mid),
        size_prefixed_buffer_finished(mid, post, root),
        fbb_used(post) <= 0x7fff_ffff,
    ensures
        fbb_data(post).len() >= 8,
        message_written_as(fbb_data(post), 4 + le_u32(fbb_data(post), 4), args),
        field_offset(fbb_data(post), 4 + le_u32(fbb_data(post), 4), Message::VT_EVENT_TYPE as int)
            == field_offset(fbb_data(mid), fbb_used(mid) - root, Message::VT_EVENT_TYPE as int),
{
    let d = fbb_data(post);
    assert(le_u32(d, 4) == fbb_used(post) - 4 - root);
    lemma_message_moved(fbb_data(mid), d, fbb_used(mid) - root, args);
}

/// A `Login` that `Login::create` wrote, carried as the event of a `Message`
/// that `Message::create` wrote next, in a buffer that
/// `finish_message_buffer` then finished with that message as the root:
/// the root message reads back as its arguments, and the login its event
/// offset points at reads back as the login's arguments.
#[verifier::spinoff_prover]
#[verifier::rlimit(30)]
pub proof fn lemma_finished_login_reads_back(
    pre: FlatBufferBuilder,
    with_login: FlatBufferBuilder,
    with_message: FlatBufferBuilder,
    post: FlatBufferBuilder,
    login: u32,
    login_args: LoginArgs,
    root: u32,
    message_args: MessageArgs,
)
    requires
        table_written(pre, with_login),
        login_written_as(fbb_data(with_login), fbb_used(with_login) - login, login_args),
        login <= fbb_used(with_login),
        message_args.event_type == Event::Login,
        message_args.event matches Some(e) && e.value == login,
        table_written(with_login, with_message),
        message_written_as(fbb_data(with_message), fbb_used(with_message) - root, message_args),
        root <= fbb_used(with_message),
        buffer_finished(with_message, post, root),
        fbb_used(post) <= 0x7fff_ffff,
    ensures
        message_written_as(fbb_data(post), le_u32(fbb_data(post), 0), message_args),
        login_written_as(
            fbb_data(post),
            message_event_loc(fbb_data(post), le_u32(fbb_data(post), 0)),
            login_args,
        ),
{
    let d1 = fbb_data(with_login);
    let d2 = fbb_data(with_message);
    let d3 = fbb_data(post);
    let root_loc = fbb_used(post) - root;
    assert(le_u32(d3, 0) == root_loc);
    assert(login_written_as(d2, d2.len() - login, login_args)) by {
        lemma_login_moved(d1, d2, d1.len() - login, login_args);
    }
    assert(login_written_as(d3, d3.len() - login, login_args)) by {
        lemma_login_moved(d2, d3, d2.len() - login, login_args);
    }
    assert(message_written_as(d3, root_loc, message_args)) by {
        lemma_message_moved(d2, d3, d2.len() - root, message_args);
    }
}

/// A `Login` whose id and password, each when there is one, `create_string`
/// wrote, and which `Login::create` then wrote with their offsets, carried as
/// the event of a `Message` that `Message::create` wrote next, in a buffer
/// that `finish_message_buffer` then finished with that message as the root:
/// the whole buffer passes the reader's check (`root_as_message` accepts it,
/// whatever the strings' lengths), the login that the root message points at
/// can be read whole, each of its fields is present exactly when it was
/// written, and a present field reads back as the string that was written.
#[verifier::spinoff_prover]
#[verifier::rlimit(40)]
pub proof fn lemma_finished_login_strings_read_back(
    before_strings: FlatBufferBuilder,
    with_id: FlatBufferBuilder,
    with_pw: FlatBufferBuilder,
    with_login: FlatBufferBuilder,
    with_message: FlatBufferBuilder,
    post: FlatBufferBuilder,
    id_text: Option<Seq<char>>,
    pw_text: Option<Seq<char>>,
    login: u32,
    login_args: LoginArgs,
    root: u32,
    message_args: MessageArgs,
)
    requires
        match id_text {
            Some(t) => login_args.id matches Some(x) && string_written(before_strings, with_id, x.value, t),
            None => login_args.id is None && with_id == before_strings,
        },
        match pw_text {
            Some(t) => login_args.pw matches Some(x) && string_written(with_id, with_pw, x.value, t),
            None => login_args.pw is None && with_pw == with_id,
        },
        table_written(with_pw, with_login),
        login_written_as(fbb_data(with_login), fbb_used(with_login) - login, login_args),
        login <= fbb_used(with_login),
        message_args.event_type == Event::Login,
        message_args.event matches Some(e) && e.value == login,
        table_written(with_login, with_message),
        message_written_as(fbb_data(with_message), fbb_used(with_message) - root, message_args),
        root <= fbb_used(with_message),
        buffer_finished(with_message, post, root),
        fbb_used(post) <= 0x7fff_ffff,
    ensures
        message_buffer_readable(fbb_data(post)),
        ({
            let d = fbb_data(post);
            let l = message_event_loc(d, le_u32(d, 0));
            &&& login_readable(d, l)
            &&& (field_offset(d, l, Login::VT_ID as int) != 0 <==> id_text is Some)
            &&& (field_offset(d, l, Login::VT_PW as int) != 0 <==> pw_text is Some)
            &&& id_text matches Some(t) ==> field_string(d, l, Login::VT_ID as int) == t
            &&& pw_text matches Some(t) ==> field_string(d, l, Login::VT_PW as int) == t
        }),
{
    let d = fbb_data(post);
    lemma_finished_login_reads_back(
        with_pw,
        with_login,
        with_message,
        post,
        login,
        login_args,
        root,
        message_args,
    );
    lemma_suffix_trans(fbb_data(with_login), fbb_data(with_message), d);
    lemma_suffix_trans(fbb_data(with_pw), fbb_data(with_login), d);
    if let Some(t) = id_text {
        let x = login_args.id.unwrap();
        if let Some(u) = pw_text {
            lemma_suffix_trans(fbb_data(with_id), fbb_data(with_pw), d);
        }
        lemma_written_string_reads_back(before_strings, with_id, x.value, t, d);
    }
    if let Some(t) = pw_text {
        let x = login_args.pw.unwrap();
        lemma_written_string_reads_back(with_id, with_pw, x.value, t, d);
    }
}

/// A `Message` that `Message::create` wrote without a login to read (its
/// kind is not `Login`, or it carries no event), in a buffer that
/// `finish_message_buffer` then finished with it as the root, passes the
/// reader's check: `root_as_message` accepts the buffer.
#[verifier::spinoff_prover]
#[verifier::rlimit(30)]
pub proof fn lemma_finished_message_without_login_is_readable(
    pre: FlatBufferBuilder,
    mid: FlatBufferBuilder,
    post: FlatBufferBuilder,
    root: u32,
    args: MessageArgs,
)
    requires
        args.event_type != Event::Login || args.event is None,
        table_written(pre, mid),
        message_written_as(fbb_data(mid), fbb_used(mid) - root, args),
        root <= fbb_used(mid),
        buffer_finished(mid, post, root),
        fbb_used(post) <= 0x7fff_ffff,
    ensures
        message_buffer_readable(fbb_data(post)),
{
    lemma_finished_message_reads_back(pre, mid, post, root, args);
}

} // verus!
