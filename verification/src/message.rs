//! The `Message` / `Login` schema of the game protocol, reading side.
//!
//! ```text
//! union Event { Login }
//! table Login { id: string; pw: string; }
//! table Message { event: Event; }   // event_type at vtable byte 4, event at 6
//! ```
//! Every accessor states the bytes it needs; `root_as_message` checks them
//! all, so that a message it returns can be read without further checks.
use vstd::prelude::*;
use core::convert::Infallible;
use flatbuffers::{Follow, ForwardsUOffset, SkipSizePrefix};
use crate::wire::{
    le_u32, field_offset, field_target, field_u8, field_string, u8_field_readable,
    offset_field_readable, string_field_readable, check_table, check_u8_field,
    check_offset_field, check_string_field, table_get_u8, table_get_table, table_get_str,
    follow_offset,
};

verus! {

/// The kinds of event a message can carry.
#[allow(non_camel_case_types)]
#[derive(Clone, Copy, PartialEq, Eq, Structural, PartialOrd, Ord, Hash, Debug)]
pub enum Event {
    NONE,
    Login,
}

/// The event that a stored union tag stands for.
pub open spec fn event_of_tag(tag: u8) -> Event {
    if tag == 1 {
        Event::Login
    } else {
        Event::NONE
    }
}

/// The union tag under which an event is stored.
pub open spec fn tag_of_event(e: Event) -> u8 {
    match e {
        Event::NONE => 0,
        Event::Login => 1,
    }
}

/// An event written under its tag reads back as the same event, and every
/// event's tag is one the reader accepts.
pub proof fn lemma_event_tag_roundtrip(e: Event)
    ensures
        event_of_tag(tag_of_event(e)) == e,
        tag_of_event(e) <= 1,
{
}

/// The name of an event kind.
pub open spec fn event_name(e: Event) -> Seq<char> {
    match e {
        Event::NONE => "NONE"@,
        Event::Login => "Login"@,
    }
}

impl Event {
    /// The union tag under which this event is stored.
    pub fn tag(self) -> (t: u8)
        ensures
            t == tag_of_event(self),
    {
        match self {
            Event::NONE => 0,
            Event::Login => 1,
        }
    }
}

/// The name of an event kind.
pub fn enum_name_event(e: Event) -> (name: &'static str)
    ensures
        name@ == event_name(e),
{
    match e {
        Event::NONE => "NONE",
        Event::Login => "Login",
    }
}

/// Marks offsets to the `Event` union.
pub struct EventUnionTableOffset {}

/// Marks offsets to `Message` tables; it has no values.
pub enum MessageOffset {
    Never(Infallible),
}

/// Marks offsets to `Login` tables; it has no values.
pub enum LoginOffset {
    Never(Infallible),
}

/// A table inside a FlatBuffers buffer: the buffer and where the table starts.
#[derive(Clone, Copy, Debug, PartialEq)]
pub struct Table<'a> {
    pub buf: &'a [u8],
    pub loc: usize,
}

/// The event tag of the message at `loc` can be read and names a known event.
pub open spec fn event_type_readable(b: Seq<u8>, loc: int) -> bool {
    &&& u8_field_readable(b, loc, Message::VT_EVENT_TYPE as int)
    &&& field_u8(b, loc, Message::VT_EVENT_TYPE as int, 0) <= 1
}

/// The event kind of the message at `loc` (absent means `NONE`).
pub open spec fn message_event_type(b: Seq<u8>, loc: int) -> Event {
    event_of_tag(field_u8(b, loc, Message::VT_EVENT_TYPE as int, 0))
}

/// The event of the message at `loc` is present.
pub open spec fn message_has_event(b: Seq<u8>, loc: int) -> bool {
    field_offset(b, loc, Message::VT_EVENT as int) != 0
}

/// Where the event table of the message at `loc` starts.
pub open spec fn message_event_loc(b: Seq<u8>, loc: int) -> int {
    field_target(b, loc, Message::VT_EVENT as int)
}

/// Both string fields of the login at `loc` can be read.
pub open spec fn login_readable(b: Seq<u8>, loc: int) -> bool {
    &&& string_field_readable(b, loc, Login::VT_ID as int)
    &&& string_field_readable(b, loc, Login::VT_PW as int)
}

/// Every field of the message at `loc`, and of the login it carries, can be read.
pub open spec fn message_readable(b: Seq<u8>, loc: int) -> bool {
    &&& event_type_readable(b, loc)
    &&& offset_field_readable(b, loc, Message::VT_EVENT as int)
    &&& (message_event_type(b, loc) == Event::Login && message_has_event(b, loc)) ==> login_readable(
        b,
        message_event_loc(b, loc),
    )
}

/// The buffer holds a root offset, and the message it points at is readable.
pub open spec fn message_buffer_readable(b: Seq<u8>) -> bool {
    &&& b.len() >= 4
    &&& message_readable(b, le_u32(b, 0))
}

/// A `Message` table.
#[derive(Clone, Copy, Debug, PartialEq)]
pub struct Message<'a> {
    pub _tab: Table<'a>,
}

/// A `Login` table.
#[derive(Clone, Copy, Debug, PartialEq)]
pub struct Login<'a> {
    pub _tab: Table<'a>,
}

impl<'a> Message<'a> {
    /// The vtable byte of the event tag.
    pub const VT_EVENT_TYPE: u16 = 4;

    /// The vtable byte of the event offset.
    pub const VT_EVENT: u16 = 6;

    /// The bytes of the buffer that holds this message.
    pub open spec fn bytes(&self) -> Seq<u8> {
        self._tab.buf@
    }

    /// Where this message starts in its buffer.
    pub open spec fn start(&self) -> int {
        self._tab.loc as int
    }

    /// Every field of this message can be read.
    pub open spec fn readable(&self) -> bool {
        message_readable(self.bytes(), self.start())
    }

    /// The message whose table is `table`.
    pub fn init_from_table(table: Table<'a>) -> (m: Self)
        ensures
            m._tab == table,
    {
        Message { _tab: table }
    }

    /// The kind of event this message carries; `NONE` when the tag is absent.
    pub fn event_type(&self) -> (e: Event)
        requires
            event_type_readable(self.bytes(), self.start()),
        ensures
            e == message_event_type(self.bytes(), self.start()),
    {
        let tag = table_get_u8(self._tab.buf, self._tab.loc, Self::VT_EVENT_TYPE, 0).unwrap();
        if tag == 1 {
            Event::Login
        } else {
            Event::NONE
        }
    }

    /// The table of the event this message carries, if present.
    pub fn event(&self) -> (t: Option<Table<'a>>)
        requires
            offset_field_readable(self.bytes(), self.start(), Message::VT_EVENT as int),
        ensures
            t is Some <==> message_has_event(self.bytes(), self.start()),
            t matches Some(t) ==> t.buf == self._tab.buf && t.loc == message_event_loc(
                self.bytes(),
                self.start(),
            ),
    {
        match table_get_table(self._tab.buf, self._tab.loc, Message::VT_EVENT) {
            Some(loc) => Some(Table { buf: self._tab.buf, loc }),
            None => None,
        }
    }

    /// The login this message carries: present exactly when the event kind is
    /// `Login` and the event is present.
    pub fn event_as_login(&self) -> (l: Option<Login<'a>>)
        requires
            event_type_readable(self.bytes(), self.start()),
            offset_field_readable(self.bytes(), self.start(), Message::VT_EVENT as int),
        ensures
            l is Some <==> (message_event_type(self.bytes(), self.start()) == Event::Login
                && message_has_event(self.bytes(), self.start())),
            l matches Some(l) ==> l._tab.buf == self._tab.buf && l._tab.loc == message_event_loc(
                self.bytes(),
                self.start(),
            ),
            l matches Some(x) ==> (self.readable() ==> x.readable()),
    {
        if self.event_type() == Event::Login {
            match self.event() {
                Some(t) => Some(Login::init_from_table(t)),
                None => None,
            }
        } else {
            None
        }
    }

    /// Whether every field of this message, and of the login it carries, can be read.
    pub fn is_readable(&self) -> (ok: bool)
        ensures
            ok == self.readable(),
    {
        let buf = self._tab.buf;
        let loc = self._tab.loc;
        if !check_table(buf, loc) {
            return false;
        }
        if !check_u8_field(buf, loc, Message::VT_EVENT_TYPE) {
            return false;
        }
        let tag = table_get_u8(buf, loc, Message::VT_EVENT_TYPE, 0).unwrap();
        if tag > 1 {
            return false;
        }
        if !check_offset_field(buf, loc, Message::VT_EVENT) {
            return false;
        }
        if tag == 1 {
            match table_get_table(buf, loc, Message::VT_EVENT) {
                None => true,
                Some(event_loc) => {
                    let login = Login { _tab: Table { buf, loc: event_loc } };
                    login.is_readable()
                },
            }
        } else {
            true
        }
    }
}

impl<'a> Login<'a> {
    /// The vtable byte of the id offset.
    pub const VT_ID: u16 = 4;

    /// The vtable byte of the password offset.
    pub const VT_PW: u16 = 6;

    /// The bytes of the buffer that holds this login.
    pub open spec fn bytes(&self) -> Seq<u8> {
        self._tab.buf@
    }

    /// Where this login starts in its buffer.
    pub open spec fn start(&self) -> int {
        self._tab.loc as int
    }

    /// Both fields of this login can be read.
    pub open spec fn readable(&self) -> bool {
        login_readable(self.bytes(), self.start())
    }

    /// The login whose table is `table`.
    pub fn init_from_table(table: Table<'a>) -> (l: Self)
        ensures
            l._tab == table,
    {
        Login { _tab: table }
    }

    /// The user id, if present.
    pub fn id(&self) -> (s: Option<&'a str>)
        requires
            string_field_readable(self.bytes(), self.start(), Login::VT_ID as int),
        ensures
            s is Some <==> field_offset(self.bytes(), self.start(), Login::VT_ID as int) != 0,
            s matches Some(s) ==> s@ == field_string(self.bytes(), self.start(), Login::VT_ID as int),
    {
        table_get_str(self._tab.buf, self._tab.loc, Login::VT_ID)
    }

    /// The password, if present.
    pub fn pw(&self) -> (s: Option<&'a str>)
        requires
            string_field_readable(self.bytes(), self.start(), Login::VT_PW as int),
        ensures
            s is Some <==> field_offset(self.bytes(), self.start(), Login::VT_PW as int) != 0,
            s matches Some(s) ==> s@ == field_string(self.bytes(), self.start(), Login::VT_PW as int),
    {
        table_get_str(self._tab.buf, self._tab.loc, Login::VT_PW)
    }

    /// Whether both fields of this login can be read.
    pub fn is_readable(&self) -> (ok: bool)
        ensures
            ok == self.readable(),
    {
        let buf = self._tab.buf;
        let loc = self._tab.loc;
        check_table(buf, loc) && check_string_field(buf, loc, Login::VT_ID) && check_string_field(
            buf,
            loc,
            Login::VT_PW,
        )
    }
}

/// `<SkipSizePrefix<ForwardsUOffset<Table>>>::follow(buf, 0)`: where the root
/// table of a size-prefixed buffer starts.
#[verifier::external_body]
fn follow_size_prefixed_root(buf: &[u8]) -> (loc: usize)
    requires
        buf@.len() >= 8,
        4 + le_u32(buf@, 4) <= usize::MAX,
    ensures
        loc == 4 + le_u32(buf@, 4),
{
    <SkipSizePrefix<ForwardsUOffset<flatbuffers::Table>>>::follow(buf, 0).loc
}

/// The message at the root of a buffer, read without any check of its fields.
pub fn get_root_as_message<'a>(buf: &'a [u8]) -> (m: Message<'a>)
    requires
        buf@.len() >= 4,
    ensures
        m._tab.buf == buf,
        m.start() == le_u32(buf@, 0),
{
    let loc = follow_offset(buf, 0);
    Message { _tab: Table { buf, loc } }
}

/// The message at the root of a buffer that starts with its own size,
/// read without any check of its fields.
pub fn get_size_prefixed_root_as_message<'a>(buf: &'a [u8]) -> (m: Message<'a>)
    requires
        buf@.len() >= 8,
        4 + le_u32(buf@, 4) <= usize::MAX,
    ensures
        m._tab.buf == buf,
        m.start() == 4 + le_u32(buf@, 4),
{
    let loc = follow_size_prefixed_root(buf);
    Message { _tab: Table { buf, loc } }
}

/// The message at the root of a buffer, when all of its fields can be read.
pub fn root_as_message<'a>(buf: &'a [u8]) -> (m: Option<Message<'a>>)
    ensures
        m is Some <==> message_buffer_readable(buf@),
        m matches Some(m) ==> m._tab.buf == buf && m.start() == le_u32(buf@, 0) && m.readable(),
{
    if buf.len() < 4 {
        return None;
    }
    let m = get_root_as_message(buf);
    if m.is_readable() {
        Some(m)
    } else {
        None
    }
}

} // verus!
