use flatbuffers::FlatBufferBuilder;
use game_server::builder::{
    create_string, finish_message_buffer, finished_data, finish_size_prefixed_message_buffer, new_builder,
    LoginArgs, LoginBuilder, MessageArgs, MessageBuilder, Offset,
};
use game_server::message::{
    enum_name_event, get_root_as_message, get_size_prefixed_root_as_message, root_as_message, Event,
    Login, Message, Table,
};
use game_server::wire::{
    check_string, check_table, read_i32_at, read_u16_at, read_u32_at, vtable_start,
};

fn login_buffer(id: Option<&str>, pw: Option<&str>, event_type: Event) -> Vec<u8> {
    let mut fbb = FlatBufferBuilder::new();
    let id = id.map(|s| create_string(&mut fbb, s));
    let pw = pw.map(|s| create_string(&mut fbb, s));
    let login = Login::create(&mut fbb, &LoginArgs { id, pw });
    let msg = Message::create(
        &mut fbb,
        &MessageArgs { event_type, event: Some(login.as_union_value()) },
    );
    finish_message_buffer(&mut fbb, msg);
    fbb.finished_data().to_vec()
}

fn empty_buffer() -> Vec<u8> {
    let mut fbb = FlatBufferBuilder::new();
    let msg = Message::create(&mut fbb, &MessageArgs::default());
    finish_message_buffer(&mut fbb, msg);
    fbb.finished_data().to_vec()
}

/// Where the field at vtable byte `slot` of the root table sits.
fn field_pos(buf: &[u8], slot: usize) -> usize {
    let loc = read_u32_at(buf, 0) as usize;
    let vt = vtable_start(buf, loc);
    loc + read_u16_at(buf, vt + slot) as usize
}

#[test]
fn event_names() {
    assert_eq!(enum_name_event(Event::NONE), "NONE");
    assert_eq!(enum_name_event(Event::Login), "Login");
    assert_eq!(Event::NONE.tag(), 0);
    assert_eq!(Event::Login.tag(), 1);
}

#[test]
fn login_roundtrip() {
    let buf = login_buffer(Some("alice"), Some("secret"), Event::Login);
    let m = root_as_message(&buf).expect("a readable message");
    assert_eq!(m.event_type(), Event::Login);
    assert!(m.event().is_some());
    let login = m.event_as_login().expect("a login");
    assert_eq!(login.id(), Some("alice"));
    assert_eq!(login.pw(), Some("secret"));
    assert!(login.is_readable());
}

#[test]
fn login_with_absent_fields() {
    let buf = login_buffer(None, Some("pw"), Event::Login);
    let m = root_as_message(&buf).unwrap();
    let login = m.event_as_login().unwrap();
    assert_eq!(login.id(), None);
    assert_eq!(login.pw(), Some("pw"));

    let buf = login_buffer(None, None, Event::Login);
    let login = root_as_message(&buf).unwrap().event_as_login().unwrap();
    assert_eq!(login.id(), None);
    assert_eq!(login.pw(), None);
}

#[test]
fn login_with_empty_and_unicode_strings() {
    let buf = login_buffer(Some(""), Some("pässwörd✓"), Event::Login);
    let login = root_as_message(&buf).unwrap().event_as_login().unwrap();
    assert_eq!(login.id(), Some(""));
    assert_eq!(login.pw(), Some("pässwörd✓"));
}

#[test]
fn message_without_event() {
    let buf = empty_buffer();
    let m = root_as_message(&buf).unwrap();
    assert_eq!(m.event_type(), Event::NONE);
    assert!(m.event().is_none());
    assert!(m.event_as_login().is_none());
}

#[test]
fn event_of_kind_none_is_not_a_login() {
    let buf = login_buffer(Some("a"), Some("b"), Event::NONE);
    let m = root_as_message(&buf).unwrap();
    assert_eq!(m.event_type(), Event::NONE);
    assert!(m.event().is_some());
    assert!(m.event_as_login().is_none());
}

#[test]
fn unchecked_root_matches_checked_root() {
    let buf = login_buffer(Some("x"), Some("y"), Event::Login);
    let a = get_root_as_message(&buf);
    let b = root_as_message(&buf).unwrap();
    assert_eq!(a._tab.loc, b._tab.loc);
    assert_eq!(a._tab.loc, read_u32_at(&buf, 0) as usize);
    assert!(a.is_readable());
}

#[test]
fn size_prefixed_buffer() {
    let mut fbb = FlatBufferBuilder::new();
    let id = Offset::new(fbb.create_string("bob").value());
    let login = Login::create(&mut fbb, &LoginArgs { id: Some(id), pw: None });
    let msg = Message::create(
        &mut fbb,
        &MessageArgs { event_type: Event::Login, event: Some(login.as_union_value()) },
    );
    finish_size_prefixed_message_buffer(&mut fbb, msg);
    let buf = fbb.finished_data().to_vec();
    assert_eq!(read_u32_at(&buf, 0) as usize, buf.len() - 4);
    let m = get_size_prefixed_root_as_message(&buf);
    assert_eq!(m._tab.loc, 4 + read_u32_at(&buf, 4) as usize);
    assert!(m.is_readable());
    let login = m.event_as_login().unwrap();
    assert_eq!(login.id(), Some("bob"));
    assert_eq!(login.pw(), None);
}

#[test]
fn init_from_table_keeps_the_table() {
    let buf = login_buffer(Some("x"), None, Event::Login);
    let loc = read_u32_at(&buf, 0) as usize;
    let m = Message::init_from_table(Table { buf: &buf, loc });
    assert_eq!(m._tab.loc, loc);
    assert!(m.is_readable());
    let t = m.event().unwrap();
    let l = Login::init_from_table(t);
    assert_eq!(l.id(), Some("x"));
}

#[test]
fn short_buffers_are_refused() {
    assert!(root_as_message(&[]).is_none());
    assert!(root_as_message(&[4, 0, 0]).is_none());
}

#[test]
fn degenerate_table_reads_as_empty_message() {
    // root at 0, vtable at 0 with length 0: every field is absent
    let buf = [0u8, 0, 0, 0];
    let m = root_as_message(&buf).unwrap();
    assert_eq!(m.event_type(), Event::NONE);
    assert!(m.event().is_none());
}

#[test]
fn root_offset_out_of_range_is_refused() {
    let mut buf = empty_buffer();
    buf[0] = 0xff;
    buf[1] = 0xff;
    assert!(root_as_message(&buf).is_none());
}

#[test]
fn vtable_offset_out_of_range_is_refused() {
    let mut buf = empty_buffer();
    let loc = read_u32_at(&buf, 0) as usize;
    buf[loc] = 0x00;
    buf[loc + 1] = 0x00;
    buf[loc + 2] = 0x00;
    buf[loc + 3] = 0x80;
    assert!(!check_table(&buf, loc));
    assert!(root_as_message(&buf).is_none());
}

#[test]
fn unknown_event_tag_is_refused() {
    let mut buf = login_buffer(Some("a"), Some("b"), Event::Login);
    let pos = field_pos(&buf, 4);
    assert_eq!(buf[pos], 1);
    buf[pos] = 7;
    assert!(root_as_message(&buf).is_none());
    let m = get_root_as_message(&buf);
    assert!(!m.is_readable());
}

#[test]
fn invalid_utf8_in_login_is_refused() {
    let mut buf = login_buffer(Some("alice"), Some("secret"), Event::Login);
    let at = buf.windows(5).position(|w| w == b"alice").unwrap();
    buf[at] = 0xff;
    assert!(root_as_message(&buf).is_none());
}

#[test]
fn invalid_utf8_is_accepted_when_not_a_login() {
    // the login table is only checked when the event kind says it is a login
    let mut buf = login_buffer(Some("alice"), Some("secret"), Event::NONE);
    let at = buf.windows(5).position(|w| w == b"alice").unwrap();
    buf[at] = 0xff;
    let m = root_as_message(&buf).unwrap();
    assert!(m.event_as_login().is_none());
}

#[test]
fn string_length_past_the_end_is_refused() {
    let mut buf = login_buffer(Some("alice"), Some("secret"), Event::Login);
    let at = buf.windows(5).position(|w| w == b"alice").unwrap();
    // the length prefix of "alice" sits right before it
    assert_eq!(read_u32_at(&buf, at - 4), 5);
    assert!(check_string(&buf, at - 4));
    buf[at - 4] = 0xf0;
    assert!(!check_string(&buf, at - 4));
    assert!(root_as_message(&buf).is_none());
}

#[test]
fn little_endian_reads() {
    let buf = [0x01, 0x02, 0x03, 0x04, 0xff, 0xff, 0xff, 0xff];
    assert_eq!(read_u16_at(&buf, 0), 0x0201);
    assert_eq!(read_u32_at(&buf, 0), 0x0403_0201);
    assert_eq!(read_i32_at(&buf, 4), -1);
    assert_eq!(read_i32_at(&buf, 0), 0x0403_0201);
}

#[test]
fn builders_by_hand() {
    let mut fbb = FlatBufferBuilder::new();
    let id = Offset::new(fbb.create_string("carol").value());
    let mut lb = LoginBuilder::new(&mut fbb);
    lb.add_id(id);
    let login = lb.finish();
    let mut mb = MessageBuilder::new(&mut fbb);
    mb.add_event(login.as_union_value());
    mb.add_event_type(Event::Login);
    let msg = mb.finish();
    finish_message_buffer(&mut fbb, msg);
    let buf = fbb.finished_data().to_vec();
    let login = root_as_message(&buf).unwrap().event_as_login().unwrap();
    assert_eq!(login.id(), Some("carol"));
    assert_eq!(login.pw(), None);
}

#[test]
fn default_event_type_is_not_written() {
    let mut fbb = FlatBufferBuilder::new();
    let mut mb = MessageBuilder::new(&mut fbb);
    mb.add_event_type(Event::NONE);
    let msg = mb.finish();
    finish_message_buffer(&mut fbb, msg);
    let buf = fbb.finished_data().to_vec();
    let loc = read_u32_at(&buf, 0) as usize;
    let vt = vtable_start(&buf, loc);
    // the vtable holds only its two header entries: no field was written
    assert_eq!(read_u16_at(&buf, vt), 4);
    assert_eq!(root_as_message(&buf).unwrap().event_type(), Event::NONE);
}

#[test]
fn default_args() {
    let m = MessageArgs::default();
    assert_eq!(m.event_type, Event::NONE);
    assert!(m.event.is_none());
    let l = LoginArgs::default();
    assert!(l.id.is_none() && l.pw.is_none());
}

#[test]
fn new_builder_writes_a_readable_buffer() {
    let mut fbb = new_builder();
    let msg = Message::create(&mut fbb, &MessageArgs { event_type: Event::Login, event: None });
    finish_message_buffer(&mut fbb, msg);
    let buf = fbb.finished_data().to_vec();
    let m = root_as_message(&buf).unwrap();
    assert_eq!(m.event_type(), Event::Login);
    assert!(m.event().is_none());
}

#[test]
fn login_fields_land_in_their_own_slots() {
    let mut fbb = FlatBufferBuilder::new();
    let id = Offset::new(fbb.create_string("first").value());
    let pw = Offset::new(fbb.create_string("second").value());
    let mut lb = LoginBuilder::new(&mut fbb);
    lb.add_pw(pw);
    lb.add_id(id);
    let login = lb.finish();
    let msg = Message::create(
        &mut fbb,
        &MessageArgs { event_type: Event::Login, event: Some(login.as_union_value()) },
    );
    finish_message_buffer(&mut fbb, msg);
    let buf = fbb.finished_data().to_vec();
    let login = root_as_message(&buf).unwrap().event_as_login().unwrap();
    assert_eq!(login.id(), Some("first"));
    assert_eq!(login.pw(), Some("second"));
}

#[test]
fn finish_without_size_prefix_starts_with_the_root_offset() {
    let mut fbb = FlatBufferBuilder::new();
    let msg = Message::create(&mut fbb, &MessageArgs { event_type: Event::Login, event: None });
    finish_message_buffer(&mut fbb, msg);
    let buf = fbb.finished_data().to_vec();
    // the root offset counts from the front of the buffer to the root table
    assert_eq!(read_u32_at(&buf, 0) as usize, buf.len() - msg.value as usize);

    let mut fbb = FlatBufferBuilder::new();
    let msg = Message::create(&mut fbb, &MessageArgs { event_type: Event::Login, event: None });
    finish_size_prefixed_message_buffer(&mut fbb, msg);
    let sized = fbb.finished_data().to_vec();
    assert_eq!(read_u32_at(&sized, 0) as usize, sized.len() - 4);
    assert_eq!(4 + read_u32_at(&sized, 4) as usize, sized.len() - msg.value as usize);
}

#[test]
fn offsets_copy_and_convert() {
    let o: Offset<u8> = Offset::new(12);
    let p = o;
    assert_eq!(o.value, 12);
    assert_eq!(p.as_union_value().value, 12);
}

#[test]
fn create_string_writes_count_bytes_and_zero() {
    let mut fbb = new_builder();
    let o = create_string(&mut fbb, "hey");
    assert_eq!(o.value, 8);
    assert_eq!(fbb.unfinished_data(), &[3, 0, 0, 0, b'h', b'e', b'y', 0][..]);
    let p = create_string(&mut fbb, "");
    assert_eq!(p.value, 16);
    assert_eq!(&fbb.unfinished_data()[..8], &[0, 0, 0, 0, 0, 0, 0, 0][..]);
}

#[test]
fn finished_data_is_the_finished_buffer() {
    let mut fbb = new_builder();
    let a = create_string(&mut fbb, "alice");
    let p = create_string(&mut fbb, "pw1");
    let l = Login::create(&mut fbb, &LoginArgs { id: Some(a), pw: Some(p) });
    let r = Message::create(
        &mut fbb,
        &MessageArgs { event_type: Event::Login, event: Some(l.as_union_value()) },
    );
    finish_message_buffer(&mut fbb, r);
    let d = finished_data(&fbb);
    assert_eq!(d, fbb.finished_data());
    let m = get_root_as_message(d);
    assert_eq!(m.event_type(), Event::Login);
    let x = m.event_as_login().unwrap();
    assert_eq!(x.id(), Some("alice"));
    assert_eq!(x.pw(), Some("pw1"));
}

#[test]
fn size_prefix_is_followed_by_the_root_offset() {
    let mut fbb = new_builder();
    let u = create_string(&mut fbb, "u");
    let l = Login::create(&mut fbb, &LoginArgs { id: Some(u), pw: None });
    let r = Message::create(
        &mut fbb,
        &MessageArgs { event_type: Event::NONE, event: Some(l.as_union_value()) },
    );
    finish_size_prefixed_message_buffer(&mut fbb, r);
    let d = finished_data(&fbb).to_vec();
    assert!(d.len() >= 8);
    assert_eq!(u32::from_le_bytes([d[0], d[1], d[2], d[3]]) as usize, d.len() - 4);
    let sized = get_size_prefixed_root_as_message(&d);
    let plain = get_root_as_message(&d[4..]);
    assert_eq!(sized._tab.loc, plain._tab.loc + 4);
    assert_eq!(sized.event_type(), Event::NONE);
    assert!(sized.event().is_some());
    assert!(sized.event_as_login().is_none());
    assert_eq!(plain.event_type(), Event::NONE);
}
