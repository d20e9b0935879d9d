use std::time::Duration;

use async_tungstenite::tungstenite::Error as WsError;
use game_server::error::Error;
use game_server::server::{
    reader_step, ReaderAction, ReaderEvent, Server, ServerAction, ServerEvent, DEFAULT_TIMEOUT_SECS,
};

fn timeout_error() -> async_std::future::TimeoutError {
    async_std::task::block_on(async_std::future::timeout(
        Duration::from_millis(1),
        futures::future::pending::<()>(),
    ))
    .unwrap_err()
}

fn accept_token(a: ServerAction) -> usize {
    match a {
        ServerAction::Accept { token } => token,
        _ => panic!("expected an accepted connection"),
    }
}

#[test]
fn new_server_defaults() {
    let s = Server::new();
    assert_eq!(s.capacity(), usize::MAX);
    assert_eq!(s.timeout(), Duration::from_secs(3600));
    assert_eq!(DEFAULT_TIMEOUT_SECS, 3600);
    assert_eq!(s.session_count(), 0);
    assert!(!s.is_live(0));
}

#[test]
fn builders_set_capacity_and_timeout() {
    let s = Server::new().with_capacity(2).with_timeout(Duration::from_secs(5));
    assert_eq!(s.capacity(), 2);
    assert_eq!(s.timeout(), Duration::from_secs(5));
    assert_eq!(s.session_count(), 0);
}

#[test]
fn connections_get_consecutive_tokens() {
    let mut s = Server::new();
    assert_eq!(accept_token(s.handle(ServerEvent::Connect)), 0);
    assert_eq!(accept_token(s.handle(ServerEvent::Connect)), 1);
    assert_eq!(accept_token(s.handle(ServerEvent::Connect)), 2);
    assert_eq!(s.session_count(), 3);
    assert!(s.is_live(0) && s.is_live(1) && s.is_live(2));
    assert!(!s.is_live(3));
}

#[test]
fn full_server_rejects() {
    let mut s = Server::new().with_capacity(2);
    accept_token(s.handle(ServerEvent::Connect));
    accept_token(s.handle(ServerEvent::Connect));
    assert!(matches!(s.handle(ServerEvent::Connect), ServerAction::Reject));
    assert_eq!(s.session_count(), 2);
}

#[test]
fn zero_capacity_rejects_everything() {
    let mut s = Server::new().with_capacity(0);
    assert!(matches!(s.handle(ServerEvent::Connect), ServerAction::Reject));
    assert_eq!(s.session_count(), 0);
}

#[test]
fn die_closes_session_and_frees_token() {
    let mut s = Server::new().with_capacity(2);
    let a = accept_token(s.handle(ServerEvent::Connect));
    let b = accept_token(s.handle(ServerEvent::Connect));
    assert_eq!((a, b), (0, 1));
    match s.handle(ServerEvent::Die { token: 0, reason: None }) {
        ServerAction::Close { token } => assert_eq!(token, 0),
        _ => panic!("expected a close"),
    }
    assert!(!s.is_live(0));
    assert!(s.is_live(1));
    assert_eq!(s.session_count(), 1);
    // the freed token is handed out again, and the server has room again
    assert_eq!(accept_token(s.handle(ServerEvent::Connect)), 0);
    assert!(matches!(s.handle(ServerEvent::Connect), ServerAction::Reject));
}

#[test]
fn die_with_reason_is_closed_too() {
    let mut s = Server::new();
    let t = accept_token(s.handle(ServerEvent::Connect));
    let reason = Some(Error::from(timeout_error()));
    assert!(matches!(s.handle(ServerEvent::Die { token: t, reason }), ServerAction::Close { token: 0 }));
    assert_eq!(s.session_count(), 0);
}

#[test]
fn accept_then_close_restores_table() {
    let mut s = Server::new();
    accept_token(s.handle(ServerEvent::Connect));
    let before = s.session_count();
    let t = accept_token(s.handle(ServerEvent::Connect));
    s.handle(ServerEvent::Die { token: t, reason: None });
    assert_eq!(s.session_count(), before);
    assert!(!s.is_live(t));
    assert_eq!(accept_token(s.handle(ServerEvent::Connect)), t);
}

#[test]
fn message_is_echoed_to_its_sender() {
    let mut s = Server::new();
    accept_token(s.handle(ServerEvent::Connect));
    let t = accept_token(s.handle(ServerEvent::Connect));
    match s.handle(ServerEvent::ReceiveMessage { token: t }) {
        ServerAction::Echo { token } => assert_eq!(token, t),
        _ => panic!("expected an echo"),
    }
    assert_eq!(s.session_count(), 2);
}

#[test]
fn listener_failure_is_reported() {
    let mut s = Server::new();
    let err = Error::from(std::io::Error::new(std::io::ErrorKind::Other, "boom"));
    match s.handle(ServerEvent::Failure(err)) {
        ServerAction::Report(Error::IoError(e)) => assert_eq!(e.to_string(), "boom"),
        _ => panic!("expected a report"),
    }
    assert_eq!(s.session_count(), 0);
}

#[test]
fn capacity_is_never_exceeded() {
    let mut s = Server::new().with_capacity(3);
    for _ in 0..10 {
        s.handle(ServerEvent::Connect);
        assert!(s.session_count() <= 3);
    }
    s.handle(ServerEvent::Die { token: 1, reason: None });
    for _ in 0..10 {
        s.handle(ServerEvent::Connect);
        assert!(s.session_count() <= 3);
    }
}

#[test]
fn reader_sends_and_stops() {
    assert!(matches!(reader_step(ReaderEvent::Outgoing), ReaderAction::Send));
    assert!(matches!(reader_step(ReaderEvent::OutgoingClosed), ReaderAction::Stop));
}

#[test]
fn reader_forwards_non_empty_messages() {
    assert!(matches!(reader_step(ReaderEvent::Incoming { len: 5 }), ReaderAction::Forward));
    assert!(matches!(reader_step(ReaderEvent::Incoming { len: 1 }), ReaderAction::Forward));
}

#[test]
fn reader_dies_on_empty_message_or_end() {
    assert!(matches!(reader_step(ReaderEvent::Incoming { len: 0 }), ReaderAction::Die(None)));
    assert!(matches!(reader_step(ReaderEvent::IncomingEnd), ReaderAction::Die(None)));
}

#[test]
fn reader_dies_with_cause() {
    assert!(matches!(
        reader_step(ReaderEvent::HandshakeFailed(WsError::ConnectionClosed)),
        ReaderAction::Die(Some(Error::WebsocketError(WsError::ConnectionClosed)))
    ));
    assert!(matches!(
        reader_step(ReaderEvent::IncomingFailed(WsError::AlreadyClosed)),
        ReaderAction::Die(Some(Error::WebsocketError(WsError::AlreadyClosed)))
    ));
    assert!(matches!(
        reader_step(ReaderEvent::TimedOut(timeout_error())),
        ReaderAction::Die(Some(Error::TimeoutError(_)))
    ));
}

#[test]
fn error_messages() {
    assert_eq!(Error::ServersideDrop.message(), "server drop the client");
    assert_eq!(Error::from(timeout_error()).message(), "a client not react for a long time");
    assert_eq!(Error::from(WsError::ConnectionClosed).message(), "websocket handshake failed");
    let io = std::io::Error::new(std::io::ErrorKind::Other, "x");
    assert_eq!(Error::from(io).message(), "connection failed");
}
