//! The error type of the server: why a client connection ended.
use vstd::prelude::*;
use vstd::std_specs::convert::FromSpecImpl;
use async_std::future::TimeoutError;
use async_tungstenite::tungstenite::Error as WsError;

verus! {

/// `std::io::Error`, carried opaquely.
#[verifier::external_type_specification]
#[verifier::external_body]
pub struct ExIoError(std::io::Error);

/// The WebSocket error of `tungstenite`, carried opaquely.
#[verifier::external_type_specification]
#[verifier::external_body]
pub struct ExWsError(WsError);

/// The timeout error of `async_std::future::timeout`, carried opaquely.
#[verifier::external_type_specification]
#[verifier::external_body]
pub struct ExTimeoutError(TimeoutError);

/// Why a client connection failed or ended.
#[derive(Debug)]
pub enum Error {
    /// The TCP connection failed.
    IoError(std::io::Error),
    /// The WebSocket handshake or stream failed.
    WebsocketError(WsError),
    /// The client did not send anything for longer than the server's timeout.
    TimeoutError(TimeoutError),
    /// The server dropped the client.
    ServersideDrop,
}

/// The human-readable description of each kind of error.
pub open spec fn error_text(e: Error) -> Seq<char> {
    match e {
        Error::IoError(_) => "connection failed"@,
        Error::WebsocketError(_) => "websocket handshake failed"@,
        Error::TimeoutError(_) => "a client not react for a long time"@,
        Error::ServersideDrop => "server drop the client"@,
    }
}

impl Error {
    /// The description of this error, as the server reports it.
    pub fn message(&self) -> (s: &'static str)
        ensures
            s@ == error_text(*self),
    {
        match self {
            Error::IoError(_) => "connection failed",
            Error::WebsocketError(_) => "websocket handshake failed",
            Error::TimeoutError(_) => "a client not react for a long time",
            Error::ServersideDrop => "server drop the client",
        }
    }
}

impl From<std::io::Error> for Error {
    fn from(e: std::io::Error) -> (r: Self) {
        Error::IoError(e)
    }
}

impl FromSpecImpl<std::io::Error> for Error {
    open spec fn obeys_from_spec() -> bool {
        true
    }

    open spec fn from_spec(e: std::io::Error) -> Self {
        Error::IoError(e)
    }
}

impl From<WsError> for Error {
    fn from(e: WsError) -> (r: Self) {
        Error::WebsocketError(e)
    }
}

impl FromSpecImpl<WsError> for Error {
    open spec fn obeys_from_spec() -> bool {
        true
    }

    open spec fn from_spec(e: WsError) -> Self {
        Error::WebsocketError(e)
    }
}

impl From<TimeoutError> for Error {
    fn from(e: TimeoutError) -> (r: Self) {
        Error::TimeoutError(e)
    }
}

impl FromSpecImpl<TimeoutError> for Error {
    open spec fn obeys_from_spec() -> bool {
        true
    }

    open spec fn from_spec(e: TimeoutError) -> Self {
        Error::TimeoutError(e)
    }
}

} // verus!
