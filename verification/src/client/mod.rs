//! The client: how it connects to the server, and how it serves the streams that the server
//! opens to its local ports.
use vstd::prelude::*;
use vstd::string::*;

pub mod backoff;
pub mod endpoint;
pub mod handshake;
pub mod laws;
pub mod local;
pub mod recorder;
pub mod run;
pub mod session;
pub mod store;

verus! {

/// How a client is set up. The interval is in seconds.
#[derive(Clone, Debug)]
pub struct Config {
    pub control_port: u16,
    pub token_server: String,
    pub ping_interval: u64,
}

/// What the server has for a local service.
#[derive(Clone, Debug, PartialEq, Eq)]
pub enum StreamMessage {
    Data(Vec<u8>),
    Close,
}

/// Why a client could not connect, or lost its connection.
#[derive(Clone, Debug, PartialEq, Eq)]
pub enum Error {
    WebSocketError(String),
    ServerReplyInvalid,
    NoResponseFromServer,
    ServerDown,
    TokenServerError(String),
    BadRequest,
    ServiceTemporaryUnavailable,
    IllegalHost,
    InternalServerError,
    ClientHandshakeVersionMismatch,
    MalformedMessageFromServer,
    Timeout,
    JoinError,
    ReconnectTokenError,
    InvalidUrl(String),
}

impl Error {
    /// How the error is printed.
    pub open spec fn text(self) -> Seq<char> {
        match self {
            Error::WebSocketError(e) => "Failed to connect to control server: "@ + e@ + "."@,
            Error::ServerReplyInvalid => "The server responded with an invalid response."@,
            Error::NoResponseFromServer => "The server did not respond to our client_hello."@,
            Error::ServerDown => "Could not connect to server."@,
            Error::TokenServerError(e) => "Could not connect to server: "@ + e@ + "."@,
            Error::BadRequest => "Client hello was invalid or malformed."@,
            Error::ServiceTemporaryUnavailable => "Server could not process client request."@,
            Error::IllegalHost =>
                "Client tried to connect to a host that was not assigned by token server."@,
            Error::InternalServerError => "Server encountered some errors."@,
            Error::ClientHandshakeVersionMismatch =>
                "Current client handshake version is not supported."@,
            Error::MalformedMessageFromServer => "Server sent a malformed message."@,
            Error::Timeout => "The server timed out sending us something."@,
            Error::JoinError => "Join error."@,
            Error::ReconnectTokenError => "There is no token to reconnect with."@,
            Error::InvalidUrl(e) => e@,
        }
    }

    /// The error in words.
    pub fn to_string(&self) -> (r: String)
        ensures
            r@ == self.text(),
    {
        match self {
            Error::WebSocketError(e) => {
                let mut out = "Failed to connect to control server: ".to_owned();
                out.append(e.as_str());
                out.append(".");
                out
            },
            Error::ServerReplyInvalid =>
                "The server responded with an invalid response.".to_owned(),
            Error::NoResponseFromServer =>
                "The server did not respond to our client_hello.".to_owned(),
            Error::ServerDown => "Could not connect to server.".to_owned(),
            Error::TokenServerError(e) => {
                let mut out = "Could not connect to server: ".to_owned();
                out.append(e.as_str());
                out.append(".");
                out
            },
            Error::BadRequest => "Client hello was invalid or malformed.".to_owned(),
            Error::ServiceTemporaryUnavailable =>
                "Server could not process client request.".to_owned(),
            Error::IllegalHost =>
                "Client tried to connect to a host that was not assigned by token server."
                    .to_owned(),
            Error::InternalServerError => "Server encountered some errors.".to_owned(),
            Error::ClientHandshakeVersionMismatch =>
                "Current client handshake version is not supported.".to_owned(),
            Error::MalformedMessageFromServer => "Server sent a malformed message.".to_owned(),
            Error::Timeout => "The server timed out sending us something.".to_owned(),
            Error::JoinError => "Join error.".to_owned(),
            Error::ReconnectTokenError => "There is no token to reconnect with.".to_owned(),
            Error::InvalidUrl(e) => e.clone(),
        }
    }
}

} // verus!
