//! The server: its configuration and errors, the streams and clients that it keeps, and the
//! decisions that it takes on them.
use crate::id::{ClientId, StreamId};
use vstd::prelude::*;
use vstd::string::*;

pub mod client;
pub mod control;
pub mod dedicated;
pub mod handshake_laws;
pub mod laws;
pub mod reader;
pub mod store;
pub mod stream;
pub mod udp;

verus! {

/// How a server is set up. The intervals are in seconds.
#[derive(Clone, Debug)]
pub struct Config {
    pub control_port: u16,
    pub token_secret: String,
    pub host: String,
    pub remote_port_start: u16,
    pub remote_port_end: u16,
    pub periodic_cleanup_interval: u64,
    pub periodic_ping_interval: u64,
    /// The window for reconnecting, in seconds. Clients are registered with it; nothing in the
    /// library acts on it.
    pub reconnect_window: i64,
}

/// What keeps a server from starting.
#[derive(Clone, Copy, Debug, PartialEq, Eq, Structural)]
pub enum ProxyServerError {
    ConfigNotInitialized,
}

impl ProxyServerError {
    /// The error in words.
    pub fn to_string(&self) -> (r: String)
        ensures
            r@ == "Failed to load config because it is not initialized."@,
    {
        "Failed to load config because it is not initialized.".to_owned()
    }
}

/// Why a message was not forwarded.
#[derive(Clone, Copy, Debug, PartialEq, Eq, Structural)]
pub enum ForwardingError {
    DestinationDisabled,
    SendError,
}

impl ForwardingError {
    /// How the error is printed.
    pub open spec fn text(self) -> Seq<char> {
        match self {
            ForwardingError::DestinationDisabled => "Destination is disabled."@,
            ForwardingError::SendError => "Failed to put data into sender buffer."@,
        }
    }

    /// The error in words.
    pub fn to_string(&self) -> (r: String)
        ensures
            r@ == self.text(),
    {
        match self {
            ForwardingError::DestinationDisabled => "Destination is disabled.".to_owned(),
            ForwardingError::SendError => "Failed to put data into sender buffer.".to_owned(),
        }
    }
}

/// Why a packet or a message did not reach a client or a remote peer.
#[derive(Clone, Debug, PartialEq, Eq)]
pub enum ClientStreamError {
    ClientError(String),
    RemoteError(String),
    ClientNotAvailable(ClientId),
    StreamNotAvailable(StreamId),
    RemoteEnd,
}

impl ClientStreamError {
    /// How the error is printed.
    pub open spec fn text(self) -> Seq<char> {
        match self {
            ClientStreamError::ClientError(e) => "Failed to send data to client "@ + e@ + "."@,
            ClientStreamError::RemoteError(_) => "Failed to send data to remote."@,
            ClientStreamError::ClientNotAvailable(id) => "Client "@ + id.text()
                + " is not registered to Store or no longer available."@,
            ClientStreamError::StreamNotAvailable(id) => "Stream "@ + id.text()
                + " is not registered to Store or no longer available."@,
            ClientStreamError::RemoteEnd => "Remote stream has closed."@,
        }
    }

    /// The error in words.
    pub fn to_string(&self) -> (r: String)
        ensures
            r@ == self.text(),
    {
        match self {
            ClientStreamError::ClientError(e) => {
                let mut out = "Failed to send data to client ".to_owned();
                out.append(e.as_str());
                out.append(".");
                out
            },
            ClientStreamError::RemoteError(_) => "Failed to send data to remote.".to_owned(),
            ClientStreamError::ClientNotAvailable(id) => {
                let mut out = "Client ".to_owned();
                out.append(id.to_string().as_str());
                out.append(" is not registered to Store or no longer available.");
                out
            },
            ClientStreamError::StreamNotAvailable(id) => {
                let mut out = "Stream ".to_owned();
                out.append(id.to_string().as_str());
                out.append(" is not registered to Store or no longer available.");
                out
            },
            ClientStreamError::RemoteEnd => "Remote stream has closed.".to_owned(),
        }
    }
}

} // verus!
