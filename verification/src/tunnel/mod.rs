//! Tunnels with one port for each client: the clients and streams of such a server, its
//! handshake, and its packets.
use crate::id::{ClientId, StreamId};
use vstd::prelude::*;
use vstd::string::*;

pub mod active_stream;
pub mod client;
pub mod client_laws;
pub mod connections;
pub mod control;
pub mod laws;
pub mod packet;
pub mod reader;
pub mod remote;
pub mod server_laws;
pub mod store;
pub mod udp;

verus! {

/// How a tunnel server is set up.
#[derive(Clone, Debug)]
pub struct Config {
    pub control_port: u16,
    pub token_secret: String,
    pub host: String,
    pub remote_port_start: u16,
    pub remote_port_end: u16,
}

/// What a tunnel carries.
#[derive(Clone, Copy, Debug, PartialEq, Eq, Structural)]
pub enum Payload {
    UDP,
    Other,
}

/// What a tunnel that is written so carries.
pub open spec fn payload_of(text: Seq<char>) -> Payload {
    if text == "udp"@ {
        Payload::UDP
    } else {
        Payload::Other
    }
}

/// Reads what a tunnel carries: datagrams for `udp`, connections for anything else.
pub fn parse_payload(text: &str) -> (r: Payload)
    ensures
        r == payload_of(text@),
{
    if text.to_owned() == "udp".to_owned() {
        Payload::UDP
    } else {
        Payload::Other
    }
}

/// What a client says first.
#[derive(Clone, Debug)]
pub struct ClientHello {
    pub version: u16,
    pub token: String,
    pub payload: Payload,
}

/// What the server answers to a hello.
#[derive(Clone, Debug, PartialEq, Eq)]
pub enum ServerHello {
    Success { client_id: ClientId, remote_addr: String },
    BadRequest,
    ServiceTemporaryUnavailable,
    IllegalHost,
    InternalServerError,
    VersionMismatch,
}

/// A packet between a tunnel server and its client.
#[derive(Clone, Debug, PartialEq, Eq)]
pub enum TunnelPacket {
    Init(StreamId),
    Data(StreamId, Vec<u8>),
    Refused(StreamId),
    End(StreamId),
    Ping,
    UdpData(StreamId, Vec<u8>),
}

impl TunnelPacket {
    /// The packets say the same.
    pub open spec fn same(self, other: Self) -> bool {
        match (self, other) {
            (TunnelPacket::Data(sid, data), TunnelPacket::Data(sid2, data2)) => sid == sid2
                && data@ == data2@,
            (TunnelPacket::UdpData(sid, data), TunnelPacket::UdpData(sid2, data2)) => sid == sid2
                && data@ == data2@,
            _ => self == other,
        }
    }

    /// The same packet once more.
    pub fn duplicate(&self) -> (r: Self)
        ensures
            r.same(*self),
    {
        match self {
            TunnelPacket::Init(sid) => TunnelPacket::Init(*sid),
            TunnelPacket::Data(sid, data) => {
                let copy = data.clone();
                assert(copy@ =~= data@);
                TunnelPacket::Data(*sid, copy)
            },
            TunnelPacket::Refused(sid) => TunnelPacket::Refused(*sid),
            TunnelPacket::End(sid) => TunnelPacket::End(*sid),
            TunnelPacket::Ping => TunnelPacket::Ping,
            TunnelPacket::UdpData(sid, data) => {
                let copy = data.clone();
                assert(copy@ =~= data@);
                TunnelPacket::UdpData(*sid, copy)
            },
        }
    }
}

} // verus!
