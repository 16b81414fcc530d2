//! The messages that a client and the server exchange, and what they are made of.
use crate::clock::{timestamp_text, Timestamp};
use crate::id::{ClientId, EndpointId, StreamId};
use crate::reconnect::text_of;
use crate::text::{decimal, push_decimal};
use vstd::prelude::*;
use vstd::string::*;

verus! {

/// The transport protocol of an endpoint.
#[derive(Clone, Copy, Debug, PartialEq, Eq, Hash, Structural)]
pub enum Protocol {
    TCP,
    UDP,
}

impl Protocol {
    /// How the protocol is printed.
    pub open spec fn text(self) -> Seq<char> {
        match self {
            Protocol::TCP => "tcp"@,
            Protocol::UDP => "udp"@,
        }
    }

    /// `tcp` or `udp`.
    pub fn to_string(&self) -> (r: String)
        ensures
            r@ == self.text(),
    {
        match self {
            Protocol::TCP => "tcp".to_owned(),
            Protocol::UDP => "udp".to_owned(),
        }
    }
}

/// What a client asks for: that remote traffic of one protocol reach one of its local ports.
#[derive(Clone, Copy, Debug, PartialEq, Eq, Hash, Structural)]
pub struct EndpointClaim {
    pub protocol: Protocol,
    pub local_port: u16,
    pub remote_port: u16,
}

pub type EndpointClaims = Vec<EndpointClaim>;

/// What a client was given: the remote port that leads to one of its local ports.
#[derive(Clone, Copy, Debug, PartialEq, Eq, Hash, Structural)]
pub struct Endpoint {
    pub id: EndpointId,
    pub protocol: Protocol,
    pub local_port: u16,
    pub remote_port: u16,
}

pub type Endpoints = Vec<Endpoint>;

/// The version of the handshake that the server speaks.
pub const CLIENT_HELLO_VERSION: u16 = 2;

/// The address of a peer. An IPv4 address is a number below 2^32, with no flow and no scope.
#[derive(Clone, Copy, Debug, PartialEq, Eq, Hash, Structural)]
pub struct PeerAddr {
    pub v6: bool,
    pub ip: u128,
    pub port: u16,
    pub flowinfo: u32,
    pub scope_id: u32,
}

impl PeerAddr {
    /// An IPv4 address, its four bytes as one number.
    pub fn v4(ip: u32, port: u16) -> (r: Self)
        ensures
            r == (PeerAddr { v6: false, ip: ip as u128, port, flowinfo: 0, scope_id: 0 }),
    {
        PeerAddr { v6: false, ip: ip as u128, port, flowinfo: 0, scope_id: 0 }
    }

    /// An IPv6 address, its sixteen bytes as one number.
    pub fn v6(ip: u128, port: u16) -> (r: Self)
        ensures
            r == (PeerAddr { v6: true, ip, port, flowinfo: 0, scope_id: 0 }),
    {
        PeerAddr { v6: true, ip, port, flowinfo: 0, scope_id: 0 }
    }
}

/// Who opened a stream.
#[derive(Clone, Copy, Debug, PartialEq, Eq, Hash, Structural)]
pub struct RemoteInfo {
    pub remote_peer_addr: PeerAddr,
}

impl RemoteInfo {
    /// The peer with the given address.
    pub fn new(remote_peer_addr: PeerAddr) -> (r: Self)
        ensures
            r.remote_peer_addr == remote_peer_addr,
    {
        RemoteInfo { remote_peer_addr }
    }

    /// The peer in words, its address written as `addr`.
    pub fn to_string(&self, addr: &str) -> (r: String)
        ensures
            r@ == remote_info_text(addr@),
    {
        crate::text::join("RemoteInfo(remote_peer_addr=", addr)
    }
}

/// How a peer with the address `addr` is printed.
pub open spec fn remote_info_text(addr: Seq<char>) -> Seq<char> {
    "RemoteInfo(remote_peer_addr="@ + addr
}

/// What a client shows in its hello: the token that it was issued, or the one that it keeps for
/// reconnecting.
#[derive(Clone, Copy, Debug, PartialEq, Eq, Structural)]
pub enum ClientType {
    Auth,
    Reconnect,
}

/// What a client says first.
#[derive(Clone, Debug)]
pub struct ClientHelloV2 {
    pub version: u16,
    pub token: String,
    pub endpoint_claims: EndpointClaims,
    pub client_type: ClientType,
}

/// What the server answers to a hello.
#[derive(Clone, Debug, PartialEq, Eq)]
pub enum ServerHelloV2 {
    Success { client_id: ClientId, host: String, endpoints: Endpoints },
    BadRequest,
    ServiceTemporaryUnavailable,
    IllegalHost,
    InternalServerError,
    VersionMismatch,
}

/// The packets of an established connection.
#[derive(Clone, Debug, PartialEq, Eq)]
pub enum ControlPacketV2 {
    /// The server opens a stream to an endpoint.
    Init(StreamId, EndpointId, RemoteInfo),
    /// Bytes of a stream.
    Data(StreamId, Vec<u8>),
    /// The client does not take a stream.
    Refused(StreamId),
    /// A stream has ended.
    End(StreamId),
    /// A sign of life, which may bring a reconnect token.
    Ping(u32, Timestamp, Option<String>),
    /// The answer to a sign of life.
    Pong(u32, Timestamp),
}

impl ControlPacketV2 {
    /// The points in time in the packet are ones that the calendar has.
    pub open spec fn valid(self) -> bool {
        match self {
            ControlPacketV2::Ping(_, t, _) => t.valid(),
            ControlPacketV2::Pong(_, t) => t.valid(),
            _ => true,
        }
    }

    /// The packets say the same.
    pub open spec fn same(self, other: Self) -> bool {
        match (self, other) {
            (ControlPacketV2::Data(sid, data), ControlPacketV2::Data(sid2, data2)) => sid == sid2
                && data@ == data2@,
            (ControlPacketV2::Ping(seq, t, token), ControlPacketV2::Ping(seq2, t2, token2)) => seq
                == seq2 && t == t2 && text_of(token) == text_of(token2),
            _ => self == other,
        }
    }

    /// The same packet once more.
    pub fn duplicate(&self) -> (r: Self)
        ensures
            r.same(*self),
    {
        match self {
            ControlPacketV2::Init(sid, eid, info) => ControlPacketV2::Init(*sid, *eid, *info),
            ControlPacketV2::Data(sid, data) => {
                let copy = data.clone();
                assert(copy@ =~= data@);
                ControlPacketV2::Data(*sid, copy)
            },
            ControlPacketV2::Refused(sid) => ControlPacketV2::Refused(*sid),
            ControlPacketV2::End(sid) => ControlPacketV2::End(*sid),
            ControlPacketV2::Ping(seq, t, token) => ControlPacketV2::Ping(
                *seq,
                *t,
                match token {
                    Some(token) => Some(token.clone()),
                    None => None,
                },
            ),
            ControlPacketV2::Pong(seq, t) => ControlPacketV2::Pong(*seq, *t),
        }
    }

    /// How the packet is printed, where the peer's address is written `addr`.
    pub open spec fn text(self, addr: Seq<char>) -> Seq<char> {
        match self {
            ControlPacketV2::Init(sid, eid, _) => "ControlPacket::Init(sid="@ + sid.text()
                + ", eid="@ + eid.text() + ", remote_info="@ + remote_info_text(addr) + ")"@,
            ControlPacketV2::Data(sid, data) => "ControlPacket::Data(sid="@ + sid.text()
                + ", data_len="@ + decimal(data@.len()) + ")"@,
            ControlPacketV2::Refused(sid) => "ControlPacket::Refused(sid="@ + sid.text() + ")"@,
            ControlPacketV2::End(sid) => "ControlPacket::End(sid="@ + sid.text() + ")"@,
            ControlPacketV2::Ping(seq, t, _) => "ControlPacket::Ping(seq="@ + decimal(seq as nat)
                + ", datetime="@ + timestamp_text(t.secs, t.nanos) + ")"@,
            ControlPacketV2::Pong(seq, t) => "ControlPacket::Pong(seq="@ + decimal(seq as nat)
                + ", datetime="@ + timestamp_text(t.secs, t.nanos) + ")"@,
        }
    }

    /// The packet in words, for logs. The peer's address is written as `addr`.
    pub fn to_string(&self, addr: &str) -> (r: String)
        requires
            self.valid(),
        ensures
            r@ == self.text(addr@),
    {
        match self {
            ControlPacketV2::Init(sid, eid, remote_info) => {
                let mut out = "ControlPacket::Init(sid=".to_owned();
                out.append(sid.to_string().as_str());
                out.append(", eid=");
                out.append(eid.to_string().as_str());
                out.append(", remote_info=");
                out.append(remote_info.to_string(addr).as_str());
                out.append(")");
                out
            },
            ControlPacketV2::Data(sid, data) => {
                let mut out = "ControlPacket::Data(sid=".to_owned();
                out.append(sid.to_string().as_str());
                out.append(", data_len=");
                push_decimal(&mut out, data.len() as u64);
                out.append(")");
                out
            },
            ControlPacketV2::Refused(sid) => {
                let mut out = "ControlPacket::Refused(sid=".to_owned();
                out.append(sid.to_string().as_str());
                out.append(")");
                out
            },
            ControlPacketV2::End(sid) => {
                let mut out = "ControlPacket::End(sid=".to_owned();
                out.append(sid.to_string().as_str());
                out.append(")");
                out
            },
            ControlPacketV2::Ping(seq, t, _) => {
                let mut out = "ControlPacket::Ping(seq=".to_owned();
                push_decimal(&mut out, *seq as u64);
                out.append(", datetime=");
                out.append(t.to_string().as_str());
                out.append(")");
                out
            },
            ControlPacketV2::Pong(seq, t) => {
                let mut out = "ControlPacket::Pong(seq=".to_owned();
                push_decimal(&mut out, *seq as u64);
                out.append(", datetime=");
                out.append(t.to_string().as_str());
                out.append(")");
                out
            },
        }
    }
}

/// What becomes of a buffer that a packet is put into.
pub open spec fn packet_put<E>(
    encoded: Result<Vec<u8>, E>,
    before: Seq<u8>,
    after: Seq<u8>,
    r: Result<(), E>,
) -> bool {
    match encoded {
        Ok(bytes) => r is Ok && after == before + bytes@,
        Err(e) => r == Err::<(), E>(e) && after == before,
    }
}

/// The packet that a buffer holds, as `parsed` read it.
pub open spec fn decoded_packet<E>(src: Seq<u8>, parsed: Result<ControlPacketV2, E>) -> Result<
    Option<ControlPacketV2>,
    E,
> {
    if src.len() == 0 {
        Ok(None)
    } else {
        match parsed {
            Ok(packet) => Ok(Some(packet)),
            Err(e) => Err(e),
        }
    }
}

/// A packet that is put into an empty buffer is what the buffer holds: the buffer is the bytes that
/// the packet was encoded as, and what those bytes are parsed as comes back.
pub proof fn law_buffer_holds_the_packet<E>(
    encoded: Result<Vec<u8>, E>,
    buffer: Seq<u8>,
    put: Result<(), E>,
    parsed: Result<ControlPacketV2, E>,
    packet: ControlPacketV2,
)
    requires
        packet_put(encoded, Seq::empty(), buffer, put),
        put is Ok,
        encoded matches Ok(bytes) && bytes@.len() > 0 && (buffer == bytes@ ==> parsed == Ok::<
            ControlPacketV2,
            E,
        >(packet)),
    ensures
        encoded matches Ok(bytes) && buffer == bytes@,
        decoded_packet(buffer, parsed) == Ok::<Option<ControlPacketV2>, E>(Some(packet)),
{
    assert(buffer =~= encoded->Ok_0@);
}

/// Frames packets into buffers. Each message holds one packet, whole.
#[derive(Clone, Copy, Debug, PartialEq, Eq, PartialOrd, Ord, Hash, Structural)]
pub struct ControlPacketV2Codec {}

impl Default for ControlPacketV2Codec {
    fn default() -> (r: Self)
        ensures
            r == (ControlPacketV2Codec {  }),
    {
        ControlPacketV2Codec {  }
    }
}

impl ControlPacketV2Codec {
    /// A codec.
    pub fn new() -> (r: Self)
        ensures
            r == (ControlPacketV2Codec {  }),
    {
        ControlPacketV2Codec {  }
    }

    /// Puts the encoded packet behind what `dst` holds. A packet that could not be encoded
    /// leaves `dst` as it was.
    pub fn encode<E>(&mut self, encoded: Result<Vec<u8>, E>, dst: &mut Vec<u8>) -> (r: Result<
        (),
        E,
    >)
        ensures
            *final(self) == *old(self),
            packet_put(encoded, old(dst)@, final(dst)@, r),
    {
        match encoded {
            Ok(bytes) => {
                let mut bytes = bytes;
                dst.append(&mut bytes);
                Ok(())
            },
            Err(e) => Err(e),
        }
    }

    /// The packet that `src` holds, as `parsed` read it. An empty buffer holds none, whatever
    /// `parsed` is.
    pub fn decode<E>(&mut self, src: &Vec<u8>, parsed: Result<ControlPacketV2, E>) -> (r: Result<
        Option<ControlPacketV2>,
        E,
    >)
        ensures
            *final(self) == *old(self),
            r == decoded_packet(src@, parsed),
    {
        if src.len() == 0 {
            return Ok(None);
        }
        match parsed {
            Ok(packet) => Ok(Some(packet)),
            Err(e) => Err(e),
        }
    }
}

/// Packets that are put into a buffer stand there behind each other, whole; one that could not be
/// encoded leaves no trace. An empty buffer holds no packet, and what cannot be parsed is an error.
pub proof fn law_packets_stand_behind_each_other<E>(
    first: Vec<u8>,
    second: Result<Vec<u8>, E>,
    before: Seq<u8>,
    between: Seq<u8>,
    after: Seq<u8>,
    put: Result<(), E>,
    put_again: Result<(), E>,
    parsed: Result<ControlPacketV2, E>,
)
    requires
        packet_put(Ok(first), before, between, put),
        packet_put(second, between, after, put_again),
    ensures
        put is Ok,
        put_again is Ok <==> second is Ok,
        second matches Err(e) ==> put_again == Err::<(), E>(e),
        after.len() == before.len() + first@.len() + (if second is Ok {
            second->Ok_0@.len()
        } else {
            0
        }),
        after.take(before.len() as int) == before,
        after.subrange(before.len() as int, (before.len() + first@.len()) as int) == first@,
        second matches Ok(bytes) ==> after.skip((before.len() + first@.len()) as int) == bytes@,
        decoded_packet(Seq::empty(), parsed) == Ok::<Option<ControlPacketV2>, E>(None),
        after.len() > 0 ==> (parsed matches Err(e) ==> decoded_packet(after, parsed) == Err::<
            Option<ControlPacketV2>,
            E,
        >(e)),
        after.len() > 0 ==> (parsed matches Ok(packet) ==> decoded_packet(after, parsed) == Ok::<
            Option<ControlPacketV2>,
            E,
        >(Some(packet))),
{
    assert(after.take(before.len() as int) =~= before);
    assert(after.subrange(before.len() as int, (before.len() + first@.len()) as int) =~= first@);
    if second is Ok {
        assert(after.skip((before.len() + first@.len()) as int) =~= second->Ok_0@);
    }
}

} // verus!
