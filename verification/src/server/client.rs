//! A connected client: what is read from its connection, and what is sent over it.
use super::stream::StreamMessage;
use super::ClientStreamError;
use crate::clock::{millis_between, round_trip_millis, Timestamp};
use crate::id::{ClientId, StreamId};
use crate::protocol::{ControlPacketV2, Endpoints};
use vstd::prelude::*;
use vstd::string::*;

verus! {

/// A client, and the endpoints that it was given.
#[derive(Debug)]
pub struct Client {
    pub client_id: ClientId,
    pub endpoints: Endpoints,
    /// The window for reconnecting that was configured, in seconds. It is kept, and nothing in the
    /// library acts on it.
    pub reconnect_window: i64,
    pub disabled: bool,
}

/// What came of sending a packet.
pub enum Delivery {
    /// It was sent.
    Sent,
    /// It could not be encoded.
    NotEncoded(String),
    /// It could not be sent.
    NotSent(String),
}

/// What a packet from a client calls for.
pub enum PacketAction {
    /// The message goes to the remote peer of the stream; if it does not get there, the stream
    /// is disabled.
    Forward(StreamId, StreamMessage),
    /// The packet goes back to the client, whatever comes of it.
    Reply(ControlPacketV2),
    /// The round trip took this many milliseconds.
    RoundTrip(i64),
    /// Nothing is done.
    Ignore,
}

/// What the packet calls for, when it is read at `now`.
pub open spec fn packet_action(
    packet: Option<ControlPacketV2>,
    now: Timestamp,
    action: PacketAction,
) -> bool {
    match packet {
        Some(ControlPacketV2::Data(sid, data)) => action == PacketAction::Forward(
            sid,
            StreamMessage::Data(data),
        ),
        Some(ControlPacketV2::Refused(sid)) => action == PacketAction::Forward(
            sid,
            StreamMessage::TunnelRefused,
        ),
        Some(ControlPacketV2::Ping(seq, t, _)) => action == PacketAction::Reply(
            ControlPacketV2::Pong(seq, t),
        ),
        Some(ControlPacketV2::Pong(_, t)) => action matches PacketAction::RoundTrip(ms) && ms
            == millis_between(now, t),
        _ => action == PacketAction::Ignore,
    }
}

/// What a packet that is read at `now` calls for. `None` stands for a message that holds no
/// packet.
pub fn route_packet_at(packet: Option<ControlPacketV2>, now: Timestamp) -> (action: PacketAction)
    requires
        now.valid(),
        packet matches Some(p) ==> p.valid(),
    ensures
        packet_action(packet, now, action),
{
    match packet {
        Some(ControlPacketV2::Data(sid, data)) => PacketAction::Forward(
            sid,
            StreamMessage::Data(data),
        ),
        Some(ControlPacketV2::Refused(sid)) => PacketAction::Forward(
            sid,
            StreamMessage::TunnelRefused,
        ),
        Some(ControlPacketV2::Ping(seq, t, _)) => PacketAction::Reply(
            ControlPacketV2::Pong(seq, t),
        ),
        Some(ControlPacketV2::Pong(_, t)) => PacketAction::RoundTrip(round_trip_millis(now, t)),
        _ => PacketAction::Ignore,
    }
}

/// What a packet that is read now calls for.
pub fn route_packet(packet: Option<ControlPacketV2>) -> (action: PacketAction)
    requires
        packet matches Some(p) ==> p.valid(),
    ensures
        exists|now: Timestamp| now.valid() && #[trigger] packet_action(packet, now, action),
{
    let now = Timestamp::now();
    let action = route_packet_at(packet, now);
    assert(packet_action(packet, now, action));
    action
}

/// What the outcome of sending a packet to a client comes to.
pub open spec fn delivery_outcome(delivery: Delivery, r: Result<(), ClientStreamError>) -> bool {
    match delivery {
        Delivery::Sent => r is Ok,
        Delivery::NotEncoded(e) => r matches Err(ClientStreamError::ClientError(t)) && t@
            == "packet is invalid "@ + e@,
        Delivery::NotSent(e) => r matches Err(ClientStreamError::ClientError(t)) && t@
            == "failed to communicate with client "@ + e@,
    }
}

impl Client {
    /// A client that is connected.
    pub fn new(client_id: ClientId, endpoints: Endpoints, reconnect_window: i64) -> (r: Self)
        ensures
            r == (Client { client_id, endpoints, reconnect_window, disabled: false }),
    {
        Client { client_id, endpoints, reconnect_window, disabled: false }
    }

    /// What the outcome of sending a packet comes to. A connection over which nothing can be
    /// sent disables the client.
    pub fn send_to_client(&mut self, delivery: Delivery) -> (r: Result<(), ClientStreamError>)
        ensures
            delivery_outcome(delivery, r),
            *final(self) == (Client {
                disabled: old(self).disabled || delivery is NotSent,
                ..*old(self)
            }),
    {
        match delivery {
            Delivery::Sent => Ok(()),
            Delivery::NotEncoded(e) => Err(
                ClientStreamError::ClientError(
                    crate::text::join("packet is invalid ", e.as_str()),
                ),
            ),
            Delivery::NotSent(e) => {
                self.disable();
                Err(
                    ClientStreamError::ClientError(
                        crate::text::join("failed to communicate with client ", e.as_str()),
                    ),
                )
            },
        }
    }

    /// Disables the client.
    pub fn disable(&mut self)
        ensures
            *final(self) == (Client { disabled: true, ..*old(self) }),
    {
        self.disabled = true;
    }

    /// Whether the client is disabled.
    pub fn disabled(&self) -> (b: bool)
        ensures
            b == self.disabled,
    {
        self.disabled
    }

    /// The endpoints that the client was given.
    pub fn endpoints(&self) -> (endpoints: &Endpoints)
        ensures
            endpoints == self.endpoints,
    {
        &self.endpoints
    }
}

} // verus!
