//! Remote traffic over UDP: how datagrams find their streams.
use super::store::Store;
use super::stream::{RemoteStream, RemoteUdp};
use crate::id::{is_version_4, ClientId, EndpointId, StreamId};
use crate::protocol::{ControlPacketV2, PeerAddr};
use vstd::prelude::*;

verus! {

/// What happens on the socket of an endpoint.
pub enum UdpEvent {
    /// A peer has sent a datagram.
    Datagram(Vec<u8>, PeerAddr),
    /// Reading failed.
    ReadError,
    /// The endpoint was cancelled.
    Cancelled,
    /// The packet that opens a stream was handed to the client, or could not be.
    InitSent(bool),
    /// A packet of a stream was handed to the client, or could not be.
    Sent(bool),
}

/// What is done next.
pub enum UdpAction {
    /// Reads a datagram.
    Read,
    /// Sends the packet that opens a stream to the client, and reports how that went.
    SendInit(ControlPacketV2),
    /// Sends a packet of a stream to the client, and reports how that went.
    Send(ControlPacketV2),
    /// Stops.
    Stop,
}

/// A datagram whose stream is being opened.
pub struct Opening {
    pub remote: RemoteUdp,
    pub data: Vec<u8>,
}

/// The loop that serves the socket of one endpoint.
pub struct UdpLoop {
    pub client_id: ClientId,
    pub endpoint_id: EndpointId,
    pub opening: Option<Opening>,
}

/// The packet that a datagram becomes: an empty one ends the stream.
pub open spec fn datagram_packet(stream_id: StreamId, data: Vec<u8>) -> ControlPacketV2 {
    if data@.len() == 0 {
        ControlPacketV2::End(stream_id)
    } else {
        ControlPacketV2::Data(stream_id, data)
    }
}

fn packet_for(stream_id: StreamId, data: Vec<u8>) -> (packet: ControlPacketV2)
    ensures
        packet == datagram_packet(stream_id, data),
{
    if data.len() == 0 {
        ControlPacketV2::End(stream_id)
    } else {
        ControlPacketV2::Data(stream_id, data)
    }
}

/// One step of the loop.
pub open spec fn udp_step(
    before: UdpLoop,
    store: Store,
    event: UdpEvent,
    after: UdpLoop,
    store_after: Store,
    action: UdpAction,
) -> bool {
    &&& after.client_id == before.client_id
    &&& after.endpoint_id == before.endpoint_id
    &&& match event {
        UdpEvent::Datagram(data, peer) => {
            &&& store_after == store
            &&& match store.stream_at(peer) {
                Some(id) => after.opening is None && action == UdpAction::Send(
                    datagram_packet(id, data),
                ),
                None => {
                    &&& after.opening matches Some(o)
                    &&& o.data == data
                    &&& is_version_4(o.remote.stream_id.uuid)
                    &&& o.remote.client_id == before.client_id
                    &&& o.remote.endpoint_id == before.endpoint_id
                    &&& o.remote.remote_info.remote_peer_addr == peer
                    &&& !o.remote.disabled
                    &&& action == UdpAction::SendInit(
                        ControlPacketV2::Init(
                            o.remote.stream_id,
                            o.remote.endpoint_id,
                            o.remote.remote_info,
                        ),
                    )
                },
            }
        },
        UdpEvent::InitSent(ok) => {
            &&& after.opening is None
            &&& match before.opening {
                Some(o) => if ok {
                    &&& store_after.streams() == store.streams().insert(
                        o.remote.stream_id.uuid,
                        RemoteStream::RemoteUdp(o.remote),
                    )
                    &&& store_after.peers() == store.peers().insert(
                        o.remote.remote_info.remote_peer_addr,
                        o.remote.stream_id,
                    )
                    &&& store_after.clients() == store.clients()
                    &&& store_after.endpoints() == store.endpoints()
                    &&& store_after.pool() == store.pool()
                    &&& action == UdpAction::Send(datagram_packet(o.remote.stream_id, o.data))
                } else {
                    store_after == store && action == UdpAction::Stop
                },
                None => store_after == store && action == UdpAction::Read,
            }
        },
        UdpEvent::Sent(_) => store_after == store && after.opening is None && action
            == UdpAction::Read,
        UdpEvent::ReadError => store_after == store && after.opening is None && action
            == UdpAction::Read,
        UdpEvent::Cancelled => store_after == store && after.opening is None && action
            == UdpAction::Stop,
    }
}

impl UdpLoop {
    /// The loop for the socket of an endpoint.
    pub fn new(client_id: ClientId, endpoint_id: EndpointId) -> (r: Self)
        ensures
            r == (UdpLoop { client_id, endpoint_id, opening: None }),
    {
        UdpLoop { client_id, endpoint_id, opening: None }
    }

    /// What follows an event. A datagram goes to the stream of its peer; a peer without one gets
    /// a new stream, which is registered once the client has been told of it. Only a client
    /// that cannot be told of a new stream, or a cancellation, ends the loop.
    pub fn process_udp_stream(&mut self, store: &mut Store, event: UdpEvent) -> (action: UdpAction)
        requires
            old(store).wf(),
        ensures
            final(store).wf(),
            udp_step(*old(self), *old(store), event, *final(self), *final(store), action),
    {
        let opening = self.opening.take();
        match event {
            UdpEvent::Datagram(data, peer) => match store.find_stream_id_by_addr(&peer) {
                Some(stream_id) => UdpAction::Send(packet_for(stream_id, data)),
                None => {
                    let remote = RemoteUdp::new(peer, self.client_id, self.endpoint_id);
                    let init = remote.send_init_to_client();
                    self.opening = Some(Opening { remote, data });
                    UdpAction::SendInit(init)
                },
            },
            UdpEvent::InitSent(ok) => match opening {
                Some(o) => {
                    if ok {
                        let stream_id = o.remote.stream_id;
                        store.add_remote(
                            RemoteStream::RemoteUdp(o.remote),
                            o.remote.remote_info.remote_peer_addr,
                        );
                        UdpAction::Send(packet_for(stream_id, o.data))
                    } else {
                        UdpAction::Stop
                    }
                },
                None => UdpAction::Read,
            },
            UdpEvent::Sent(_) => UdpAction::Read,
            UdpEvent::ReadError => UdpAction::Read,
            UdpEvent::Cancelled => UdpAction::Stop,
        }
    }
}

} // verus!
