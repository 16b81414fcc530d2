//! Remote traffic of a tunnel over UDP: how datagrams find their streams.
use super::store::Store;
use super::TunnelPacket;
use crate::id::{is_version_4, ClientId, EndpointId, StreamId};
use crate::protocol::PeerAddr;
use crate::server::stream::{RemoteStream, RemoteUdp};
use vstd::prelude::*;

verus! {

/// What happens on the socket of a tunnel.
pub enum UdpEvent {
    /// A peer has sent a datagram.
    Datagram(Vec<u8>, PeerAddr),
    /// Reading failed.
    ReadError,
    /// The tunnel was cancelled.
    Cancelled,
    /// A packet was handed to the client, or could not be.
    Sent(bool),
}

/// What is done next.
pub enum UdpAction {
    /// Reads a datagram.
    Read,
    /// Sends the packet to the client, and reports how that went.
    Send(TunnelPacket),
    /// Stops.
    Stop,
}

/// The packet that a datagram becomes: an empty one ends the stream.
pub open spec fn datagram_packet(stream_id: StreamId, data: Vec<u8>) -> TunnelPacket {
    if data@.len() == 0 {
        TunnelPacket::End(stream_id)
    } else {
        TunnelPacket::UdpData(stream_id, data)
    }
}

fn packet_for(stream_id: StreamId, data: Vec<u8>) -> (packet: TunnelPacket)
    ensures
        packet == datagram_packet(stream_id, data),
{
    if data.len() == 0 {
        TunnelPacket::End(stream_id)
    } else {
        TunnelPacket::UdpData(stream_id, data)
    }
}

/// A fresh stream of a peer was added to what was there before.
pub open spec fn stream_added(
    before: Store,
    after: Store,
    client_id: ClientId,
    peer: PeerAddr,
    udp: RemoteUdp,
) -> bool {
    &&& is_version_4(udp.stream_id.uuid)
    &&& udp.client_id == client_id
    &&& udp.remote_info.remote_peer_addr == peer
    &&& !udp.disabled
    &&& after.streams() == before.streams().insert(
        udp.stream_id.uuid,
        RemoteStream::RemoteUdp(udp),
    )
    &&& after.peers() == before.peers().insert(peer, udp.stream_id)
    &&& after.clients() == before.clients()
    &&& after.hosts() == before.hosts()
}

/// One step on the socket of a tunnel.
pub open spec fn udp_step(
    before: Store,
    client_id: ClientId,
    event: UdpEvent,
    after: Store,
    action: UdpAction,
) -> bool {
    match event {
        UdpEvent::Datagram(data, peer) => match before.stream_at(peer) {
            Some(id) => after == before && action == UdpAction::Send(datagram_packet(id, data)),
            None => exists|udp: RemoteUdp| #[trigger]
                stream_added(before, after, client_id, peer, udp) && action == UdpAction::Send(
                    datagram_packet(udp.stream_id, data),
                ),
        },
        UdpEvent::Cancelled => after == before && action == UdpAction::Stop,
        _ => after == before && action == UdpAction::Read,
    }
}

/// What follows an event. A datagram goes to the stream of its peer; a peer without one gets a new
/// stream, of which the client learns from the datagram. Only a cancellation ends the loop.
pub fn process_udp_stream(store: &mut Store, client_id: ClientId, event: UdpEvent) -> (action:
    UdpAction)
    requires
        old(store).wf(),
    ensures
        final(store).wf(),
        udp_step(*old(store), client_id, event, *final(store), action),
{
    match event {
        UdpEvent::Datagram(data, peer) => match store.find_stream_id_by_addr(&peer) {
            Some(stream_id) => UdpAction::Send(packet_for(stream_id, data)),
            None => {
                let remote = RemoteUdp::new(peer, client_id, EndpointId::default());
                store.add_remote(RemoteStream::RemoteUdp(remote), peer);
                assert(stream_added(*old(store), *store, client_id, peer, remote));
                UdpAction::Send(packet_for(remote.stream_id, data))
            },
        },
        UdpEvent::Cancelled => UdpAction::Stop,
        _ => UdpAction::Read,
    }
}

} // verus!
