//! What a server does for its clients and their peers, said of the data that they see.
use super::client::{Client, Delivery};
use super::dedicated::lemma_with_endpoints_keeps;
use super::reader::{client_step, ClientAction, ClientEvent};
use super::store::Store;
use super::stream::{
    tcp_step, RemoteStep, RemoteStream, RemoteTcp, RemoteUdp, StreamMessage, TcpReadAction,
    TcpReadEvent,
};
use super::udp::{udp_step, UdpAction, UdpEvent, UdpLoop};
use super::ClientStreamError;
use crate::clock::{millis_between, Timestamp};
use crate::id::{ClientId, EndpointId, StreamId};
use crate::port_allocator::PortAllocatorError;
use crate::protocol::{ControlPacketV2, EndpointClaim, Endpoints, PeerAddr};
use crate::ws::{Frame, ReadEvent};
use vstd::prelude::*;

verus! {

/// The flag of a stream, over TCP or UDP.
pub open spec fn flag(stream: RemoteStream) -> bool {
    match stream {
        RemoteStream::RemoteTcp(tcp) => tcp.disabled,
        RemoteStream::RemoteUdp(udp) => udp.disabled,
    }
}

/// The client of a stream, over TCP or UDP.
pub open spec fn owner(stream: RemoteStream) -> ClientId {
    match stream {
        RemoteStream::RemoteTcp(tcp) => tcp.client_id,
        RemoteStream::RemoteUdp(udp) => udp.client_id,
    }
}

/// The stream with its flag set, and nothing else changed.
pub open spec fn flagged(stream: RemoteStream) -> RemoteStream {
    match stream {
        RemoteStream::RemoteTcp(tcp) => RemoteStream::RemoteTcp(
            RemoteTcp {
                stream_id: tcp.stream_id,
                client_id: tcp.client_id,
                endpoint_id: tcp.endpoint_id,
                remote_info: tcp.remote_info,
                disabled: true,
            },
        ),
        RemoteStream::RemoteUdp(udp) => RemoteStream::RemoteUdp(
            RemoteUdp {
                stream_id: udp.stream_id,
                client_id: udp.client_id,
                endpoint_id: udp.endpoint_id,
                remote_info: udp.remote_info,
                disabled: true,
            },
        ),
    }
}

/// The stream is registered and its flag is not set.
pub open spec fn open_stream(store: Store, stream_id: StreamId) -> bool {
    store.streams().contains_key(stream_id.uuid) && !flag(store.streams()[stream_id.uuid])
}

/// Everything but the streams is the same.
pub open spec fn rest_kept(before: Store, after: Store) -> bool {
    &&& after.clients() == before.clients()
    &&& after.peers() == before.peers()
    &&& after.endpoints() == before.endpoints()
    &&& after.pool() == before.pool()
}

/// Everything is the same.
pub open spec fn all_kept(before: Store, after: Store) -> bool {
    after.streams() == before.streams() && rest_kept(before, after)
}

/// The stream is disabled and keeps the rest of what it is, and nothing else has changed.
pub open spec fn only_stream_off(before: Store, after: Store, stream_id: StreamId) -> bool {
    &&& rest_kept(before, after)
    &&& forall|k: u128| #[trigger]
        after.streams().contains_key(k) <==> before.streams().contains_key(k)
    &&& forall|k: u128|
        k != stream_id.uuid && #[trigger] before.streams().contains_key(k) ==> after.streams()[k]
            == before.streams()[k]
    &&& before.streams().contains_key(stream_id.uuid) ==> after.streams()[stream_id.uuid]
        == flagged(before.streams()[stream_id.uuid])
}

/// The client is disabled and keeps the rest of what it is, and nothing else has changed.
pub open spec fn only_client_off(before: Store, after: Store, client_id: ClientId) -> bool {
    &&& after.streams() == before.streams()
    &&& after.peers() == before.peers()
    &&& after.endpoints() == before.endpoints()
    &&& after.pool() == before.pool()
    &&& forall|k: u128| #[trigger]
        after.clients().contains_key(k) <==> before.clients().contains_key(k)
    &&& forall|k: u128|
        k != client_id.uuid && #[trigger] before.clients().contains_key(k) ==> after.clients()[k]
            == before.clients()[k]
    &&& before.clients().contains_key(client_id.uuid) ==> {
        let was = before.clients()[client_id.uuid];
        after.clients()[client_id.uuid] == Client {
            client_id: was.client_id,
            endpoints: was.endpoints,
            reconnect_window: was.reconnect_window,
            disabled: true,
        }
    }
}

/// A write that succeeded changes nothing, and the server reads on.
pub proof fn law_successful_write_changes_nothing(
    client_id: ClientId,
    before: Store,
    stream_id: StreamId,
    now: Timestamp,
    after: Store,
    action: ClientAction,
)
    requires
        client_step(
            client_id,
            before,
            ClientEvent::Written(stream_id, Ok(())),
            now,
            after,
            action,
        ),
    ensures
        all_kept(before, after),
        action == ClientAction::Read,
{
}

/// A write that failed disables its stream and no other, and the server reads on.
pub proof fn law_failed_write_disables_its_stream_only(
    client_id: ClientId,
    before: Store,
    stream_id: StreamId,
    error: String,
    now: Timestamp,
    after: Store,
    action: ClientAction,
)
    requires
        client_step(
            client_id,
            before,
            ClientEvent::Written(stream_id, Err(error)),
            now,
            after,
            action,
        ),
    ensures
        only_stream_off(before, after, stream_id),
        action == ClientAction::Read,
{
}

/// Data of a client is written to the peer of its stream while the stream is open, and dropped
/// otherwise; either way nothing changes.
pub proof fn law_data_is_written_while_the_stream_is_open(
    client_id: ClientId,
    before: Store,
    stream_id: StreamId,
    data: Vec<u8>,
    now: Timestamp,
    after: Store,
    action: ClientAction,
)
    requires
        client_step(
            client_id,
            before,
            ClientEvent::Decoded(Some(ControlPacketV2::Data(stream_id, data))),
            now,
            after,
            action,
        ),
    ensures
        all_kept(before, after),
        open_stream(before, stream_id) ==> action == ClientAction::Write(stream_id, data),
        !open_stream(before, stream_id) ==> action == ClientAction::Read,
{
}

/// A refusal disables its stream and no other. A connection that was open is shut down.
pub proof fn law_refusal_disables_its_stream_only(
    client_id: ClientId,
    before: Store,
    stream_id: StreamId,
    now: Timestamp,
    after: Store,
    action: ClientAction,
)
    requires
        client_step(
            client_id,
            before,
            ClientEvent::Decoded(Some(ControlPacketV2::Refused(stream_id))),
            now,
            after,
            action,
        ),
    ensures
        open_stream(before, stream_id) ==> only_stream_off(before, after, stream_id) && action == (
        match before.streams()[stream_id.uuid] {
            RemoteStream::RemoteTcp(_) => ClientAction::ShutDown(stream_id),
            RemoteStream::RemoteUdp(_) => ClientAction::Read,
        }),
        !open_stream(before, stream_id) ==> all_kept(before, after) && action
            == ClientAction::Read,
{
}

/// A sign of life is answered with the number and the time that it carries; its answer is measured
/// against the clock; and neither changes anything. What only a server sends, and what is no
/// packet, is passed over.
pub proof fn law_other_packets_change_nothing(
    client_id: ClientId,
    before: Store,
    packet: Option<ControlPacketV2>,
    now: Timestamp,
    after: Store,
    action: ClientAction,
)
    requires
        client_step(client_id, before, ClientEvent::Decoded(packet), now, after, action),
        !(packet matches Some(ControlPacketV2::Refused(_))),
    ensures
        all_kept(before, after),
        packet matches Some(ControlPacketV2::Ping(seq, t, _)) ==> action == ClientAction::Reply(
            ControlPacketV2::Pong(seq, t),
        ),
        packet matches Some(ControlPacketV2::Pong(_, t)) ==> (action matches ClientAction::RoundTrip(
            ms,
        ) && ms == millis_between(now, t)),
        packet is None || packet->Some_0 is Init || packet->Some_0 is End ==> action
            == ClientAction::Read,
{
}

/// Every message with bytes, binary or text, is decoded as it is, and nothing changes.
pub proof fn law_messages_are_decoded(
    client_id: ClientId,
    before: Store,
    data: Vec<u8>,
    binary: bool,
    now: Timestamp,
    after: Store,
    action: ClientAction,
)
    requires
        data@.len() > 0,
        client_step(
            client_id,
            before,
            ClientEvent::Read(
                ReadEvent::Received(
                    if binary {
                        Frame::Binary(data)
                    } else {
                        Frame::Text(data)
                    },
                ),
            ),
            now,
            after,
            action,
        ),
    ensures
        all_kept(before, after),
        action == ClientAction::Decode(data),
{
}

/// The event brings no message: the connection has ended or failed, or what came is empty, closes
/// the connection or belongs to the websocket itself.
pub open spec fn no_message(read: ReadEvent) -> bool {
    match read {
        ReadEvent::Received(Frame::Binary(data)) => data@.len() == 0,
        ReadEvent::Received(Frame::Text(data)) => data@.len() == 0,
        ReadEvent::Received(Frame::Close(_)) => true,
        ReadEvent::Received(Frame::Other(_)) => true,
        ReadEvent::Cancelled => true,
        ReadEvent::Failed => true,
        ReadEvent::Ended => true,
    }
}

/// When no message comes any more, the server stops reading and disables the client, and no other.
pub proof fn law_lost_connection_disables_its_client_only(
    client_id: ClientId,
    before: Store,
    read: ReadEvent,
    now: Timestamp,
    after: Store,
    action: ClientAction,
)
    requires
        no_message(read),
        client_step(client_id, before, ClientEvent::Read(read), now, after, action),
    ensures
        only_client_off(before, after, client_id),
        action == ClientAction::Stop,
{
}

/// What a client sends for a stream that is open is written to its peer whole and in order, as long
/// as the writes succeed, and the stream stays open.
pub proof fn law_client_bytes_are_written_in_order(
    client_id: ClientId,
    stream_id: StreamId,
    data: Seq<Vec<u8>>,
    at: Seq<Store>,
    during: Seq<Store>,
    now: Seq<Timestamp>,
    taken: Seq<ClientAction>,
    resumed: Seq<ClientAction>,
)
    requires
        at.len() == data.len() + 1,
        open_stream(at[0], stream_id),
        forall|i: int|
            0 <= i < data.len() ==> client_step(
                client_id,
                at[i],
                ClientEvent::Decoded(Some(ControlPacketV2::Data(stream_id, #[trigger] data[i]))),
                now[i],
                during[i],
                taken[i],
            ) && client_step(
                client_id,
                during[i],
                ClientEvent::Written(stream_id, Ok(())),
                now[i],
                at[i + 1],
                resumed[i],
            ),
    ensures
        forall|i: int|
            0 <= i < data.len() ==> taken[i] == ClientAction::Write(stream_id, #[trigger] data[i])
                && resumed[i] == ClientAction::Read,
        all_kept(at[0], at[data.len() as int]),
    decreases data.len(),
{
    if data.len() > 0 {
        let n = data.len() - 1;
        let first = data.take(n);
        assert forall|i: int| 0 <= i < first.len() implies client_step(
            client_id,
            at.take(n + 1)[i],
            ClientEvent::Decoded(Some(ControlPacketV2::Data(stream_id, #[trigger] first[i]))),
            now[i],
            during[i],
            taken[i],
        ) && client_step(
            client_id,
            during[i],
            ClientEvent::Written(stream_id, Ok(())),
            now[i],
            at.take(n + 1)[i + 1],
            resumed[i],
        ) by {
            assert(first[i] == data[i]);
        }
        law_client_bytes_are_written_in_order(
            client_id,
            stream_id,
            first,
            at.take(n + 1),
            during,
            now,
            taken,
            resumed,
        );
        assert(client_step(
            client_id,
            at[n],
            ClientEvent::Decoded(Some(ControlPacketV2::Data(stream_id, data[n]))),
            now[n],
            during[n],
            taken[n],
        ));
        assert forall|i: int| 0 <= i < data.len() implies taken[i] == ClientAction::Write(
            stream_id,
            #[trigger] data[i],
        ) && resumed[i] == ClientAction::Read by {
            if i < n {
                assert(first[i] == data[i]);
            }
        }
    }
}

/// The step concerns the stream: a packet for it, or a write to its peer.
pub open spec fn concerns(event: ClientEvent<ControlPacketV2>, k: u128) -> bool {
    match event {
        ClientEvent::Written(stream_id, _) => stream_id.uuid == k,
        ClientEvent::Decoded(Some(ControlPacketV2::Data(stream_id, _))) => stream_id.uuid == k,
        ClientEvent::Decoded(Some(ControlPacketV2::Refused(stream_id))) => stream_id.uuid == k,
        _ => false,
    }
}

/// What happens to one stream leaves every other stream alone.
pub proof fn law_other_streams_are_left_alone(
    client_id: ClientId,
    before: Store,
    event: ClientEvent<ControlPacketV2>,
    now: Timestamp,
    after: Store,
    action: ClientAction,
    k: u128,
)
    requires
        client_step(client_id, before, event, now, after, action),
        !concerns(event, k),
    ensures
        after.streams().contains_key(k) == before.streams().contains_key(k),
        before.streams().contains_key(k) ==> after.streams()[k] == before.streams()[k],
        after.peers() == before.peers(),
        after.endpoints() == before.endpoints(),
        after.pool() == before.pool(),
{
}

/// The stream that an address leads to is the one that it was last bound to, while that one is
/// registered and its flag is not set.
pub proof fn law_address_leads_to_its_open_stream(store: Store, addr: PeerAddr, id: StreamId)
    ensures
        store.stream_at(addr) == Some(id) <==> store.peers().contains_key(addr)
            && store.peers()[addr] == id && open_stream(store, id),
        store.stream_at(addr) is None <==> !(store.peers().contains_key(addr) && open_stream(
            store,
            store.peers()[addr],
        )),
{
}

/// A datagram of a peer whose stream is open goes to the client on that stream with its bytes,
/// whatever else the server keeps; an empty one ends the stream. Nothing changes.
pub proof fn law_datagram_goes_to_its_peers_stream(
    before: UdpLoop,
    store: Store,
    data: Vec<u8>,
    peer: PeerAddr,
    after: UdpLoop,
    store_after: Store,
    action: UdpAction,
)
    requires
        store.peers().contains_key(peer),
        open_stream(store, store.peers()[peer]),
        udp_step(before, store, UdpEvent::Datagram(data, peer), after, store_after, action),
    ensures
        data@.len() > 0 ==> action == UdpAction::Send(
            ControlPacketV2::Data(store.peers()[peer], data),
        ),
        data@.len() == 0 ==> action == UdpAction::Send(ControlPacketV2::End(store.peers()[peer])),
        all_kept(store, store_after),
        after == (UdpLoop {
            client_id: before.client_id,
            endpoint_id: before.endpoint_id,
            opening: None,
        }),
{
}

/// The first datagram of a peer opens a stream for it: the client is told of the stream, its
/// endpoint and the peer, and once it has been told, the stream leads from the peer's address to
/// the client, and the datagram goes to the client on it. All other streams and addresses stay as
/// they are.
pub proof fn law_first_datagram_opens_a_stream(
    before: UdpLoop,
    store: Store,
    data: Vec<u8>,
    peer: PeerAddr,
    opening: UdpLoop,
    store_opening: Store,
    told: UdpAction,
    after: UdpLoop,
    store_after: Store,
    action: UdpAction,
)
    requires
        !(store.peers().contains_key(peer) && open_stream(store, store.peers()[peer])),
        udp_step(before, store, UdpEvent::Datagram(data, peer), opening, store_opening, told),
        udp_step(
            opening,
            store_opening,
            UdpEvent::InitSent(true),
            after,
            store_after,
            action,
        ),
    ensures
        all_kept(store, store_opening),
        told matches UdpAction::SendInit(ControlPacketV2::Init(id, endpoint_id, info))
            && endpoint_id == before.endpoint_id && info.remote_peer_addr == peer && {
            &&& data@.len() > 0 ==> action == UdpAction::Send(ControlPacketV2::Data(id, data))
            &&& data@.len() == 0 ==> action == UdpAction::Send(ControlPacketV2::End(id))
            &&& store_after.peers() == store.peers().insert(peer, id)
            &&& store_after.streams().contains_key(id.uuid)
            &&& store_after.streams()[id.uuid] == RemoteStream::RemoteUdp(
                RemoteUdp {
                    stream_id: id,
                    client_id: before.client_id,
                    endpoint_id,
                    remote_info: info,
                    disabled: false,
                },
            )
            &&& forall|k: u128|
                k != id.uuid ==> (#[trigger] store_after.streams().contains_key(k)
                    == store.streams().contains_key(k)) && (store.streams().contains_key(k)
                    ==> store_after.streams()[k] == store.streams()[k])
        },
        store_after.clients() == store.clients(),
        store_after.endpoints() == store.endpoints(),
        store_after.pool() == store.pool(),
        after == (UdpLoop {
            client_id: before.client_id,
            endpoint_id: before.endpoint_id,
            opening: None,
        }),
{
}

/// A client that cannot be told of a new stream gets none: nothing is registered, and the endpoint
/// stops.
pub proof fn law_untold_stream_is_not_opened(
    before: UdpLoop,
    store: Store,
    data: Vec<u8>,
    peer: PeerAddr,
    opening: UdpLoop,
    store_opening: Store,
    told: UdpAction,
    after: UdpLoop,
    store_after: Store,
    action: UdpAction,
)
    requires
        !(store.peers().contains_key(peer) && open_stream(store, store.peers()[peer])),
        udp_step(before, store, UdpEvent::Datagram(data, peer), opening, store_opening, told),
        udp_step(
            opening,
            store_opening,
            UdpEvent::InitSent(false),
            after,
            store_after,
            action,
        ),
    ensures
        all_kept(store, store_after),
        action == UdpAction::Stop,
        after.opening is None,
{
}

/// After a packet was sent or could not be, and after a failed read, the endpoint reads on; a
/// cancellation stops it. None of these changes anything.
pub proof fn law_endpoint_reads_on_until_cancelled(
    before: UdpLoop,
    store: Store,
    event: UdpEvent,
    after: UdpLoop,
    store_after: Store,
    action: UdpAction,
)
    requires
        event is Sent || event is ReadError || event is Cancelled || (event is InitSent
            && before.opening is None),
        udp_step(before, store, event, after, store_after, action),
    ensures
        all_kept(store, store_after),
        event is Cancelled ==> action == UdpAction::Stop,
        !(event is Cancelled) ==> action == UdpAction::Read,
        after == (UdpLoop {
            client_id: before.client_id,
            endpoint_id: before.endpoint_id,
            opening: None,
        }),
{
}

/// Peers do not get into each other's way: once another peer's stream was opened, a datagram still
/// goes to the stream of its own peer. (The identifier of the new stream must differ from that of
/// the old one, which random ones do but for chance.)
pub proof fn law_peers_keep_their_own_streams(
    store: Store,
    peer: PeerAddr,
    other: PeerAddr,
    loops: Seq<UdpLoop>,
    first: Vec<u8>,
    told: UdpAction,
    opened: Store,
    sent: UdpAction,
    data: Vec<u8>,
    last: Store,
    action: UdpAction,
)
    requires
        loops.len() == 4,
        peer != other,
        store.peers().contains_key(peer),
        open_stream(store, store.peers()[peer]),
        !(store.peers().contains_key(other) && open_stream(store, store.peers()[other])),
        udp_step(loops[0], store, UdpEvent::Datagram(first, other), loops[1], store, told),
        told matches UdpAction::SendInit(ControlPacketV2::Init(id, _, _)) && id.uuid
            != store.peers()[peer].uuid,
        udp_step(loops[1], store, UdpEvent::InitSent(true), loops[2], opened, sent),
        udp_step(loops[2], opened, UdpEvent::Datagram(data, peer), loops[3], last, action),
        data@.len() > 0,
    ensures
        action == UdpAction::Send(ControlPacketV2::Data(store.peers()[peer], data)),
        told matches UdpAction::SendInit(ControlPacketV2::Init(id, _, _)) && opened.peers()[other]
            == id && open_stream(opened, id),
{
}

/// A cleanup keeps, unchanged, exactly the streams whose own flag is not set and whose client is
/// not registered as disabled, over TCP and UDP alike.
pub proof fn law_cleanup_keeps_exactly_the_live_streams(before: Store, after: Store, k: u128)
    requires
        after.cleaned(before),
    ensures
        after.streams().contains_key(k) <==> before.streams().contains_key(k) && !flag(
            before.streams()[k],
        ) && !(before.clients().contains_key(owner(before.streams()[k]).uuid)
            && before.clients()[owner(before.streams()[k]).uuid].disabled),
        after.streams().contains_key(k) ==> after.streams()[k] == before.streams()[k],
        after.peers() == before.peers(),
{
}

/// A cleanup keeps, unchanged, exactly the clients that are not disabled.
pub proof fn law_cleanup_keeps_exactly_the_live_clients(before: Store, after: Store, k: u128)
    requires
        after.cleaned(before),
    ensures
        after.clients().contains_key(k) <==> before.clients().contains_key(k)
            && !before.clients()[k].disabled,
        after.clients().contains_key(k) ==> after.clients()[k] == before.clients()[k],
        after.endpoints() == before.endpoints(),
        after.pool().range() == before.pool().range(),
{
}

/// A port is free after a cleanup exactly if it was free before, or belongs to an endpoint of a
/// disabled client and lies in the range.
pub proof fn law_cleanup_frees_exactly_the_ports_of_the_gone(before: Store, after: Store, p: u16)
    requires
        after.cleaned(before),
    ensures
        after.pool().available().contains(p) <==> before.pool().available().contains(p) || (exists|
            c: u128,
            i: int,
        |
            #![trigger before.clients()[c].endpoints@[i]]
            before.clients().contains_key(c) && before.clients()[c].disabled && 0 <= i
                < before.clients()[c].endpoints@.len() && before.endpoints().contains_key(
                before.clients()[c].endpoints@[i].id.uuid,
            ) && before.endpoints()[before.clients()[c].endpoints@[i].id.uuid].remote_port == p
                && before.pool().range().start <= p < before.pool().range().end),
{
    let clients = before.clients();
    if exists|c: u128, i: int|
        #![trigger clients[c].endpoints@[i]]
        clients.contains_key(c) && clients[c].disabled && 0 <= i < clients[c].endpoints@.len()
            && before.endpoints().contains_key(clients[c].endpoints@[i].id.uuid)
            && before.endpoints()[clients[c].endpoints@[i].id.uuid].remote_port == p
            && before.pool().range().start <= p < before.pool().range().end {
        let (c, i) = choose|c: u128, i: int|
            #![trigger clients[c].endpoints@[i]]
            clients.contains_key(c) && clients[c].disabled && 0 <= i < clients[c].endpoints@.len()
                && before.endpoints().contains_key(clients[c].endpoints@[i].id.uuid)
                && before.endpoints()[clients[c].endpoints@[i].id.uuid].remote_port == p
                && before.pool().range().start <= p < before.pool().range().end;
        let eid = clients[c].endpoints@[i].id;
        assert(super::store::of_disabled_client(clients, eid));
        assert(super::store::frees(before.endpoints(), before.pool().range(), eid, p));
    }
    if after.pool().available().contains(p) && !before.pool().available().contains(p) {
        let eid = choose|eid: EndpointId|
            super::store::of_disabled_client(clients, eid) && #[trigger] super::store::frees(
                before.endpoints(),
                before.pool().range(),
                eid,
                p,
            );
        let (c, i) = choose|c: u128, i: int|
            #![trigger clients[c].endpoints@[i]]
            clients.contains_key(c) && clients[c].disabled && 0 <= i < clients[c].endpoints@.len()
                && clients[c].endpoints@[i].id == eid;
        assert(before.clients()[c].endpoints@[i].id == eid);
    }
}

/// Bytes of a peer go to the client as they are, the end of its connection is told to the client,
/// and after every packet that got there the server reads on. None of these changes anything.
pub proof fn law_peer_bytes_go_to_the_client(
    before: Store,
    stream_id: StreamId,
    event: TcpReadEvent,
    after: Store,
    action: TcpReadAction,
)
    requires
        event is Read || event == TcpReadEvent::Sent(true) || event is Cancelled,
        tcp_step(before, stream_id, event, after, action),
    ensures
        all_kept(before, after),
        event matches TcpReadEvent::Read(data) ==> (data@.len() > 0 ==> action
            == TcpReadAction::Send(ControlPacketV2::Data(stream_id, data))),
        event matches TcpReadEvent::Read(data) ==> (data@.len() == 0 ==> action
            == TcpReadAction::SendEnd(ControlPacketV2::End(stream_id))),
        event == TcpReadEvent::Sent(true) ==> action == TcpReadAction::Read,
        event is Cancelled ==> action == TcpReadAction::Stop,
{
}

/// After its end was told, or after a failure on either side, a stream is disabled and no other,
/// and nothing more is read from it.
pub proof fn law_ended_connection_disables_its_stream_only(
    before: Store,
    stream_id: StreamId,
    event: TcpReadEvent,
    after: Store,
    action: TcpReadAction,
)
    requires
        event is EndSent || event is ReadError || event == TcpReadEvent::Sent(false),
        tcp_step(before, stream_id, event, after, action),
    ensures
        only_stream_off(before, after, stream_id),
        action == TcpReadAction::Stop,
{
}

/// A packet that got to a client changes nothing; one that could not be encoded changes nothing
/// either, and is an error; a connection over which nothing can be sent disables its client and no
/// other. A client that is not registered is not sent to.
pub proof fn law_delivery_disables_only_an_unreachable_client(
    before: Store,
    client_id: ClientId,
    delivery: Delivery,
    after: Store,
    r: Result<(), ClientStreamError>,
)
    requires
        after.sent_to_client(before, client_id, delivery, r),
    ensures
        !before.clients().contains_key(client_id.uuid) ==> all_kept(before, after) && r == Err::<
            (),
            ClientStreamError,
        >(ClientStreamError::ClientNotAvailable(client_id)),
        before.clients().contains_key(client_id.uuid) ==> {
            &&& r is Ok <==> delivery is Sent
            &&& delivery matches Delivery::NotEncoded(e) ==> (r matches Err(
                ClientStreamError::ClientError(t),
            ) && t@ == "packet is invalid "@ + e@)
            &&& delivery matches Delivery::NotSent(e) ==> (r matches Err(
                ClientStreamError::ClientError(t),
            ) && t@ == "failed to communicate with client "@ + e@)
            &&& delivery is NotSent ==> only_client_off(before, after, client_id)
            &&& !(delivery is NotSent) ==> all_kept(before, after)
        },
{
    if before.clients().contains_key(client_id.uuid) && !(delivery is NotSent) {
        assert(after.clients() =~= before.clients());
    }
}

/// A stream takes data while it is open, and nothing changes; once it is disabled, and where it is
/// not registered, data is refused with an error that names the stream. A refusal disables its
/// stream and no other.
pub proof fn law_stream_takes_messages_while_it_is_open(
    before: Store,
    stream_id: StreamId,
    message: StreamMessage,
    after: Store,
    step: RemoteStep,
)
    requires
        after.sent_to_remote(before, stream_id, message, step),
    ensures
        message matches StreamMessage::Data(data) ==> all_kept(before, after) && (open_stream(
            before,
            stream_id,
        ) ==> step == RemoteStep::Write(data)),
        !(message is Data) ==> only_stream_off(before, after, stream_id),
        !open_stream(before, stream_id) ==> step == RemoteStep::Fail(
            ClientStreamError::StreamNotAvailable(stream_id),
        ),
        open_stream(before, stream_id) && !(message is Data) ==> (match before.streams()[
        stream_id.uuid] {
            RemoteStream::RemoteTcp(_) => step is ShutDown,
            RemoteStream::RemoteUdp(_) => step is Fail,
        }),
{
    if before.streams().contains_key(stream_id.uuid) && message is Data {
        assert(after.streams() =~= before.streams());
    }
}

/// A write fails exactly if its outcome is an error or the stream is not registered, and disables
/// the stream, and no other, exactly if its outcome is an error.
pub proof fn law_write_fails_with_its_outcome(
    before: Store,
    stream_id: StreamId,
    outcome: Result<(), String>,
    after: Store,
    r: Result<(), ClientStreamError>,
)
    requires
        after.wrote(before, stream_id, outcome, r),
    ensures
        r is Ok <==> outcome is Ok && before.streams().contains_key(stream_id.uuid),
        outcome is Ok ==> all_kept(before, after),
        outcome is Err ==> only_stream_off(before, after, stream_id),
{
    if before.streams().contains_key(stream_id.uuid) && outcome is Ok {
        assert(after.streams() =~= before.streams());
    }
}

/// A stream that is disabled stays what it is but for its flag, and so does a client; all others
/// stay as they are.
pub proof fn law_only_one_is_disabled(
    before: Store,
    stream_id: StreamId,
    between: Store,
    client_id: ClientId,
    after: Store,
)
    requires
        between.lost_stream(before, stream_id),
        after.lost_client(between, client_id),
    ensures
        only_stream_off(before, between, stream_id),
        only_client_off(between, after, client_id),
{
}

/// A client that is registered is there until it is taken out, and handed back then; no other
/// client comes or goes.
pub proof fn law_clients_come_and_go_one_by_one(
    before: Store,
    client: Client,
    with: Store,
    was: Option<Client>,
    after: Store,
    k: u128,
)
    requires
        with.added_client(before, client),
        after.removed_client(with, client.client_id, was),
    ensures
        with.clients().contains_key(client.client_id.uuid),
        with.clients()[client.client_id.uuid] == client,
        was == Some(client),
        !after.clients().contains_key(client.client_id.uuid),
        k != client.client_id.uuid ==> with.clients().contains_key(k)
            == before.clients().contains_key(k) && after.clients().contains_key(k)
            == before.clients().contains_key(k) && (before.clients().contains_key(k)
            ==> with.clients()[k] == before.clients()[k] && after.clients()[k]
            == before.clients()[k]),
        after.streams() == before.streams(),
        after.peers() == before.peers(),
        after.endpoints() == before.endpoints(),
        after.pool() == before.pool(),
{
}

/// A stream that is registered is there, the address of its peer leads to it while its flag is not
/// set, and no other stream and no other address changes.
pub proof fn law_registered_stream_is_found(
    before: Store,
    remote: RemoteStream,
    peer_addr: PeerAddr,
    after: Store,
    k: u128,
    a: PeerAddr,
)
    requires
        after.added_remote(before, remote, peer_addr),
    ensures
        after.streams().contains_key(remote.id().uuid),
        after.streams()[remote.id().uuid] == remote,
        !flag(remote) ==> after.stream_at(peer_addr) == Some(remote.id()),
        k != remote.id().uuid ==> after.streams().contains_key(k) == before.streams().contains_key(k)
            && (before.streams().contains_key(k) ==> after.streams()[k] == before.streams()[k]),
        a != peer_addr ==> after.peers().contains_key(a) == before.peers().contains_key(a) && (
        before.peers().contains_key(a) ==> after.peers()[a] == before.peers()[a]),
        after.clients() == before.clients(),
        after.endpoints() == before.endpoints(),
        after.pool() == before.pool(),
        remote matches RemoteStream::RemoteTcp(tcp) ==> remote.id() == tcp.stream_id,
        remote matches RemoteStream::RemoteUdp(udp) ==> remote.id() == udp.stream_id,
{
}

/// Every endpoint that is given is kept, and every other stays as it is; claims that are refused
/// change nothing. (The identifiers of the endpoints must differ, which random ones do but for
/// chance.)
pub proof fn law_given_endpoints_are_kept(
    before: Store,
    claims: Seq<EndpointClaim>,
    after: Store,
    r: Result<Endpoints, PortAllocatorError>,
    i: int,
    k: u128,
)
    requires
        after.served(before, claims, r),
        r matches Ok(given) ==> forall|a: int, b: int|
            0 <= a < b < given@.len() ==> (#[trigger] given@[a]).id != (#[trigger] given@[b]).id,
    ensures
        r matches Ok(given) ==> (0 <= i < given@.len() ==> after.endpoints().contains_key(
            given@[i].id.uuid,
        ) && after.endpoints()[given@[i].id.uuid] == given@[i]),
        r matches Ok(given) ==> ((forall|j: int|
            0 <= j < given@.len() ==> (#[trigger] given@[j]).id.uuid != k)
            ==> after.endpoints().contains_key(k) == before.endpoints().contains_key(k) && (
        before.endpoints().contains_key(k) ==> after.endpoints()[k] == before.endpoints()[k])),
        r is Err ==> after.endpoints() == before.endpoints() && after.pool().available()
            == before.pool().available(),
        after.streams() == before.streams(),
        after.clients() == before.clients(),
        after.peers() == before.peers(),
{
    if r is Ok {
        let given = r->Ok_0@;
        if 0 <= i < given.len() {
            crate::laws::lemma_with_endpoints(before.endpoints(), given, i);
        }
        if forall|j: int| 0 <= j < given.len() ==> (#[trigger] given[j]).id.uuid != k {
            lemma_with_endpoints_keeps(before.endpoints(), given, k);
        }
    }
}

/// The port of an endpoint that was handed out and lies in the range is free once it was released;
/// no other port changes, and neither does anything else.
pub proof fn law_released_port_is_free(
    before: Store,
    eid: EndpointId,
    after: Store,
    r: Result<(), PortAllocatorError>,
    p: u16,
)
    requires
        after.released(before, eid, r),
    ensures
        after.pool().available().contains(p) <==> before.pool().available().contains(p) || (
        before.endpoints().contains_key(eid.uuid) && before.endpoints()[eid.uuid].remote_port == p
            && before.pool().range().start <= p < before.pool().range().end),
        r is Ok ==> !before.pool().available().contains(
            before.endpoints()[eid.uuid].remote_port,
        ) && after.pool().available().contains(before.endpoints()[eid.uuid].remote_port),
        after.streams() == before.streams(),
        after.clients() == before.clients(),
        after.peers() == before.peers(),
        after.endpoints() == before.endpoints(),
        after.pool().range() == before.pool().range(),
{
}

} // verus!
