//! What a tunnel server does for its clients and their peers, said of the data that they see.
use super::active_stream::{
    stopped_because, write_step, ActiveStream, ActiveStreams, SinkAction, SinkEvent,
    TunnelToStreamExitReason,
};
use super::connections::{ConnectedClient, Connections};
use super::control::{
    completed, handshake_verdict, message_step, numbered, queue_step, received, registered,
    ClientHandshake, FirstMessage, HandshakeAnswer, MessageAction, QueueAction, QueueEvent,
    VerifyClientHandshakeError,
};
use super::packet::{law_packet_round_trip, packet_bytes, well_sized, PacketView};
use super::reader::{client_step, tcp_read_step, TcpReadAction};
use super::remote::{accepted, tcp_step, Accepted, TcpAction, TcpEvent};
use super::store::{Client, Store};
use super::udp::{udp_step, UdpAction, UdpEvent};
use super::{ClientHello, Config, Payload, ServerHello, TunnelPacket};
use crate::id::{ClientId, StreamId};
use crate::protocol::PeerAddr;
use crate::server::client::Delivery;
use crate::server::laws::{flag, flagged, no_message, owner};
use crate::server::reader::{ClientAction, ClientEvent};
use crate::server::stream::{RemoteStep, RemoteStream, RemoteTcp, StreamMessage, TcpReadEvent};
use crate::server::{ClientStreamError, ProxyServerError};
use crate::text::decimal;
use crate::ws::{Frame, ReadEvent};
use vstd::prelude::*;
use vstd::string::*;
use vstd::utf8::encode_utf8;

verus! {

/// The stream is registered and its flag is not set.
pub open spec fn open_stream(store: Store, stream_id: StreamId) -> bool {
    store.streams().contains_key(stream_id.uuid) && !flag(store.streams()[stream_id.uuid])
}

/// Everything is the same.
pub open spec fn all_kept(before: Store, after: Store) -> bool {
    &&& after.streams() == before.streams()
    &&& after.clients() == before.clients()
    &&& after.peers() == before.peers()
    &&& after.hosts() == before.hosts()
}

/// The stream is disabled and keeps the rest of what it is, and nothing else has changed.
pub open spec fn only_stream_off(before: Store, after: Store, stream_id: StreamId) -> bool {
    &&& after.clients() == before.clients()
    &&& after.peers() == before.peers()
    &&& after.hosts() == before.hosts()
    &&& forall|k: u128| #[trigger]
        after.streams().contains_key(k) <==> before.streams().contains_key(k)
    &&& forall|k: u128|
        k != stream_id.uuid && #[trigger] before.streams().contains_key(k) ==> after.streams()[k]
            == before.streams()[k]
    &&& before.streams().contains_key(stream_id.uuid) ==> after.streams()[stream_id.uuid]
        == flagged(before.streams()[stream_id.uuid])
}

/// The client is disabled and keeps the rest of what it is, and nothing else has changed.
pub open spec fn only_client_off(before: Store, after: Store, client_id: ClientId) -> bool {
    &&& after.streams() == before.streams()
    &&& after.peers() == before.peers()
    &&& after.hosts() == before.hosts()
    &&& forall|k: u128| #[trigger]
        after.clients().contains_key(k) <==> before.clients().contains_key(k)
    &&& forall|k: u128|
        k != client_id.uuid && #[trigger] before.clients().contains_key(k) ==> after.clients()[k]
            == before.clients()[k]
    &&& before.clients().contains_key(client_id.uuid) ==> {
        let was = before.clients()[client_id.uuid];
        after.clients()[client_id.uuid] == Client {
            client_id: was.client_id,
            host: was.host,
            disabled: true,
        }
    }
}

/// A write that succeeded changes nothing; one that failed disables its stream and no other; either
/// way the server reads on.
pub proof fn law_write_disables_only_where_it_fails(
    client_id: ClientId,
    before: Store,
    stream_id: StreamId,
    outcome: Result<(), String>,
    after: Store,
    action: ClientAction,
)
    requires
        client_step(client_id, before, ClientEvent::Written(stream_id, outcome), after, action),
    ensures
        outcome is Ok ==> all_kept(before, after),
        outcome is Err ==> only_stream_off(before, after, stream_id),
        action == ClientAction::Read,
{
}

/// Data of a client, in either kind of packet, is written to the peer of its stream while the
/// stream is open, and dropped otherwise; either way nothing changes.
pub proof fn law_data_is_written_while_the_stream_is_open(
    client_id: ClientId,
    before: Store,
    stream_id: StreamId,
    data: Vec<u8>,
    packet: TunnelPacket,
    after: Store,
    action: ClientAction,
)
    requires
        packet == TunnelPacket::Data(stream_id, data) || packet == TunnelPacket::UdpData(
            stream_id,
            data,
        ),
        client_step(client_id, before, ClientEvent::Decoded(Some(packet)), after, action),
    ensures
        all_kept(before, after),
        open_stream(before, stream_id) ==> action == ClientAction::Write(stream_id, data),
        !open_stream(before, stream_id) ==> action == ClientAction::Read,
{
}

/// What a client sends for a stream that is open is written to its peer whole and in order, as long
/// as the writes succeed, and the stream stays open.
pub proof fn law_client_bytes_are_written_in_order(
    client_id: ClientId,
    stream_id: StreamId,
    data: Seq<Vec<u8>>,
    at: Seq<Store>,
    during: Seq<Store>,
    taken: Seq<ClientAction>,
    resumed: Seq<ClientAction>,
)
    requires
        at.len() == data.len() + 1,
        open_stream(at[0], stream_id),
        forall|i: int|
            0 <= i < data.len() ==> client_step(
                client_id,
                at[i],
                ClientEvent::Decoded(Some(TunnelPacket::Data(stream_id, #[trigger] data[i]))),
                during[i],
                taken[i],
            ) && client_step(
                client_id,
                during[i],
                ClientEvent::Written(stream_id, Ok(())),
                at[i + 1],
                resumed[i],
            ),
    ensures
        forall|i: int|
            0 <= i < data.len() ==> taken[i] == ClientAction::Write(stream_id, #[trigger] data[i])
                && resumed[i] == ClientAction::Read,
        all_kept(at[0], at[data.len() as int]),
    decreases data.len(),
{
    if data.len() > 0 {
        let n = data.len() - 1;
        let first = data.take(n);
        assert forall|i: int| 0 <= i < first.len() implies client_step(
            client_id,
            at.take(n + 1)[i],
            ClientEvent::Decoded(Some(TunnelPacket::Data(stream_id, #[trigger] first[i]))),
            during[i],
            taken[i],
        ) && client_step(
            client_id,
            during[i],
            ClientEvent::Written(stream_id, Ok(())),
            at.take(n + 1)[i + 1],
            resumed[i],
        ) by {
            assert(first[i] == data[i]);
        }
        law_client_bytes_are_written_in_order(
            client_id,
            stream_id,
            first,
            at.take(n + 1),
            during,
            taken,
            resumed,
        );
        assert(client_step(
            client_id,
            at[n],
            ClientEvent::Decoded(Some(TunnelPacket::Data(stream_id, data[n]))),
            during[n],
            taken[n],
        ));
        assert forall|i: int| 0 <= i < data.len() implies taken[i] == ClientAction::Write(
            stream_id,
            #[trigger] data[i],
        ) && resumed[i] == ClientAction::Read by {
            if i < n {
                assert(first[i] == data[i]);
            }
        }
    }
}

/// A refusal disables its stream and no other. A connection that was open is shut down.
pub proof fn law_refusal_disables_its_stream_only(
    client_id: ClientId,
    before: Store,
    stream_id: StreamId,
    after: Store,
    action: ClientAction,
)
    requires
        client_step(
            client_id,
            before,
            ClientEvent::Decoded(Some(TunnelPacket::Refused(stream_id))),
            after,
            action,
        ),
    ensures
        open_stream(before, stream_id) ==> only_stream_off(before, after, stream_id) && action == (
        match before.streams()[stream_id.uuid] {
            RemoteStream::RemoteTcp(_) => ClientAction::ShutDown(stream_id),
            RemoteStream::RemoteUdp(_) => ClientAction::Read,
        }),
        !open_stream(before, stream_id) ==> all_kept(before, after) && action
            == ClientAction::Read,
{
}

/// Every other packet, and what is no packet, is passed over.
pub proof fn law_other_packets_change_nothing(
    client_id: ClientId,
    before: Store,
    packet: Option<TunnelPacket>,
    after: Store,
    action: ClientAction,
)
    requires
        packet is None || packet->Some_0 is Init || packet->Some_0 is End || packet->Some_0 is Ping,
        client_step(client_id, before, ClientEvent::Decoded(packet), after, action),
    ensures
        all_kept(before, after),
        action == ClientAction::Read,
{
}

/// Every message with bytes, binary or text, is decoded as it is. When no message comes any more,
/// the server stops reading and disables the client, and no other.
pub proof fn law_messages_are_decoded_until_the_connection_is_lost(
    client_id: ClientId,
    before: Store,
    read: ReadEvent,
    after: Store,
    action: ClientAction,
)
    requires
        client_step(client_id, before, ClientEvent::Read(read), after, action),
    ensures
        no_message(read) ==> only_client_off(before, after, client_id) && action
            == ClientAction::Stop,
        !no_message(read) ==> all_kept(before, after) && match read {
            ReadEvent::Received(Frame::Binary(data)) => action == ClientAction::Decode(data),
            ReadEvent::Received(Frame::Text(data)) => action == ClientAction::Decode(data),
            _ => false,
        },
{
}

/// Bytes of a peer go to the client as they are, the end of its connection is told to the client,
/// and after every packet that got there the server reads on; none of these changes anything. After
/// its end was told, or after a failure on either side, the stream is disabled and no other.
pub proof fn law_peer_bytes_go_to_the_client(
    before: Store,
    stream_id: StreamId,
    event: TcpReadEvent,
    after: Store,
    action: TcpReadAction,
)
    requires
        tcp_read_step(before, stream_id, event, after, action),
    ensures
        match event {
            TcpReadEvent::Read(data) => all_kept(before, after) && action == (if data@.len() > 0 {
                TcpReadAction::Send(TunnelPacket::Data(stream_id, data))
            } else {
                TcpReadAction::SendEnd(TunnelPacket::End(stream_id))
            }),
            TcpReadEvent::Sent(true) => all_kept(before, after) && action == TcpReadAction::Read,
            TcpReadEvent::Cancelled => all_kept(before, after) && action == TcpReadAction::Stop,
            TcpReadEvent::Sent(false) => only_stream_off(before, after, stream_id) && action
                == TcpReadAction::Stop,
            TcpReadEvent::EndSent(_) => only_stream_off(before, after, stream_id) && action
                == TcpReadAction::Stop,
            TcpReadEvent::ReadError => only_stream_off(before, after, stream_id) && action
                == TcpReadAction::Stop,
        },
{
}

/// The stream that an address leads to is the one that it was last bound to, while that one is
/// registered and its flag is not set.
pub proof fn law_address_leads_to_its_open_stream(store: Store, addr: PeerAddr, id: StreamId)
    ensures
        store.stream_at(addr) == Some(id) <==> store.peers().contains_key(addr)
            && store.peers()[addr] == id && open_stream(store, id),
        store.stream_at(addr) is None <==> !(store.peers().contains_key(addr) && open_stream(
            store,
            store.peers()[addr],
        )),
{
}

/// A datagram of a peer whose stream is open goes to the client on that stream with its bytes,
/// whatever else the server keeps; an empty one ends the stream. Nothing changes.
pub proof fn law_datagram_goes_to_its_peers_stream(
    before: Store,
    client_id: ClientId,
    data: Vec<u8>,
    peer: PeerAddr,
    after: Store,
    action: UdpAction,
)
    requires
        before.peers().contains_key(peer),
        open_stream(before, before.peers()[peer]),
        udp_step(before, client_id, UdpEvent::Datagram(data, peer), after, action),
    ensures
        data@.len() > 0 ==> action == UdpAction::Send(
            TunnelPacket::UdpData(before.peers()[peer], data),
        ),
        data@.len() == 0 ==> action == UdpAction::Send(TunnelPacket::End(before.peers()[peer])),
        all_kept(before, after),
{
}

/// The first datagram of a peer opens a stream for it: the stream leads from the peer's address to
/// the client, and the datagram goes to the client on it. All other streams and addresses stay as
/// they are.
pub proof fn law_first_datagram_opens_a_stream(
    before: Store,
    client_id: ClientId,
    data: Vec<u8>,
    peer: PeerAddr,
    after: Store,
    action: UdpAction,
)
    requires
        !(before.peers().contains_key(peer) && open_stream(before, before.peers()[peer])),
        udp_step(before, client_id, UdpEvent::Datagram(data, peer), after, action),
    ensures
        after.peers().contains_key(peer),
        open_stream(after, after.peers()[peer]),
        after.streams()[after.peers()[peer].uuid] is RemoteUdp,
        owner(after.streams()[after.peers()[peer].uuid]) == client_id,
        data@.len() > 0 ==> action == UdpAction::Send(
            TunnelPacket::UdpData(after.peers()[peer], data),
        ),
        data@.len() == 0 ==> action == UdpAction::Send(TunnelPacket::End(after.peers()[peer])),
        forall|k: u128|
            k != after.peers()[peer].uuid ==> (#[trigger] after.streams().contains_key(k)
                == before.streams().contains_key(k)) && (before.streams().contains_key(k)
                ==> after.streams()[k] == before.streams()[k]),
        forall|a: PeerAddr|
            a != peer ==> (#[trigger] after.peers().contains_key(a)
                == before.peers().contains_key(a)) && (before.peers().contains_key(a)
                ==> after.peers()[a] == before.peers()[a]),
        after.clients() == before.clients(),
        after.hosts() == before.hosts(),
{
}

/// After a packet was sent or could not be, and after a failed read, the socket is read on; a
/// cancellation stops it. None of these changes anything.
pub proof fn law_socket_is_read_until_cancelled(
    before: Store,
    client_id: ClientId,
    event: UdpEvent,
    after: Store,
    action: UdpAction,
)
    requires
        event is Sent || event is ReadError || event is Cancelled,
        udp_step(before, client_id, event, after, action),
    ensures
        all_kept(before, after),
        event is Cancelled ==> action == UdpAction::Stop,
        event is Sent || event is ReadError ==> action == UdpAction::Read,
{
}

/// A cleanup keeps, unchanged, exactly the streams whose own flag is not set, over TCP and UDP
/// alike, and exactly the clients that are not disabled. Host names and addresses stay.
pub proof fn law_cleanup_keeps_exactly_what_is_live(before: Store, after: Store, k: u128)
    requires
        after.cleaned(before),
    ensures
        after.streams().contains_key(k) <==> before.streams().contains_key(k) && !flag(
            before.streams()[k],
        ),
        after.streams().contains_key(k) ==> after.streams()[k] == before.streams()[k],
        after.clients().contains_key(k) <==> before.clients().contains_key(k)
            && !before.clients()[k].disabled,
        after.clients().contains_key(k) ==> after.clients()[k] == before.clients()[k],
        after.peers() == before.peers(),
        after.hosts() == before.hosts(),
{
}

/// An accepted connection of which the client was told is found under the address of its peer, and
/// no other stream or address changes; without the client being told, nothing changes.
pub proof fn law_accepted_connection_is_found(
    before: Store,
    remote: RemoteTcp,
    init_sent: bool,
    after: Store,
)
    requires
        after.accepted(before, remote, init_sent),
    ensures
        !init_sent ==> all_kept(before, after),
        init_sent ==> {
            let peer = remote.remote_info.remote_peer_addr;
            &&& after.peers() == before.peers().insert(peer, remote.stream_id)
            &&& after.streams().contains_key(remote.stream_id.uuid)
            &&& after.streams()[remote.stream_id.uuid] == RemoteStream::RemoteTcp(remote)
            &&& !remote.disabled ==> after.stream_at(peer) == Some(remote.stream_id)
            &&& forall|k: u128|
                k != remote.stream_id.uuid ==> (#[trigger] after.streams().contains_key(k)
                    == before.streams().contains_key(k)) && (before.streams().contains_key(k)
                    ==> after.streams()[k] == before.streams()[k])
            &&& after.clients() == before.clients()
            &&& after.hosts() == before.hosts()
        },
{
}

/// A client that is registered is there, and its host name leads to it; a stream that is registered
/// is there, and the address of its peer leads to it. Whatever else is registered stays as it is.
pub proof fn law_what_is_registered_is_found(
    before: Store,
    client: Client,
    remote: RemoteStream,
    peer_addr: PeerAddr,
    between: Store,
    after: Store,
)
    requires
        between.added_client(before, client),
        after.added_remote(between, remote, peer_addr),
    ensures
        after.clients().contains_key(client.client_id.uuid),
        after.clients()[client.client_id.uuid] == client,
        after.hosts().contains_key(client.host@),
        after.hosts()[client.host@] == client.client_id,
        after.streams().contains_key(remote.id().uuid),
        after.streams()[remote.id().uuid] == remote,
        !flag(remote) ==> after.stream_at(peer_addr) == Some(remote.id()),
        forall|k: u128|
            k != client.client_id.uuid ==> (#[trigger] after.clients().contains_key(k)
                == before.clients().contains_key(k)) && (before.clients().contains_key(k)
                ==> after.clients()[k] == before.clients()[k]),
        forall|k: u128|
            k != remote.id().uuid ==> (#[trigger] after.streams().contains_key(k)
                == before.streams().contains_key(k)) && (before.streams().contains_key(k)
                ==> after.streams()[k] == before.streams()[k]),
{
}

/// A packet that got to a client changes nothing; one that could not be encoded changes nothing
/// either, and is an error; a connection over which nothing can be sent disables its client and no
/// other. A client that is not registered is not sent to.
pub proof fn law_delivery_disables_only_an_unreachable_client(
    before: Store,
    client_id: ClientId,
    delivery: Delivery,
    after: Store,
    r: Result<(), ClientStreamError>,
)
    requires
        after.sent_to_client(before, client_id, delivery, r),
    ensures
        !before.clients().contains_key(client_id.uuid) ==> all_kept(before, after) && r == Err::<
            (),
            ClientStreamError,
        >(ClientStreamError::ClientNotAvailable(client_id)),
        before.clients().contains_key(client_id.uuid) ==> {
            &&& r is Ok <==> delivery is Sent
            &&& delivery matches Delivery::NotEncoded(e) ==> (r matches Err(
                ClientStreamError::ClientError(t),
            ) && t@ == "packet is invalid "@ + e@)
            &&& delivery matches Delivery::NotSent(e) ==> (r matches Err(
                ClientStreamError::ClientError(t),
            ) && t@ == "failed to communicate with client "@ + e@)
            &&& delivery is NotSent ==> only_client_off(before, after, client_id)
            &&& !(delivery is NotSent) ==> all_kept(before, after)
        },
{
    if before.clients().contains_key(client_id.uuid) && !(delivery is NotSent) {
        assert(after.clients() =~= before.clients());
    }
}

/// A stream takes data while it is open, and nothing changes; once it is disabled, and where it is
/// not registered, data is refused with an error that names the stream.
pub proof fn law_stream_takes_data_while_it_is_open(
    before: Store,
    stream_id: StreamId,
    data: Vec<u8>,
    after: Store,
    step: RemoteStep,
)
    requires
        after.sent_to_remote(before, stream_id, StreamMessage::Data(data), step),
    ensures
        all_kept(before, after),
        open_stream(before, stream_id) ==> step == RemoteStep::Write(data),
        !open_stream(before, stream_id) ==> step is Fail,
        !before.streams().contains_key(stream_id.uuid) ==> step == RemoteStep::Fail(
            ClientStreamError::StreamNotAvailable(stream_id),
        ),
{
    if before.streams().contains_key(stream_id.uuid) {
        assert(after.streams() =~= before.streams());
    }
}

/// A write fails exactly if its outcome is an error or the stream is not registered, and disables
/// the stream, and no other, exactly if its outcome is an error.
pub proof fn law_write_fails_with_its_outcome(
    before: Store,
    stream_id: StreamId,
    outcome: Result<(), String>,
    after: Store,
    r: Result<(), ClientStreamError>,
)
    requires
        after.wrote(before, stream_id, outcome, r),
    ensures
        r is Ok <==> outcome is Ok && before.streams().contains_key(stream_id.uuid),
        outcome is Ok ==> all_kept(before, after),
        outcome is Err ==> only_stream_off(before, after, stream_id),
{
    if before.streams().contains_key(stream_id.uuid) && outcome is Ok {
        assert(after.streams() =~= before.streams());
    }
}

/// A stream that is disabled stays what it is but for its flag, and so does a client; all others
/// stay as they are.
pub proof fn law_only_one_is_disabled(
    before: Store,
    stream_id: StreamId,
    between: Store,
    client_id: ClientId,
    after: Store,
)
    requires
        between.lost_stream(before, stream_id),
        after.lost_client(between, client_id),
    ensures
        only_stream_off(before, between, stream_id),
        only_client_off(between, after, client_id),
{
}

/// The error for which a hello is not taken: the first of these faults that it has.
pub open spec fn fault(
    config: Option<Config>,
    client_hello: Option<ClientHello>,
    auth_host: Option<Seq<char>>,
) -> Option<VerifyClientHandshakeError> {
    if config is None {
        Some(VerifyClientHandshakeError::Other(ProxyServerError::ConfigNotInitialized))
    } else if client_hello is None {
        Some(VerifyClientHandshakeError::InvalidClientHello)
    } else if client_hello->Some_0.version != 2 {
        Some(VerifyClientHandshakeError::VersionMismatch)
    } else if auth_host is None {
        Some(VerifyClientHandshakeError::InvalidJWT)
    } else if auth_host->Some_0 != config->Some_0.host@ {
        Some(VerifyClientHandshakeError::IllegalHost)
    } else {
        None
    }
}

/// A hello is taken exactly if its version is the second, and its token is valid and was issued for
/// the host of the server; then its payload counts. Otherwise its first fault is the error.
pub proof fn law_hello_is_taken_without_a_fault(
    config: Option<Config>,
    client_hello: Option<ClientHello>,
    auth_host: Option<Seq<char>>,
)
    ensures
        match fault(config, client_hello, auth_host) {
            Some(e) => handshake_verdict(config, client_hello, auth_host) == Err::<Payload, _>(e),
            None => handshake_verdict(config, client_hello, auth_host) == Ok::<
                _,
                VerifyClientHandshakeError,
            >(client_hello->Some_0.payload),
        },
{
}

/// What a client whose hello has a fault is told.
pub open spec fn told(e: VerifyClientHandshakeError) -> ServerHello {
    match e {
        VerifyClientHandshakeError::InvalidClientHello => ServerHello::BadRequest,
        VerifyClientHandshakeError::InvalidJWT => ServerHello::BadRequest,
        VerifyClientHandshakeError::IllegalHost => ServerHello::IllegalHost,
        VerifyClientHandshakeError::VersionMismatch => ServerHello::VersionMismatch,
        VerifyClientHandshakeError::Other(_) => ServerHello::InternalServerError,
    }
}

/// A client whose hello has a fault is told so and gets no port. One whose hello has none is told
/// its address, at a port that was free and is free no more, and no other port changes; if no port
/// is free, it is told to come again. A server without a configuration, and a client that has sent
/// nothing, get no answer.
pub proof fn law_received_client_gets_a_free_port(
    config: Option<Config>,
    message: Option<FirstMessage>,
    free: Set<u16>,
    free_after: Set<u16>,
    answer: Option<HandshakeAnswer>,
)
    requires
        received(config, message, free, free_after, answer),
    ensures
        answer is Some <==> config is Some && message is Some,
        answer is None ==> free_after == free,
        answer matches Some(a) ==> {
            let hello = message->Some_0.client_hello;
            let host = crate::reconnect::text_of(message->Some_0.auth_host);
            match fault(config, hello, host) {
                Some(e) => a.hello == told(e) && a.handshake is None && free_after == free,
                None => if forall|p: u16| !free.contains(p) {
                    a.hello == ServerHello::ServiceTemporaryUnavailable && a.handshake is None
                        && free_after == free
                } else {
                    &&& a.handshake matches Some(h)
                    &&& h.payload == hello->Some_0.payload
                    &&& free.contains(h.port)
                    &&& forall|p: u16| #[trigger]
                        free_after.contains(p) <==> free.contains(p) && p != h.port
                    &&& a.hello matches ServerHello::Success { client_id, remote_addr }
                    &&& client_id == h.id
                    &&& remote_addr@ == config->Some_0.host@ + seq![':'] + decimal(h.port as nat)
                },
            }
        },
{
    if forall|p: u16| !free.contains(p) {
        assert(free.is_empty());
    } else {
        let p = choose|p: u16| free.contains(p);
        assert(free.contains(p));
    }
}

/// Who was received is known once the answer was sent, and not before.
pub proof fn law_client_counts_once_it_was_answered(answer: HandshakeAnswer, sent: bool)
    ensures
        sent ==> completed(answer, sent) == answer.handshake,
        !sent ==> completed(answer, sent) is None,
{
}

/// A client whose port was opened is found under its identifier and under the host name of its
/// port, and no other client and no other name changes; if the port could not be opened, nothing
/// changes.
pub proof fn law_opened_client_is_found(
    before: Connections,
    handshake: ClientHandshake,
    opened: bool,
    after: Connections,
    r: Option<ConnectedClient>,
)
    requires
        registered(before, handshake, opened, after, r),
    ensures
        !opened ==> r is None && after == before,
        opened ==> {
            let name = "host-foobar-"@ + decimal(handshake.port as nat);
            &&& r matches Some(c)
            &&& c.id == handshake.id
            &&& c.host@ == name
            &&& after.leads_to(name, r)
            &&& after.has(handshake.id, r)
            &&& forall|k: u128|
                k != handshake.id.uuid ==> (#[trigger] after.clients().contains_key(k)
                    == before.clients().contains_key(k)) && (before.clients().contains_key(k)
                    ==> after.clients()[k] == before.clients()[k])
            &&& forall|n: Seq<char>|
                n != name ==> (#[trigger] after.hosts().contains_key(n)
                    == before.hosts().contains_key(n)) && (before.hosts().contains_key(n)
                    ==> after.hosts()[n] == before.hosts()[n])
        },
{
}

/// A client that was added is found by its identifier and by its host name; one that was removed is
/// found by neither; and no other client and no other name changes.
pub proof fn law_clients_come_and_go_one_by_one(
    before: Connections,
    client: ConnectedClient,
    with: Connections,
    after: Connections,
    by_id: Option<ConnectedClient>,
    by_host: Option<ConnectedClient>,
    no_id: Option<ConnectedClient>,
    no_host: Option<ConnectedClient>,
)
    requires
        with.added(before, client),
        with.has(client.id, by_id),
        with.leads_to(client.host@, by_host),
        after.removed(with, client),
        after.has(client.id, no_id),
        after.leads_to(client.host@, no_host),
    ensures
        by_id matches Some(c) && c.id == client.id && c.host@ == client.host@,
        by_host matches Some(c) && c.id == client.id && c.host@ == client.host@,
        no_id is None,
        no_host is None,
        forall|k: u128|
            k != client.id.uuid ==> (#[trigger] with.clients().contains_key(k)
                == before.clients().contains_key(k)) && (#[trigger] after.clients().contains_key(k)
                == before.clients().contains_key(k)) && (before.clients().contains_key(k)
                ==> with.clients()[k] == before.clients()[k] && after.clients()[k]
                == before.clients()[k]),
        forall|n: Seq<char>|
            n != client.host@ ==> (#[trigger] with.hosts().contains_key(n)
                == before.hosts().contains_key(n)) && (#[trigger] after.hosts().contains_key(n)
                == before.hosts().contains_key(n)) && (before.hosts().contains_key(n)
                ==> with.hosts()[n] == before.hosts()[n] && after.hosts()[n]
                == before.hosts()[n]),
{
}

/// A remote connection to a host that a client has opens a stream to that client, which is found
/// under the peer's address; no other stream changes. A peer whose host nobody has is told so, and
/// nothing changes.
pub proof fn law_connection_leads_to_the_client_of_its_host(
    conn: Connections,
    before: ActiveStreams,
    host: Seq<char>,
    peer_addr: PeerAddr,
    after: ActiveStreams,
    r: Accepted,
    found: Option<&ActiveStream>,
)
    requires
        accepted(conn, before, host, peer_addr, after, r),
        after.leads_to(peer_addr, found),
    ensures
        conn.hosts().contains_key(host) ==> {
            &&& r matches Accepted::Stream(s)
            &&& s.client.id == conn.hosts()[host]
            &&& !s.closed
            &&& found matches Some(f)
            &&& f.id == s.id
            &&& f.client.id == conn.hosts()[host]
            &&& !f.closed
            &&& forall|k: u128|
                k != s.id.uuid ==> (#[trigger] after.streams().contains_key(k)
                    == before.streams().contains_key(k)) && (before.streams().contains_key(k)
                    ==> after.streams()[k] == before.streams()[k])
        },
        !conn.hosts().contains_key(host) ==> after == before && (r matches Accepted::NoClient(
            words,
        ) && words@ == encode_utf8(
            "HTTP/1.1 500\r\nContent-Length: 27\r\n\r\nError: Error finding tunnel"@,
        )),
{
    if conn.hosts().contains_key(host) {
        let s = r->Stream_0;
        assert(after.streams().dom().contains(s.id.uuid));
        assert forall|k: u128| k != s.id.uuid implies (#[trigger] after.streams().contains_key(k)
            == before.streams().contains_key(k)) by {
            assert(after.streams().dom().contains(k) == before.streams().dom().contains(k));
        }
    }
}

/// A stream that was added is found under the address of its peer and taken out once; no other
/// stream changes.
pub proof fn law_streams_come_and_go_one_by_one(
    before: ActiveStreams,
    stream: ActiveStream,
    addr: PeerAddr,
    was: Option<ActiveStream>,
    with: ActiveStreams,
    found: Option<&ActiveStream>,
    taken: Option<(StreamId, ActiveStream)>,
    after: ActiveStreams,
    gone: Option<&ActiveStream>,
)
    requires
        with.inserted(before, stream.id, stream, addr, was),
        with.leads_to(addr, found),
        after.removed(with, stream.id, taken),
        after.leads_to(addr, gone),
    ensures
        found matches Some(f) && *f == stream,
        taken == Some((stream.id, stream)),
        gone is None,
        before.streams().contains_key(stream.id.uuid) ==> was == Some(
            before.streams()[stream.id.uuid],
        ),
        !before.streams().contains_key(stream.id.uuid) ==> was is None,
        forall|k: u128|
            k != stream.id.uuid ==> (#[trigger] with.streams().contains_key(k)
                == before.streams().contains_key(k)) && (#[trigger] after.streams().contains_key(k)
                == before.streams().contains_key(k)) && (before.streams().contains_key(k)
                ==> with.streams()[k] == before.streams()[k] && after.streams()[k]
                == before.streams()[k]),
{
}

/// What the reading side of a remote connection does: it opens the stream at the client, sends it
/// what is read while the queue to the peer is open, and ends the stream when the peer has closed.
/// It reads on as long as the client is connected, and otherwise has the peer told. A client that
/// takes no packet leaves the table, and no other does.
pub proof fn law_remote_connection_is_read(
    conn: Connections,
    stream: ActiveStream,
    event: TcpEvent,
    conn_after: Connections,
    after: ActiveStream,
    action: TcpAction,
)
    requires
        tcp_step(conn, stream, event, conn_after, after, action),
    ensures
        after.id == stream.id,
        after.client == stream.client,
        after.closed <==> stream.closed || action is NoClient,
        event != TcpEvent::Sent(false) ==> conn_after == conn,
        event == TcpEvent::Sent(false) ==> {
            &&& !conn_after.clients().contains_key(stream.client.id.uuid)
            &&& !conn_after.hosts().contains_key(stream.client.host@)
            &&& forall|k: u128|
                k != stream.client.id.uuid ==> (#[trigger] conn_after.clients().contains_key(k)
                    == conn.clients().contains_key(k))
            &&& action == TcpAction::NoClient
        },
        event is Started ==> action == TcpAction::SendInit(TunnelPacket::Init(stream.id)),
        event matches TcpEvent::Read(data) ==> (data@.len() == 0 ==> action
            == TcpAction::SendAndStop(TunnelPacket::End(stream.id))),
        event matches TcpEvent::Read(data) ==> (data@.len() > 0 && !stream.closed ==> action
            == TcpAction::Send(TunnelPacket::Data(stream.id, data))),
        event matches TcpEvent::Read(data) ==> (data@.len() > 0 && stream.closed ==> action
            == TcpAction::Stop),
        event == TcpEvent::InitSent(true) || event == TcpEvent::Sent(true) ==> action == (
        if conn.clients().contains_key(stream.client.id.uuid) {
            TcpAction::Read
        } else {
            TcpAction::NoClient
        }),
        event == TcpEvent::InitSent(false) || event is ReadError ==> action == TcpAction::Stop,
{
}

/// What is written to a peer is what the messages for it hold, message after message. When the
/// writing side stops, for whatever reason, the queue of its stream is closed and the stream leaves
/// the table, and no other does; until then nothing changes.
pub proof fn law_messages_are_written_until_the_stream_is_closed(
    before: ActiveStream,
    streams: ActiveStreams,
    event: SinkEvent,
    after: ActiveStream,
    streams_after: ActiveStreams,
    action: SinkAction,
)
    requires
        write_step(before, streams, event, after, streams_after, action),
    ensures
        event matches SinkEvent::Message(Some(StreamMessage::Data(data))) ==> action
            == SinkAction::Write(data),
        event == SinkEvent::Written(true) ==> action == SinkAction::Next,
        event == SinkEvent::Written(false) ==> action == SinkAction::Stop(
            TunnelToStreamExitReason::TcpClosed,
        ),
        event == SinkEvent::Message(None) ==> action == SinkAction::Close(None),
        event == SinkEvent::Message(Some(StreamMessage::TunnelRefused)) ==> (
        action matches SinkAction::Close(Some(words)) && words@ == encode_utf8(
            "HTTP/1.1 500\r\nContent-Length: 32\r\n\r\nTunnel says: connection refused."@,
        )),
        event == SinkEvent::Message(Some(StreamMessage::NoClientTunnel)) ==> (
        action matches SinkAction::Close(Some(words)) && words@ == encode_utf8(
            "HTTP/1.1 404\r\nContent-Length: 23\r\n\r\nError: Tunnel Not Found"@,
        )),
        streams_after.addrs() == streams.addrs(),
        after.id == before.id,
        after.client == before.client,
        action is Write || action is Next ==> after == before && streams_after.streams()
            == streams.streams() && stopped_because(action) is None,
        action is Close ==> stopped_because(action) == Some(TunnelToStreamExitReason::QueueClosed),
        action matches SinkAction::Stop(why) ==> stopped_because(action) == Some(why),
        action is Close || action is Stop ==> {
            &&& after.closed
            &&& !streams_after.streams().contains_key(before.id.uuid)
            &&& forall|k: u128|
                k != before.id.uuid ==> (#[trigger] streams_after.streams().contains_key(k)
                    == streams.streams().contains_key(k)) && (streams.streams().contains_key(k)
                    ==> streams_after.streams()[k] == streams.streams()[k])
        },
{
}

/// What a client sends for a stream in the table goes to its peer, and its refusal too; what is for
/// no stream in the table, and every other packet, is passed over. The client is gone when no
/// message comes any more.
pub proof fn law_client_messages_reach_their_streams(
    streams: ActiveStreams,
    event: ReadEvent,
    packet: PacketView,
    action: MessageAction,
)
    requires
        message_step(streams, event, action),
        well_sized(packet),
    ensures
        action is Stop <==> no_message(event),
        (event matches ReadEvent::Received(Frame::Binary(bytes)) && bytes@ == packet_bytes(packet))
            ==> match packet {
            PacketView::Data(sid, data) => if streams.streams().contains_key(numbered(sid).uuid) {
                action matches MessageAction::Forward(id, StreamMessage::Data(d)) && id
                    == numbered(sid) && d@ == data
            } else {
                action == MessageAction::Next
            },
            PacketView::Refused(sid) => action == (if streams.streams().contains_key(
                numbered(sid).uuid,
            ) {
                MessageAction::Forward(numbered(sid), StreamMessage::TunnelRefused)
            } else {
                MessageAction::Next
            }),
            _ => action == MessageAction::Next,
        },
{
    law_packet_round_trip(packet);
}

/// A packet for a client is sent as its bytes, one after the other, until the queue is closed or
/// one cannot be sent.
pub proof fn law_packets_are_sent_until_one_fails(event: QueueEvent, action: QueueAction)
    requires
        queue_step(event, action),
    ensures
        event matches QueueEvent::Packet(Some(p)) ==> (action matches QueueAction::Send(bytes)
            && bytes@ == packet_bytes(p@)),
        event == QueueEvent::Packet(None) || event == QueueEvent::Sent(false) ==> action
            == QueueAction::Stop,
        event == QueueEvent::Sent(true) ==> action == QueueAction::Next,
{
}

} // verus!
