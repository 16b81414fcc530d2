//! What holds across the server and the client together.
use crate::client::handshake::{hello_for, verified, RequestType, ServerReply};
use crate::client::local::{
    local_read_action, local_write_action, LocalReadAction, LocalReadEvent, LocalWriteAction,
    LocalWriteEvent,
};
use crate::client::run::{run_step, ClientRun, RunAction, RunEvent, RunStep};
use crate::client::session::{flow, FlowAction};
use crate::client::store::Store as ClientStore;
use crate::client::Error;
use crate::clock::{millis_between, Timestamp};
use crate::id::{ClientId, EndpointId, StreamId};
use crate::port_allocator::{remote_ports, PortRange};
use crate::protocol::{
    ClientHelloV2, ControlPacketV2, Endpoint, EndpointClaim, EndpointClaims, PeerAddr, RemoteInfo,
    ServerHelloV2,
};
use crate::reconnect::{
    decoded_at, issued_at, law_token_lasts_for_its_time, ReconnectTokenError,
    ReconnectTokenPayload, RECONNECT_TOKEN_LEEWAY, RECONNECT_TOKEN_VALID_SECONDS,
};
use crate::server::client::{packet_action, PacketAction};
use crate::server::control::{
    answered, claims_answered, is_ping_for, provisioned, provisioned_at, refusal, Answer,
    ProvisioningAction, VerifyClientHandshakeError,
};
use crate::server::reader::{client_step, ClientAction, ClientEvent};
use crate::server::store::{
    frees, kept_streams, live_clients, of_disabled_client, stream_goes, with_endpoints, Store,
};
use crate::server::stream::{
    disables, ends_reading, remote_step, tcp_packets, tcp_read_action, RemoteStep, RemoteStream,
    StreamMessage, TcpReadAction, TcpReadEvent,
};
use crate::server::udp::datagram_packet;
use crate::server::{ClientStreamError, Config};
use vstd::prelude::*;
use vstd::string::*;

verus! {

/// A client that asks to be received, with a token for the server's host, is taken with the claims
/// that it made.
pub proof fn law_new_client_is_taken(
    config: Config,
    token: Seq<char>,
    endpoint_claims: EndpointClaims,
    hello: ClientHelloV2,
    payload: Option<ReconnectTokenPayload>,
)
    requires
        hello_for(token, RequestType::NewClient { endpoint_claims }, hello),
    ensures
        provisioned(config, Some(hello), Some(config.host@), payload) matches Ok(
            ProvisioningAction::NewClient { claims },
        ) && claims@ == endpoint_claims@,
{
}

/// A client that reconnects with a token that the server issued to it at the second `iat` is taken
/// as the client that it was, exactly while the clock reads at most five minutes and the minute of
/// leeway more; afterwards it is refused.
pub proof fn law_reconnecting_client_is_recognised(
    config: Config,
    client_id: ClientId,
    iat: i64,
    token: Seq<char>,
    hello: ClientHelloV2,
    auth_host: Option<Seq<char>>,
    now: u64,
)
    requires
        issued_at(config.token_secret@, client_id, iat, RECONNECT_TOKEN_VALID_SECONDS, token),
        hello_for(token, RequestType::Reconnect, hello),
        RECONNECT_TOKEN_LEEWAY <= now,
    ensures
        provisioned_at(config, Some(hello), auth_host, now) == (if now <= iat + 300 + 60 {
            Ok::<ProvisioningAction, VerifyClientHandshakeError>(
                ProvisioningAction::Reconnect { client_id },
            )
        } else {
            Err(VerifyClientHandshakeError::InvalidJWT)
        }),
{
    law_token_lasts_for_its_time(
        config.token_secret@,
        client_id,
        iat,
        RECONNECT_TOKEN_VALID_SECONDS,
        token,
        RECONNECT_TOKEN_LEEWAY,
        now,
    );
}

/// The token of a sign of life reads as the client that it was sent to, until the five minutes after
/// the second of its issue and the minute of leeway have passed.
pub proof fn law_ping_token_is_taken(
    config: Config,
    client_id: ClientId,
    stamp: Timestamp,
    packet: ControlPacketV2,
)
    requires
        is_ping_for(config, client_id, stamp, packet),
    ensures
        packet matches ControlPacketV2::Ping(_, _, Some(token)) && exists|iat: i64| #[trigger]
            issued_at(
                config.token_secret@,
                client_id,
                iat,
                RECONNECT_TOKEN_VALID_SECONDS,
                token@,
            ) && forall|now: u64|
                RECONNECT_TOKEN_LEEWAY <= now <= iat + 300 + 60 ==> #[trigger] decoded_at(
                    config.token_secret@,
                    token@,
                    RECONNECT_TOKEN_LEEWAY,
                    now,
                ) == Ok::<ReconnectTokenPayload, ReconnectTokenError>(
                    ReconnectTokenPayload { client_id },
                ),
{
    match packet {
        ControlPacketV2::Ping(_, _, Some(token)) => {
            let secret = config.token_secret@;
            let iat = choose|iat: i64| #[trigger]
                issued_at(secret, client_id, iat, RECONNECT_TOKEN_VALID_SECONDS, token@);
            assert(issued_at(secret, client_id, iat, RECONNECT_TOKEN_VALID_SECONDS, token@));
        },
        _ => {},
    }
}

/// A client that reconnects keeps its endpoints: it is answered with them, it is to be registered
/// with them, and no port changes hands.
pub proof fn law_reconnecting_client_keeps_its_endpoints(
    config: Config,
    client_id: ClientId,
    before: Store,
    after: Store,
    answer: Option<Answer>,
)
    requires
        before.clients().contains_key(client_id.uuid),
        answered(
            config,
            Ok(ProvisioningAction::Reconnect { client_id }),
            before,
            after,
            answer,
        ),
    ensures
        answer matches Some(a) && (a.admission matches Some(admission) && admission.client_id
            == client_id && admission.endpoints@ == before.clients()[client_id.uuid].endpoints@
            && !admission.is_new && verified(ServerReply::Hello(a.hello)) is Ok),
        after.pool() == before.pool(),
        after.endpoints() == before.endpoints(),
{
}

/// A client whose hello is refused is told why: what it reads from the answer is the reason for
/// which it was refused.
pub proof fn law_refused_client_learns_why(e: VerifyClientHandshakeError)
    ensures
        verified(ServerReply::Hello(refusal(e))) == Err::<
            crate::client::handshake::ClientInfo,
            Error,
        >(
            match e {
                VerifyClientHandshakeError::InvalidClientHello => Error::BadRequest,
                VerifyClientHandshakeError::InvalidJWT => Error::BadRequest,
                VerifyClientHandshakeError::IllegalHost => Error::IllegalHost,
                VerifyClientHandshakeError::VersionMismatch =>
                    Error::ClientHandshakeVersionMismatch,
            },
        ),
{
}

/// A refused hello leaves the server as it was.
pub proof fn law_refused_hello_changes_nothing(
    config: Config,
    e: VerifyClientHandshakeError,
    before: Store,
    after: Store,
    answer: Option<Answer>,
)
    requires
        answered(config, Err(e), before, after, answer),
    ensures
        after == before,
        answer == Some(Answer { hello: refusal(e), admission: None }),
{
}

/// A second cleanup right after the first changes nothing.
pub proof fn law_cleanup_is_idempotent(before: Store, once: Store, twice: Store)
    requires
        once.cleaned(before),
        twice.cleaned(once),
    ensures
        twice.streams() == once.streams(),
        twice.clients() == once.clients(),
        twice.peers() == once.peers(),
        twice.endpoints() == once.endpoints(),
        twice.pool().range() == once.pool().range(),
        twice.pool().available() == once.pool().available(),
{
    assert(kept_streams(once.streams(), once.clients()) =~= once.streams());
    assert(live_clients(once.clients()) =~= once.clients());
    assert forall|eid: EndpointId| !of_disabled_client(once.clients(), eid) by {}
    assert forall|p: u16| twice.pool().available().contains(p) <==> once.pool().available().contains(
        p,
    ) by {}
    assert(twice.pool().available() =~= once.pool().available());
}

/// A cleanup only frees ports, drops no client that is enabled, and no stream that is enabled,
/// unless its client is disabled.
pub proof fn law_cleanup_keeps_what_is_enabled(before: Store, after: Store)
    requires
        after.cleaned(before),
    ensures
        before.pool().available().subset_of(after.pool().available()),
        forall|k: u128|
            before.streams().contains_key(k) && !stream_goes(before.streams()[k], before.clients())
                ==> #[trigger] after.streams().contains_key(k) && after.streams()[k]
                == before.streams()[k],
        forall|k: u128|
            before.clients().contains_key(k) && !before.clients()[k].disabled
                ==> #[trigger] after.clients().contains_key(k) && after.clients()[k]
                == before.clients()[k],
{
}

/// A disabled client leaves with the next cleanup, and its streams with it.
pub proof fn law_streams_of_a_disabled_client_go(
    before: Store,
    after: Store,
    client_id: ClientId,
    k: u128,
)
    requires
        before.clients().contains_key(client_id.uuid),
        before.clients()[client_id.uuid].disabled,
        before.streams().contains_key(k),
        before.streams()[k].client() == client_id,
        after.cleaned(before),
    ensures
        !after.streams().contains_key(k),
        !after.clients().contains_key(client_id.uuid),
{
}

pub(crate) proof fn lemma_with_endpoints(endpoints: Map<u128, Endpoint>, new: Seq<Endpoint>, i: int)
    requires
        0 <= i < new.len(),
        forall|a: int, b: int|
            0 <= a < b < new.len() ==> (#[trigger] new[a]).id != (#[trigger] new[b]).id,
    ensures
        with_endpoints(endpoints, new).contains_key(new[i].id.uuid),
        with_endpoints(endpoints, new)[new[i].id.uuid] == new[i],
    decreases new.len(),
{
    let init = new.drop_last();
    if i < init.len() {
        assert forall|a: int, b: int| 0 <= a < b < init.len() implies (#[trigger] init[a]).id != (
        #[trigger] init[b]).id by {
            assert(init[a] == new[a] && init[b] == new[b]);
        }
        lemma_with_endpoints(endpoints, init, i);
        assert(init[i] == new[i]);
        assert(new[i].id != new[new.len() - 1].id);
    }
}

/// The endpoints that a new client is given are registered, and their ports belong to the pool. (The
/// identifiers of the endpoints must differ, which random ones do but for chance.)
pub proof fn law_given_endpoints_are_registered(
    config: Config,
    claims: Seq<EndpointClaim>,
    before: Store,
    after: Store,
    hello: ServerHelloV2,
    i: int,
)
    requires
        before.pool().wf(),
        claims_answered(config, claims, before, after, hello),
        hello matches ServerHelloV2::Success { client_id, host, endpoints } && 0 <= i
            < endpoints@.len() && forall|a: int, b: int|
            0 <= a < b < endpoints@.len() ==> (#[trigger] endpoints@[a]).id != (
            #[trigger] endpoints@[b]).id,
    ensures
        hello matches ServerHelloV2::Success { client_id, host, endpoints } && registered(
            after,
            endpoints@[i],
        ),
{
    match hello {
        ServerHelloV2::Success { client_id, host, endpoints } => {
            lemma_with_endpoints(before.endpoints(), endpoints@, i);
            let ports = endpoints@.map_values(|e: Endpoint| e.remote_port);
            assert(ports[i] == endpoints@[i].remote_port);
            assert(remote_ports(endpoints@).contains(endpoints@[i].remote_port));
        },
        _ => {},
    }
}

/// The endpoint is registered under its identifier, with a port of the pool.
pub open spec fn registered(store: Store, e: Endpoint) -> bool {
    &&& store.endpoints().contains_key(e.id.uuid)
    &&& store.endpoints()[e.id.uuid] == e
    &&& store.pool().range().covers(e.remote_port)
}

/// The ports of a client come back: once a client is disabled, a cleanup frees the port of each
/// endpoint that it was given.
pub proof fn law_ports_of_a_client_come_back(
    before: Store,
    after: Store,
    client_id: ClientId,
    i: int,
)
    requires
        before.clients().contains_key(client_id.uuid),
        before.clients()[client_id.uuid].disabled,
        0 <= i < before.clients()[client_id.uuid].endpoints@.len(),
        registered(before, before.clients()[client_id.uuid].endpoints@[i]),
        after.cleaned(before),
    ensures
        after.pool().available().contains(
            before.clients()[client_id.uuid].endpoints@[i].remote_port,
        ),
        !after.clients().contains_key(client_id.uuid),
{
    let clients = before.clients();
    let e = clients[client_id.uuid].endpoints@[i];
    assert(of_disabled_client(clients, e.id));
    assert(frees(before.endpoints(), before.pool().range(), e.id, e.remote_port));
}

/// A cleanup frees no port but those of clients that are disabled.
pub proof fn law_cleanup_frees_no_other_port(before: Store, after: Store, p: u16)
    requires
        after.cleaned(before),
        after.pool().available().contains(p),
        !before.pool().available().contains(p),
    ensures
        exists|c: u128, i: int|
            #![trigger before.clients()[c].endpoints@[i]]
            before.clients().contains_key(c) && before.clients()[c].disabled && 0 <= i
                < before.clients()[c].endpoints@.len() && frees(
                before.endpoints(),
                before.pool().range(),
                before.clients()[c].endpoints@[i].id,
                p,
            ),
{
    let clients = before.clients();
    let eid = choose|eid: EndpointId|
        of_disabled_client(clients, eid) && #[trigger] frees(
            before.endpoints(),
            before.pool().range(),
            eid,
            p,
        );
    let (c, i) = choose|c: u128, i: int|
        #![trigger clients[c].endpoints@[i]]
        clients.contains_key(c) && clients[c].disabled && 0 <= i < clients[c].endpoints@.len()
            && clients[c].endpoints@[i].id == eid;
    assert(before.clients()[c].endpoints@[i].id == eid);
}

/// A stream that was added is found by the address of its peer, until it is disabled or another
/// stream is added for the address.
pub proof fn law_added_stream_is_found(
    before: Store,
    added: Store,
    remote: RemoteStream,
    peer_addr: PeerAddr,
)
    requires
        !remote.is_disabled(),
        added.streams() == before.streams().insert(remote.id().uuid, remote),
        added.peers() == before.peers().insert(peer_addr, remote.id()),
    ensures
        added.stream_at(peer_addr) == Some(remote.id()),
        forall|other: PeerAddr|
            other != peer_addr && before.peers().contains_key(other) && before.peers()[other]
                != remote.id() ==> #[trigger] added.stream_at(other) == before.stream_at(other),
{
}

/// A stream that was disabled is found by no address.
pub proof fn law_disabled_stream_is_not_found(
    before: Store,
    after: Store,
    stream_id: StreamId,
    addr: PeerAddr,
)
    requires
        after.peers() == before.peers(),
        after.streams() == (if before.streams().contains_key(stream_id.uuid) {
            before.streams().insert(
                stream_id.uuid,
                before.streams()[stream_id.uuid].disabled_if(true),
            )
        } else {
            before.streams()
        }),
    ensures
        after.stream_at(addr) != Some(stream_id),
{
}

/// A stream whose client has refused it takes no further message.
pub proof fn law_refused_stream_takes_nothing(
    stream: RemoteStream,
    asked: StreamId,
    message: StreamMessage,
    step: RemoteStep,
)
    requires
        remote_step(
            stream.id(),
            stream.disabled_if(
                disables(StreamMessage::TunnelRefused),
            ).is_disabled(),
            stream is RemoteTcp,
            asked,
            message,
            step,
        ),
    ensures
        step == RemoteStep::Fail(ClientStreamError::StreamNotAvailable(asked)),
{
}

/// Once the server has ended a stream, a client refuses data for it.
pub proof fn law_ended_stream_refuses_data(
    before: ClientStore,
    after: ClientStore,
    last: ClientStore,
    stream_id: StreamId,
    data: Vec<u8>,
    t1: Timestamp,
    t2: Timestamp,
    ended: Result<FlowAction, Seq<char>>,
    r: Result<FlowAction, Seq<char>>,
)
    requires
        flow(before, ControlPacketV2::End(stream_id), t1, after, ended),
        flow(after, ControlPacketV2::Data(stream_id, data), t2, last, r),
    ensures
        r == Ok::<FlowAction, Seq<char>>(FlowAction::Refuse(ControlPacketV2::Refused(stream_id))),
{
}

/// A stream that was opened twice under one identifier is refused the second time.
pub proof fn law_stream_is_opened_once(
    opened: ClientStore,
    after: ClientStore,
    stream_id: StreamId,
    endpoint_id: EndpointId,
    info: RemoteInfo,
    now: Timestamp,
    r: Result<FlowAction, Seq<char>>,
)
    requires
        opened.streams().contains_key(stream_id.uuid),
        flow(opened, ControlPacketV2::Init(stream_id, endpoint_id, info), now, after, r),
    ensures
        r is Err,
        after == opened,
{
}

/// What a remote peer sends over TCP reaches the local service unchanged, while the client has the
/// stream.
pub proof fn law_remote_bytes_reach_the_local_service(
    before: ClientStore,
    after: ClientStore,
    stream_id: StreamId,
    data: Vec<u8>,
    now: Timestamp,
    r: Result<FlowAction, Seq<char>>,
)
    requires
        data@.len() > 0,
        before.streams().contains_key(stream_id.uuid),
        tcp_read_action(stream_id, TcpReadEvent::Read(data)) matches TcpReadAction::Send(packet)
            && flow(before, packet, now, after, r),
    ensures
        r matches Ok(FlowAction::Forward(sid, message)) && sid == stream_id && local_write_action(
            LocalWriteEvent::Message(Some(message)),
        ) == LocalWriteAction::Write(data),
{
}

/// A connection that yields bytes and then ends gives the client its bytes in order, then the end of
/// the stream, and nothing after that, whatever would still be read; and the stream is disabled.
pub proof fn law_nothing_follows_the_end(
    stream_id: StreamId,
    reads: Seq<Vec<u8>>,
    last: Vec<u8>,
    more: Seq<Vec<u8>>,
)
    requires
        last@.len() == 0,
        forall|i: int| 0 <= i < reads.len() ==> (#[trigger] reads[i])@.len() > 0,
    ensures
        tcp_packets(stream_id, reads.push(last) + more) == reads.map_values(
            |data: Vec<u8>| ControlPacketV2::Data(stream_id, data),
        ).push(ControlPacketV2::End(stream_id)),
        tcp_read_action(stream_id, TcpReadEvent::EndSent(true)) == TcpReadAction::Stop,
        ends_reading(TcpReadEvent::EndSent(true)),
    decreases reads.len(),
{
    let all = reads.push(last) + more;
    let sent = reads.map_values(|data: Vec<u8>| ControlPacketV2::Data(stream_id, data)).push(
        ControlPacketV2::End(stream_id),
    );
    if reads.len() == 0 {
        assert(all[0] == last);
        assert(sent =~= seq![ControlPacketV2::End(stream_id)]);
    } else {
        let rest = reads.drop_first();
        assert forall|i: int| 0 <= i < rest.len() implies (#[trigger] rest[i])@.len() > 0 by {
            assert(rest[i] == reads[i + 1]);
        }
        law_nothing_follows_the_end(stream_id, rest, last, more);
        assert(all[0] == reads[0]);
        assert(all.drop_first() =~= rest.push(last) + more);
        assert(sent =~= seq![ControlPacketV2::Data(stream_id, reads[0])] + rest.map_values(
            |data: Vec<u8>| ControlPacketV2::Data(stream_id, data),
        ).push(ControlPacketV2::End(stream_id)));
    }
}

/// A datagram of a remote peer reaches the local service unchanged, while the client has the
/// stream.
pub proof fn law_remote_datagrams_reach_the_local_service(
    before: ClientStore,
    after: ClientStore,
    stream_id: StreamId,
    data: Vec<u8>,
    now: Timestamp,
    r: Result<FlowAction, Seq<char>>,
)
    requires
        data@.len() > 0,
        before.streams().contains_key(stream_id.uuid),
        flow(before, datagram_packet(stream_id, data), now, after, r),
    ensures
        r matches Ok(FlowAction::Forward(sid, message)) && sid == stream_id && local_write_action(
            LocalWriteEvent::Message(Some(message)),
        ) == LocalWriteAction::Write(data),
{
}

/// What a local service sends reaches the remote peer unchanged, while the server has the stream
/// and it is enabled.
pub proof fn law_local_bytes_reach_the_remote_peer(
    client_id: ClientId,
    before: Store,
    after: Store,
    stream_id: StreamId,
    data: Vec<u8>,
    now: Timestamp,
    action: ClientAction,
)
    requires
        data@.len() > 0,
        before.streams().contains_key(stream_id.uuid),
        !before.streams()[stream_id.uuid].is_disabled(),
        local_read_action(stream_id, LocalReadEvent::Read(data)) matches LocalReadAction::Send(
            packet,
        ) && client_step(client_id, before, ClientEvent::Decoded(Some(packet)), now, after, action),
    ensures
        action == ClientAction::Write(stream_id, data),
        after.streams() == before.streams(),
{
}

/// A stream that the server opens leads to the local port of its endpoint, over the endpoint's
/// protocol. (The identifiers of the endpoints must differ, which random ones do but for chance.)
pub proof fn law_opened_stream_leads_to_its_endpoint(
    earlier: Map<u128, Endpoint>,
    endpoints: Seq<Endpoint>,
    i: int,
    before: ClientStore,
    after: ClientStore,
    stream_id: StreamId,
    info: RemoteInfo,
    now: Timestamp,
    r: Result<FlowAction, Seq<char>>,
)
    requires
        0 <= i < endpoints.len(),
        forall|a: int, b: int|
            0 <= a < b < endpoints.len() ==> (#[trigger] endpoints[a]).id != (
            #[trigger] endpoints[b]).id,
        before.endpoints() == with_endpoints(earlier, endpoints),
        !before.streams().contains_key(stream_id.uuid),
        flow(
            before,
            ControlPacketV2::Init(stream_id, endpoints[i].id, info),
            now,
            after,
            r,
        ),
    ensures
        r == Ok::<FlowAction, Seq<char>>(
            FlowAction::SetUp {
                protocol: endpoints[i].protocol,
                stream_id,
                endpoint_id: endpoints[i].id,
                remote_info: info,
            },
        ),
        before.endpoints()[endpoints[i].id.uuid].local_port == endpoints[i].local_port,
{
    lemma_with_endpoints(earlier, endpoints, i);
}

/// A sign of life comes back with the time that it carries, so that its sender learns how long the
/// round trip took.
pub proof fn law_round_trip_is_measured(
    store: ClientStore,
    answering: ClientStore,
    after: ClientStore,
    seq: u32,
    sent: Timestamp,
    token: Option<String>,
    t1: Timestamp,
    t2: Timestamp,
    called: PacketAction,
    r: Result<FlowAction, Seq<char>>,
    noted: Result<FlowAction, Seq<char>>,
    measured: PacketAction,
)
    requires
        packet_action(Some(ControlPacketV2::Ping(seq, sent, None)), t1, called),
        called matches PacketAction::Reply(pong) && flow(store, pong, t2, after, noted),
        flow(store, ControlPacketV2::Ping(seq, sent, token), t1, answering, r),
        r matches Ok(FlowAction::Reply(pong)) && packet_action(Some(pong), t2, measured),
    ensures
        after.rtt() == millis_between(t2, sent),
        measured matches PacketAction::RoundTrip(ms) && ms == millis_between(t2, sent),
{
}

/// A client that loses its connection comes back as the client that it was: the token of the last
/// sign of life is the one with which it reconnects, and while that token lasts the server takes
/// it for the client that the token was issued to.
pub proof fn law_lost_client_comes_back_as_itself(
    config: Config,
    client_id: ClientId,
    iat: i64,
    token: String,
    seq: u32,
    t: Timestamp,
    read: Timestamp,
    connected: ClientStore,
    served: ClientStore,
    lost: ClientStore,
    again: ClientStore,
    run: ClientRun,
    retrying: ClientRun,
    greeting: ClientRun,
    r: Result<FlowAction, Seq<char>>,
    waits: RunStep,
    greets: RunStep,
    auth_host: Option<Seq<char>>,
    now: u64,
)
    requires
        issued_at(config.token_secret@, client_id, iat, RECONNECT_TOKEN_VALID_SECONDS, token@),
        flow(connected, ControlPacketV2::Ping(seq, t, Some(token)), read, served, r),
        run_step(run, served, RunEvent::TaskExited, retrying, lost, waits),
        run_step(retrying, lost, RunEvent::Connected, greeting, again, greets),
        RECONNECT_TOKEN_LEEWAY <= now <= iat + 300 + 60,
    ensures
        greets.action matches RunAction::SendHello(hello) && provisioned_at(
            config,
            Some(hello),
            auth_host,
            now,
        ) == Ok::<ProvisioningAction, VerifyClientHandshakeError>(
            ProvisioningAction::Reconnect { client_id },
        ),
{
    match greets.action {
        RunAction::SendHello(hello) => {
            law_reconnecting_client_is_recognised(
                config,
                client_id,
                iat,
                token@,
                hello,
                auth_host,
                now,
            );
        },
        _ => {},
    }
}

} // verus!
