//! What a server promises a client that says hello.
use super::control::{
    answered, completed, is_ping_for, pings_all, provisioned, provisioned_at, Admission, Answer,
    ProvisioningAction, VerifyClientHandshakeError,
};
use super::laws::{all_kept, flag, flagged, open_stream, owner, rest_kept};
use super::store::{release_result, with_endpoints, Store};
use super::stream::{remote_step, write_outcome, RemoteStep, RemoteStream, RemoteTcp, StreamMessage};
use super::{ClientStreamError, Config};
use crate::clock::Timestamp;
use crate::id::{ClientId, EndpointId, StreamId};
use crate::pool_laws::{can_be_served, lemma_servable, lemma_served, served};
use crate::port_allocator::PortAllocatorError;
use crate::protocol::{
    ClientHelloV2, ClientType, ControlPacketV2, Endpoint, PeerAddr, ServerHelloV2,
};
use crate::reconnect::{decoded_at, ReconnectTokenPayload};
use crate::text::decimal;
use vstd::prelude::*;
use vstd::string::*;

verus! {

/// A hello is taken exactly if it can be read, speaks version 2, and brings an access token for
/// this host, or a reconnect token that holds. A new client is taken with its own claims, and one
/// that comes back as the client that its token names.
pub proof fn law_hello_is_taken_exactly_with_a_token_that_holds(
    config: Config,
    hello: ClientHelloV2,
    auth_host: Option<Seq<char>>,
    payload: Option<ReconnectTokenPayload>,
    r: Result<ProvisioningAction, VerifyClientHandshakeError>,
)
    requires
        r == provisioned(config, Some(hello), auth_host, payload),
    ensures
        r is Ok <==> hello.version == 2 && (if hello.client_type == ClientType::Auth {
            auth_host == Some(config.host@)
        } else {
            payload is Some
        }),
        r matches Ok(ProvisioningAction::NewClient { claims }) ==> hello.client_type
            == ClientType::Auth && claims == hello.endpoint_claims,
        r matches Ok(ProvisioningAction::Reconnect { client_id }) ==> hello.client_type
            == ClientType::Reconnect && payload == Some(ReconnectTokenPayload { client_id }),
{
}

/// A hello is refused for the first thing that is wrong with it: that it cannot be read, its
/// version, its token, the host of its token.
pub proof fn law_hello_is_refused_for_its_first_fault(
    config: Config,
    hello: Option<ClientHelloV2>,
    auth_host: Option<Seq<char>>,
    payload: Option<ReconnectTokenPayload>,
    e: VerifyClientHandshakeError,
)
    requires
        provisioned(config, hello, auth_host, payload) == Err::<ProvisioningAction, _>(e),
    ensures
        e == VerifyClientHandshakeError::InvalidClientHello <==> hello is None,
        hello matches Some(h) ==> (e == VerifyClientHandshakeError::VersionMismatch <==> h.version
            != 2),
        hello matches Some(h) ==> (e == VerifyClientHandshakeError::IllegalHost <==> h.version == 2
            && h.client_type == ClientType::Auth && auth_host is Some),
        hello matches Some(h) ==> (e == VerifyClientHandshakeError::InvalidJWT <==> h.version == 2
            && !(h.client_type == ClientType::Auth && auth_host is Some)),
{
}

/// A hello that cannot be read is refused whatever else is known.
pub proof fn law_unreadable_hello_is_refused(
    config: Config,
    auth_host: Option<Seq<char>>,
    payload: Option<ReconnectTokenPayload>,
)
    ensures
        provisioned(config, None, auth_host, payload) == Err::<ProvisioningAction, _>(
            VerifyClientHandshakeError::InvalidClientHello,
        ),
{
}

/// A client comes back exactly if its token reads, under the server's secret and with a minute of
/// leeway, as a reconnect token, whatever it would be as an access token; and it comes back as the
/// client that it reads as.
pub proof fn law_client_comes_back_with_its_token(
    config: Config,
    hello: ClientHelloV2,
    auth_host: Option<Seq<char>>,
    now: u64,
)
    requires
        hello.version == 2,
        hello.client_type == ClientType::Reconnect,
    ensures
        provisioned_at(config, Some(hello), auth_host, now) == (match decoded_at(
            config.token_secret@,
            hello.token@,
            60,
            now,
        ) {
            Ok(payload) => Ok::<ProvisioningAction, VerifyClientHandshakeError>(
                ProvisioningAction::Reconnect { client_id: payload.client_id },
            ),
            Err(_) => Err(VerifyClientHandshakeError::InvalidJWT),
        }),
{
}

/// A new client does not depend on the clock, nor on what its token would be as a reconnect token.
pub proof fn law_new_client_needs_no_clock(
    config: Config,
    hello: ClientHelloV2,
    auth_host: Option<Seq<char>>,
    now: u64,
    later: u64,
)
    requires
        hello.client_type == ClientType::Auth,
    ensures
        provisioned_at(config, Some(hello), auth_host, now) == provisioned_at(
            config,
            Some(hello),
            auth_host,
            later,
        ),
        auth_host == Some(config.host@) && hello.version == 2 ==> provisioned_at(
            config,
            Some(hello),
            auth_host,
            now,
        ) == Ok::<ProvisioningAction, VerifyClientHandshakeError>(
            ProvisioningAction::NewClient { claims: hello.endpoint_claims },
        ),
{
}

/// The admission is for the client of the hello, with its endpoints.
pub open spec fn admitted(
    config: Config,
    admission: Admission,
    client_id: ClientId,
    endpoints: Seq<Endpoint>,
    is_new: bool,
) -> bool {
    &&& admission.client_id == client_id
    &&& admission.endpoints@ == endpoints
    &&& admission.is_new == is_new
    &&& admission.reconnect_window == config.reconnect_window
}

/// A new client whose claims can be served is told so, with endpoints that serve them, and is to be
/// registered with those; one whose claims cannot be is told that the service is not available, and
/// nothing changes. Either way no client and no stream is touched.
pub proof fn law_new_client_is_given_what_it_claims(
    config: Config,
    claims: Vec<crate::protocol::EndpointClaim>,
    before: Store,
    after: Store,
    answer: Option<Answer>,
)
    requires
        answered(config, Ok(ProvisioningAction::NewClient { claims }), before, after, answer),
    ensures
        after.clients() == before.clients(),
        after.streams() == before.streams(),
        after.peers() == before.peers(),
        after.pool().range() == before.pool().range(),
        answer is Some,
        answer->Some_0.hello is Success <==> can_be_served(claims@, before.pool().available()),
        answer->Some_0.hello matches ServerHelloV2::Success { client_id, host, endpoints } ==> {
            &&& host@ == config.host@
            &&& served(
                endpoints@,
                claims@,
                before.pool().available(),
                after.pool().available(),
            )
            &&& answer->Some_0.admission matches Some(admission)
            &&& admitted(config, admission, client_id, endpoints@, true)
            &&& after.endpoints() == with_endpoints(before.endpoints(), endpoints@)
        },
        !(answer->Some_0.hello is Success) ==> answer->Some_0 == (Answer {
            hello: ServerHelloV2::ServiceTemporaryUnavailable,
            admission: None,
        }) && after.pool().available() == before.pool().available() && after.endpoints()
            == before.endpoints(),
{
    lemma_servable(claims@, before.pool().available());
    match answer->Some_0.hello {
        ServerHelloV2::Success { client_id, host, endpoints } => {
            lemma_served(
                endpoints@,
                claims@,
                before.pool().available(),
                after.pool().available(),
            );
        },
        _ => {},
    }
}

/// A client that is known and comes back is answered with its own identifier and endpoints and is
/// to be registered with them again; it alone leaves the store until then. One that is not known is
/// not answered, and nothing changes.
pub proof fn law_client_that_comes_back_gets_its_own(
    config: Config,
    client_id: ClientId,
    before: Store,
    after: Store,
    answer: Option<Answer>,
)
    requires
        answered(
            config,
            Ok(ProvisioningAction::Reconnect { client_id }),
            before,
            after,
            answer,
        ),
    ensures
        after.streams() == before.streams(),
        after.peers() == before.peers(),
        after.endpoints() == before.endpoints(),
        after.pool() == before.pool(),
        answer is Some <==> before.clients().contains_key(client_id.uuid),
        answer matches Some(a) ==> {
            &&& a.hello matches ServerHelloV2::Success { client_id: id, host, endpoints }
            &&& id == client_id
            &&& host@ == config.host@
            &&& endpoints@ == before.clients()[client_id.uuid].endpoints@
            &&& a.admission matches Some(admission)
            &&& admitted(config, admission, client_id, endpoints@, false)
        },
        !after.clients().contains_key(client_id.uuid),
        forall|k: u128|
            k != client_id.uuid ==> (#[trigger] after.clients().contains_key(k)
                == before.clients().contains_key(k)) && (before.clients().contains_key(k)
                ==> after.clients()[k] == before.clients()[k]),
{
}

/// A client that was answered is registered as enabled, with its endpoints, once the answer was
/// sent, and only then; every other client stays as it is. The endpoints of a new client are
/// opened, and those of one that comes back are open already.
pub proof fn law_answered_client_is_registered(
    before: Store,
    after: Store,
    admission: Admission,
    sent: bool,
    opened: Seq<Endpoint>,
)
    requires
        completed(before, after, Some(admission), sent, opened),
    ensures
        !sent ==> all_kept(before, after) && opened.len() == 0,
        sent ==> {
            let id = admission.client_id.uuid;
            &&& after.clients().contains_key(id)
            &&& !after.clients()[id].disabled
            &&& after.clients()[id].client_id == admission.client_id
            &&& after.clients()[id].endpoints@ == admission.endpoints@
            &&& after.clients()[id].reconnect_window == admission.reconnect_window
            &&& after.streams() == before.streams()
            &&& after.peers() == before.peers()
            &&& after.endpoints() == before.endpoints()
            &&& after.pool() == before.pool()
            &&& admission.is_new ==> opened == admission.endpoints@
            &&& !admission.is_new ==> opened.len() == 0
        },
        forall|k: u128|
            k != admission.client_id.uuid ==> (#[trigger] after.clients().contains_key(k)
                == before.clients().contains_key(k)) && (before.clients().contains_key(k)
                ==> after.clients()[k] == before.clients()[k]),
{
    assert forall|k: u128| k != admission.client_id.uuid implies (
    #[trigger] after.clients().contains_key(k) == before.clients().contains_key(k)) && (
    before.clients().contains_key(k) ==> after.clients()[k] == before.clients()[k]) by {
        assert(after.clients().dom().contains(k) == before.clients().dom().contains(k));
    }
}

/// Without anybody to register, nothing changes and nothing is opened, sent or not.
pub proof fn law_nobody_is_registered_without_an_admission(
    before: Store,
    after: Store,
    sent: bool,
    opened: Seq<Endpoint>,
)
    requires
        completed(before, after, None, sent, opened),
    ensures
        all_kept(before, after),
        opened.len() == 0,
{
}

/// Every registered client, enabled or not, is sent one sign of life, and nobody else is. It
/// carries the number 0 and the time at which it was made.
pub proof fn law_every_client_is_pinged_once(
    config: Config,
    store: Store,
    now: Timestamp,
    pings: Seq<(ClientId, ControlPacketV2)>,
    client_id: ClientId,
)
    requires
        pings_all(config, store, now, pings),
    ensures
        store.clients().contains_key(client_id.uuid) <==> exists|i: int|
            0 <= i < pings.len() && (#[trigger] pings[i]).0 == client_id,
        forall|i: int, j: int|
            0 <= i < pings.len() && 0 <= j < pings.len() && (#[trigger] pings[i]).0 == client_id && (
            #[trigger] pings[j]).0 == client_id ==> i == j,
        forall|i: int|
            0 <= i < pings.len() ==> (#[trigger] pings[i]).1 is Ping && pings[i].1->Ping_0 == 0
                && pings[i].1->Ping_1 == now && pings[i].1->Ping_2 is Some,
{
    assert forall|i: int| 0 <= i < pings.len() implies (#[trigger] pings[i]).1 is Ping
        && pings[i].1->Ping_0 == 0 && pings[i].1->Ping_1 == now && pings[i].1->Ping_2 is Some by {
        assert(is_ping_for(config, pings[i].0, now, pings[i].1));
    }
    assert forall|i: int, j: int|
        0 <= i < pings.len() && 0 <= j < pings.len() && (#[trigger] pings[i]).0 == client_id && (
        #[trigger] pings[j]).0 == client_id implies i == j by {
        if i < j {
            assert(pings[i].0 != pings[j].0);
        }
        if j < i {
            assert(pings[j].0 != pings[i].0);
        }
    }
}

/// A connection that was accepted, once the client was told of it, is found by the address of its
/// peer, and all other streams and addresses stay as they are; if the client could not be told,
/// nothing changes.
pub proof fn law_accepted_connection_is_found(
    before: Store,
    after: Store,
    remote: RemoteTcp,
    init_sent: bool,
)
    requires
        !remote.disabled,
        after.accepted(before, remote, init_sent),
    ensures
        !init_sent ==> all_kept(before, after),
        init_sent ==> {
            let peer = remote.remote_info.remote_peer_addr;
            &&& open_stream(after, remote.stream_id)
            &&& after.streams()[remote.stream_id.uuid] == RemoteStream::RemoteTcp(remote)
            &&& after.stream_at(peer) == Some(remote.stream_id)
            &&& forall|k: u128|
                k != remote.stream_id.uuid ==> (#[trigger] after.streams().contains_key(k)
                    == before.streams().contains_key(k)) && (before.streams().contains_key(k)
                    ==> after.streams()[k] == before.streams()[k])
            &&& forall|a: PeerAddr|
                a != peer ==> (#[trigger] after.peers().contains_key(a)
                    == before.peers().contains_key(a)) && (before.peers().contains_key(a)
                    ==> after.peers()[a] == before.peers()[a])
            &&& after.clients() == before.clients()
            &&& after.endpoints() == before.endpoints()
            &&& after.pool() == before.pool()
        },
{
}

/// The streams of a client that is cut off are disabled, over TCP and UDP alike, and those of every
/// other client are left alone.
pub proof fn law_cut_off_client_loses_its_streams_only(
    before: Store,
    after: Store,
    client_id: ClientId,
    k: u128,
)
    requires
        after.cut_off(before, client_id),
    ensures
        after.streams().contains_key(k) == before.streams().contains_key(k),
        before.streams().contains_key(k) ==> after.streams()[k] == (if owner(before.streams()[k])
            == client_id {
            flagged(before.streams()[k])
        } else {
            before.streams()[k]
        }),
        rest_kept(before, after),
{
}

/// A message for a stream whose flag is set fails, and names the stream that was asked for; data
/// for any other is written as it is; a refusal shuts a connection down, and fails without one.
pub proof fn law_stream_takes_data_until_it_is_disabled(
    stream: RemoteStream,
    asked: StreamId,
    message: StreamMessage,
    step: RemoteStep,
)
    requires
        remote_step(
            stream.id(),
            stream.is_disabled(),
            stream is RemoteTcp,
            asked,
            message,
            step,
        ),
    ensures
        flag(stream) ==> step == RemoteStep::Fail(ClientStreamError::StreamNotAvailable(asked)),
        !flag(stream) ==> (message matches StreamMessage::Data(data) ==> step == RemoteStep::Write(
            data,
        )),
        !flag(stream) && !(message is Data) ==> (match stream {
            RemoteStream::RemoteTcp(tcp) => step matches RemoteStep::ShutDown(
                ClientStreamError::RemoteError(t),
            ) && t@ == "stream_id: "@ + tcp.stream_id.text() + ", TunnelRefused"@,
            RemoteStream::RemoteUdp(udp) => step matches RemoteStep::Fail(
                ClientStreamError::RemoteError(t),
            ) && t@ == "stream_id: "@ + udp.stream_id.text() + ", TunnelRefused"@,
        }),
{
}

/// A write is an error exactly if it failed, and the error names the stream and what went wrong.
pub proof fn law_write_fails_with_its_error(
    id: StreamId,
    outcome: Result<(), String>,
    r: Result<(), ClientStreamError>,
)
    requires
        write_outcome(id, outcome, r),
    ensures
        r is Ok <==> outcome is Ok,
        outcome matches Err(e) ==> (r matches Err(ClientStreamError::RemoteError(t)) && t@
            == "stream_id: "@ + id.text() + ", "@ + e@),
{
}

/// The port of an endpoint can be released exactly if the endpoint was handed out, its port belongs
/// to the pool, and the port is not free.
pub proof fn law_endpoint_is_released_once(store: Store, eid: EndpointId)
    ensures
        release_result(store, eid) is Ok <==> store.endpoints().contains_key(eid.uuid)
            && store.pool().range().start <= store.endpoints()[eid.uuid].remote_port
            < store.pool().range().end && !store.pool().available().contains(
            store.endpoints()[eid.uuid].remote_port,
        ),
        release_result(store, eid) == Err::<(), _>(PortAllocatorError::PortAlreadyReleased)
            <==> store.endpoints().contains_key(eid.uuid) && store.pool().range().start
            <= store.endpoints()[eid.uuid].remote_port < store.pool().range().end
            && store.pool().available().contains(store.endpoints()[eid.uuid].remote_port),
        release_result(store, eid) is Err ==> release_result(store, eid)->Err_0
            != PortAllocatorError::AllocationFailed,
{
}

/// An endpoint that was handed out listens on its remote port, on every address of the machine; one
/// that was not does not listen.
pub proof fn law_endpoint_listens_on_its_remote_port(store: Store, eid: EndpointId)
    ensures
        store.remote_addr(eid) is Some <==> store.endpoints().contains_key(eid.uuid),
        store.remote_addr(eid) matches Some(a) ==> a == "0.0.0.0"@ + seq![':'] + decimal(
            store.endpoints()[eid.uuid].remote_port as nat,
        ),
{
}

/// The streams that are listed are those that are registered, each once, and so are the clients.
pub proof fn law_lists_are_complete(
    store: Store,
    streams: Seq<StreamId>,
    clients: Seq<ClientId>,
    k: u128,
)
    requires
        store.lists_streams(streams),
        store.lists_clients(clients),
    ensures
        store.streams().contains_key(k) <==> exists|i: int|
            0 <= i < streams.len() && (#[trigger] streams[i]).uuid == k,
        store.clients().contains_key(k) <==> exists|i: int|
            0 <= i < clients.len() && (#[trigger] clients[i]).uuid == k,
        forall|i: int, j: int|
            0 <= i < j < streams.len() ==> (#[trigger] streams[i]).uuid != (
            #[trigger] streams[j]).uuid,
        forall|i: int, j: int|
            0 <= i < j < clients.len() ==> (#[trigger] clients[i]).uuid != (
            #[trigger] clients[j]).uuid,
{
    if store.streams().contains_key(k) {
        assert(streams.contains(StreamId { uuid: k }));
    }
    if exists|i: int| 0 <= i < streams.len() && (#[trigger] streams[i]).uuid == k {
        let i = choose|i: int| 0 <= i < streams.len() && (#[trigger] streams[i]).uuid == k;
        assert(streams.contains(streams[i]));
    }
    if store.clients().contains_key(k) {
        assert(clients.contains(ClientId { uuid: k }));
    }
    if exists|i: int| 0 <= i < clients.len() && (#[trigger] clients[i]).uuid == k {
        let i = choose|i: int| 0 <= i < clients.len() && (#[trigger] clients[i]).uuid == k;
        assert(clients.contains(clients[i]));
    }
}

} // verus!
