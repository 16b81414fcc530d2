//! What a client does for its user, said of the data that it sees.
use super::backoff::{backoff_secs, duration_of_secs};
use super::handshake::{
    fetched, parsed_url, tunnel_address, verified, ClientInfo, ServerReply, TokenResponse,
};
use super::local::{
    local_read_action, local_write_action, LocalReadAction, LocalReadEvent, LocalWriteAction,
    LocalWriteEvent,
};
use super::recorder::{byte_len, recorded, RecorderSlot, StdoutRecorder};
use super::run::{connects_once, run_step, ClientRun, RunAction, RunEvent, RunStep};
use super::session::{
    ends_after, flow, gives_packet, message_flow, session_step, FlowAction, SessionStep,
    CLOSE_DELAY_SECS,
};
use super::store::{listed, names_a_stream, LocalStream, LocalStreamEntry, Store, Upload};
use super::{Error, StreamMessage};
use crate::clock::{millis_between, Timestamp};
use crate::id::{hyphenated, ClientId, EndpointId, StreamId};
use crate::protocol::{
    ClientType, ControlPacketV2, Endpoint, Protocol, RemoteInfo, ServerHelloV2,
};
use crate::reconnect::text_of;
use crate::server::dedicated::lemma_with_endpoints_keeps;
use crate::text::decimal;
use crate::ws::{Frame, ReadEvent};
use vstd::arithmetic::power2::lemma2_to64;
use vstd::prelude::*;
use vstd::string::*;

verus! {

/// Everything but the streams is the same.
pub open spec fn rest_kept(before: Store, after: Store) -> bool {
    &&& after.endpoints() == before.endpoints()
    &&& after.connected() == before.connected()
    &&& after.rtt() == before.rtt()
    &&& after.token() == before.token()
}

/// Everything is the same.
pub open spec fn all_kept(before: Store, after: Store) -> bool {
    after.streams() == before.streams() && rest_kept(before, after)
}

/// Every stream but one is the same.
pub open spec fn other_streams_kept(before: Store, after: Store, stream_id: StreamId) -> bool {
    forall|k: u128|
        k != stream_id.uuid ==> (#[trigger] after.streams().contains_key(k)
            == before.streams().contains_key(k)) && (before.streams().contains_key(k)
            ==> after.streams()[k] == before.streams()[k])
}

/// The end of a stream takes that stream out of the store and no other. A stream that was there is
/// closed after five seconds; for one that was not, nothing is done.
pub proof fn law_end_takes_its_stream_only(
    before: Store,
    stream_id: StreamId,
    now: Timestamp,
    after: Store,
    r: Result<FlowAction, Seq<char>>,
)
    requires
        flow(before, ControlPacketV2::End(stream_id), now, after, r),
    ensures
        !after.streams().contains_key(stream_id.uuid),
        other_streams_kept(before, after, stream_id),
        rest_kept(before, after),
        before.streams().contains_key(stream_id.uuid) ==> r == Ok::<FlowAction, Seq<char>>(
            FlowAction::CloseLater(stream_id, before.streams()[stream_id.uuid]),
        ),
        !before.streams().contains_key(stream_id.uuid) ==> r == Ok::<FlowAction, Seq<char>>(
            FlowAction::Nothing,
        ),
        CLOSE_DELAY_SECS == 5,
{
}

/// Data goes to the local service as it is while its stream is open, and is refused otherwise;
/// either way nothing changes.
pub proof fn law_data_is_forwarded_while_its_stream_is_open(
    before: Store,
    stream_id: StreamId,
    data: Vec<u8>,
    now: Timestamp,
    after: Store,
    r: Result<FlowAction, Seq<char>>,
)
    requires
        flow(before, ControlPacketV2::Data(stream_id, data), now, after, r),
    ensures
        all_kept(before, after),
        before.streams().contains_key(stream_id.uuid) ==> r == Ok::<FlowAction, Seq<char>>(
            FlowAction::Forward(stream_id, StreamMessage::Data(data)),
        ),
        !before.streams().contains_key(stream_id.uuid) ==> r == Ok::<FlowAction, Seq<char>>(
            FlowAction::Refuse(ControlPacketV2::Refused(stream_id)),
        ),
{
}

/// A stream is set up exactly if its endpoint is known and it is not open yet, over the protocol of
/// the endpoint and for the peer that is named; otherwise the packet is an error. Nothing changes
/// until the stream is set up.
pub proof fn law_stream_is_set_up_for_a_known_endpoint(
    before: Store,
    stream_id: StreamId,
    endpoint_id: EndpointId,
    info: RemoteInfo,
    now: Timestamp,
    after: Store,
    r: Result<FlowAction, Seq<char>>,
)
    requires
        flow(before, ControlPacketV2::Init(stream_id, endpoint_id, info), now, after, r),
    ensures
        all_kept(before, after),
        r is Ok <==> before.endpoints().contains_key(endpoint_id.uuid)
            && !before.streams().contains_key(stream_id.uuid),
        r matches Ok(action) ==> action == (FlowAction::SetUp {
            protocol: before.endpoints()[endpoint_id.uuid].protocol,
            stream_id,
            endpoint_id,
            remote_info: info,
        }),
        r matches Err(e) ==> (if before.endpoints().contains_key(endpoint_id.uuid) {
            e == "sid="@ + stream_id.text() + " is already exist"@
        } else {
            e == "eid="@ + endpoint_id.text() + " is not registered"@
        }),
{
}

/// A sign of life is answered with its number and time. The token that it brings is kept in place
/// of the one before; without one, the one before stays. No stream and no endpoint changes.
pub proof fn law_ping_is_answered_and_its_token_kept(
    before: Store,
    seq: u32,
    t: Timestamp,
    token: Option<String>,
    now: Timestamp,
    after: Store,
    r: Result<FlowAction, Seq<char>>,
)
    requires
        flow(before, ControlPacketV2::Ping(seq, t, token), now, after, r),
    ensures
        r == Ok::<FlowAction, Seq<char>>(FlowAction::Reply(ControlPacketV2::Pong(seq, t))),
        token is Some ==> after.token() == token,
        token is None ==> after.token() == before.token(),
        after.streams() == before.streams(),
        after.endpoints() == before.endpoints(),
        after.connected() == before.connected(),
        after.rtt() == before.rtt(),
{
}

/// The answer to a sign of life is measured against the clock, and changes nothing else.
pub proof fn law_pong_is_measured(
    before: Store,
    seq: u32,
    t: Timestamp,
    now: Timestamp,
    after: Store,
    r: Result<FlowAction, Seq<char>>,
)
    requires
        flow(before, ControlPacketV2::Pong(seq, t), now, after, r),
    ensures
        r == Ok::<FlowAction, Seq<char>>(FlowAction::Nothing),
        after.rtt() == millis_between(now, t),
        after.streams() == before.streams(),
        after.endpoints() == before.endpoints(),
        after.connected() == before.connected(),
        after.token() == before.token(),
{
}

/// A refusal is not expected of a server: it is an error, and changes nothing.
pub proof fn law_refusal_is_unexpected(
    before: Store,
    stream_id: StreamId,
    now: Timestamp,
    after: Store,
    r: Result<FlowAction, Seq<char>>,
)
    requires
        flow(before, ControlPacketV2::Refused(stream_id), now, after, r),
    ensures
        r == Err::<FlowAction, _>("unexpected control packet"@),
        all_kept(before, after),
{
}

/// A message that holds no packet is an error and changes nothing; one that holds a packet does
/// what the packet says.
pub proof fn law_message_without_a_packet_changes_nothing(
    before: Store,
    decoded: Result<Option<ControlPacketV2>, String>,
    now: Timestamp,
    after: Store,
    r: Result<FlowAction, Seq<char>>,
)
    requires
        message_flow(before, decoded, now, after, r),
    ensures
        decoded matches Err(e) ==> r == Err::<FlowAction, _>(e@) && all_kept(before, after),
        decoded matches Ok(None) ==> r == Err::<FlowAction, _>("failed to parse partial packet"@)
            && all_kept(before, after),
        decoded matches Ok(Some(packet)) ==> flow(before, packet, now, after, r),
{
}

/// The stream that a packet is for.
pub open spec fn stream_of(packet: ControlPacketV2) -> Option<u128> {
    match packet {
        ControlPacketV2::Init(sid, _, _) => Some(sid.uuid),
        ControlPacketV2::Data(sid, _) => Some(sid.uuid),
        ControlPacketV2::Refused(sid) => Some(sid.uuid),
        ControlPacketV2::End(sid) => Some(sid.uuid),
        ControlPacketV2::Ping(_, _, _) => None,
        ControlPacketV2::Pong(_, _) => None,
    }
}

/// A packet for one stream leaves every other stream alone, and no packet changes the endpoints or
/// the connection. A stream leaves the store only with its end.
pub proof fn law_packet_leaves_other_streams_alone(
    before: Store,
    packet: ControlPacketV2,
    now: Timestamp,
    after: Store,
    r: Result<FlowAction, Seq<char>>,
    k: u128,
)
    requires
        flow(before, packet, now, after, r),
        stream_of(packet) != Some(k) || !(packet is End),
    ensures
        after.streams().contains_key(k) == before.streams().contains_key(k),
        before.streams().contains_key(k) ==> after.streams()[k] == before.streams()[k],
        after.endpoints() == before.endpoints(),
        after.connected() == before.connected(),
{
}

/// Data for a stream is still forwarded after another stream has ended.
pub proof fn law_end_of_one_stream_does_not_stop_another(
    before: Store,
    ended: StreamId,
    t1: Timestamp,
    between: Store,
    closed: Result<FlowAction, Seq<char>>,
    stream_id: StreamId,
    data: Vec<u8>,
    t2: Timestamp,
    after: Store,
    r: Result<FlowAction, Seq<char>>,
)
    requires
        ended.uuid != stream_id.uuid,
        before.streams().contains_key(stream_id.uuid),
        flow(before, ControlPacketV2::End(ended), t1, between, closed),
        flow(between, ControlPacketV2::Data(stream_id, data), t2, after, r),
    ensures
        r == Ok::<FlowAction, Seq<char>>(
            FlowAction::Forward(stream_id, StreamMessage::Data(data)),
        ),
        after.streams().contains_key(stream_id.uuid),
        !after.streams().contains_key(ended.uuid),
{
}

/// A message that is taken gives back the packet that it holds, byte for byte.
pub proof fn law_packet_is_given_back(
    packet: ControlPacketV2,
    action: FlowAction,
    given: ControlPacketV2,
)
    requires
        gives_packet(Ok(Some(packet)), Ok((action, given))),
    ensures
        match packet {
            ControlPacketV2::Data(sid, data) => given matches ControlPacketV2::Data(s, d) && s
                == sid && d@ == data@,
            ControlPacketV2::Ping(seq, t, token) => given matches ControlPacketV2::Ping(q, u, tok)
                && q == seq && u == t && text_of(tok) == text_of(token),
            ControlPacketV2::Init(sid, eid, info) => given == ControlPacketV2::Init(
                sid,
                eid,
                info,
            ),
            ControlPacketV2::Refused(sid) => given == ControlPacketV2::Refused(sid),
            ControlPacketV2::End(sid) => given == ControlPacketV2::End(sid),
            ControlPacketV2::Pong(seq, t) => given == ControlPacketV2::Pong(seq, t),
        },
{
}

/// A stream that is registered is there, and all others stay as they are; one that is taken out is
/// handed back and gone, and all others stay.
pub proof fn law_streams_come_and_go_one_by_one(
    before: Store,
    stream_id: StreamId,
    stream: LocalStream,
    added: Store,
    was: Option<(StreamId, LocalStream)>,
    after: Store,
)
    requires
        added.added_stream(before, stream_id, stream),
        after.removed_stream(added, stream_id, was),
    ensures
        added.streams().contains_key(stream_id.uuid),
        added.streams()[stream_id.uuid] == stream,
        other_streams_kept(before, added, stream_id),
        rest_kept(before, added),
        was == Some((stream_id, stream)),
        !after.streams().contains_key(stream_id.uuid),
        other_streams_kept(before, after, stream_id),
        rest_kept(before, after),
{
}

/// What is noted of a connection stands beside the rest: a client that loses its connection keeps
/// its streams, its endpoints, its round trip time and the token to reconnect with.
pub proof fn law_lost_connection_leaves_the_rest(
    before: Store,
    client_id: ClientId,
    joined: Store,
    token: String,
    trusted: Store,
    rtt: i64,
    measured: Store,
    after: Store,
)
    requires
        joined.noted_connection(before, Some(client_id)),
        trusted.noted_token(joined, token),
        measured.noted_rtt(trusted, rtt),
        after.noted_connection(measured, None),
    ensures
        measured.connected() == Some(client_id),
        after.connected() is None,
        after.token() == Some(token),
        after.rtt() == rtt,
        after.streams() == before.streams(),
        after.endpoints() == before.endpoints(),
        joined.token() == before.token(),
        joined.rtt() == before.rtt(),
        trusted.rtt() == before.rtt(),
{
}

/// Every stream is listed once, with the peer that opened it, and nothing else is; every endpoint
/// is listed.
pub proof fn law_lists_are_complete(
    store: Store,
    list: Seq<LocalStreamEntry>,
    endpoints: Seq<Endpoint>,
    names: Seq<String>,
    k: u128,
)
    requires
        store.lists(list),
        store.lists_endpoints(endpoints),
        store.names(names),
    ensures
        endpoints.len() == store.endpoints().dom().len(),
        names.len() == store.streams().dom().len(),
        store.streams().contains_key(k) ==> exists|i: int|
            0 <= i < names.len() && (#[trigger] names[i])@ == "stream_"@ + hyphenated(k),
        forall|i: int|
            0 <= i < names.len() ==> exists|c: u128| #[trigger]
                store.streams().contains_key(c) && (#[trigger] names[i])@ == "stream_"@
                    + hyphenated(c),
        store.streams().contains_key(k) <==> exists|i: int|
            0 <= i < list.len() && (#[trigger] list[i]).stream_id.uuid == k,
        forall|i: int|
            0 <= i < list.len() ==> (#[trigger] list[i]).remote_info
                == store.streams()[list[i].stream_id.uuid].remote_info,
        forall|i: int, j: int|
            0 <= i < j < list.len() ==> (#[trigger] list[i]).stream_id.uuid != (
            #[trigger] list[j]).stream_id.uuid,
        store.endpoints().contains_key(k) ==> exists|i: int|
            0 <= i < endpoints.len() && #[trigger] endpoints[i] == store.endpoints()[k],
        forall|i: int|
            0 <= i < endpoints.len() ==> exists|c: u128|
                store.endpoints().contains_key(c) && store.endpoints()[c]
                    == #[trigger] endpoints[i],
{
    assert forall|i: int| 0 <= i < names.len() implies exists|c: u128| #[trigger]
        store.streams().contains_key(c) && (#[trigger] names[i])@ == "stream_"@ + hyphenated(c) by {
        assert(names_a_stream(store.streams(), names[i]@));
    }
    if store.streams().contains_key(k) {
        assert(listed(names, StreamId { uuid: k }));
        let e = LocalStreamEntry {
            stream_id: StreamId { uuid: k },
            remote_info: store.streams()[k].remote_info,
        };
        assert(list.contains(e));
        let i = choose|i: int| 0 <= i < list.len() && list[i] == e;
        assert(list[i].stream_id.uuid == k);
    }
    assert forall|i: int| 0 <= i < list.len() implies (#[trigger] list[i]).remote_info
        == store.streams()[list[i].stream_id.uuid].remote_info && store.streams().contains_key(
        list[i].stream_id.uuid,
    ) by {
        assert(list.contains(list[i]));
    }
    if store.endpoints().contains_key(k) {
        assert(endpoints.contains(store.endpoints()[k]));
    }
    assert forall|i: int| 0 <= i < endpoints.len() implies exists|c: u128|
        store.endpoints().contains_key(c) && store.endpoints()[c] == #[trigger] endpoints[i] by {
        assert(endpoints.contains(endpoints[i]));
    }
}

/// A packet is sent only over a connection: without one it is an error; with one it is an error
/// exactly if the sending failed.
pub proof fn law_packet_needs_a_connection(store: Store, upload: Upload, r: Result<(), Error>)
    requires
        store.sent_up(upload, r),
    ensures
        store.connected() is None ==> r == Err::<(), Error>(Error::ServerDown),
        store.connected() is Some ==> (r is Err <==> upload is NotSent),
        store.connected() is Some ==> (upload matches Upload::NotSent(e) ==> r == Err::<(), Error>(
            Error::WebSocketError(e),
        )),
{
}

/// A stream of an endpoint that is known leads to its local port on this machine; one of an unknown
/// endpoint leads nowhere.
pub proof fn law_endpoint_leads_to_its_local_port(store: Store, eid: EndpointId)
    ensures
        store.local_addr(eid) is Some <==> store.endpoints().contains_key(eid.uuid),
        store.local_addr(eid) matches Some(a) ==> a == "localhost"@ + seq![':'] + decimal(
            store.endpoints()[eid.uuid].local_port as nat,
        ),
{
}

/// The wait after `n` failures: none without one, a second after the first, and twice the last wait
/// after each further one, up to five minutes.
pub open spec fn wait_secs(n: nat) -> nat
    decreases n,
{
    if n == 0 {
        0
    } else if n == 1 {
        1
    } else if 2 * wait_secs((n - 1) as nat) > 300 {
        300
    } else {
        2 * wait_secs((n - 1) as nat)
    }
}

proof fn lemma_wait(n: nat)
    requires
        n >= 9,
    ensures
        wait_secs(n) == (if n == 9 {
            256nat
        } else {
            300
        }),
    decreases n,
{
    if n == 9 {
        reveal_with_fuel(wait_secs, 10);
    } else {
        lemma_wait((n - 1) as nat);
    }
}

/// A client waits twice as long after each failure, up to five minutes.
pub proof fn law_wait_doubles_up_to_five_minutes(attempts: u32)
    ensures
        backoff_secs(attempts) == wait_secs(attempts as nat),
        attempts > 0 ==> backoff_secs(attempts) >= 1,
{
    lemma2_to64();
    if attempts >= 9 {
        lemma_wait(attempts as nat);
    } else {
        reveal_with_fuel(wait_secs, 10);
    }
}

/// The error that a reply which is no success is noted as.
pub open spec fn fault(reply: ServerReply) -> Option<Error> {
    match reply {
        ServerReply::Nothing => Some(Error::NoResponseFromServer),
        ServerReply::Failed(e) => Some(Error::WebSocketError(e)),
        ServerReply::Unreadable => Some(Error::ServerReplyInvalid),
        ServerReply::Hello(hello) => match hello {
            ServerHelloV2::Success { client_id: _, host: _, endpoints: _ } => None,
            ServerHelloV2::BadRequest => Some(Error::BadRequest),
            ServerHelloV2::ServiceTemporaryUnavailable => Some(Error::ServiceTemporaryUnavailable),
            ServerHelloV2::IllegalHost => Some(Error::IllegalHost),
            ServerHelloV2::InternalServerError => Some(Error::InternalServerError),
            ServerHelloV2::VersionMismatch => Some(Error::ClientHandshakeVersionMismatch),
        },
    }
}

/// A reply is taken exactly if it is a success, as what it says; every other is its own error.
pub proof fn law_only_a_success_is_taken(reply: ServerReply)
    ensures
        verified(reply) is Ok <==> (reply matches ServerReply::Hello(hello) && hello is Success),
        reply matches ServerReply::Hello(ServerHelloV2::Success { client_id, host, endpoints })
            ==> verified(reply) == Ok::<ClientInfo, Error>(
            ClientInfo { client_id, host, endpoints },
        ),
        verified(reply) matches Err(e) ==> fault(reply) == Some(e),
{
}

/// The client has failed once more: it notes the error, counts, waits for the time that the count
/// calls for, and is otherwise as it was.
pub open spec fn tries_again(
    before: ClientRun,
    store: Store,
    after: ClientRun,
    store_after: Store,
    step: RunStep,
    e: Error,
) -> bool {
    &&& after.attempts == before.attempts + 1
    &&& after.token == before.token
    &&& after.host == before.host
    &&& after.control_port == before.control_port
    &&& after.request_type == before.request_type
    &&& all_kept(store, store_after)
    &&& step.noted == Some(e)
    &&& step.action == RunAction::Sleep(
        duration_of_secs(wait_secs((before.attempts + 1) as nat) as u64),
    )
}

/// No failed handshake stops a client: whatever the reply is, if it is no success, the client tries
/// again.
pub proof fn law_failed_handshake_is_tried_again(
    before: ClientRun,
    store: Store,
    reply: ServerReply,
    after: ClientRun,
    store_after: Store,
    step: RunStep,
)
    requires
        before.attempts < u32::MAX,
        !(reply matches ServerReply::Hello(hello) && hello is Success),
        run_step(before, store, RunEvent::Replied(reply), after, store_after, step),
    ensures
        fault(reply) matches Some(e) && tries_again(before, store, after, store_after, step, e),
{
    law_wait_doubles_up_to_five_minutes((before.attempts + 1) as u32);
}

/// Nor does a connection that cannot be opened, or a hello that cannot be sent.
pub proof fn law_failed_connection_is_tried_again(
    before: ClientRun,
    store: Store,
    event: RunEvent,
    after: ClientRun,
    store_after: Store,
    step: RunStep,
)
    requires
        before.attempts < u32::MAX,
        event is ConnectFailed || event is HelloFailed,
        run_step(before, store, event, after, store_after, step),
    ensures
        event is ConnectFailed ==> tries_again(
            before,
            store,
            after,
            store_after,
            step,
            Error::ServerDown,
        ),
        event matches RunEvent::HelloFailed(e) ==> tries_again(
            before,
            store,
            after,
            store_after,
            step,
            Error::WebSocketError(e),
        ),
{
    law_wait_doubles_up_to_five_minutes((before.attempts + 1) as u32);
}

/// A client stops only when it is cancelled, when the address of the server cannot be parsed, or
/// when a task exits and there is no token to reconnect with.
pub proof fn law_client_stops_only_for_a_reason(
    before: ClientRun,
    store: Store,
    event: RunEvent,
    after: ClientRun,
    store_after: Store,
    step: RunStep,
)
    requires
        run_step(before, store, event, after, store_after, step),
    ensures
        step.action is Stop <==> event is Cancelled || (event is TaskExited && store.token() is None)
            || (event is Slept && parsed_url(tunnel_address(before.host@, before.control_port))
            is Err),
        event is Cancelled ==> step == (RunStep { action: RunAction::Stop(None), noted: None }),
        event is TaskExited && store.token() is None ==> step == (RunStep {
            action: RunAction::Stop(None),
            noted: Some(Error::ReconnectTokenError),
        }),
        after.host == before.host,
        after.control_port == before.control_port,
        !(event is TaskExited) ==> after.token == before.token && after.request_type
            == before.request_type,
        !(event is ConnectFailed || event is HelloFailed || event is Replied) ==> after.attempts
            == before.attempts,
        event is Slept || event is Connected || event is HelloSent ==> step.noted is None,
        !(event is Replied) ==> all_kept(store, store_after),
{
}

/// A client that was received serves its connection, has failed zero times again, and keeps what it
/// was given: who it is, and every endpoint. (The identifiers of the endpoints must differ, which
/// random ones do but for chance.)
pub proof fn law_received_client_serves(
    before: ClientRun,
    store: Store,
    client_id: ClientId,
    host: String,
    endpoints: Vec<Endpoint>,
    after: ClientRun,
    store_after: Store,
    step: RunStep,
    i: int,
)
    requires
        run_step(
            before,
            store,
            RunEvent::Replied(
                ServerReply::Hello(ServerHelloV2::Success { client_id, host, endpoints }),
            ),
            after,
            store_after,
            step,
        ),
        0 <= i < endpoints@.len(),
        forall|a: int, b: int|
            0 <= a < b < endpoints@.len() ==> (#[trigger] endpoints@[a]).id != (
            #[trigger] endpoints@[b]).id,
    ensures
        step == (RunStep {
            action: RunAction::Serve(ClientInfo { client_id, host, endpoints }),
            noted: None,
        }),
        after.attempts == 0,
        store_after.connected() == Some(client_id),
        store_after.endpoints().contains_key(endpoints@[i].id.uuid),
        store_after.endpoints()[endpoints@[i].id.uuid] == endpoints@[i],
        forall|k: u128|
            (forall|j: int| 0 <= j < endpoints@.len() ==> #[trigger] endpoints@[j].id.uuid != k)
                ==> (#[trigger] store_after.endpoints().contains_key(k)
                == store.endpoints().contains_key(k)) && (store.endpoints().contains_key(k)
                ==> store_after.endpoints()[k] == store.endpoints()[k]),
        store_after.streams() == store.streams(),
        store_after.token() == store.token(),
        store_after.rtt() == store.rtt(),
{
    crate::laws::lemma_with_endpoints(store.endpoints(), endpoints@, i);
    assert forall|k: u128|
        (forall|j: int| 0 <= j < endpoints@.len() ==> #[trigger] endpoints@[j].id.uuid != k)
        implies (#[trigger] store_after.endpoints().contains_key(k)
        == store.endpoints().contains_key(k)) && (store.endpoints().contains_key(k)
        ==> store_after.endpoints()[k] == store.endpoints()[k]) by {
        lemma_with_endpoints_keeps(store.endpoints(), endpoints@, k);
    }
}

/// The same holds of a client that connects once; a reply that is no success changes nothing.
pub proof fn law_client_that_connects_once(
    before: Store,
    reply: ServerReply,
    after: Store,
    r: Result<ClientInfo, Error>,
)
    requires
        connects_once(before, reply, after, r),
    ensures
        r matches Ok(info) ==> forall|i: int|
            (forall|a: int, b: int|
                0 <= a < b < info.endpoints@.len() ==> (#[trigger] info.endpoints@[a]).id != (
                #[trigger] info.endpoints@[b]).id) && 0 <= i < info.endpoints@.len()
                ==> after.endpoints().contains_key((#[trigger] info.endpoints@[i]).id.uuid)
                && after.endpoints()[info.endpoints@[i].id.uuid] == info.endpoints@[i],
        r is Ok <==> (reply matches ServerReply::Hello(hello) && hello is Success),
        r matches Ok(info) ==> after.connected() == Some(info.client_id) && after.streams()
            == before.streams() && after.token() == before.token() && after.rtt() == before.rtt(),
        r matches Ok(info) ==> reply == ServerReply::Hello(
            ServerHelloV2::Success {
                client_id: info.client_id,
                host: info.host,
                endpoints: info.endpoints,
            },
        ),
        r matches Err(e) ==> fault(reply) == Some(e) && all_kept(before, after),
{
    if r is Ok {
        let given = r->Ok_0.endpoints@;
        assert forall|i: int|
            (forall|a: int, b: int|
                0 <= a < b < given.len() ==> (#[trigger] given[a]).id != (#[trigger] given[b]).id)
                && 0 <= i < given.len() implies after.endpoints().contains_key(
            (#[trigger] given[i]).id.uuid,
        ) && after.endpoints()[given[i].id.uuid] == given[i] by {
            crate::laws::lemma_with_endpoints(before.endpoints(), given, i);
        }
    }
}

/// When a task exits, a client that has a token waits for the time that its failures call for and
/// then comes back with that token, and with no claims.
pub proof fn law_lost_client_reconnects_with_its_token(
    before: ClientRun,
    store: Store,
    token: String,
    waiting: ClientRun,
    store_waiting: Store,
    waits: RunStep,
    after: ClientRun,
    store_after: Store,
    greets: RunStep,
)
    requires
        store.token() == Some(token),
        run_step(before, store, RunEvent::TaskExited, waiting, store_waiting, waits),
        run_step(waiting, store_waiting, RunEvent::Connected, after, store_after, greets),
    ensures
        waits.action == RunAction::Sleep(
            duration_of_secs(wait_secs(before.attempts as nat) as u64),
        ),
        waits.noted is None,
        waiting.attempts == before.attempts,
        greets.action matches RunAction::SendHello(hello) && hello.version == 2 && hello.token@
            == token@ && hello.client_type == ClientType::Reconnect && hello.endpoint_claims@.len()
            == 0,
{
    law_wait_doubles_up_to_five_minutes(before.attempts);
}

/// A new client says hello with its token and its claims, in their order; after the hello it waits
/// for the reply.
pub proof fn law_new_client_says_what_it_claims(
    before: ClientRun,
    store: Store,
    after: ClientRun,
    store_after: Store,
    step: RunStep,
    next: ClientRun,
    store_next: Store,
    waits: RunStep,
)
    requires
        before.request_type is NewClient,
        run_step(before, store, RunEvent::Connected, after, store_after, step),
        run_step(after, store_after, RunEvent::HelloSent, next, store_next, waits),
    ensures
        step.action matches RunAction::SendHello(hello) && hello.version == 2 && hello.token@
            == before.token@ && hello.client_type == ClientType::Auth && hello.endpoint_claims@
            == before.request_type->endpoint_claims@,
        step.noted is None,
        waits.action == RunAction::AwaitReply,
        next == before,
{
}

/// After its wait a client connects to its host and port, at the path of the tunnel.
pub proof fn law_client_connects_to_its_host(
    before: ClientRun,
    store: Store,
    after: ClientRun,
    store_after: Store,
    step: RunStep,
)
    requires
        run_step(before, store, RunEvent::Slept, after, store_after, step),
    ensures
        step.action matches RunAction::Connect(url) ==> parsed_url(
            "ws://"@ + (before.host@ + seq![':'] + decimal(before.control_port as nat))
                + "/tunnel"@,
        ) == Ok::<Seq<char>, Seq<char>>(url@),
        step.action is Connect || step.action is Stop,
        after == before,
{
}

/// The token server's token and host are taken as they are, and its message is the error.
pub proof fn law_token_is_taken_as_it_is(response: TokenResponse)
    ensures
        fetched(response) is Ok <==> response is Granted,
        response matches TokenResponse::Granted { token, host } ==> fetched(response) == Ok::<
            (String, String),
            String,
        >((token, host)),
        response matches TokenResponse::Refused { message } ==> fetched(response) == Err::<
            (String, String),
            String,
        >(message),
{
}

/// Every frame but a closing one is processed as it is, even an empty one; a closing frame and a
/// cancellation end the session well; and a connection that fails or ends has timed out.
pub proof fn law_every_frame_is_processed(event: ReadEvent, step: SessionStep)
    requires
        session_step(event, step),
    ensures
        event matches ReadEvent::Received(frame) ==> (frame is Close || step is Process),
        event matches ReadEvent::Received(Frame::Binary(data)) ==> step == SessionStep::Process(
            data,
        ),
        event matches ReadEvent::Received(Frame::Text(data)) ==> step == SessionStep::Process(data),
        event matches ReadEvent::Received(Frame::Other(data)) ==> step == SessionStep::Process(
            data,
        ),
        event matches ReadEvent::Received(Frame::Close(_)) ==> (step matches SessionStep::Finish(
            end,
        ) && end is Ok),
        event is Cancelled ==> (step matches SessionStep::Finish(end) && end is Ok),
        event is Failed || event is Ended ==> step == SessionStep::Finish(Err(Error::Timeout)),
{
}

/// A session goes on after every message that could be processed, and ends after one that could
/// not.
pub proof fn law_session_ends_with_a_bad_message(ok: bool)
    ensures
        ends_after(ok) is None <==> ok,
        !ok ==> ends_after(ok) == Some(Error::MalformedMessageFromServer),
{
}

/// What the server is sent when a local service yields `reads` in turn and every packet gets there.
pub open spec fn uploads(stream_id: StreamId, reads: Seq<Vec<u8>>) -> Seq<ControlPacketV2>
    decreases reads.len(),
{
    if reads.len() == 0 {
        Seq::empty()
    } else {
        match local_read_action(stream_id, LocalReadEvent::Read(reads[0])) {
            LocalReadAction::Send(packet) => if local_read_action(
                stream_id,
                LocalReadEvent::Sent(true),
            ) is Read {
                seq![packet] + uploads(stream_id, reads.drop_first())
            } else {
                seq![packet]
            },
            LocalReadAction::Read => uploads(stream_id, reads.drop_first()),
            LocalReadAction::Stop => Seq::empty(),
        }
    }
}

/// What a local service sends goes to the server whole and in order, until the service is done.
pub proof fn law_local_bytes_go_up_in_order(
    stream_id: StreamId,
    reads: Seq<Vec<u8>>,
    last: Vec<u8>,
    more: Seq<Vec<u8>>,
)
    requires
        last@.len() == 0,
        forall|i: int| 0 <= i < reads.len() ==> (#[trigger] reads[i])@.len() > 0,
    ensures
        uploads(stream_id, reads.push(last) + more) == reads.map_values(
            |data: Vec<u8>| ControlPacketV2::Data(stream_id, data),
        ),
    decreases reads.len(),
{
    let all = reads.push(last) + more;
    let sent = reads.map_values(|data: Vec<u8>| ControlPacketV2::Data(stream_id, data));
    if reads.len() == 0 {
        assert(all[0] == last);
        assert(sent =~= Seq::empty());
    } else {
        let rest = reads.drop_first();
        assert forall|i: int| 0 <= i < rest.len() implies (#[trigger] rest[i])@.len() > 0 by {
            assert(rest[i] == reads[i + 1]);
        }
        law_local_bytes_go_up_in_order(stream_id, rest, last, more);
        assert(all[0] == reads[0]);
        assert(all.drop_first() =~= rest.push(last) + more);
        assert(sent =~= seq![ControlPacketV2::Data(stream_id, reads[0])] + rest.map_values(
            |data: Vec<u8>| ControlPacketV2::Data(stream_id, data),
        ));
    }
}

/// A failure on either side of the local service ends its stream there.
pub proof fn law_failed_local_service_is_left(stream_id: StreamId)
    ensures
        local_read_action(stream_id, LocalReadEvent::ReadError) == LocalReadAction::Stop,
        local_read_action(stream_id, LocalReadEvent::Sent(false)) == LocalReadAction::Stop,
        local_write_action(LocalWriteEvent::Written(false)) == LocalWriteAction::Stop,
{
}

/// What comes for a local service is written to it as it is, message after message; when the stream
/// is closed or nothing more comes, the connection is shut down.
pub proof fn law_messages_are_written_to_the_service(message: Option<StreamMessage>)
    ensures
        message matches Some(StreamMessage::Data(data)) ==> local_write_action(
            LocalWriteEvent::Message(message),
        ) == LocalWriteAction::Write(data),
        message is None || message == Some(StreamMessage::Close) ==> local_write_action(
            LocalWriteEvent::Message(message),
        ) == LocalWriteAction::Close,
        local_write_action(LocalWriteEvent::Written(true)) == LocalWriteAction::Next,
{
}

/// The name of a protocol.
pub open spec fn protocol_name(protocol: Protocol) -> Seq<char> {
    match protocol {
        Protocol::TCP => "tcp"@,
        Protocol::UDP => "udp"@,
    }
}

/// The user is told who the client is and, for each endpoint in its order, in a box as wide as the
/// line, where the local server can be reached now.
pub proof fn law_user_is_told_of_every_endpoint(
    info: ClientInfo,
    shown: Option<Vec<String>>,
    lines: Seq<String>,
    i: int,
)
    requires
        recorded(
            RecorderSlot { recorder: Some(StdoutRecorder {  }) },
            info,
            shown,
        ),
        shown matches Some(text) && text@ == lines,
        0 <= i < info.endpoints@.len(),
    ensures
        lines.len() == 1 + 3 * info.endpoints@.len(),
        lines[0]@ == "Your Client ID: "@ + info.client_id.text(),
        ({
            let e = info.endpoints@[i];
            let name = protocol_name(e.protocol);
            let route = "Your server "@ + name + "://localhost:"@ + decimal(e.local_port as nat)
                + " is now available at "@ + name + "://"@ + info.host@ + ":"@ + decimal(
                e.remote_port as nat,
            );
            &&& lines[3 * i + 2]@ == "| "@ + route + " |"@
            &&& lines[3 * i + 1]@ == lines[3 * i + 3]@
            &&& lines[3 * i + 1]@.len() == byte_len(route) + 4
            &&& lines[3 * i + 1]@[0] == '+'
            &&& lines[3 * i + 1]@[(byte_len(route) + 3) as int] == '+'
            &&& forall|k: int|
                0 < k < byte_len(route) + 3 ==> #[trigger] lines[3 * i + 1]@[k] == '-'
        }),
{
    assert((3 * i + 2 - 1) / 3 == i && (3 * i + 2 - 1) % 3 == 1);
    assert((3 * i + 1 - 1) / 3 == i && (3 * i + 1 - 1) % 3 == 0);
    assert((3 * i + 3 - 1) / 3 == i && (3 * i + 3 - 1) % 3 == 2);
}

} // verus!
