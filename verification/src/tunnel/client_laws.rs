//! What the client of a tunnel does for its user, said of the data that it sees.
use super::client::{
    connects, ended, flow, local_action, message_flow, packet_flow, set_up, verified, ClientInfo,
    ConnectAction, ConnectEvent, FlowAction, LocalAction, ServerReply, Store, TunnelRun,
};
use super::control::numbered;
use super::packet::{law_packet_round_trip, packet_bytes, packet_of, PacketView};
use super::{payload_of, Payload, ServerHello, TunnelPacket};
use crate::client::handshake::{parsed_url, TokenResponse};
use crate::client::local::LocalReadEvent;
use crate::client::{Error, StreamMessage};
use crate::id::StreamId;
use crate::text::decimal;
use vstd::prelude::*;
use vstd::string::*;

verus! {

/// A stream is set up once: if it is not there yet. Its end closes it if it is there. Data for it
/// is forwarded as it is if it is there; if it is not, bytes are refused, and a datagram sets it
/// up. What other streams there are makes no difference.
pub proof fn law_packets_go_to_their_stream(
    streams: Set<u128>,
    others: Set<u128>,
    stream_id: StreamId,
    data: Vec<u8>,
)
    requires
        streams.contains(stream_id.uuid),
        !others.contains(stream_id.uuid),
    ensures
        flow(streams, TunnelPacket::Init(stream_id)) == Ok::<FlowAction, Seq<char>>(
            FlowAction::Nothing,
        ),
        flow(others, TunnelPacket::Init(stream_id)) == Ok::<FlowAction, Seq<char>>(
            FlowAction::SetUp(stream_id),
        ),
        flow(streams, TunnelPacket::End(stream_id)) == Ok::<FlowAction, Seq<char>>(
            FlowAction::CloseLater(stream_id),
        ),
        flow(others, TunnelPacket::End(stream_id)) == Ok::<FlowAction, Seq<char>>(
            FlowAction::Nothing,
        ),
        flow(streams, TunnelPacket::Data(stream_id, data)) == Ok::<FlowAction, Seq<char>>(
            FlowAction::Forward(stream_id, StreamMessage::Data(data)),
        ),
        flow(others, TunnelPacket::Data(stream_id, data)) == Ok::<FlowAction, Seq<char>>(
            FlowAction::Refuse(TunnelPacket::Refused(stream_id)),
        ),
        flow(streams, TunnelPacket::UdpData(stream_id, data)) == Ok::<FlowAction, Seq<char>>(
            FlowAction::Forward(stream_id, StreamMessage::Data(data)),
        ),
        flow(others, TunnelPacket::UdpData(stream_id, data)) == Ok::<FlowAction, Seq<char>>(
            FlowAction::SetUpUdp(stream_id, data),
        ),
{
}

/// A sign of life is answered with one, and a refusal is not expected, whatever streams there are.
pub proof fn law_ping_is_answered(streams: Set<u128>, stream_id: StreamId)
    ensures
        flow(streams, TunnelPacket::Ping) == Ok::<FlowAction, Seq<char>>(
            FlowAction::Reply(TunnelPacket::Ping),
        ),
        flow(streams, TunnelPacket::Refused(stream_id)) == Err::<FlowAction, _>(
            "unexpected control packet"@,
        ),
{
}

/// A packet is given back as it is, byte for byte, unless it is a refusal, which is an error.
pub proof fn law_packet_is_given_back(
    streams: Set<u128>,
    packet: TunnelPacket,
    r: Result<(FlowAction, TunnelPacket), String>,
)
    requires
        packet_flow(streams, packet, r),
    ensures
        r is Err <==> packet is Refused,
        r matches Ok((_, given)) ==> match packet {
            TunnelPacket::Init(sid) => given == TunnelPacket::Init(sid),
            TunnelPacket::Data(sid, data) => given matches TunnelPacket::Data(s, d) && s == sid
                && d@ == data@,
            TunnelPacket::Refused(_) => false,
            TunnelPacket::End(sid) => given == TunnelPacket::End(sid),
            TunnelPacket::Ping => given == TunnelPacket::Ping,
            TunnelPacket::UdpData(sid, data) => given matches TunnelPacket::UdpData(s, d) && s
                == sid && d@ == data@,
        },
{
}

/// A message that is a packet of data is forwarded with its bytes, if its stream is there, and
/// given back as that packet; one that is no packet is an error.
pub proof fn law_message_goes_to_its_stream(
    streams: Set<u128>,
    sid: Seq<u8>,
    data: Seq<u8>,
    payload: Seq<u8>,
    r: Result<(FlowAction, TunnelPacket), String>,
)
    requires
        sid.len() == 8,
        message_flow(streams, payload, r),
    ensures
        payload == packet_bytes(PacketView::Data(sid, data)) && streams.contains(
            numbered(sid).uuid,
        ) ==> (r matches Ok((FlowAction::Forward(id, StreamMessage::Data(d)), given)) && id
            == numbered(sid) && d@ == data && (given matches TunnelPacket::Data(i, g) && i == id
            && g@ == data)),
        packet_of(payload) matches Err(e) ==> (r matches Err(text) && text@ == e.text()),
{
    law_packet_round_trip(PacketView::Data(sid, data));
}

/// A stream whose local service was reached is there; for one whose was not, a refusal is sent. No
/// other stream comes or goes.
pub proof fn law_stream_is_there_once_it_is_set_up(
    before: Store,
    stream_id: StreamId,
    reached: bool,
    after: Store,
    refusal: Option<TunnelPacket>,
    k: u128,
)
    requires
        set_up(before, stream_id, reached, after, refusal),
    ensures
        reached ==> refusal is None && after.streams().contains(stream_id.uuid),
        !reached ==> refusal == Some(TunnelPacket::Refused(stream_id)) && after.streams()
            == before.streams(),
        k != stream_id.uuid ==> after.streams().contains(k) == before.streams().contains(k),
{
}

/// A stream that is taken out is gone, and no other is.
pub proof fn law_stream_is_taken_out_alone(
    before: Store,
    stream_id: StreamId,
    was: bool,
    after: Store,
    k: u128,
)
    requires
        after.removed(before, stream_id, was),
    ensures
        was <==> before.streams().contains(stream_id.uuid),
        after.streams().contains(k) <==> before.streams().contains(k) && k != stream_id.uuid,
{
}

/// What a local service sends goes to the server as it is, as data or as a datagram, and after
/// every packet that got there the service is read on; the service being done, and a failure on
/// either side, end it.
pub proof fn law_local_bytes_go_up(payload: Payload, stream_id: StreamId, event: LocalReadEvent)
    ensures
        match event {
            LocalReadEvent::Read(data) => local_action(payload, stream_id, event) == (
            if data@.len() == 0 {
                LocalAction::Stop
            } else if payload == Payload::UDP {
                LocalAction::Send(TunnelPacket::UdpData(stream_id, data))
            } else {
                LocalAction::Send(TunnelPacket::Data(stream_id, data))
            }),
            LocalReadEvent::Sent(ok) => local_action(payload, stream_id, event) == (if ok {
                LocalAction::Read
            } else {
                LocalAction::Stop
            }),
            LocalReadEvent::ReadError => local_action(payload, stream_id, event)
                == LocalAction::Stop,
        },
{
}

/// A client has ended well exactly if both of its tasks have come to their end and the one that
/// reads has ended well. The error of the reading one is its error; a task that did not come to its
/// end is another.
pub proof fn law_client_ends_well_with_its_tasks(
    writer: Option<()>,
    reader: Option<Result<(), Error>>,
    r: Result<(), Error>,
)
    requires
        ended(writer, reader, r),
    ensures
        r is Ok <==> writer is Some && (reader matches Some(end) && end is Ok),
        writer is None || reader is None ==> r == Err::<(), Error>(Error::JoinError),
        writer is Some ==> (reader matches Some(Err(e)) ==> r == Err::<(), Error>(e)),
{
}

/// The error that a reply which is no success comes to.
pub open spec fn fault(reply: ServerReply) -> Option<Error> {
    match reply {
        ServerReply::Nothing => Some(Error::NoResponseFromServer),
        ServerReply::Failed(e) => Some(Error::WebSocketError(e)),
        ServerReply::Unreadable => Some(Error::ServerReplyInvalid),
        ServerReply::Hello(hello) => match hello {
            ServerHello::Success { client_id: _, remote_addr: _ } => None,
            ServerHello::BadRequest => Some(Error::BadRequest),
            ServerHello::ServiceTemporaryUnavailable => Some(Error::ServiceTemporaryUnavailable),
            ServerHello::IllegalHost => Some(Error::IllegalHost),
            ServerHello::InternalServerError => Some(Error::InternalServerError),
            ServerHello::VersionMismatch => Some(Error::ClientHandshakeVersionMismatch),
        },
    }
}

/// A reply is taken exactly if it is a success, as what it says; every other is its own error.
pub proof fn law_only_a_success_is_taken(reply: ServerReply)
    ensures
        verified(reply) is Ok <==> (reply matches ServerReply::Hello(hello) && hello is Success),
        reply matches ServerReply::Hello(ServerHello::Success { client_id, remote_addr })
            ==> verified(reply) == Ok::<ClientInfo, Error>(ClientInfo { client_id, remote_addr }),
        verified(reply) matches Err(e) ==> fault(reply) == Some(e),
{
}

/// A client asks for a token first, opens a connection to the host that it is told, says hello with
/// the token, waits for the reply and then is done. Each failure on the way ends it with its error.
/// Its port and what it carries never change.
pub proof fn law_client_connects_step_by_step(
    before: TunnelRun,
    event: ConnectEvent,
    after: TunnelRun,
    action: ConnectAction,
)
    requires
        connects(before, event, after, action),
    ensures
        after.control_port == before.control_port,
        after.payload == before.payload,
        !(event is Token || event is TokenFailed) ==> after.token == before.token,
        event is Started ==> action == ConnectAction::FetchToken,
        event matches ConnectEvent::Token(TokenResponse::Granted { token, host }) ==> after.token
            == Some(token) && {
            let address = "wss://"@ + (host@ + seq![':'] + decimal(before.control_port as nat))
                + "/tunnel"@;
            match parsed_url(address) {
                Ok(u) => action matches ConnectAction::Connect(url) && url@ == u,
                Err(text) => action matches ConnectAction::Finish(Err(Error::InvalidUrl(e))) && e@
                    == text,
            }
        },
        event matches ConnectEvent::Token(TokenResponse::Refused { message }) ==> action
            == ConnectAction::Fail(message) && after.token is None,
        event matches ConnectEvent::TokenFailed(e) ==> action == ConnectAction::Fail(e)
            && after.token is None,
        event is Connected ==> (before.token matches Some(token) ==> (
        action matches ConnectAction::SendHello(hello) && hello.version == 2 && hello.token@
            == token@ && hello.payload == before.payload)),
        event is Connected && before.token is None ==> action == ConnectAction::FetchToken,
        event is ConnectFailed ==> action == ConnectAction::Finish(Err(Error::ServerDown)),
        event is HelloSent ==> action == ConnectAction::AwaitReply,
        event matches ConnectEvent::HelloFailed(e) ==> action == ConnectAction::Finish(
            Err(Error::WebSocketError(e)),
        ),
        event matches ConnectEvent::Replied(reply) ==> (match fault(reply) {
            Some(e) => action == ConnectAction::Finish(Err(e)),
            None => action matches ConnectAction::Finish(Ok(info)) && reply == ServerReply::Hello(
                ServerHello::Success {
                    client_id: info.client_id,
                    remote_addr: info.remote_addr,
                },
            ),
        }),
{
}

/// Only the word `udp` asks for datagrams.
pub proof fn law_only_udp_carries_datagrams(text: Seq<char>)
    ensures
        payload_of(text) == Payload::UDP <==> text.len() == 3 && text[0] == 'u' && text[1] == 'd'
            && text[2] == 'p',
{
    reveal_strlit("udp");
    if text.len() == 3 && text[0] == 'u' && text[1] == 'd' && text[2] == 'p' {
        assert(text =~= "udp"@);
    }
}

} // verus!
