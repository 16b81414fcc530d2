//! What holds across a tunnel server and its client together.
use super::active_stream::{
    not_found_text, sink_step, tunnel_refused_text, ActiveStream, SinkAction, SinkEvent,
};
use super::client::{
    connects, flow, local_action, tunnel_address, ConnectAction, ConnectEvent, FlowAction,
    LocalAction, TunnelRun,
};
use super::connections::Connections;
use super::control::{message_says, numbered, routed};
use super::packet::{law_packet_round_trip, packet_bytes, PacketError, PacketView};
use super::reader::{client_step, tcp_packets, tcp_read_action, TcpReadAction};
use super::remote::{tcp_step, TcpAction, TcpEvent};
use super::store::Store;
use super::{Payload, TunnelPacket};
use crate::client::handshake::{parsed_url, TokenResponse};
use crate::client::local::{
    local_write_action, LocalReadEvent, LocalWriteAction, LocalWriteEvent,
};
use crate::client::StreamMessage as LocalMessage;
use crate::id::{ClientId, StreamId};
use crate::server::reader::{ClientAction, ClientEvent};
use crate::server::stream::{ends_reading, StreamMessage, TcpReadEvent};
use vstd::prelude::*;
use vstd::utf8::encode_utf8;

verus! {

/// The connection that a client opens leads to the host that the token server named, and the first
/// message on it carries the token that the token server gave.
pub proof fn law_token_goes_to_the_host_it_is_for(
    start: TunnelRun,
    opening: TunnelRun,
    greeting: TunnelRun,
    token: String,
    host: String,
    opened: ConnectAction,
    sent: ConnectAction,
)
    requires
        connects(
            start,
            ConnectEvent::Token(TokenResponse::Granted { token, host }),
            opening,
            opened,
        ),
        connects(opening, ConnectEvent::Connected, greeting, sent),
    ensures
        opened matches ConnectAction::Connect(url) ==> parsed_url(
            tunnel_address(host@, start.control_port),
        ) == Ok::<Seq<char>, Seq<char>>(url@),
        sent matches ConnectAction::SendHello(hello) && hello.token@ == token@ && hello.payload
            == start.payload,
{
}

/// Only an answer of the token server that brings a token opens a connection.
pub proof fn law_nothing_is_opened_without_a_token(
    before: TunnelRun,
    event: ConnectEvent,
    after: TunnelRun,
    action: ConnectAction,
)
    requires
        connects(before, event, after, action),
        action is Connect,
    ensures
        event matches ConnectEvent::Token(TokenResponse::Granted { token, host }) && after.token
            == Some(token),
{
}

/// What a remote peer sends reaches the client's stream unchanged, while the client has it.
pub proof fn law_remote_bytes_reach_the_client(
    conn: Connections,
    conn_after: Connections,
    stream: ActiveStream,
    stream_after: ActiveStream,
    data: Vec<u8>,
    action: TcpAction,
    streams: Set<u128>,
)
    requires
        data@.len() > 0,
        !stream.closed,
        streams.contains(stream.id.uuid),
        tcp_step(conn, stream, TcpEvent::Read(data), conn_after, stream_after, action),
    ensures
        action matches TcpAction::Send(packet) && flow(streams, packet) == Ok::<
            FlowAction,
            Seq<char>,
        >(FlowAction::Forward(stream.id, LocalMessage::Data(data))),
{
}

/// What a client sends for a stream is written to the remote peer unchanged.
pub proof fn law_client_bytes_reach_the_peer(
    sid: Seq<u8>,
    data: Seq<u8>,
    r: Result<TunnelPacket, PacketError>,
    stream_id: StreamId,
    message: StreamMessage,
    action: SinkAction,
)
    requires
        sid.len() == 8,
        message_says(packet_bytes(PacketView::Data(sid, data)), r),
        r matches Ok(packet) && routed(packet) == Some((stream_id, message)),
        sink_step(SinkEvent::Message(Some(message)), action),
    ensures
        stream_id == numbered(sid),
        action matches SinkAction::Write(written) && written@ == data,
{
    law_packet_round_trip(PacketView::Data(sid, data));
}

/// A client that does not have a stream refuses its data, and the remote peer is told so before
/// its connection is shut down.
pub proof fn law_refusal_is_told_to_the_peer(
    streams: Set<u128>,
    asked: StreamId,
    data: Vec<u8>,
    stream_id: StreamId,
    message: StreamMessage,
    action: SinkAction,
)
    requires
        !streams.contains(asked.uuid),
        flow(streams, TunnelPacket::Data(asked, data)) matches Ok(FlowAction::Refuse(packet))
            && routed(packet) == Some((stream_id, message)),
        sink_step(SinkEvent::Message(Some(message)), action),
    ensures
        stream_id == asked,
        action matches SinkAction::Close(Some(words)) && words@ == encode_utf8(
            tunnel_refused_text(),
        ),
{
}

/// When a client takes no packet any more, it leaves the table, the queue of the stream is closed,
/// and the remote peer is told that the tunnel is gone.
pub proof fn law_lost_client_is_told_to_the_peer(
    conn: Connections,
    conn_after: Connections,
    stream: ActiveStream,
    stream_after: ActiveStream,
    action: TcpAction,
    last: SinkAction,
)
    requires
        tcp_step(conn, stream, TcpEvent::Sent(false), conn_after, stream_after, action),
        sink_step(SinkEvent::Message(Some(StreamMessage::NoClientTunnel)), last),
    ensures
        !conn_after.clients().contains_key(stream.client.id.uuid),
        stream_after.closed,
        action == TcpAction::NoClient,
        last matches SinkAction::Close(Some(words)) && words@ == encode_utf8(not_found_text()),
{
}

/// What a peer of a registered stream sends over TCP reaches the local service unchanged, while the
/// client has the stream.
pub proof fn law_peer_bytes_reach_the_local_service(
    stream_id: StreamId,
    data: Vec<u8>,
    streams: Set<u128>,
)
    requires
        data@.len() > 0,
        streams.contains(stream_id.uuid),
    ensures
        tcp_read_action(stream_id, TcpReadEvent::Read(data)) matches TcpReadAction::Send(packet)
            && (flow(streams, packet) matches Ok(FlowAction::Forward(sid, message)) && sid
            == stream_id && local_write_action(LocalWriteEvent::Message(Some(message)))
            == LocalWriteAction::Write(data)),
{
}

/// A connection that yields bytes and then ends gives the client its bytes in order, then the end of
/// the stream, and nothing after that, whatever would still be read; and the stream is disabled.
pub proof fn law_nothing_follows_the_end(
    stream_id: StreamId,
    reads: Seq<Vec<u8>>,
    last: Vec<u8>,
    more: Seq<Vec<u8>>,
)
    requires
        last@.len() == 0,
        forall|i: int| 0 <= i < reads.len() ==> (#[trigger] reads[i])@.len() > 0,
    ensures
        tcp_packets(stream_id, reads.push(last) + more) == reads.map_values(
            |data: Vec<u8>| TunnelPacket::Data(stream_id, data),
        ).push(TunnelPacket::End(stream_id)),
        tcp_read_action(stream_id, TcpReadEvent::EndSent(true)) == TcpReadAction::Stop,
        ends_reading(TcpReadEvent::EndSent(true)),
    decreases reads.len(),
{
    let all = reads.push(last) + more;
    let sent = reads.map_values(|data: Vec<u8>| TunnelPacket::Data(stream_id, data)).push(
        TunnelPacket::End(stream_id),
    );
    if reads.len() == 0 {
        assert(all[0] == last);
        assert(sent =~= seq![TunnelPacket::End(stream_id)]);
    } else {
        let rest = reads.drop_first();
        assert forall|i: int| 0 <= i < rest.len() implies (#[trigger] rest[i])@.len() > 0 by {
            assert(rest[i] == reads[i + 1]);
        }
        law_nothing_follows_the_end(stream_id, rest, last, more);
        assert(all[0] == reads[0]);
        assert(all.drop_first() =~= rest.push(last) + more);
        assert(sent =~= seq![TunnelPacket::Data(stream_id, reads[0])] + rest.map_values(
            |data: Vec<u8>| TunnelPacket::Data(stream_id, data),
        ).push(TunnelPacket::End(stream_id)));
    }
}

/// What a local service sends, over TCP or UDP, is written to the peer of its stream unchanged,
/// while the server has the stream and it is enabled.
pub proof fn law_local_bytes_reach_the_peer(
    payload: Payload,
    client_id: ClientId,
    stream_id: StreamId,
    data: Vec<u8>,
    before: Store,
    after: Store,
    action: ClientAction,
)
    requires
        data@.len() > 0,
        before.streams().contains_key(stream_id.uuid),
        !before.streams()[stream_id.uuid].is_disabled(),
        local_action(payload, stream_id, LocalReadEvent::Read(data)) matches LocalAction::Send(
            packet,
        ) && client_step(client_id, before, ClientEvent::Decoded(Some(packet)), after, action),
    ensures
        action == ClientAction::Write(stream_id, data),
        after.streams() == before.streams(),
{
}

} // verus!
