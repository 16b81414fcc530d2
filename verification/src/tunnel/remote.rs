//! Remote connections of a tunnel server: how they find their client, and what is read from them.
use super::active_stream::{
    error_locating_host_text, http_error_locating_host_response, ActiveStream, ActiveStreams,
};
use super::connections::Connections;
use super::TunnelPacket;
use crate::id::is_version_4;
use crate::protocol::PeerAddr;
use vstd::prelude::*;
use vstd::string::*;
use vstd::utf8::encode_utf8;

verus! {

/// What becomes of a remote connection.
pub enum Accepted {
    /// Nobody has the host: the peer is told so, and the connection is closed.
    NoClient(Vec<u8>),
    /// A stream to the client was opened.
    Stream(ActiveStream),
}

/// What becomes of a remote connection to a host.
pub open spec fn accepted(
    conn: Connections,
    before: ActiveStreams,
    host: Seq<char>,
    peer_addr: PeerAddr,
    after: ActiveStreams,
    r: Accepted,
) -> bool {
    if conn.hosts().contains_key(host) {
        &&& r matches Accepted::Stream(s)
        &&& is_version_4(s.id.uuid)
        &&& !s.closed
        &&& s.client.id == conn.hosts()[host]
        &&& s.client.host@ == host
        &&& after.addrs() == before.addrs().insert(peer_addr, s.id)
        &&& after.streams().dom() == before.streams().dom().insert(s.id.uuid)
        &&& after.streams()[s.id.uuid].id == s.id
        &&& after.streams()[s.id.uuid].client.same(s.client)
        &&& !after.streams()[s.id.uuid].closed
        &&& forall|k: u128|
            k != s.id.uuid && before.streams().contains_key(k) ==> #[trigger] after.streams()[k]
                == before.streams()[k]
    } else {
        &&& r matches Accepted::NoClient(response)
        &&& response@ == encode_utf8(error_locating_host_text())
        &&& after == before
    }
}

/// Opens a stream for a remote connection to a host.
pub fn accept_connection(
    conn: &Connections,
    active_streams: &mut ActiveStreams,
    host: &str,
    peer_addr: PeerAddr,
) -> (r: Accepted)
    requires
        old(active_streams).wf(),
    ensures
        final(active_streams).wf(),
        accepted(*conn, *old(active_streams), host@, peer_addr, *final(active_streams), r),
{
    match conn.find_by_host(host) {
        Some(client) => {
            let kept = client.duplicate();
            let stream = ActiveStream::new(client);
            let ghost before = active_streams.streams();
            active_streams.insert(
                stream.id,
                ActiveStream { id: stream.id, client: kept, closed: false },
                peer_addr,
            );
            assert(active_streams.streams().dom() =~= before.dom().insert(stream.id.uuid));
            Accepted::Stream(stream)
        },
        None => Accepted::NoClient(http_error_locating_host_response()),
    }
}

/// What happens to the reading side of a remote connection.
pub enum TcpEvent {
    /// The stream was opened.
    Started,
    /// The packet that opens the stream was handed to the client, or could not be.
    InitSent(bool),
    /// Bytes were read; none means that the peer has closed.
    Read(Vec<u8>),
    /// Reading failed.
    ReadError,
    /// The last packet of data was handed to the client, or could not be.
    Sent(bool),
}

/// What the reading side of a remote connection does next. When it stops, the stream leaves the
/// table.
pub enum TcpAction {
    /// Sends the packet that opens the stream to the client, and reports how that went.
    SendInit(TunnelPacket),
    /// Reads from the peer.
    Read,
    /// Sends a packet to the client, and reports how that went.
    Send(TunnelPacket),
    /// Sends a packet to the client, whatever comes of it, and stops.
    SendAndStop(TunnelPacket),
    /// Has the writing side tell the peer that the client is gone, closes the queue to it, and
    /// stops.
    NoClient,
    /// Stops.
    Stop,
}

/// One step of the reading side. Before each read the client must be connected.
pub open spec fn tcp_step(
    conn: Connections,
    stream: ActiveStream,
    event: TcpEvent,
    conn_after: Connections,
    stream_after: ActiveStream,
    action: TcpAction,
) -> bool {
    let connected = conn_after.clients().contains_key(stream.client.id.uuid);
    let loops = if connected {
        stream_after == stream && action == TcpAction::Read
    } else {
        stream_after == (ActiveStream { closed: true, ..stream }) && action == TcpAction::NoClient
    };
    match event {
        TcpEvent::Started => conn_after == conn && stream_after == stream && action
            == TcpAction::SendInit(TunnelPacket::Init(stream.id)),
        TcpEvent::InitSent(ok) => conn_after == conn && if ok {
            loops
        } else {
            stream_after == stream && action == TcpAction::Stop
        },
        TcpEvent::ReadError => conn_after == conn && stream_after == stream && action
            == TcpAction::Stop,
        TcpEvent::Read(data) => {
            &&& conn_after == conn
            &&& stream_after == stream
            &&& action == (if data@.len() == 0 {
                TcpAction::SendAndStop(TunnelPacket::End(stream.id))
            } else if stream.closed {
                TcpAction::Stop
            } else {
                TcpAction::Send(TunnelPacket::Data(stream.id, data))
            })
        },
        TcpEvent::Sent(ok) => {
            &&& if ok {
                conn_after == conn
            } else {
                conn_after.clients() == conn.clients().remove(stream.client.id.uuid)
                    && conn_after.hosts() == conn.hosts().remove(stream.client.host@)
            }
            &&& loops
        },
    }
}

fn read_or_close(conn: &Connections, stream: &mut ActiveStream) -> (action: TcpAction)
    requires
        conn.wf(),
    ensures
        if conn.clients().contains_key(old(stream).client.id.uuid) {
            *final(stream) == *old(stream) && action == TcpAction::Read
        } else {
            *final(stream) == (ActiveStream { closed: true, ..*old(stream) }) && action
                == TcpAction::NoClient
        },
{
    if conn.get(&stream.client.id).is_none() {
        stream.close_channel();
        TcpAction::NoClient
    } else {
        TcpAction::Read
    }
}

/// What the reading side of a remote connection does on an event. What is read goes to the client;
/// a client that takes no packet is dropped.
pub fn process_tcp_stream(
    conn: &mut Connections,
    stream: &mut ActiveStream,
    event: TcpEvent,
) -> (action: TcpAction)
    requires
        old(conn).wf(),
    ensures
        final(conn).wf(),
        tcp_step(*old(conn), *old(stream), event, *final(conn), *final(stream), action),
{
    match event {
        TcpEvent::Started => TcpAction::SendInit(TunnelPacket::Init(stream.id)),
        TcpEvent::InitSent(ok) => {
            if ok {
                read_or_close(conn, stream)
            } else {
                TcpAction::Stop
            }
        },
        TcpEvent::ReadError => TcpAction::Stop,
        TcpEvent::Read(data) => {
            if data.len() == 0 {
                TcpAction::SendAndStop(TunnelPacket::End(stream.id))
            } else if stream.is_closed() {
                TcpAction::Stop
            } else {
                TcpAction::Send(TunnelPacket::Data(stream.id, data))
            }
        },
        TcpEvent::Sent(ok) => {
            if !ok {
                conn.remove(&stream.client);
            }
            read_or_close(conn, stream)
        },
    }
}

} // verus!
