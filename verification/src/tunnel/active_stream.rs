//! The streams of a tunnel server, and what is written to their remote peers.
use super::connections::ConnectedClient;
use crate::id::{is_version_4, ClientId, StreamId};
use crate::protocol::PeerAddr;
use crate::registry::{PeerIndex, Registry};
use crate::server::stream::StreamMessage;
use vstd::prelude::*;
use vstd::string::*;
use vstd::utf8::encode_utf8;

verus! {

/// What a peer is told when nobody has its host.
pub open spec fn error_locating_host_text() -> Seq<char> {
    "HTTP/1.1 500\r\nContent-Length: 27\r\n\r\nError: Error finding tunnel"@
}

/// What a peer is told when the client is gone.
pub open spec fn not_found_text() -> Seq<char> {
    "HTTP/1.1 404\r\nContent-Length: 23\r\n\r\nError: Tunnel Not Found"@
}

/// What a peer is told when the client does not take the stream.
pub open spec fn tunnel_refused_text() -> Seq<char> {
    "HTTP/1.1 500\r\nContent-Length: 32\r\n\r\nTunnel says: connection refused."@
}

fn bytes_of(text: &str) -> (r: Vec<u8>)
    ensures
        r@ == encode_utf8(text@),
{
    let bytes = text.as_bytes();
    let mut r: Vec<u8> = Vec::new();
    let mut i: usize = 0;
    while i < bytes.len()
        invariant
            i <= bytes@.len(),
            bytes@ == encode_utf8(text@),
            r@ == bytes@.take(i as int),
        decreases bytes@.len() - i,
    {
        r.push(bytes[i]);
        assert(r@ =~= bytes@.take(i + 1));
        i = i + 1;
    }
    assert(r@ =~= bytes@);
    r
}

/// The response for a peer whose host nobody has.
pub fn http_error_locating_host_response() -> (r: Vec<u8>)
    ensures
        r@ == encode_utf8(error_locating_host_text()),
{
    bytes_of("HTTP/1.1 500\r\nContent-Length: 27\r\n\r\nError: Error finding tunnel")
}

/// The response for a peer whose client is gone.
pub fn http_not_found_response() -> (r: Vec<u8>)
    ensures
        r@ == encode_utf8(not_found_text()),
{
    bytes_of("HTTP/1.1 404\r\nContent-Length: 23\r\n\r\nError: Tunnel Not Found")
}

/// The response for a peer whose stream the client does not take.
pub fn http_tunnel_refused_response() -> (r: Vec<u8>)
    ensures
        r@ == encode_utf8(tunnel_refused_text()),
{
    bytes_of("HTTP/1.1 500\r\nContent-Length: 32\r\n\r\nTunnel says: connection refused.")
}

/// What happens to the writing side of a stream.
pub enum SinkEvent {
    /// A message was taken from the queue; `None` means that the queue was closed.
    Message(Option<StreamMessage>),
    /// The last bytes were written to the peer, or could not be.
    Written(bool),
}

/// Why the writing side of a stream has stopped.
#[derive(Clone, Copy, Debug, PartialEq, Eq, Structural)]
pub enum TunnelToStreamExitReason {
    QueueClosed,
    TcpClosed,
}

/// What the writing side of a stream does next. When it stops, the stream leaves the table.
pub enum SinkAction {
    /// Writes the bytes, and reports how that went.
    Write(Vec<u8>),
    /// Takes the next message.
    Next,
    /// Writes the last words, if there are any, whatever comes of it, shuts the connection down,
    /// where there is one, and stops.
    Close(Option<Vec<u8>>),
    /// Stops.
    Stop(TunnelToStreamExitReason),
}

/// What follows an event on the writing side of a stream, over TCP or UDP.
pub open spec fn sink_step(event: SinkEvent, action: SinkAction) -> bool {
    match event {
        SinkEvent::Message(Some(StreamMessage::Data(data))) => action == SinkAction::Write(data),
        SinkEvent::Message(Some(StreamMessage::TunnelRefused)) => action matches SinkAction::Close(
            Some(r),
        ) && r@ == encode_utf8(tunnel_refused_text()),
        SinkEvent::Message(Some(StreamMessage::NoClientTunnel)) => action matches SinkAction::Close(
            Some(r),
        ) && r@ == encode_utf8(not_found_text()),
        SinkEvent::Message(None) => action == SinkAction::Close(None),
        SinkEvent::Written(ok) => action == (if ok {
            SinkAction::Next
        } else {
            SinkAction::Stop(TunnelToStreamExitReason::TcpClosed)
        }),
    }
}

/// What the writing side of a stream does on an event. A refusal or a lost client is told to the
/// peer before the stream is closed.
pub fn tunnel_to_stream(event: SinkEvent) -> (action: SinkAction)
    ensures
        sink_step(event, action),
{
    match event {
        SinkEvent::Message(Some(StreamMessage::Data(data))) => SinkAction::Write(data),
        SinkEvent::Message(Some(StreamMessage::TunnelRefused)) => SinkAction::Close(
            Some(http_tunnel_refused_response()),
        ),
        SinkEvent::Message(Some(StreamMessage::NoClientTunnel)) => SinkAction::Close(
            Some(http_not_found_response()),
        ),
        SinkEvent::Message(None) => SinkAction::Close(None),
        SinkEvent::Written(ok) => {
            if ok {
                SinkAction::Next
            } else {
                SinkAction::Stop(TunnelToStreamExitReason::TcpClosed)
            }
        },
    }
}

/// Why the writing side has stopped after an action, if it has.
pub open spec fn stopped_because(action: SinkAction) -> Option<TunnelToStreamExitReason> {
    match action {
        SinkAction::Close(_) => Some(TunnelToStreamExitReason::QueueClosed),
        SinkAction::Stop(r) => Some(r),
        _ => None,
    }
}

/// Why the writing side has stopped after an action, if it has.
pub fn exit_reason(action: &SinkAction) -> (reason: Option<TunnelToStreamExitReason>)
    ensures
        reason == stopped_because(*action),
{
    match action {
        SinkAction::Close(_) => Some(TunnelToStreamExitReason::QueueClosed),
        SinkAction::Stop(r) => Some(*r),
        _ => None,
    }
}

/// A stream, and the client that it leads to.
#[derive(Debug)]
pub struct ActiveStream {
    pub id: StreamId,
    pub client: ConnectedClient,
    /// The queue to the peer is closed.
    pub closed: bool,
}

impl ActiveStream {
    /// A stream to a client, under a fresh identifier.
    pub fn new(client: ConnectedClient) -> (r: Self)
        ensures
            is_version_4(r.id.uuid),
            r.client == client,
            !r.closed,
    {
        ActiveStream { id: StreamId::new(), client, closed: false }
    }

    /// The client that the stream leads to.
    pub fn client_id(&self) -> (id: ClientId)
        ensures
            id == self.client.id,
    {
        self.client.id
    }

    /// Closes the queue to the peer.
    pub fn close_channel(&mut self)
        ensures
            *final(self) == (ActiveStream { closed: true, ..*old(self) }),
    {
        self.closed = true;
    }

    /// Whether the queue to the peer is closed.
    pub fn is_closed(&self) -> (b: bool)
        ensures
            b == self.closed,
    {
        self.closed
    }
}

/// The streams of a tunnel server.
pub struct ActiveStreams {
    streams: Registry<ActiveStream>,
    addrs: PeerIndex,
}

impl Default for ActiveStreams {
    fn default() -> (r: Self)
        ensures
            r.wf(),
            r.streams() == Map::<u128, ActiveStream>::empty(),
            r.addrs() == Map::<PeerAddr, StreamId>::empty(),
    {
        ActiveStreams { streams: Registry::new(), addrs: PeerIndex::new() }
    }
}

impl ActiveStreams {
    /// The streams, by identifier.
    pub closed spec fn streams(self) -> Map<u128, ActiveStream> {
        self.streams@
    }

    /// The stream that each peer address was last bound to.
    pub closed spec fn addrs(self) -> Map<PeerAddr, StreamId> {
        self.addrs@
    }

    /// The tables are well formed.
    pub closed spec fn wf(self) -> bool {
        self.streams.wf()
    }

    /// The stream with an identifier.
    pub fn get(&self, stream_id: &StreamId) -> (stream: Option<&ActiveStream>)
        requires
            self.wf(),
        ensures
            stream == (if self.streams().contains_key(stream_id.uuid) {
                Some(&self.streams()[stream_id.uuid])
            } else {
                None
            }),
    {
        self.streams.get(stream_id.uuid)
    }

    /// What `before` has become after a stream was added.
    pub open spec fn inserted(
        self,
        before: Self,
        stream_id: StreamId,
        active_stream: ActiveStream,
        addr: PeerAddr,
        was: Option<ActiveStream>,
    ) -> bool {
        &&& self.streams() == before.streams().insert(stream_id.uuid, active_stream)
        &&& self.addrs() == before.addrs().insert(addr, stream_id)
        &&& was == before.streams().get(stream_id.uuid)
    }

    /// What `before` has become after a stream was taken out.
    pub open spec fn removed(
        self,
        before: Self,
        stream_id: StreamId,
        was: Option<(StreamId, ActiveStream)>,
    ) -> bool {
        &&& self.streams() == before.streams().remove(stream_id.uuid)
        &&& self.addrs() == before.addrs()
        &&& was == (match before.streams().get(stream_id.uuid) {
            Some(stream) => Some((stream_id, stream)),
            None => None,
        })
    }

    /// The stream is the one that the address was last bound to, and in the table; `None` if there
    /// is no such stream.
    pub open spec fn leads_to(self, addr: PeerAddr, stream: Option<&ActiveStream>) -> bool {
        stream == (if self.addrs().contains_key(addr) && self.streams().contains_key(
            self.addrs()[addr].uuid,
        ) {
            Some(&self.streams()[self.addrs()[addr].uuid])
        } else {
            None
        })
    }

    /// Adds a stream, binds the address of its peer to it, and hands back the stream that had the
    /// identifier.
    pub fn insert(
        &mut self,
        stream_id: StreamId,
        active_stream: ActiveStream,
        addr: PeerAddr,
    ) -> (was: Option<ActiveStream>)
        requires
            old(self).wf(),
        ensures
            final(self).wf(),
            final(self).inserted(*old(self), stream_id, active_stream, addr, was),
    {
        self.addrs.insert(&addr, stream_id);
        self.streams.insert(stream_id.uuid, active_stream)
    }

    /// Takes a stream out. The address of its peer stays bound to it.
    pub fn remove(&mut self, stream_id: &StreamId) -> (was: Option<(StreamId, ActiveStream)>)
        requires
            old(self).wf(),
        ensures
            final(self).wf(),
            final(self).removed(*old(self), *stream_id, was),
    {
        match self.streams.remove(stream_id.uuid) {
            Some(stream) => Some((*stream_id, stream)),
            None => None,
        }
    }

    /// How many streams there are.
    pub fn len(&self) -> (n: usize)
        requires
            self.wf(),
        ensures
            n == self.streams().dom().len(),
    {
        self.streams.len()
    }

    /// How many addresses are bound to a stream.
    pub fn len_addrs(&self) -> (n: usize)
        ensures
            n == self.addrs().dom().len(),
    {
        self.addrs.len()
    }

    /// Whether there are no streams.
    pub fn is_empty(&self) -> (b: bool)
        requires
            self.wf(),
        ensures
            b <==> self.streams().dom() == Set::<u128>::empty(),
    {
        let n: usize = self.streams.len();
        proof {
            if n == 0 {
                assert(self.streams().dom() =~= Set::<u128>::empty());
            }
        }
        n == 0
    }

    /// Takes all streams out. The addresses of their peers stay bound.
    pub fn clear(&mut self)
        ensures
            final(self).wf(),
            final(self).streams() == Map::<u128, ActiveStream>::empty(),
            final(self).addrs() == old(self).addrs(),
    {
        self.streams.clear();
    }

    /// The identifiers of the streams, each once, in an order that is not fixed.
    pub fn iter(&self) -> (ids: Vec<u128>)
        requires
            self.wf(),
        ensures
            ids@.no_duplicates(),
            ids@.to_set() == self.streams().dom(),
    {
        self.streams.keys()
    }

    /// The stream that an address was last bound to, while it is in the table.
    pub fn find_by_addr(&self, addr: &PeerAddr) -> (stream: Option<&ActiveStream>)
        requires
            self.wf(),
        ensures
            self.leads_to(*addr, stream),
    {
        match self.addrs.get(addr) {
            Some(stream_id) => self.streams.get(stream_id.uuid),
            None => None,
        }
    }
}

/// One step of the writing side of a stream.
pub open spec fn write_step(
    before: ActiveStream,
    streams: ActiveStreams,
    event: SinkEvent,
    after: ActiveStream,
    streams_after: ActiveStreams,
    action: SinkAction,
) -> bool {
    &&& sink_step(event, action)
    &&& streams_after.addrs() == streams.addrs()
    &&& if action is Close || action is Stop {
        &&& after == (ActiveStream { closed: true, ..before })
        &&& streams_after.streams() == streams.streams().remove(before.id.uuid)
    } else {
        &&& after == before
        &&& streams_after.streams() == streams.streams()
    }
}

impl ActiveStream {
    /// What the writing side of the stream does on an event. Over UDP there is no connection to
    /// shut down; all else is the same. When it stops, the queue is closed and the stream leaves
    /// the table.
    pub fn write_loop(&mut self, active_streams: &mut ActiveStreams, event: SinkEvent) -> (action:
        SinkAction)
        requires
            old(active_streams).wf(),
        ensures
            final(active_streams).wf(),
            write_step(
                *old(self),
                *old(active_streams),
                event,
                *final(self),
                *final(active_streams),
                action,
            ),
    {
        let action = tunnel_to_stream(event);
        if exit_reason(&action).is_some() {
            self.close_channel();
            active_streams.remove(&self.id);
        }
        action
    }
}

/// Of two streams with the same peer address, the one that was added last is found.
pub proof fn law_last_stream_of_address_is_found(
    streams: Map<u128, ActiveStream>,
    addrs: Map<PeerAddr, StreamId>,
    addr: PeerAddr,
    first: ActiveStream,
    second: ActiveStream,
)
    ensures
        ({
            let s = streams.insert(first.id.uuid, first).insert(second.id.uuid, second);
            let a = addrs.insert(addr, first.id).insert(addr, second.id);
            a.contains_key(addr) && s.contains_key(a[addr].uuid) && s[a[addr].uuid] == second
        }),
{
}

} // verus!
