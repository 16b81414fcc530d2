//! Streams of remote traffic: what is written to a remote peer, and what is read from it.
use super::client::Delivery;
use super::store::Store;
use super::ClientStreamError;
use crate::id::{is_version_4, ClientId, EndpointId, StreamId};
use crate::protocol::{ControlPacketV2, PeerAddr, RemoteInfo};
use vstd::prelude::*;
use vstd::string::*;

verus! {

/// What a client has for a remote peer.
#[derive(Clone, Debug, PartialEq, Eq)]
pub enum StreamMessage {
    Data(Vec<u8>),
    TunnelRefused,
    NoClientTunnel,
}

/// What a message to a remote peer calls for.
pub enum RemoteStep {
    /// The bytes are to be written to the peer; how that went is told to `written`.
    Write(Vec<u8>),
    /// The connection to the peer is to be shut down, and the error is the outcome.
    ShutDown(ClientStreamError),
    /// The error is the outcome.
    Fail(ClientStreamError),
}

/// How the refusal of a stream is put.
pub open spec fn refusal_text(stream_id: StreamId) -> Seq<char> {
    "stream_id: "@ + stream_id.text() + ", TunnelRefused"@
}

/// How a failed write to a stream is put.
pub open spec fn write_failure_text(stream_id: StreamId, error: Seq<char>) -> Seq<char> {
    "stream_id: "@ + stream_id.text() + ", "@ + error
}

fn refused_error(stream_id: StreamId) -> (e: ClientStreamError)
    ensures
        e matches ClientStreamError::RemoteError(t) && t@ == refusal_text(stream_id),
{
    let mut t = "stream_id: ".to_owned();
    t.append(stream_id.to_string().as_str());
    t.append(", TunnelRefused");
    ClientStreamError::RemoteError(t)
}

fn write_error(stream_id: StreamId, error: &str) -> (e: ClientStreamError)
    ensures
        e matches ClientStreamError::RemoteError(t) && t@ == write_failure_text(
            stream_id,
            error@,
        ),
{
    let mut t = "stream_id: ".to_owned();
    t.append(stream_id.to_string().as_str());
    t.append(", ");
    t.append(error);
    ClientStreamError::RemoteError(t)
}

/// What a message calls for on a stream with the identifier `id`, asked for as `asked`; `shuts`
/// says whether a refusal shuts the connection down.
pub open spec fn remote_step(
    id: StreamId,
    disabled: bool,
    shuts: bool,
    asked: StreamId,
    message: StreamMessage,
    step: RemoteStep,
) -> bool {
    if disabled {
        step == RemoteStep::Fail(ClientStreamError::StreamNotAvailable(asked))
    } else {
        match message {
            StreamMessage::Data(data) => step == RemoteStep::Write(data),
            _ => if shuts {
                step matches RemoteStep::ShutDown(ClientStreamError::RemoteError(t)) && t@
                    == refusal_text(id)
            } else {
                step matches RemoteStep::Fail(ClientStreamError::RemoteError(t)) && t@
                    == refusal_text(id)
            },
        }
    }
}

/// Whether the message disables a stream that is enabled.
pub open spec fn disables(message: StreamMessage) -> bool {
    !(message is Data)
}

/// What a stream makes of the outcome of a write.
pub open spec fn write_outcome(
    id: StreamId,
    outcome: Result<(), String>,
    r: Result<(), ClientStreamError>,
) -> bool {
    match outcome {
        Ok(_) => r is Ok,
        Err(e) => r matches Err(ClientStreamError::RemoteError(t)) && t@ == write_failure_text(
            id,
            e@,
        ),
    }
}

/// A TCP connection of a remote peer.
#[derive(Clone, Copy, Debug, PartialEq, Eq, Structural)]
pub struct RemoteTcp {
    pub stream_id: StreamId,
    pub client_id: ClientId,
    pub endpoint_id: EndpointId,
    pub remote_info: RemoteInfo,
    pub disabled: bool,
}

/// What happens to the reading side of a TCP connection.
pub enum TcpReadEvent {
    /// Bytes were read; none means that the peer has closed.
    Read(Vec<u8>),
    /// Reading failed.
    ReadError,
    /// The stream was cancelled.
    Cancelled,
    /// The last packet of data was handed to the client, or could not be.
    Sent(bool),
    /// The packet that ends the stream was handed to the client, or could not be.
    EndSent(bool),
}

/// What the reading side of a TCP connection does next.
pub enum TcpReadAction {
    /// Sends the packet of data to the client, and reports how that went.
    Send(ControlPacketV2),
    /// Sends the packet that ends the stream to the client, and reports how that went.
    SendEnd(ControlPacketV2),
    /// Reads.
    Read,
    /// Stops.
    Stop,
}

/// The events after which a stream is disabled: its end, and a failure on either side.
pub open spec fn ends_reading(event: TcpReadEvent) -> bool {
    event is ReadError || event is EndSent || event == TcpReadEvent::Sent(false)
}

/// What the reading side of a stream does on an event.
pub open spec fn tcp_read_action(stream_id: StreamId, event: TcpReadEvent) -> TcpReadAction {
    match event {
        TcpReadEvent::Read(data) => if data@.len() == 0 {
            TcpReadAction::SendEnd(ControlPacketV2::End(stream_id))
        } else {
            TcpReadAction::Send(ControlPacketV2::Data(stream_id, data))
        },
        TcpReadEvent::Sent(true) => TcpReadAction::Read,
        _ => TcpReadAction::Stop,
    }
}

/// One step of the reading side of a stream: its end, and a failure on either side, disables it.
pub open spec fn tcp_step(
    before: Store,
    stream_id: StreamId,
    event: TcpReadEvent,
    after: Store,
    action: TcpReadAction,
) -> bool {
    &&& after.same_but_streams(before)
    &&& after.streams() == (if ends_reading(event) && before.streams().contains_key(
        stream_id.uuid,
    ) {
        before.streams().insert(
            stream_id.uuid,
            before.streams()[stream_id.uuid].disabled_if(true),
        )
    } else {
        before.streams()
    })
    &&& action == tcp_read_action(stream_id, event)
}

/// What the client is sent when the connection yields `reads` in turn and every packet gets there.
pub open spec fn tcp_packets(stream_id: StreamId, reads: Seq<Vec<u8>>) -> Seq<ControlPacketV2>
    decreases reads.len(),
{
    if reads.len() == 0 {
        Seq::empty()
    } else {
        let rest = reads.drop_first();
        match tcp_read_action(stream_id, TcpReadEvent::Read(reads[0])) {
            TcpReadAction::Send(packet) => if tcp_read_action(
                stream_id,
                TcpReadEvent::Sent(true),
            ) is Read {
                seq![packet] + tcp_packets(stream_id, rest)
            } else {
                seq![packet]
            },
            TcpReadAction::SendEnd(packet) => if tcp_read_action(
                stream_id,
                TcpReadEvent::EndSent(true),
            ) is Read {
                seq![packet] + tcp_packets(stream_id, rest)
            } else {
                seq![packet]
            },
            TcpReadAction::Read => tcp_packets(stream_id, rest),
            TcpReadAction::Stop => Seq::empty(),
        }
    }
}

impl RemoteTcp {
    /// A stream under a fresh identifier.
    pub fn new(peer_addr: PeerAddr, client_id: ClientId, endpoint_id: EndpointId) -> (r: Self)
        ensures
            is_version_4(r.stream_id.uuid),
            r.client_id == client_id,
            r.endpoint_id == endpoint_id,
            r.remote_info.remote_peer_addr == peer_addr,
            !r.disabled,
    {
        RemoteTcp {
            stream_id: StreamId::new(),
            client_id,
            endpoint_id,
            remote_info: RemoteInfo::new(peer_addr),
            disabled: false,
        }
    }

    /// What the reading side does on an event: bytes go to the client, the end of the connection
    /// is told to it, and then, as after a failure on either side, the stream is disabled.
    pub fn read_loop(&self, store: &mut Store, event: TcpReadEvent) -> (action: TcpReadAction)
        requires
            old(store).wf(),
        ensures
            final(store).wf(),
            tcp_step(*old(store), self.stream_id, event, *final(store), action),
    {
        match event {
            TcpReadEvent::Read(data) => {
                if data.len() == 0 {
                    TcpReadAction::SendEnd(ControlPacketV2::End(self.stream_id))
                } else {
                    TcpReadAction::Send(ControlPacketV2::Data(self.stream_id, data))
                }
            },
            TcpReadEvent::Sent(true) => TcpReadAction::Read,
            TcpReadEvent::Cancelled => TcpReadAction::Stop,
            _ => {
                store.disable_remote(self.stream_id);
                TcpReadAction::Stop
            },
        }
    }

    /// What sending a packet to the stream's client comes to.
    pub fn send_to_client(&self, store: &mut Store, delivery: Delivery) -> (r: Result<
        (),
        ClientStreamError,
    >)
        requires
            old(store).wf(),
        ensures
            final(store).wf(),
            final(store).sent_to_client(*old(store), self.client_id, delivery, r),
    {
        store.send_to_client(self.client_id, delivery)
    }

    /// What a message for the peer calls for. A refusal disables the stream.
    pub fn send_to_remote(&mut self, stream_id: StreamId, message: StreamMessage) -> (step:
        RemoteStep)
        requires
            !(message is NoClientTunnel) || old(self).disabled,
        ensures
            remote_step(
                old(self).stream_id,
                old(self).disabled,
                true,
                stream_id,
                message,
                step,
            ),
            *final(self) == (RemoteTcp {
                disabled: old(self).disabled || disables(message),
                ..*old(self)
            }),
    {
        if self.disabled() {
            return RemoteStep::Fail(ClientStreamError::StreamNotAvailable(stream_id));
        }
        match message {
            StreamMessage::Data(data) => RemoteStep::Write(data),
            _ => {
                self.disable();
                RemoteStep::ShutDown(refused_error(self.stream_id))
            },
        }
    }

    /// What the outcome of a write comes to. A failed write disables the stream.
    pub fn written(&mut self, outcome: Result<(), String>) -> (r: Result<(), ClientStreamError>)
        ensures
            write_outcome(old(self).stream_id, outcome, r),
            *final(self) == (RemoteTcp {
                disabled: old(self).disabled || outcome is Err,
                ..*old(self)
            }),
    {
        match outcome {
            Ok(_) => Ok(()),
            Err(e) => {
                self.disable();
                Err(write_error(self.stream_id, e.as_str()))
            },
        }
    }

    /// The packet that opens the stream at the client.
    pub fn send_init_to_client(&self) -> (packet: ControlPacketV2)
        ensures
            packet == ControlPacketV2::Init(self.stream_id, self.endpoint_id, self.remote_info),
    {
        ControlPacketV2::Init(self.stream_id, self.endpoint_id, self.remote_info)
    }

    /// Whether the stream is disabled.
    pub fn disabled(&self) -> (b: bool)
        ensures
            b == self.disabled,
    {
        self.disabled
    }

    /// Disables the stream.
    pub fn disable(&mut self)
        ensures
            *final(self) == (RemoteTcp { disabled: true, ..*old(self) }),
    {
        self.disabled = true;
    }
}

/// The traffic of a remote peer over UDP.
#[derive(Clone, Copy, Debug, PartialEq, Eq, Structural)]
pub struct RemoteUdp {
    pub stream_id: StreamId,
    pub client_id: ClientId,
    pub endpoint_id: EndpointId,
    pub remote_info: RemoteInfo,
    pub disabled: bool,
}

impl RemoteUdp {
    /// A stream under a fresh identifier.
    pub fn new(peer_addr: PeerAddr, client_id: ClientId, endpoint_id: EndpointId) -> (r: Self)
        ensures
            is_version_4(r.stream_id.uuid),
            r.client_id == client_id,
            r.endpoint_id == endpoint_id,
            r.remote_info.remote_peer_addr == peer_addr,
            !r.disabled,
    {
        RemoteUdp {
            stream_id: StreamId::new(),
            client_id,
            endpoint_id,
            remote_info: RemoteInfo::new(peer_addr),
            disabled: false,
        }
    }

    /// What sending a packet to the stream's client comes to.
    pub fn send_to_client(&self, store: &mut Store, delivery: Delivery) -> (r: Result<
        (),
        ClientStreamError,
    >)
        requires
            old(store).wf(),
        ensures
            final(store).wf(),
            final(store).sent_to_client(*old(store), self.client_id, delivery, r),
    {
        store.send_to_client(self.client_id, delivery)
    }

    /// What a message for the peer calls for: bytes are sent to the peer's address. A refusal
    /// disables the stream.
    pub fn send_to_remote(&mut self, stream_id: StreamId, message: StreamMessage) -> (step:
        RemoteStep)
        requires
            !(message is NoClientTunnel) || old(self).disabled,
        ensures
            remote_step(
                old(self).stream_id,
                old(self).disabled,
                false,
                stream_id,
                message,
                step,
            ),
            *final(self) == (RemoteUdp {
                disabled: old(self).disabled || disables(message),
                ..*old(self)
            }),
    {
        if self.disabled() {
            return RemoteStep::Fail(ClientStreamError::StreamNotAvailable(stream_id));
        }
        match message {
            StreamMessage::Data(data) => RemoteStep::Write(data),
            _ => {
                self.disable();
                RemoteStep::Fail(refused_error(self.stream_id))
            },
        }
    }

    /// What the outcome of a write comes to. A failed write disables the stream.
    pub fn written(&mut self, outcome: Result<(), String>) -> (r: Result<(), ClientStreamError>)
        ensures
            write_outcome(old(self).stream_id, outcome, r),
            *final(self) == (RemoteUdp {
                disabled: old(self).disabled || outcome is Err,
                ..*old(self)
            }),
    {
        match outcome {
            Ok(_) => Ok(()),
            Err(e) => {
                self.disable();
                Err(write_error(self.stream_id, e.as_str()))
            },
        }
    }

    /// The packet that opens the stream at the client.
    pub fn send_init_to_client(&self) -> (packet: ControlPacketV2)
        ensures
            packet == ControlPacketV2::Init(self.stream_id, self.endpoint_id, self.remote_info),
    {
        ControlPacketV2::Init(self.stream_id, self.endpoint_id, self.remote_info)
    }

    /// Whether the stream is disabled.
    pub fn disabled(&self) -> (b: bool)
        ensures
            b == self.disabled,
    {
        self.disabled
    }

    /// Disables the stream.
    pub fn disable(&mut self)
        ensures
            *final(self) == (RemoteUdp { disabled: true, ..*old(self) }),
    {
        self.disabled = true;
    }
}

/// A stream of remote traffic.
#[derive(Clone, Copy, Debug, PartialEq, Eq, Structural)]
pub enum RemoteStream {
    RemoteTcp(RemoteTcp),
    RemoteUdp(RemoteUdp),
}

impl RemoteStream {
    /// The stream's identifier.
    pub open spec fn id(self) -> StreamId {
        match self {
            RemoteStream::RemoteTcp(tcp) => tcp.stream_id,
            RemoteStream::RemoteUdp(udp) => udp.stream_id,
        }
    }

    /// The client that the stream leads to.
    pub open spec fn client(self) -> ClientId {
        match self {
            RemoteStream::RemoteTcp(tcp) => tcp.client_id,
            RemoteStream::RemoteUdp(udp) => udp.client_id,
        }
    }

    /// Whether the stream is disabled.
    pub open spec fn is_disabled(self) -> bool {
        match self {
            RemoteStream::RemoteTcp(tcp) => tcp.disabled,
            RemoteStream::RemoteUdp(udp) => udp.disabled,
        }
    }

    /// The stream, disabled if it was or if `b` holds.
    pub open spec fn disabled_if(self, b: bool) -> Self {
        match self {
            RemoteStream::RemoteTcp(tcp) => RemoteStream::RemoteTcp(
                RemoteTcp { disabled: tcp.disabled || b, ..tcp },
            ),
            RemoteStream::RemoteUdp(udp) => RemoteStream::RemoteUdp(
                RemoteUdp { disabled: udp.disabled || b, ..udp },
            ),
        }
    }

    /// What a message for the peer calls for.
    pub fn send_to_remote(&mut self, stream_id: StreamId, message: StreamMessage) -> (step:
        RemoteStep)
        requires
            !(message is NoClientTunnel) || old(self).is_disabled(),
        ensures
            remote_step(
                old(self).id(),
                old(self).is_disabled(),
                *old(self) is RemoteTcp,
                stream_id,
                message,
                step,
            ),
            *final(self) == old(self).disabled_if(disables(message)),
    {
        match self {
            RemoteStream::RemoteTcp(tcp) => tcp.send_to_remote(stream_id, message),
            RemoteStream::RemoteUdp(udp) => udp.send_to_remote(stream_id, message),
        }
    }

    /// What the outcome of a write comes to.
    pub fn written(&mut self, outcome: Result<(), String>) -> (r: Result<(), ClientStreamError>)
        ensures
            write_outcome(old(self).id(), outcome, r),
            *final(self) == old(self).disabled_if(outcome is Err),
    {
        match self {
            RemoteStream::RemoteTcp(tcp) => tcp.written(outcome),
            RemoteStream::RemoteUdp(udp) => udp.written(outcome),
        }
    }

    /// What sending a packet to the stream's client comes to.
    pub fn send_to_client(&self, store: &mut Store, delivery: Delivery) -> (r: Result<
        (),
        ClientStreamError,
    >)
        requires
            old(store).wf(),
        ensures
            final(store).wf(),
            final(store).sent_to_client(*old(store), self.client(), delivery, r),
    {
        match self {
            RemoteStream::RemoteTcp(tcp) => tcp.send_to_client(store, delivery),
            RemoteStream::RemoteUdp(udp) => udp.send_to_client(store, delivery),
        }
    }

    /// Disables the stream.
    pub fn disable(&mut self)
        ensures
            *final(self) == old(self).disabled_if(true),
    {
        match self {
            RemoteStream::RemoteTcp(tcp) => {
                tcp.disable();
            },
            RemoteStream::RemoteUdp(udp) => {
                udp.disable();
            },
        }
    }

    /// Whether the stream is disabled.
    pub fn disabled(&self) -> (b: bool)
        ensures
            b == self.is_disabled(),
    {
        match self {
            RemoteStream::RemoteTcp(tcp) => tcp.disabled(),
            RemoteStream::RemoteUdp(udp) => udp.disabled(),
        }
    }

    /// The stream's identifier.
    pub fn stream_id(&self) -> (id: StreamId)
        ensures
            id == self.id(),
    {
        match self {
            RemoteStream::RemoteTcp(tcp) => tcp.stream_id,
            RemoteStream::RemoteUdp(udp) => udp.stream_id,
        }
    }

    /// The client that the stream leads to.
    pub fn client_id(&self) -> (id: ClientId)
        ensures
            id == self.client(),
    {
        match self {
            RemoteStream::RemoteTcp(tcp) => tcp.client_id,
            RemoteStream::RemoteUdp(udp) => udp.client_id,
        }
    }
}

} // verus!
