//! The client's side of a tunnel.
use super::control::{message_says, read_packet};
use super::packet::PacketError;
use super::{ClientHello, Payload, ServerHello, TunnelPacket};
use crate::client::handshake::{fetch_token, parse_url, parsed_url, TokenResponse};
use crate::client::local::LocalReadEvent;
use crate::client::{Error, StreamMessage};
use crate::id::{ClientId, StreamId};
use crate::protocol::CLIENT_HELLO_VERSION;
use crate::registry::Registry;
use crate::text::{host_port, host_port_text};
use vstd::prelude::*;
use vstd::string::*;

verus! {

/// The hello that a client sends.
pub fn send_client_hello(token: String, payload: Payload) -> (hello: ClientHello)
    ensures
        hello == (ClientHello { version: CLIENT_HELLO_VERSION, token, payload }),
{
    ClientHello { version: CLIENT_HELLO_VERSION, token, payload }
}

/// Whom the server takes the client for, and the address that it opened.
#[derive(Clone, Debug)]
pub struct ClientInfo {
    pub client_id: ClientId,
    pub remote_addr: String,
}

/// What a client got for its hello.
pub enum ServerReply {
    /// The connection ended.
    Nothing,
    /// The connection failed.
    Failed(String),
    /// A message that is no hello.
    Unreadable,
    /// The server's hello.
    Hello(ServerHello),
}

/// What the reply to a hello comes to.
pub open spec fn verified(reply: ServerReply) -> Result<ClientInfo, Error> {
    match reply {
        ServerReply::Nothing => Err(Error::NoResponseFromServer),
        ServerReply::Failed(e) => Err(Error::WebSocketError(e)),
        ServerReply::Unreadable => Err(Error::ServerReplyInvalid),
        ServerReply::Hello(ServerHello::Success { client_id, remote_addr }) => Ok(
            ClientInfo { client_id, remote_addr },
        ),
        ServerReply::Hello(ServerHello::BadRequest) => Err(Error::BadRequest),
        ServerReply::Hello(ServerHello::ServiceTemporaryUnavailable) => Err(
            Error::ServiceTemporaryUnavailable,
        ),
        ServerReply::Hello(ServerHello::IllegalHost) => Err(Error::IllegalHost),
        ServerReply::Hello(ServerHello::VersionMismatch) => Err(
            Error::ClientHandshakeVersionMismatch,
        ),
        ServerReply::Hello(ServerHello::InternalServerError) => Err(Error::InternalServerError),
    }
}

/// Reads the server's reply to a hello.
pub fn verify_server_hello(reply: ServerReply) -> (r: Result<ClientInfo, Error>)
    ensures
        r == verified(reply),
{
    let server_hello = match reply {
        ServerReply::Nothing => {
            return Err(Error::NoResponseFromServer);
        },
        ServerReply::Failed(e) => {
            return Err(Error::WebSocketError(e));
        },
        ServerReply::Unreadable => {
            return Err(Error::ServerReplyInvalid);
        },
        ServerReply::Hello(hello) => hello,
    };
    match server_hello {
        ServerHello::Success { client_id, remote_addr } => Ok(
            ClientInfo { client_id, remote_addr },
        ),
        ServerHello::BadRequest => Err(Error::BadRequest),
        ServerHello::ServiceTemporaryUnavailable => Err(Error::ServiceTemporaryUnavailable),
        ServerHello::IllegalHost => Err(Error::IllegalHost),
        ServerHello::VersionMismatch => Err(Error::ClientHandshakeVersionMismatch),
        ServerHello::InternalServerError => Err(Error::InternalServerError),
    }
}

/// The text of the address at which a host listens for clients.
pub open spec fn tunnel_address(host: Seq<char>, control_port: u16) -> Seq<char> {
    "wss://"@ + host_port(host, control_port) + "/tunnel"@
}

/// The address at which a host listens for clients, or why there is none.
pub fn tunnel_url(host: &str, control_port: u16) -> (r: Result<String, Error>)
    ensures
        match parsed_url(tunnel_address(host@, control_port)) {
            Ok(u) => r matches Ok(url) && url@ == u,
            Err(text) => r matches Err(Error::InvalidUrl(e)) && e@ == text,
        },
{
    let mut text = "wss://".to_owned();
    text.append(host_port_text(host, control_port).as_str());
    text.append("/tunnel");
    match parse_url(text.as_str()) {
        Ok(url) => Ok(url),
        Err(e) => Err(Error::InvalidUrl(e)),
    }
}

/// A client that is about to connect.
pub struct TunnelRun {
    pub control_port: u16,
    pub payload: Payload,
    /// The token that the token server gave.
    pub token: Option<String>,
}

/// What happens to a client that is about to connect.
pub enum ConnectEvent {
    /// The client was started.
    Started,
    /// The token server has answered.
    Token(TokenResponse),
    /// The token server could not be asked.
    TokenFailed(String),
    /// The connection is open.
    Connected,
    /// The connection could not be opened.
    ConnectFailed,
    /// The hello was sent.
    HelloSent,
    /// The hello could not be sent.
    HelloFailed(String),
    /// The server's reply came in, or failed to.
    Replied(ServerReply),
}

/// What a client that is about to connect does next.
pub enum ConnectAction {
    /// Asks the token server for a token.
    FetchToken,
    /// Opens a connection to the address.
    Connect(String),
    /// Sends its hello.
    SendHello(ClientHello),
    /// Waits for the server's reply.
    AwaitReply,
    /// Gives up, because there is no token.
    Fail(String),
    /// Is connected, or gives up because of the error.
    Finish(Result<ClientInfo, Error>),
}

/// One step of a client that is about to connect.
pub open spec fn connects(
    before: TunnelRun,
    event: ConnectEvent,
    after: TunnelRun,
    action: ConnectAction,
) -> bool {
    match event {
        ConnectEvent::Started => after == before && action == ConnectAction::FetchToken,
        ConnectEvent::Token(TokenResponse::Granted { token, host }) => {
            &&& after == (TunnelRun { token: Some(token), ..before })
            &&& match parsed_url(tunnel_address(host@, before.control_port)) {
                Ok(u) => action matches ConnectAction::Connect(url) && url@ == u,
                Err(text) => action matches ConnectAction::Finish(Err(Error::InvalidUrl(e))) && e@
                    == text,
            }
        },
        ConnectEvent::Token(TokenResponse::Refused { message }) => after == (TunnelRun {
            token: None,
            ..before
        }) && action == ConnectAction::Fail(message),
        ConnectEvent::TokenFailed(e) => after == (TunnelRun { token: None, ..before }) && action
            == ConnectAction::Fail(e),
        ConnectEvent::Connected => {
            &&& after == before
            &&& match before.token {
                Some(token) => {
                    &&& action matches ConnectAction::SendHello(hello)
                    &&& hello.version == CLIENT_HELLO_VERSION
                    &&& hello.token@ == token@
                    &&& hello.payload == before.payload
                },
                None => action == ConnectAction::FetchToken,
            }
        },
        ConnectEvent::ConnectFailed => after == before && action == ConnectAction::Finish(
            Err(Error::ServerDown),
        ),
        ConnectEvent::HelloSent => after == before && action == ConnectAction::AwaitReply,
        ConnectEvent::HelloFailed(e) => after == before && action == ConnectAction::Finish(
            Err(Error::WebSocketError(e)),
        ),
        ConnectEvent::Replied(reply) => after == before && action == ConnectAction::Finish(
            verified(reply),
        ),
    }
}

impl TunnelRun {
    /// A client that has no token yet.
    pub fn new(control_port: u16, payload: Payload) -> (r: Self)
        ensures
            r == (TunnelRun { control_port, payload, token: None }),
    {
        TunnelRun { control_port, payload, token: None }
    }

    /// What a client that is about to connect does after an event. It opens a connection to the
    /// host that the token server named, and says hello with the token that it gave; without a
    /// token, it opens none.
    pub fn connect_step(&mut self, event: ConnectEvent) -> (action: ConnectAction)
        ensures
            connects(*old(self), event, *final(self), action),
    {
        match event {
            ConnectEvent::Started => ConnectAction::FetchToken,
            ConnectEvent::Token(response) => match fetch_token(response) {
                Ok((token, host)) => {
                    self.token = Some(token);
                    match tunnel_url(host.as_str(), self.control_port) {
                        Ok(url) => ConnectAction::Connect(url),
                        Err(e) => ConnectAction::Finish(Err(e)),
                    }
                },
                Err(message) => {
                    self.token = None;
                    ConnectAction::Fail(message)
                },
            },
            ConnectEvent::TokenFailed(e) => {
                self.token = None;
                ConnectAction::Fail(e)
            },
            ConnectEvent::Connected => match &self.token {
                Some(token) => ConnectAction::SendHello(
                    send_client_hello(token.clone(), self.payload),
                ),
                None => ConnectAction::FetchToken,
            },
            ConnectEvent::ConnectFailed => ConnectAction::Finish(Err(Error::ServerDown)),
            ConnectEvent::HelloSent => ConnectAction::AwaitReply,
            ConnectEvent::HelloFailed(e) => ConnectAction::Finish(Err(Error::WebSocketError(e))),
            ConnectEvent::Replied(reply) => ConnectAction::Finish(verify_server_hello(reply)),
        }
    }
}

/// How long a stream that the server has ended is kept open locally, in seconds.
pub const CLOSE_DELAY_SECS: u64 = 5;

/// How a client has ended, from how its tasks have.
pub open spec fn ended(
    writer: Option<()>,
    reader: Option<Result<(), Error>>,
    r: Result<(), Error>,
) -> bool {
    match (writer, reader) {
        (Some(_), Some(Ok(_))) => r is Ok,
        (Some(_), Some(Err(e))) => r == Err::<(), Error>(e),
        _ => r == Err::<(), Error>(Error::JoinError),
    }
}

/// How a client has ended, from how the two tasks that serve its connection have: the one that
/// writes, and the one that reads. A task that did not come to its end is `None`.
pub fn run(writer: Option<()>, reader: Option<Result<(), Error>>) -> (r: Result<(), Error>)
    ensures
        ended(writer, reader, r),
{
    match (writer, reader) {
        (Some(_), Some(Ok(_))) => Ok(()),
        (Some(_), Some(Err(e))) => Err(e),
        _ => Err(Error::JoinError),
    }
}

/// The streams of a client.
pub struct Store {
    streams: Registry<()>,
}

impl Default for Store {
    fn default() -> (r: Self)
        ensures
            r.wf(),
            r.streams() == Set::<u128>::empty(),
    {
        let r = Store { streams: Registry::new() };
        assert(r.streams() =~= Set::<u128>::empty());
        r
    }
}

impl Store {
    /// The identifiers of the streams.
    pub closed spec fn streams(self) -> Set<u128> {
        self.streams@.dom()
    }

    /// The table is well formed.
    pub closed spec fn wf(self) -> bool {
        self.streams.wf()
    }

    /// What `before` has become after a stream was taken out.
    pub open spec fn removed(self, before: Self, stream_id: StreamId, was: bool) -> bool {
        &&& self.streams() == before.streams().remove(stream_id.uuid)
        &&& was == before.streams().contains(stream_id.uuid)
    }

    /// Adds a stream.
    pub fn add_stream(&mut self, stream_id: StreamId)
        requires
            old(self).wf(),
        ensures
            final(self).wf(),
            final(self).streams() == old(self).streams().insert(stream_id.uuid),
    {
        let ghost before = self.streams();
        self.streams.insert(stream_id.uuid, ());
        assert(self.streams() =~= before.insert(stream_id.uuid));
    }

    /// Takes a stream out, and tells whether it was there.
    pub fn remove_stream(&mut self, stream_id: &StreamId) -> (was: bool)
        requires
            old(self).wf(),
        ensures
            final(self).wf(),
            final(self).removed(*old(self), *stream_id, was),
    {
        let ghost before = self.streams();
        let was = self.streams.remove(stream_id.uuid).is_some();
        assert(self.streams() =~= before.remove(stream_id.uuid));
        was
    }

    /// Whether a stream is there.
    pub fn has_stream(&self, stream_id: &StreamId) -> (b: bool)
        requires
            self.wf(),
        ensures
            b == self.streams().contains(stream_id.uuid),
    {
        self.streams.contains_key(stream_id.uuid)
    }

    /// How many streams there are.
    pub fn len_stream(&self) -> (n: usize)
        requires
            self.wf(),
        ensures
            n == self.streams().len(),
    {
        self.streams.len()
    }
}

/// What a packet from the server calls for.
pub enum FlowAction {
    /// A connection to the local service is set up for the stream.
    SetUp(StreamId),
    /// A socket to the local service is set up for the stream, and the datagram is forwarded if
    /// the stream is there then.
    SetUpUdp(StreamId, Vec<u8>),
    /// The packet goes to the server, whatever comes of it.
    Reply(TunnelPacket),
    /// The packet goes to the server. If that fails, so does the message.
    Refuse(TunnelPacket),
    /// The message goes to the local service. If that fails, so does the message.
    Forward(StreamId, StreamMessage),
    /// After `CLOSE_DELAY_SECS` the stream is closed and taken out.
    CloseLater(StreamId),
    /// Nothing is done.
    Nothing,
}

/// What a client makes of a packet.
pub open spec fn flow(streams: Set<u128>, packet: TunnelPacket) -> Result<FlowAction, Seq<char>> {
    match packet {
        TunnelPacket::Init(sid) => Ok(
            if streams.contains(sid.uuid) {
                FlowAction::Nothing
            } else {
                FlowAction::SetUp(sid)
            },
        ),
        TunnelPacket::Ping => Ok(FlowAction::Reply(TunnelPacket::Ping)),
        TunnelPacket::Refused(_) => Err("unexpected control packet"@),
        TunnelPacket::End(sid) => Ok(
            if streams.contains(sid.uuid) {
                FlowAction::CloseLater(sid)
            } else {
                FlowAction::Nothing
            },
        ),
        TunnelPacket::Data(sid, data) => Ok(
            if streams.contains(sid.uuid) {
                FlowAction::Forward(sid, StreamMessage::Data(data))
            } else {
                FlowAction::Refuse(TunnelPacket::Refused(sid))
            },
        ),
        TunnelPacket::UdpData(sid, data) => Ok(
            if streams.contains(sid.uuid) {
                FlowAction::Forward(sid, StreamMessage::Data(data))
            } else {
                FlowAction::SetUpUdp(sid, data)
            },
        ),
    }
}

/// An outcome without the packet, its error taken as text.
pub open spec fn flow_text(r: Result<(FlowAction, TunnelPacket), String>) -> Result<
    FlowAction,
    Seq<char>,
> {
    match r {
        Ok((action, _)) => Ok(action),
        Err(e) => Err(e@),
    }
}

/// What a client makes of a message.
pub open spec fn message_flow(
    streams: Set<u128>,
    payload: Seq<u8>,
    r: Result<(FlowAction, TunnelPacket), String>,
) -> bool {
    exists|read: Result<TunnelPacket, PacketError>|
        #![trigger message_says(payload, read)]
        message_says(payload, read) && flow_text(r) == (match read {
            Ok(packet) => flow(streams, packet),
            Err(e) => Err(e.text()),
        }) && (r matches Ok((_, given)) ==> read matches Ok(packet) && given.same(packet))
}

/// What a message from the server calls for, and the packet that it is.
pub fn process_control_flow_message(store: &Store, payload: &[u8]) -> (r: Result<
    (FlowAction, TunnelPacket),
    String,
>)
    requires
        store.wf(),
    ensures
        message_flow(store.streams(), payload@, r),
{
    let read = read_packet(payload);
    assert(message_says(payload@, read));
    match read {
        Ok(packet) => process_packet(store, packet),
        Err(e) => Err(e.to_string()),
    }
}

/// What a client makes of a packet, which it gives back.
pub open spec fn packet_flow(
    streams: Set<u128>,
    packet: TunnelPacket,
    r: Result<(FlowAction, TunnelPacket), String>,
) -> bool {
    &&& flow_text(r) == flow(streams, packet)
    &&& r matches Ok((_, given)) ==> given.same(packet)
}

/// What a packet from the server calls for, with the packet.
pub fn process_packet(store: &Store, packet: TunnelPacket) -> (r: Result<
    (FlowAction, TunnelPacket),
    String,
>)
    requires
        store.wf(),
    ensures
        packet_flow(store.streams(), packet, r),
{
    let given = packet.duplicate();
    let action = match packet {
        TunnelPacket::Init(stream_id) => {
            if store.has_stream(&stream_id) {
                FlowAction::Nothing
            } else {
                FlowAction::SetUp(stream_id)
            }
        },
        TunnelPacket::Ping => FlowAction::Reply(TunnelPacket::Ping),
        TunnelPacket::Refused(_) => {
            return Err("unexpected control packet".to_owned());
        },
        TunnelPacket::End(stream_id) => {
            if store.has_stream(&stream_id) {
                FlowAction::CloseLater(stream_id)
            } else {
                FlowAction::Nothing
            }
        },
        TunnelPacket::Data(stream_id, data) => {
            if store.has_stream(&stream_id) {
                FlowAction::Forward(stream_id, StreamMessage::Data(data))
            } else {
                FlowAction::Refuse(TunnelPacket::Refused(stream_id))
            }
        },
        TunnelPacket::UdpData(stream_id, data) => {
            if store.has_stream(&stream_id) {
                FlowAction::Forward(stream_id, StreamMessage::Data(data))
            } else {
                FlowAction::SetUpUdp(stream_id, data)
            }
        },
    };
    Ok((action, given))
}

/// What becomes of setting up a stream.
pub open spec fn set_up(
    before: Store,
    stream_id: StreamId,
    reached: bool,
    after: Store,
    refusal: Option<TunnelPacket>,
) -> bool {
    if reached {
        after.streams() == before.streams().insert(stream_id.uuid) && refusal is None
    } else {
        after == before && refusal == Some(TunnelPacket::Refused(stream_id))
    }
}

/// What becomes of setting up a stream: it is added when the local service was reached, and
/// refused otherwise.
pub fn setup_new_stream(store: &mut Store, stream_id: StreamId, reached: bool) -> (refusal: Option<
    TunnelPacket,
>)
    requires
        old(store).wf(),
    ensures
        final(store).wf(),
        set_up(*old(store), stream_id, reached, *final(store), refusal),
{
    if reached {
        store.add_stream(stream_id);
        None
    } else {
        Some(TunnelPacket::Refused(stream_id))
    }
}

/// What is done next on the side of the local service. When it stops, the stream leaves the store.
pub enum LocalAction {
    /// Sends the packet to the server, and reports how that went.
    Send(TunnelPacket),
    /// Reads again.
    Read,
    /// Stops.
    Stop,
}

/// What is done on the side of the local service on an event, where what it sends becomes packets
/// of data, or of datagrams.
pub open spec fn local_action(payload: Payload, stream_id: StreamId, event: LocalReadEvent) ->
    LocalAction {
    match event {
        LocalReadEvent::Read(data) => if data@.len() == 0 {
            LocalAction::Stop
        } else {
            LocalAction::Send(
                match payload {
                    Payload::UDP => TunnelPacket::UdpData(stream_id, data),
                    Payload::Other => TunnelPacket::Data(stream_id, data),
                },
            )
        },
        LocalReadEvent::Sent(true) => LocalAction::Read,
        _ => LocalAction::Stop,
    }
}

/// What follows an event on the side of a local service over TCP.
pub fn process_local_tcp(stream_id: StreamId, event: LocalReadEvent) -> (action: LocalAction)
    ensures
        action == local_action(Payload::Other, stream_id, event),
{
    match event {
        LocalReadEvent::Read(data) => {
            if data.len() == 0 {
                LocalAction::Stop
            } else {
                LocalAction::Send(TunnelPacket::Data(stream_id, data))
            }
        },
        LocalReadEvent::Sent(true) => LocalAction::Read,
        _ => LocalAction::Stop,
    }
}

/// What follows an event on the side of a local service over UDP.
pub fn process_local_udp(stream_id: StreamId, event: LocalReadEvent) -> (action: LocalAction)
    ensures
        action == local_action(Payload::UDP, stream_id, event),
{
    match event {
        LocalReadEvent::Read(data) => {
            if data.len() == 0 {
                LocalAction::Stop
            } else {
                LocalAction::Send(TunnelPacket::UdpData(stream_id, data))
            }
        },
        LocalReadEvent::Sent(true) => LocalAction::Read,
        _ => LocalAction::Stop,
    }
}

} // verus!
