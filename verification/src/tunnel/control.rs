//! The control connection of a tunnel server: the handshake, and what clients send.
use super::active_stream::ActiveStreams;
use super::connections::{ConnectedClient, Connections};
use super::packet::{big_endian, packet_bytes, packet_of, ControlPacket, PacketError, PacketView};
use super::{ClientHello, Config, Payload, ServerHello, TunnelPacket};
use crate::id::{is_version_4, ClientId, StreamId};
use crate::port_allocator::PortAllocator;
use crate::protocol::CLIENT_HELLO_VERSION;
use crate::reconnect::text_of;
use crate::server::stream::StreamMessage;
use crate::server::ProxyServerError;
use crate::text::{decimal, host_port, host_port_text, push_decimal};
use crate::ws::{message_of, read_message, ReadEvent};
use rand::rngs::StdRng;
use std::ops::Range;
use vstd::prelude::*;
use vstd::string::*;

verus! {

/// Why a hello is not taken.
#[derive(Clone, Copy, Debug, PartialEq, Eq, Structural)]
pub enum VerifyClientHandshakeError {
    InvalidClientHello,
    InvalidJWT,
    IllegalHost,
    VersionMismatch,
    Other(ProxyServerError),
}

impl VerifyClientHandshakeError {
    /// How the error is printed.
    pub open spec fn text(self) -> Seq<char> {
        match self {
            VerifyClientHandshakeError::InvalidClientHello =>
                "Failed to deserialize client hello."@,
            VerifyClientHandshakeError::InvalidJWT => "Failed to parse client jwt."@,
            VerifyClientHandshakeError::IllegalHost => "Client tried to access different host."@,
            VerifyClientHandshakeError::VersionMismatch =>
                "Client sends unsupported client handshake version."@,
            VerifyClientHandshakeError::Other(_) => "Other internal error: "@
                + "Failed to load config because it is not initialized."@ + "."@,
        }
    }

    /// The error in words.
    pub fn to_string(&self) -> (r: String)
        ensures
            r@ == self.text(),
    {
        match self {
            VerifyClientHandshakeError::InvalidClientHello =>
                "Failed to deserialize client hello.".to_owned(),
            VerifyClientHandshakeError::InvalidJWT => "Failed to parse client jwt.".to_owned(),
            VerifyClientHandshakeError::IllegalHost =>
                "Client tried to access different host.".to_owned(),
            VerifyClientHandshakeError::VersionMismatch =>
                "Client sends unsupported client handshake version.".to_owned(),
            VerifyClientHandshakeError::Other(e) => {
                let mut out = "Other internal error: ".to_owned();
                out.append(e.to_string().as_str());
                out.append(".");
                out
            },
        }
    }
}

/// What becomes of a hello, where `auth_host` is the host that its token was issued for.
pub open spec fn handshake_verdict(
    config: Option<Config>,
    client_hello: Option<ClientHello>,
    auth_host: Option<Seq<char>>,
) -> Result<Payload, VerifyClientHandshakeError> {
    match config {
        None => Err(VerifyClientHandshakeError::Other(ProxyServerError::ConfigNotInitialized)),
        Some(config) => match client_hello {
            None => Err(VerifyClientHandshakeError::InvalidClientHello),
            Some(hello) => if hello.version != CLIENT_HELLO_VERSION {
                Err(VerifyClientHandshakeError::VersionMismatch)
            } else {
                match auth_host {
                    Some(host) => if host == config.host@ {
                        Ok(hello.payload)
                    } else {
                        Err(VerifyClientHandshakeError::IllegalHost)
                    },
                    None => Err(VerifyClientHandshakeError::InvalidJWT),
                }
            },
        },
    }
}

/// A configuration that may not have been set.
pub open spec fn config_of(config: Option<&Config>) -> Option<Config> {
    match config {
        Some(c) => Some(*c),
        None => None,
    }
}

/// Takes a hello or refuses it. `client_hello` is `None` when the client's message could not be
/// parsed, `auth_host` when the hello's token is not valid.
pub fn verify_client_handshake(
    config: Option<&Config>,
    client_hello: Option<ClientHello>,
    auth_host: Option<String>,
) -> (r: Result<Payload, VerifyClientHandshakeError>)
    ensures
        r == handshake_verdict(config_of(config), client_hello, text_of(auth_host)),
{
    let config = match config {
        Some(config) => config,
        None => {
            return Err(
                VerifyClientHandshakeError::Other(ProxyServerError::ConfigNotInitialized),
            );
        },
    };
    let hello = match client_hello {
        Some(hello) => hello,
        None => {
            return Err(VerifyClientHandshakeError::InvalidClientHello);
        },
    };
    if hello.version != CLIENT_HELLO_VERSION {
        return Err(VerifyClientHandshakeError::VersionMismatch);
    }
    match auth_host {
        Some(host) => {
            if host == config.host {
                Ok(hello.payload)
            } else {
                Err(VerifyClientHandshakeError::IllegalHost)
            }
        },
        None => Err(VerifyClientHandshakeError::InvalidJWT),
    }
}

/// A client that was received, and the port that it was given.
#[derive(Clone, Copy, Debug, PartialEq, Eq, Structural)]
pub struct ClientHandshake {
    pub id: ClientId,
    pub payload: Payload,
    pub port: u16,
}

/// What a client is answered, and who it is once the answer has been sent.
pub struct HandshakeAnswer {
    pub hello: ServerHello,
    pub handshake: Option<ClientHandshake>,
}

/// What a client whose hello is not taken is told.
pub open spec fn refusal(e: VerifyClientHandshakeError) -> ServerHello {
    match e {
        VerifyClientHandshakeError::InvalidClientHello => ServerHello::BadRequest,
        VerifyClientHandshakeError::InvalidJWT => ServerHello::BadRequest,
        VerifyClientHandshakeError::IllegalHost => ServerHello::IllegalHost,
        VerifyClientHandshakeError::VersionMismatch => ServerHello::VersionMismatch,
        VerifyClientHandshakeError::Other(_) => ServerHello::InternalServerError,
    }
}

/// What a hello is answered: a client that is taken gets a free port, while there is one.
pub open spec fn handshake_answered(
    host: Seq<char>,
    verdict: Result<Payload, VerifyClientHandshakeError>,
    free: Set<u16>,
    free_after: Set<u16>,
    answer: HandshakeAnswer,
) -> bool {
    match verdict {
        Ok(payload) => if free.is_empty() {
            &&& free_after == free
            &&& answer == (HandshakeAnswer {
                hello: ServerHello::ServiceTemporaryUnavailable,
                handshake: None,
            })
        } else {
            &&& answer.handshake matches Some(h)
            &&& h.payload == payload
            &&& is_version_4(h.id.uuid)
            &&& free.contains(h.port)
            &&& free_after == free.remove(h.port)
            &&& answer.hello matches ServerHello::Success { client_id, remote_addr }
            &&& client_id == h.id
            &&& remote_addr@ == host_port(host, h.port)
        },
        Err(e) => {
            &&& free_after == free
            &&& answer == (HandshakeAnswer { hello: refusal(e), handshake: None })
        },
    }
}

/// Answers a hello that was taken or refused.
pub fn answer_handshake(
    config: &Config,
    alloc: &mut PortAllocator<Range<u16>>,
    rng: &mut StdRng,
    verdict: Result<Payload, VerifyClientHandshakeError>,
) -> (answer: HandshakeAnswer)
    requires
        old(alloc).wf(),
    ensures
        final(alloc).wf(),
        final(alloc).range() == old(alloc).range(),
        handshake_answered(
            config.host@,
            verdict,
            old(alloc).available(),
            final(alloc).available(),
            answer,
        ),
{
    match verdict {
        Ok(payload) => match alloc.allocate_port(rng) {
            Ok(port) => {
                let id = ClientId::new();
                HandshakeAnswer {
                    hello: ServerHello::Success {
                        client_id: id,
                        remote_addr: host_port_text(config.host.as_str(), port),
                    },
                    handshake: Some(ClientHandshake { id, payload, port }),
                }
            },
            Err(_) => HandshakeAnswer {
                hello: ServerHello::ServiceTemporaryUnavailable,
                handshake: None,
            },
        },
        Err(VerifyClientHandshakeError::InvalidClientHello) => HandshakeAnswer {
            hello: ServerHello::BadRequest,
            handshake: None,
        },
        Err(VerifyClientHandshakeError::InvalidJWT) => HandshakeAnswer {
            hello: ServerHello::BadRequest,
            handshake: None,
        },
        Err(VerifyClientHandshakeError::IllegalHost) => HandshakeAnswer {
            hello: ServerHello::IllegalHost,
            handshake: None,
        },
        Err(VerifyClientHandshakeError::VersionMismatch) => HandshakeAnswer {
            hello: ServerHello::VersionMismatch,
            handshake: None,
        },
        Err(VerifyClientHandshakeError::Other(_)) => HandshakeAnswer {
            hello: ServerHello::InternalServerError,
            handshake: None,
        },
    }
}

/// What a client has sent first, as it was read.
pub struct FirstMessage {
    /// The hello, if the message is one.
    pub client_hello: Option<ClientHello>,
    /// The host that the hello's token was issued for, if the token is valid.
    pub auth_host: Option<String>,
}

/// The bytes of a client's hello. Anything but a message of the protocol is none.
pub fn read_client_hello(event: ReadEvent) -> (data: Option<Vec<u8>>)
    ensures
        data == message_of(event),
{
    read_message(event)
}

/// What a client is answered whose first message was read, or did not come.
pub open spec fn received(
    config: Option<Config>,
    message: Option<FirstMessage>,
    free: Set<u16>,
    free_after: Set<u16>,
    answer: Option<HandshakeAnswer>,
) -> bool {
    match (config, message) {
        (Some(c), Some(m)) => answer matches Some(a) && handshake_answered(
            c.host@,
            handshake_verdict(Some(c), m.client_hello, text_of(m.auth_host)),
            free,
            free_after,
            a,
        ),
        _ => answer is None && free_after == free,
    }
}

/// Receives a client. A server without a configuration, and a client that has sent nothing, answer
/// nothing.
pub fn try_client_handshake(
    config: Option<&Config>,
    alloc: &mut PortAllocator<Range<u16>>,
    rng: &mut StdRng,
    message: Option<FirstMessage>,
) -> (answer: Option<HandshakeAnswer>)
    requires
        old(alloc).wf(),
    ensures
        final(alloc).wf(),
        final(alloc).range() == old(alloc).range(),
        received(
            config_of(config),
            message,
            old(alloc).available(),
            final(alloc).available(),
            answer,
        ),
{
    match config {
        Some(c) => match message {
            Some(m) => {
                let verdict = verify_client_handshake(Some(c), m.client_hello, m.auth_host);
                Some(answer_handshake(c, alloc, rng, verdict))
            },
            None => None,
        },
        None => None,
    }
}

/// Who was received, once the answer was sent or could not be.
pub open spec fn completed(answer: HandshakeAnswer, sent: bool) -> Option<ClientHandshake> {
    if sent {
        answer.handshake
    } else {
        None
    }
}

/// Who was received, once the answer was sent or could not be.
pub fn complete_handshake(answer: HandshakeAnswer, sent: bool) -> (r: Option<ClientHandshake>)
    ensures
        r == completed(answer, sent),
{
    if sent {
        answer.handshake
    } else {
        None
    }
}

/// The host name of the client with a port.
pub open spec fn host_name(port: u16) -> Seq<char> {
    "host-foobar-"@ + decimal(port as nat)
}

/// The host name that a client gets with its port.
pub fn host_name_text(port: u16) -> (r: String)
    ensures
        r@ == host_name(port),
{
    let mut out = "host-foobar-".to_owned();
    push_decimal(&mut out, port as u64);
    out
}

/// The address on which a client's port is opened.
pub fn listen_addr(port: u16) -> (r: String)
    ensures
        r@ == host_port("[::]"@, port),
{
    host_port_text("[::]", port)
}

/// What becomes of a client that was received, once its port was opened or could not be.
pub open spec fn registered(
    before: Connections,
    handshake: ClientHandshake,
    opened: bool,
    after: Connections,
    r: Option<ConnectedClient>,
) -> bool {
    if opened {
        &&& r matches Some(c)
        &&& c.id == handshake.id
        &&& c.host@ == host_name(handshake.port)
        &&& after.clients() == before.clients().insert(
            handshake.id.uuid,
            host_name(handshake.port),
        )
        &&& after.hosts() == before.hosts().insert(host_name(handshake.port), handshake.id)
    } else {
        r is None && after == before
    }
}

/// Registers a client that was received, once its port was opened or could not be.
pub fn handle_new_connection(conn: &mut Connections, handshake: ClientHandshake, opened: bool) -> (r:
    Option<ConnectedClient>)
    requires
        old(conn).wf(),
    ensures
        final(conn).wf(),
        registered(*old(conn), handshake, opened, *final(conn), r),
{
    if !opened {
        return None;
    }
    let client = ConnectedClient::new(handshake.id, host_name_text(handshake.port));
    let kept = client.duplicate();
    conn.add(kept);
    Some(client)
}

/// What a packet from a client calls for: a message for the peer of a stream, or nothing.
pub open spec fn routed(packet: TunnelPacket) -> Option<(StreamId, StreamMessage)> {
    match packet {
        TunnelPacket::Data(sid, data) => Some((sid, StreamMessage::Data(data))),
        TunnelPacket::UdpData(sid, data) => Some((sid, StreamMessage::Data(data))),
        TunnelPacket::Refused(sid) => Some((sid, StreamMessage::TunnelRefused)),
        _ => None,
    }
}

/// What a packet from a client calls for.
pub fn route_packet(packet: TunnelPacket) -> (r: Option<(StreamId, StreamMessage)>)
    ensures
        r == routed(packet),
{
    match packet {
        TunnelPacket::Data(sid, data) => Some((sid, StreamMessage::Data(data))),
        TunnelPacket::UdpData(sid, data) => Some((sid, StreamMessage::Data(data))),
        TunnelPacket::Refused(sid) => Some((sid, StreamMessage::TunnelRefused)),
        _ => None,
    }
}

/// A stream whose identifier has eight bytes, under the number that they make.
pub open spec fn numbered(sid: Seq<u8>) -> StreamId {
    StreamId { uuid: big_endian(sid) as u128 }
}

fn stream_number(sid: &[u8; 8]) -> (id: StreamId)
    ensures
        id == numbered(sid@),
{
    let mut v: u128 = 0;
    let mut bound: u128 = 1;
    let mut i: usize = 0;
    assert(sid@.take(0) =~= Seq::empty());
    while i < 8
        invariant
            i <= 8,
            sid@.len() == 8,
            v == big_endian(sid@.take(i as int)),
            v < bound,
            i == 0 ==> bound == 1,
            i == 1 ==> bound == 0x100,
            i == 2 ==> bound == 0x1_0000,
            i == 3 ==> bound == 0x100_0000,
            i == 4 ==> bound == 0x1_0000_0000,
            i == 5 ==> bound == 0x100_0000_0000,
            i == 6 ==> bound == 0x1_0000_0000_0000,
            i == 7 ==> bound == 0x100_0000_0000_0000,
            i == 8 ==> bound == 0x1_0000_0000_0000_0000,
        decreases 8 - i,
    {
        proof {
            let next = sid@.take(i + 1);
            assert(next.drop_last() =~= sid@.take(i as int));
            assert(next.last() == sid@[i as int]);
        }
        v = 256 * v + sid[i] as u128;
        bound = 256 * bound;
        i = i + 1;
    }
    assert(sid@.take(8) =~= sid@);
    StreamId { uuid: v }
}

/// What the bytes of a message say, if they are a packet.
pub open spec fn message_says(bytes: Seq<u8>, r: Result<TunnelPacket, PacketError>) -> bool {
    match packet_of(bytes) {
        Ok(PacketView::Init(sid)) => r == Ok::<_, PacketError>(
            TunnelPacket::Init(numbered(sid)),
        ),
        Ok(PacketView::Data(sid, data)) => r matches Ok(TunnelPacket::Data(id, d)) && id
            == numbered(sid) && d@ == data,
        Ok(PacketView::Refused(sid)) => r == Ok::<_, PacketError>(
            TunnelPacket::Refused(numbered(sid)),
        ),
        Ok(PacketView::End(sid)) => r == Ok::<_, PacketError>(TunnelPacket::End(numbered(sid))),
        Ok(PacketView::Ping) => r == Ok::<_, PacketError>(TunnelPacket::Ping),
        Err(e) => r == Err::<TunnelPacket, _>(e),
    }
}

/// Reads the packet that a message is.
pub fn read_packet(message: &[u8]) -> (r: Result<TunnelPacket, PacketError>)
    ensures
        message_says(message@, r),
{
    match ControlPacket::deserialize(message) {
        Ok(ControlPacket::Init(sid)) => Ok(TunnelPacket::Init(stream_number(&sid.0))),
        Ok(ControlPacket::Data(sid, data)) => Ok(TunnelPacket::Data(stream_number(&sid.0), data)),
        Ok(ControlPacket::Refused(sid)) => Ok(TunnelPacket::Refused(stream_number(&sid.0))),
        Ok(ControlPacket::End(sid)) => Ok(TunnelPacket::End(stream_number(&sid.0))),
        Ok(ControlPacket::Ping) => Ok(TunnelPacket::Ping),
        Err(e) => Err(e),
    }
}

/// What an event on a client's connection calls for.
pub enum MessageAction {
    /// The message goes to the peer of the stream, whatever comes of it.
    Forward(StreamId, StreamMessage),
    /// The next event is awaited.
    Next,
    /// The client is gone.
    Stop,
}

/// One step on a client's connection.
pub open spec fn message_step(
    active_streams: ActiveStreams,
    event: ReadEvent,
    action: MessageAction,
) -> bool {
    match message_of(event) {
        None => action == MessageAction::Stop,
        Some(message) => exists|r: Result<TunnelPacket, PacketError>|
            #![trigger message_says(message@, r)]
            message_says(message@, r) && action == (match r {
                Ok(packet) => match routed(packet) {
                    Some((sid, m)) => if active_streams.streams().contains_key(sid.uuid) {
                        MessageAction::Forward(sid, m)
                    } else {
                        MessageAction::Next
                    },
                    None => MessageAction::Next,
                },
                Err(_) => MessageAction::Next,
            }),
    }
}

/// What follows an event on a client's connection. Only what is for a stream in the table is
/// forwarded.
pub fn process_client_messages(active_streams: &ActiveStreams, event: ReadEvent) -> (action:
    MessageAction)
    requires
        active_streams.wf(),
    ensures
        message_step(*active_streams, event, action),
{
    let message = match read_message(event) {
        Some(message) => message,
        None => {
            return MessageAction::Stop;
        },
    };
    let read = read_packet(message.as_slice());
    assert(message_says(message@, read));
    match read {
        Ok(packet) => match route_packet(packet) {
            Some((stream_id, m)) => {
                if active_streams.get(&stream_id).is_some() {
                    MessageAction::Forward(stream_id, m)
                } else {
                    MessageAction::Next
                }
            },
            None => MessageAction::Next,
        },
        Err(_) => MessageAction::Next,
    }
}

/// What happens to the queue of packets for a client.
pub enum QueueEvent {
    /// A packet was taken from the queue; `None` means that the queue was closed.
    Packet(Option<ControlPacket>),
    /// The last packet was sent, or could not be.
    Sent(bool),
}

/// What is done next with the queue.
pub enum QueueAction {
    /// Sends the bytes, and reports how that went.
    Send(Vec<u8>),
    /// Takes the next packet.
    Next,
    /// Stops, and drops the client.
    Stop,
}

/// One step on the queue of packets for a client.
pub open spec fn queue_step(event: QueueEvent, action: QueueAction) -> bool {
    match event {
        QueueEvent::Packet(Some(p)) => action matches QueueAction::Send(bytes) && bytes@
            == packet_bytes(p@),
        QueueEvent::Packet(None) => action == QueueAction::Stop,
        QueueEvent::Sent(ok) => action == (if ok {
            QueueAction::Next
        } else {
            QueueAction::Stop
        }),
    }
}

/// What follows an event on the queue of packets for a client.
pub fn tunnel_client(event: QueueEvent) -> (action: QueueAction)
    ensures
        queue_step(event, action),
{
    match event {
        QueueEvent::Packet(Some(p)) => QueueAction::Send(p.serialize()),
        QueueEvent::Packet(None) => QueueAction::Stop,
        QueueEvent::Sent(ok) => {
            if ok {
                QueueAction::Next
            } else {
                QueueAction::Stop
            }
        },
    }
}

/// The packet that opens a stream at the client.
pub fn send_client_stream_init(stream_id: StreamId) -> (packet: TunnelPacket)
    ensures
        packet == TunnelPacket::Init(stream_id),
{
    TunnelPacket::Init(stream_id)
}

/// The number that `n` bytes make lies below this.
spec fn bound(n: nat) -> int
    decreases n,
{
    if n == 0 {
        1
    } else {
        256 * bound((n - 1) as nat)
    }
}

proof fn lemma_big_endian_bound(bytes: Seq<u8>)
    ensures
        0 <= big_endian(bytes) < bound(bytes.len()),
    decreases bytes.len(),
{
    if bytes.len() > 0 {
        lemma_big_endian_bound(bytes.drop_last());
    }
}

/// Of two texts of as many bytes, the one whose first different byte is greater makes the greater
/// number: the first byte counts most.
pub proof fn law_first_byte_counts_most(a: Seq<u8>, b: Seq<u8>, i: int)
    requires
        a.len() == b.len(),
        0 <= i < a.len(),
        forall|j: int| 0 <= j < i ==> #[trigger] a[j] == b[j],
        a[i] < b[i],
    ensures
        big_endian(a) < big_endian(b),
    decreases a.len(),
{
    let x = a.drop_last();
    let y = b.drop_last();
    if i == a.len() - 1 {
        assert(x =~= y);
    } else {
        law_first_byte_counts_most(x, y, i);
    }
}

/// Different identifiers of eight bytes are different streams.
pub proof fn law_identifiers_are_told_apart(a: Seq<u8>, b: Seq<u8>)
    requires
        a.len() == 8,
        b.len() == 8,
        numbered(a) == numbered(b),
    ensures
        a == b,
{
    reveal_with_fuel(bound, 9);
    lemma_big_endian_bound(a);
    lemma_big_endian_bound(b);
    if a != b {
        let i = lemma_first_difference(a, b);
        if a[i] < b[i] {
            law_first_byte_counts_most(a, b, i);
        } else {
            law_first_byte_counts_most(b, a, i);
        }
    }
}

proof fn lemma_first_difference(a: Seq<u8>, b: Seq<u8>) -> (i: int)
    requires
        a.len() == b.len(),
        a != b,
    ensures
        0 <= i < a.len(),
        a[i] != b[i],
        forall|j: int| 0 <= j < i ==> #[trigger] a[j] == b[j],
    decreases a.len(),
{
    if a.len() == 0 {
        assert(a =~= b);
        0
    } else {
        let x = a.drop_last();
        let y = b.drop_last();
        if x == y {
            assert forall|j: int| 0 <= j < a.len() - 1 implies #[trigger] a[j] == b[j] by {
                assert(x[j] == y[j]);
            }
            if a.last() == b.last() {
                assert(a =~= b);
            }
            a.len() - 1
        } else {
            let i = lemma_first_difference(x, y);
            assert(x[i] == a[i] && y[i] == b[i]);
            assert forall|j: int| 0 <= j < i implies #[trigger] a[j] == b[j] by {
                assert(x[j] == y[j]);
            }
            i
        }
    }
}

} // verus!
