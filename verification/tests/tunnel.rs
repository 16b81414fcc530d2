use ownserver::client::handshake::TokenResponse;
use ownserver::client::local::{
    forward_to_local, LocalReadEvent, LocalWriteAction, LocalWriteEvent,
};
use ownserver::client::{Error, StreamMessage as LocalMessage};
use ownserver::id::{ClientId, EndpointId, StreamId};
use ownserver::port_allocator::PortAllocator;
use ownserver::protocol::PeerAddr;
use ownserver::server::client::Delivery;
use ownserver::server::reader::{ClientAction, ClientEvent};
use ownserver::server::stream::{
    RemoteStep, RemoteStream, RemoteTcp, StreamMessage, TcpReadEvent,
};
use ownserver::server::{ClientStreamError, ProxyServerError};
use ownserver::tunnel::active_stream::{
    exit_reason, http_error_locating_host_response, http_not_found_response,
    http_tunnel_refused_response, tunnel_to_stream, ActiveStream, ActiveStreams, SinkAction,
    SinkEvent, TunnelToStreamExitReason,
};
use ownserver::tunnel::client::{
    process_control_flow_message, process_local_tcp, process_local_udp, process_packet, run,
    send_client_hello, setup_new_stream, tunnel_url, verify_server_hello, ConnectAction,
    ConnectEvent, FlowAction, LocalAction, ServerReply, Store as ClientStore, TunnelRun,
    CLOSE_DELAY_SECS,
};
use ownserver::tunnel::connections::{ConnectedClient, Connections};
use ownserver::tunnel::control::{
    complete_handshake, handle_new_connection, host_name_text, listen_addr, process_client_messages,
    read_client_hello, read_packet, route_packet, send_client_stream_init, try_client_handshake,
    tunnel_client, verify_client_handshake, ClientHandshake, FirstMessage, MessageAction,
    QueueAction, QueueEvent, VerifyClientHandshakeError,
};
use ownserver::tunnel::packet::{ControlPacket, PacketError, StreamId as ByteId};
use ownserver::tunnel::reader::{client_read_loop, tcp_read_loop, TcpReadAction};
use ownserver::tunnel::remote::{
    accept_connection, process_tcp_stream, Accepted, TcpAction, TcpEvent,
};
use ownserver::tunnel::store::{Client, Store};
use ownserver::tunnel::udp::{process_udp_stream, UdpAction, UdpEvent};
use ownserver::tunnel::{parse_payload, ClientHello, Config, Payload, ServerHello, TunnelPacket};
use ownserver::ws::{Frame, ReadEvent};
use rand::rngs::StdRng;
use rand::SeedableRng;

fn setup() -> (Connections, ConnectedClient, ClientId) {
    let conn = Connections::new();
    let client_id = ClientId::new();
    let client = ConnectedClient { id: client_id, host: "foobar".into() };
    (conn, client, client_id)
}

#[test]
fn connections_clients_should_be_empty() {
    let (conn, _, client_id) = setup();

    assert!(conn.get(&client_id).is_none());
}

#[test]
fn connections_hosts_should_be_empty() {
    let (conn, _, _) = setup();

    assert!(conn.find_by_host(&"foobar".to_owned()).is_none());
}

#[test]
fn connections_client_should_be_registered() {
    let (mut conn, client, client_id) = setup();

    conn.add(client);

    assert_eq!(conn.get(&client_id).unwrap().id, client_id);
}

#[test]
fn connections_hosts_should_be_registered() {
    let (mut conn, client, client_id) = setup();

    conn.add(client);

    assert_eq!(conn.find_by_host(&"foobar".to_owned()).unwrap().id, client_id);
}

#[test]
fn connections_client_should_be_empty_after_remove() {
    let (mut conn, client, client_id) = setup();

    conn.add(client.duplicate());
    conn.remove(&client);

    assert!(conn.get(&client_id).is_none());
}

#[test]
fn connections_hosts_should_be_empty_after_remove() {
    let (mut conn, client, _) = setup();

    conn.add(client.duplicate());
    conn.remove(&client);

    assert!(conn.find_by_host(&"foobar".to_owned()).is_none());
}

#[test]
fn connections_hosts_ignore_multiple_add() {
    let (mut conn, client, _) = setup();

    conn.add(client.duplicate());
    conn.add(client.duplicate());
    conn.add(client.duplicate());

    assert_eq!(conn.len_clients(), 1);
    assert_eq!(conn.len_hosts(), 1);
}

#[test]
fn connections_hosts_ignore_multiple_remove() {
    let (mut conn, client, _) = setup();

    conn.add(client.duplicate());
    conn.remove(&client);
    conn.remove(&client);
    conn.remove(&client);

    assert_eq!(conn.len_clients(), 0);
    assert_eq!(conn.len_hosts(), 0);
}

#[test]
fn connections_should_clear() {
    let (mut conn, client, _) = setup();

    conn.add(client);
    conn.clear();

    assert_eq!(conn.len_clients(), 0);
    assert_eq!(conn.len_hosts(), 0);
}

fn insert_twice(addr: PeerAddr) {
    let mut active_streams = ActiveStreams::default();

    let stream_id = StreamId::new();
    let client_id = ClientId::new();
    let client = ConnectedClient::new(client_id, "host".to_string());
    let active_stream = ActiveStream::new(client);

    assert!(active_streams.insert(stream_id, active_stream, addr).is_none());

    let stream_id2 = StreamId::new();
    let client_id2 = ClientId::new();
    let client = ConnectedClient::new(client_id2, "host".to_string());
    let active_stream = ActiveStream::new(client);
    assert!(active_streams.insert(stream_id2, active_stream, addr).is_none());
    assert_eq!(active_streams.find_by_addr(&addr).unwrap().client.id, client_id2);
    assert_eq!(active_streams.len_addrs(), 1);
    assert_eq!(active_streams.len(), 2);
}

#[test]
fn test_insert() {
    insert_twice(PeerAddr::v4(0x7F000001, 12345));
}

#[test]
fn test_insert_v6() {
    insert_twice(PeerAddr::v6(0xFFFF_7F00_0001, 64977));
}

#[test]
fn active_streams_are_a_table() {
    let mut streams = ActiveStreams::default();
    assert!(streams.is_empty());
    let stream = ActiveStream::new(ConnectedClient::new(ClientId { uuid: 1 }, "h".to_string()));
    let id = stream.id;
    assert_eq!(stream.client_id(), ClientId { uuid: 1 });
    let addr = PeerAddr::v4(1, 2);
    assert!(streams.insert(id, stream, addr).is_none());
    let twin = ActiveStream::new(ConnectedClient::new(ClientId { uuid: 2 }, "h".to_string()));
    assert_eq!(streams.insert(id, twin, addr).unwrap().client.id, ClientId { uuid: 1 });
    assert_eq!(streams.get(&id).unwrap().client.id, ClientId { uuid: 2 });
    assert_eq!(streams.iter(), vec![id.uuid]);
    assert!(!streams.is_empty());
    assert_eq!(streams.remove(&id).unwrap().0, id);
    assert!(streams.remove(&id).is_none());
    assert!(streams.find_by_addr(&addr).is_none());
    streams.clear();
    assert_eq!(streams.len(), 0);
}

fn config() -> Config {
    Config {
        control_port: 5000,
        token_secret: "supersecret".to_string(),
        host: "foohost.test.local".to_string(),
        remote_port_start: 10010,
        remote_port_end: 10011,
    }
}

fn hello(version: u16) -> ClientHello {
    ClientHello { version, token: "jwt".to_string(), payload: Payload::Other }
}

fn host(name: &str) -> Option<String> {
    Some(name.to_string())
}

#[test]
fn control_server_accept_client_hello() {
    let r = verify_client_handshake(Some(&config()), Some(hello(2)), host("foohost.test.local"));
    assert_eq!(r, Ok(Payload::Other));
}

#[test]
fn control_server_reject_invalid_text_hello() {
    let r = verify_client_handshake(Some(&config()), None, None);
    assert_eq!(r.err().unwrap(), VerifyClientHandshakeError::InvalidClientHello);
}

#[test]
fn control_server_reject_invalid_serialized_hello() {
    let r = verify_client_handshake(Some(&config()), None, host("foohost.test.local"));
    assert_eq!(r.err().unwrap(), VerifyClientHandshakeError::InvalidClientHello);
}

#[test]
fn control_server_reject_invalid_jwt() {
    let r = verify_client_handshake(Some(&config()), Some(hello(2)), None);
    assert_eq!(r.err().unwrap(), VerifyClientHandshakeError::InvalidJWT);
}

#[test]
fn control_server_reject_illegal_host() {
    let r = verify_client_handshake(Some(&config()), Some(hello(2)), host("other.host.test.local"));
    assert_eq!(r.err().unwrap(), VerifyClientHandshakeError::IllegalHost);
}

#[test]
fn control_server_reject_when_config_not_initialized() {
    let r = verify_client_handshake(None, Some(hello(2)), host("foohost.test.local"));
    assert_eq!(
        r.err().unwrap(),
        VerifyClientHandshakeError::Other(ProxyServerError::ConfigNotInitialized)
    );
}

#[test]
fn control_server_reject_when_version_mismatch() {
    let r = verify_client_handshake(Some(&config()), Some(hello(2)), host("foohost.test.local"));
    assert!(r.is_ok());
    let r = verify_client_handshake(Some(&config()), Some(hello(1)), host("foohost.test.local"));
    assert_eq!(r.err().unwrap(), VerifyClientHandshakeError::VersionMismatch);
}

#[test]
fn handshake_errors_in_words() {
    let text = |e: VerifyClientHandshakeError| e.to_string();
    assert_eq!(
        text(VerifyClientHandshakeError::Other(ProxyServerError::ConfigNotInitialized)),
        "Other internal error: Failed to load config because it is not initialized.."
    );
    assert_eq!(
        text(VerifyClientHandshakeError::InvalidClientHello),
        "Failed to deserialize client hello."
    );
    assert_eq!(text(VerifyClientHandshakeError::InvalidJWT), "Failed to parse client jwt.");
    assert_eq!(
        text(VerifyClientHandshakeError::IllegalHost),
        "Client tried to access different host."
    );
    assert_eq!(
        text(VerifyClientHandshakeError::VersionMismatch),
        "Client sends unsupported client handshake version."
    );
}

#[test]
fn handshake_gives_the_only_port_once() {
    let mut rng = StdRng::from_entropy();
    let mut alloc = PortAllocator::new(10010..10011);
    let config = config();
    let message = |h: &str| {
        Some(FirstMessage { client_hello: Some(hello(2)), auth_host: Some(h.to_string()) })
    };
    assert!(try_client_handshake(None, &mut alloc, &mut rng, message("x")).is_none());
    assert!(try_client_handshake(Some(&config), &mut alloc, &mut rng, None).is_none());
    let refused = try_client_handshake(Some(&config), &mut alloc, &mut rng, message("x")).unwrap();
    assert_eq!(refused.hello, ServerHello::IllegalHost);
    assert!(complete_handshake(refused, true).is_none());
    assert_eq!(alloc.available_len(), 1);

    let own = "foohost.test.local";
    let taken = try_client_handshake(Some(&config), &mut alloc, &mut rng, message(own)).unwrap();
    let handshake = taken.handshake.unwrap();
    assert_eq!(handshake.port, 10010);
    assert_eq!(handshake.payload, Payload::Other);
    assert_eq!(
        taken.hello,
        ServerHello::Success {
            client_id: handshake.id,
            remote_addr: "foohost.test.local:10010".to_string()
        }
    );
    assert_eq!(complete_handshake(taken, false), None);
    let full = try_client_handshake(Some(&config), &mut alloc, &mut rng, message(own)).unwrap();
    assert_eq!(full.hello, ServerHello::ServiceTemporaryUnavailable);
    assert!(full.handshake.is_none());
}

#[test]
fn received_client_gets_a_host_name() {
    let mut conn = Connections::new();
    let handshake = ClientHandshake { id: ClientId { uuid: 5 }, payload: Payload::UDP, port: 1234 };
    assert_eq!(host_name_text(1234), "host-foobar-1234");
    assert_eq!(listen_addr(1234), "[::]:1234");
    assert!(handle_new_connection(&mut conn, handshake, false).is_none());
    assert_eq!(conn.len_clients(), 0);
    let client = handle_new_connection(&mut conn, handshake, true).unwrap();
    assert_eq!(client.host, "host-foobar-1234");
    assert_eq!(conn.find_by_host("host-foobar-1234").unwrap().id, ClientId { uuid: 5 });
}

fn byte_id(n: u8) -> ByteId {
    ByteId([0, 0, 0, 0, 0, 0, 1, n])
}

fn streams_with(uuid: u128) -> ActiveStreams {
    let mut streams = ActiveStreams::default();
    let stream = ActiveStream::new(ConnectedClient::new(ClientId { uuid: 1 }, "h".to_string()));
    streams.insert(StreamId { uuid }, stream, PeerAddr::v4(1, 1));
    streams
}

fn message(packet: ControlPacket) -> ReadEvent {
    ReadEvent::Received(Frame::Binary(packet.serialize()))
}

#[test]
fn discard_control_packet_data_no_active_stream() {
    let streams = ActiveStreams::default();
    let event = message(ControlPacket::Data(byte_id(2), b"foobarbaz".to_vec()));
    assert!(matches!(process_client_messages(&streams, event), MessageAction::Next));
}

#[test]
fn forward_control_packet_data_to_appropriate_stream() {
    let streams = streams_with(0x102);
    let event = message(ControlPacket::Data(byte_id(2), b"foobarbaz".to_vec()));
    assert!(matches!(
        process_client_messages(&streams, event),
        MessageAction::Forward(s, StreamMessage::Data(d)) if s.uuid == 0x102 && d == b"foobarbaz"
    ));
}

#[test]
fn forward_control_packet_refused_to_appropriate_stream() {
    let streams = streams_with(0x102);
    let event = message(ControlPacket::Refused(byte_id(2)));
    assert!(matches!(
        process_client_messages(&streams, event),
        MessageAction::Forward(s, StreamMessage::TunnelRefused) if s.uuid == 0x102
    ));
}

#[test]
fn close_stream_remove_client() {
    let streams = streams_with(0x102);
    let event = ReadEvent::Received(Frame::Close(vec![]));
    assert!(matches!(process_client_messages(&streams, event), MessageAction::Stop));
}

#[test]
fn messages_that_are_not_forwarded() {
    let streams = streams_with(0x102);
    for p in [ControlPacket::Init(byte_id(2)), ControlPacket::End(byte_id(2)), ControlPacket::Ping] {
        assert!(matches!(process_client_messages(&streams, message(p)), MessageAction::Next));
    }
    let broken = ReadEvent::Received(Frame::Binary(vec![1, 2]));
    assert!(matches!(process_client_messages(&streams, broken), MessageAction::Next));
    assert!(matches!(process_client_messages(&streams, ReadEvent::Ended), MessageAction::Stop));
    assert_eq!(read_packet(&[1, 2]), Err(PacketError::MissingStreamId));
    assert_eq!(
        read_packet(&ControlPacket::Init(ByteId([0xFF; 8])).serialize()),
        Ok(TunnelPacket::Init(StreamId { uuid: u64::MAX as u128 }))
    );
    let udp = TunnelPacket::UdpData(StreamId { uuid: 1 }, vec![1]);
    assert_eq!(route_packet(udp), Some((StreamId { uuid: 1 }, StreamMessage::Data(vec![1]))));
    assert_eq!(read_client_hello(ReadEvent::Failed), None);
}

#[test]
fn forward_control_packet_to_websocket() {
    let id = ByteId::generate();
    let payload = match tunnel_client(QueueEvent::Packet(Some(ControlPacket::Init(id)))) {
        QueueAction::Send(payload) => payload,
        _ => panic!("nothing is sent"),
    };
    assert_eq!(ControlPacket::deserialize(&payload), Ok(ControlPacket::Init(id)));
    assert!(matches!(tunnel_client(QueueEvent::Sent(true)), QueueAction::Next));
    assert!(matches!(tunnel_client(QueueEvent::Sent(false)), QueueAction::Stop));
    assert!(matches!(tunnel_client(QueueEvent::Packet(None)), QueueAction::Stop));
}

#[test]
fn remote_must_exit_from_loop_when_tcp_raises_error() {
    let data = SinkEvent::Message(Some(StreamMessage::Data(b"foobar".to_vec())));
    assert!(matches!(tunnel_to_stream(data), SinkAction::Write(d) if d == b"foobar"));
    let action = tunnel_to_stream(SinkEvent::Written(false));
    assert_eq!(exit_reason(&action), Some(TunnelToStreamExitReason::TcpClosed));
}

#[test]
fn tcp_stream_must_shutdown_when_queue_is_closed() {
    let action = tunnel_to_stream(SinkEvent::Message(None));
    assert!(matches!(action, SinkAction::Close(None)));
    assert_eq!(exit_reason(&action), Some(TunnelToStreamExitReason::QueueClosed));
}

#[test]
fn remote_tcp_stream_must_shutdown_when_tunnel_refused() {
    let action = tunnel_to_stream(SinkEvent::Message(Some(StreamMessage::TunnelRefused)));
    assert_eq!(exit_reason(&action), Some(TunnelToStreamExitReason::QueueClosed));
    assert!(matches!(
        action,
        SinkAction::Close(Some(r))
            if r == b"HTTP/1.1 500\r\nContent-Length: 32\r\n\r\nTunnel says: connection refused."
    ));
}

#[test]
fn remote_tcp_stream_must_shutdown_when_no_client_tunnel() {
    let action = tunnel_to_stream(SinkEvent::Message(Some(StreamMessage::NoClientTunnel)));
    assert_eq!(exit_reason(&action), Some(TunnelToStreamExitReason::QueueClosed));
    assert!(matches!(
        action,
        SinkAction::Close(Some(r))
            if r == b"HTTP/1.1 404\r\nContent-Length: 23\r\n\r\nError: Tunnel Not Found"
    ));
}

#[test]
fn remote_forward_data() {
    let data = SinkEvent::Message(Some(StreamMessage::Data(b"foobarbaz".to_vec())));
    let action = tunnel_to_stream(data);
    assert_eq!(exit_reason(&action), None);
    assert!(matches!(action, SinkAction::Write(d) if d == b"foobarbaz"));
    assert!(matches!(tunnel_to_stream(SinkEvent::Written(true)), SinkAction::Next));

    let (mut conn, client, mut stream) = started();
    conn.add(client);
    let id = stream.id;
    assert!(matches!(
        process_tcp_stream(&mut conn, &mut stream, TcpEvent::Started),
        TcpAction::SendInit(TunnelPacket::Init(s)) if s == id
    ));
    let read = TcpEvent::Read(b"foobar".to_vec());
    assert!(matches!(
        process_tcp_stream(&mut conn, &mut stream, read),
        TcpAction::Send(TunnelPacket::Data(s, d)) if s == id && d == b"foobar".to_vec()
    ));
    assert!(matches!(
        process_tcp_stream(&mut conn, &mut stream, TcpEvent::Read(vec![])),
        TcpAction::SendAndStop(TunnelPacket::End(s)) if s == id
    ));
}

fn listed_stream() -> (ActiveStreams, ActiveStream) {
    let mut streams = ActiveStreams::default();
    let stream = ActiveStream::new(ConnectedClient::new(ClientId { uuid: 1 }, "h".to_string()));
    let twin = ActiveStream {
        id: stream.id,
        client: ConnectedClient::new(ClientId { uuid: 1 }, "h".to_string()),
        closed: false,
    };
    streams.insert(stream.id, twin, PeerAddr::v4(1, 1));
    (streams, stream)
}

#[test]
fn active_stream_must_exit_from_loop_when_tcp_raises_error() {
    let (mut streams, mut stream) = listed_stream();
    let data = SinkEvent::Message(Some(StreamMessage::Data(b"foobar".to_vec())));
    let _ = stream.write_loop(&mut streams, data);
    assert!(!stream.is_closed());
    let _ = stream.write_loop(&mut streams, SinkEvent::Written(false));
    assert!(stream.is_closed());
    assert!(streams.is_empty());
}

#[test]
fn active_stream_tcp_stream_must_shutdown_when_tunnel_refused() {
    let (mut streams, mut stream) = listed_stream();
    let event = SinkEvent::Message(Some(StreamMessage::TunnelRefused));
    let _ = stream.write_loop(&mut streams, event);
    assert!(stream.is_closed());
    assert!(streams.is_empty());
}

#[test]
fn active_stream_tcp_stream_must_shutdown_when_no_client_tunnel() {
    let (mut streams, mut stream) = listed_stream();
    let event = SinkEvent::Message(Some(StreamMessage::NoClientTunnel));
    let _ = stream.write_loop(&mut streams, event);
    assert!(stream.is_closed());
    assert!(streams.is_empty());
}

#[test]
fn active_stream_forward_data() {
    let (mut streams, mut stream) = listed_stream();
    let event = SinkEvent::Message(Some(StreamMessage::Data(b"foobarbaz".to_vec())));
    assert!(matches!(
        stream.write_loop(&mut streams, event),
        SinkAction::Write(d) if d == b"foobarbaz"
    ));
    assert!(matches!(
        stream.write_loop(&mut streams, SinkEvent::Written(true)),
        SinkAction::Next
    ));
    assert_eq!(streams.len(), 1);
}

#[test]
fn connection_to_an_unknown_host() {
    let (mut conn, client, id) = setup();
    let mut streams = ActiveStreams::default();
    let peer = PeerAddr::v4(3, 4);
    assert!(matches!(
        accept_connection(&conn, &mut streams, "foobar", peer),
        Accepted::NoClient(r) if r == http_error_locating_host_response()
    ));
    assert!(streams.is_empty());
    conn.add(client);
    match accept_connection(&conn, &mut streams, "foobar", peer) {
        Accepted::Stream(s) => {
            assert_eq!(s.client.id, id);
            assert_eq!(streams.find_by_addr(&peer).unwrap().id, s.id);
        }
        _ => panic!("the client is not found"),
    }
    assert_eq!(
        http_error_locating_host_response(),
        b"HTTP/1.1 500\r\nContent-Length: 27\r\n\r\nError: Error finding tunnel".to_vec()
    );
    assert_ne!(http_not_found_response(), http_tunnel_refused_response());
}

fn started() -> (Connections, ConnectedClient, ActiveStream) {
    let (conn, client, _) = setup();
    let stream = ActiveStream::new(client.duplicate());
    (conn, client, stream)
}

#[test]
fn send_stream_init() {
    let (mut conn, _, mut stream) = started();
    let id = stream.id;
    assert!(matches!(
        process_tcp_stream(&mut conn, &mut stream, TcpEvent::Started),
        TcpAction::SendInit(TunnelPacket::Init(s)) if s == id
    ));
    assert_eq!(send_client_stream_init(id), TunnelPacket::Init(id));
}

#[test]
fn send_noclienttunnel_to_remote_when_client_not_registered() {
    let (mut conn, _, mut stream) = started();
    assert!(matches!(
        process_tcp_stream(&mut conn, &mut stream, TcpEvent::InitSent(true)),
        TcpAction::NoClient
    ));
    assert!(stream.is_closed());
}

#[test]
fn send_stream_end() {
    let (mut conn, client, mut stream) = started();
    conn.add(client);
    let id = stream.id;
    assert!(matches!(
        process_tcp_stream(&mut conn, &mut stream, TcpEvent::InitSent(true)),
        TcpAction::Read
    ));
    assert!(matches!(
        process_tcp_stream(&mut conn, &mut stream, TcpEvent::Read(vec![])),
        TcpAction::SendAndStop(TunnelPacket::End(s)) if s == id
    ));
}

#[test]
fn stop_wait_read_when_tunnel_stream_is_closed() {
    let (mut conn, client, mut stream) = started();
    conn.add(client);
    assert!(matches!(
        process_tcp_stream(&mut conn, &mut stream, TcpEvent::Started),
        TcpAction::SendInit(_)
    ));
    assert!(matches!(
        process_tcp_stream(&mut conn, &mut stream, TcpEvent::InitSent(false)),
        TcpAction::Stop
    ));
}

#[test]
fn tunnel_forwards_what_is_read() {
    let (mut conn, client, mut stream) = started();
    conn.add(client);
    let id = stream.id;
    assert!(matches!(
        process_tcp_stream(&mut conn, &mut stream, TcpEvent::Read(b"foobar".to_vec())),
        TcpAction::Send(TunnelPacket::Data(s, d)) if s == id && d == b"foobar"
    ));
    assert!(matches!(
        process_tcp_stream(&mut conn, &mut stream, TcpEvent::Sent(true)),
        TcpAction::Read
    ));
    assert!(matches!(
        process_tcp_stream(&mut conn, &mut stream, TcpEvent::ReadError),
        TcpAction::Stop
    ));
    stream.close_channel();
    assert!(matches!(
        process_tcp_stream(&mut conn, &mut stream, TcpEvent::Read(b"foobar".to_vec())),
        TcpAction::Stop
    ));
}

#[test]
fn failed_to_send_stream_init_when_client_closed() {
    let (mut conn, client, mut stream) = started();
    conn.add(client);
    assert!(matches!(
        process_tcp_stream(&mut conn, &mut stream, TcpEvent::InitSent(false)),
        TcpAction::Stop
    ));
}

#[test]
fn client_that_takes_no_packet_is_dropped() {
    let (mut conn, client, mut stream) = started();
    conn.add(client);
    assert!(matches!(
        process_tcp_stream(&mut conn, &mut stream, TcpEvent::Sent(false)),
        TcpAction::NoClient
    ));
    assert_eq!((conn.len_clients(), conn.len_hosts()), (0, 0));
    assert!(stream.is_closed());
}

fn flow(store: &ClientStore, packet: TunnelPacket) -> Result<FlowAction, String> {
    let expected = packet.clone();
    let (action, given) = process_packet(store, packet)?;
    assert_eq!(given, expected);
    Ok(action)
}

#[test]
fn handle_control_packet_init() {
    let mut store = ClientStore::default();
    let id = StreamId { uuid: 3 };
    assert_eq!(store.len_stream(), 0);
    assert!(matches!(
        flow(&store, TunnelPacket::Init(id)),
        Ok(FlowAction::SetUp(s)) if s == id
    ));
    assert_eq!(setup_new_stream(&mut store, id, true), None);
    assert_eq!(store.len_stream(), 1);
    assert!(matches!(flow(&store, TunnelPacket::Init(id)), Ok(FlowAction::Nothing)));
}

#[test]
fn handle_control_packet_ping() {
    let store = ClientStore::default();
    assert!(matches!(
        flow(&store, TunnelPacket::Ping),
        Ok(FlowAction::Reply(TunnelPacket::Ping))
    ));
}

#[test]
fn refused_packet_is_unexpected() {
    let store = ClientStore::default();
    assert_eq!(
        flow(&store, TunnelPacket::Refused(StreamId { uuid: 3 })).err().unwrap(),
        "unexpected control packet"
    );
    assert_eq!(
        process_control_flow_message(&store, &[1, 2]).err().unwrap(),
        "invalid DataPacket, missing stream id"
    );
    assert_eq!(
        process_control_flow_message(&store, &[9; 9]).err().unwrap(),
        "invalid control byte in DataPacket"
    );
}

#[test]
#[should_panic(expected = "ControlPacket::Refused may be unimplemented")]
fn handle_control_packet_refused() {
    let store = ClientStore::default();
    let result = flow(&store, TunnelPacket::Refused(StreamId { uuid: 3 }));
    assert!(result.is_ok(), "ControlPacket::Refused may be unimplemented");
}

#[test]
fn handle_control_packet_end() {
    let mut store = ClientStore::default();
    let id = StreamId { uuid: 3 };
    assert!(matches!(flow(&store, TunnelPacket::End(id)), Ok(FlowAction::Nothing)));
    store.add_stream(id);
    assert!(matches!(flow(&store, TunnelPacket::End(id)), Ok(FlowAction::CloseLater(s)) if s == id));
    assert_eq!(store.len_stream(), 1);
    assert!(store.remove_stream(&id));
    assert!(!store.remove_stream(&id));
    assert_eq!(store.len_stream(), 0);
}

#[test]
fn handle_control_packet_data() {
    let mut store = ClientStore::default();
    let id = StreamId { uuid: 3 };
    store.add_stream(id);
    assert!(matches!(
        flow(&store, TunnelPacket::Data(id, b"some message 1".to_vec())),
        Ok(FlowAction::Forward(s, LocalMessage::Data(d))) if s == id && d == b"some message 1"
    ));
    assert!(matches!(
        flow(&store, TunnelPacket::UdpData(id, vec![1])),
        Ok(FlowAction::Forward(s, LocalMessage::Data(d))) if s == id && d == vec![1]
    ));
}

#[test]
fn handle_control_packet_data_refused() {
    let mut store = ClientStore::default();
    let id = StreamId { uuid: 3 };
    assert!(matches!(
        flow(&store, TunnelPacket::Data(id, b"some message 2".to_vec())),
        Ok(FlowAction::Refuse(TunnelPacket::Refused(s))) if s == id
    ));
    assert!(matches!(
        flow(&store, TunnelPacket::UdpData(id, vec![1])),
        Ok(FlowAction::SetUpUdp(s, d)) if s == id && d == vec![1]
    ));
    assert_eq!(setup_new_stream(&mut store, id, false), Some(TunnelPacket::Refused(id)));
    assert!(!store.has_stream(&id));
}

#[test]
fn it_sends_client_hello() {
    let hello = send_client_hello("footoken".to_string(), Payload::UDP);
    assert_eq!((hello.version, hello.token.as_str(), hello.payload), (2, "footoken", Payload::UDP));
    assert_eq!(parse_payload("udp"), Payload::UDP);
    assert_eq!(parse_payload("other"), Payload::Other);
    assert_eq!(parse_payload("UDP"), Payload::Other);
}

#[test]
fn bytes_are_processed_as_packets() {
    let mut store = ClientStore::default();
    let init = ControlPacket::Init(byte_id(3)).serialize();
    assert!(matches!(
        process_control_flow_message(&store, &init),
        Ok((FlowAction::SetUp(s), TunnelPacket::Init(t))) if s.uuid == 0x103 && t == s
    ));
    store.add_stream(StreamId { uuid: 0x103 });
    let data = ControlPacket::Data(byte_id(3), b"some message 1".to_vec()).serialize();
    assert!(matches!(
        process_control_flow_message(&store, &data),
        Ok((FlowAction::Forward(s, LocalMessage::Data(d)), TunnelPacket::Data(t, e)))
            if s.uuid == 0x103 && d == b"some message 1" && t == s && e == d
    ));
    assert!(matches!(
        process_control_flow_message(&store, &ControlPacket::Ping.serialize()),
        Ok((FlowAction::Reply(TunnelPacket::Ping), TunnelPacket::Ping))
    ));
}

#[test]
fn end_of_a_tunnel_client() {
    assert_eq!(run(Some(()), Some(Ok(()))), Ok(()));
    assert_eq!(run(Some(()), Some(Err(Error::Timeout))), Err(Error::Timeout));
    assert_eq!(run(None, Some(Ok(()))), Err(Error::JoinError));
    assert_eq!(run(Some(()), None), Err(Error::JoinError));
    assert_eq!(tunnel_url("foo.local", 5000), Ok("wss://foo.local:5000/tunnel".to_string()));
    assert_eq!(tunnel_url("foo.local", 443), Ok("wss://foo.local/tunnel".to_string()));
    assert_eq!(tunnel_url("", 443), Err(Error::InvalidUrl("empty host".to_string())));
}

#[test]
fn connection_of_a_tunnel_client_is_read() {
    let mut store = Store::default();
    let id = ClientId { uuid: 1 };
    let peer = PeerAddr::v4(1, 1);
    store.add_client(Client::new(id, "host".to_string()));
    let tcp = RemoteTcp::new(peer, id, EndpointId::default());
    let sid = tcp.stream_id;
    store.add_remote(RemoteStream::RemoteTcp(tcp), peer);
    let frame = ClientEvent::Read(ReadEvent::Received(Frame::Binary(vec![1])));
    assert!(matches!(
        client_read_loop(&mut store, id, frame),
        ClientAction::Decode(d) if d == vec![1]
    ));
    let data = TunnelPacket::Data(sid, b"foobarbaz".to_vec());
    assert!(matches!(
        client_read_loop(&mut store, id, ClientEvent::Decoded(Some(data.clone()))),
        ClientAction::Write(s, d) if s == sid && d == b"foobarbaz"
    ));
    assert!(matches!(
        client_read_loop(&mut store, id, ClientEvent::Written(sid, Ok(()))),
        ClientAction::Read
    ));
    assert!(matches!(
        client_read_loop(&mut store, id, ClientEvent::Decoded(Some(TunnelPacket::Refused(sid)))),
        ClientAction::ShutDown(s) if s == sid
    ));
    assert!(matches!(
        client_read_loop(&mut store, id, ClientEvent::Decoded(Some(data))),
        ClientAction::Read
    ));
    assert!(matches!(
        client_read_loop(&mut store, id, ClientEvent::Decoded(None)),
        ClientAction::Read
    ));
    assert!(matches!(
        client_read_loop(&mut store, id, ClientEvent::Read(ReadEvent::Ended)),
        ClientAction::Stop
    ));
    store.cleanup();
    assert_eq!(
        store.send_to_client(id, Delivery::Sent),
        Err(ClientStreamError::ClientNotAvailable(id))
    );
}

#[test]
fn replies_of_a_tunnel_server() {
    let id = ClientId { uuid: 2 };
    let hello = ServerHello::Success { client_id: id, remote_addr: "h:1".to_string() };
    let info = verify_server_hello(ServerReply::Hello(hello)).unwrap();
    assert_eq!((info.client_id, info.remote_addr.as_str()), (id, "h:1"));
    let error = |r| verify_server_hello(r).err().unwrap();
    assert_eq!(error(ServerReply::Nothing), Error::NoResponseFromServer);
    assert_eq!(error(ServerReply::Unreadable), Error::ServerReplyInvalid);
    assert_eq!(
        error(ServerReply::Failed("x".to_string())),
        Error::WebSocketError("x".to_string())
    );
    assert_eq!(error(ServerReply::Hello(ServerHello::BadRequest)), Error::BadRequest);
    assert_eq!(
        error(ServerReply::Hello(ServerHello::ServiceTemporaryUnavailable)),
        Error::ServiceTemporaryUnavailable
    );
    assert_eq!(error(ServerReply::Hello(ServerHello::IllegalHost)), Error::IllegalHost);
    assert_eq!(
        error(ServerReply::Hello(ServerHello::VersionMismatch)),
        Error::ClientHandshakeVersionMismatch
    );
    assert_eq!(
        error(ServerReply::Hello(ServerHello::InternalServerError)),
        Error::InternalServerError
    );
}

#[test]
fn tunnel_store_drops_what_is_disabled() {
    let mut store = Store::default();
    let id = ClientId { uuid: 1 };
    let peer = PeerAddr::v4(1, 1);
    assert_eq!(
        store.send_to_client(id, Delivery::Sent),
        Err(ClientStreamError::ClientNotAvailable(id))
    );
    store.add_client(Client::new(id, "host".to_string()));
    assert_eq!(store.send_to_client(id, Delivery::Sent), Ok(()));
    let tcp = RemoteTcp::new(peer, id, EndpointId::default());
    store.add_remote(RemoteStream::RemoteTcp(tcp), peer);
    store.cleanup();
    assert!(matches!(
        store.send_to_remote(tcp.stream_id, StreamMessage::Data(vec![1])),
        RemoteStep::Write(_)
    ));
    assert!(store.remote_written(tcp.stream_id, Err("x".to_string())).is_err());
    store.disable_remote(tcp.stream_id);
    store.disable_client(id);
    store.cleanup();
    assert_eq!(
        store.remote_written(tcp.stream_id, Ok(())),
        Err(ClientStreamError::StreamNotAvailable(tcp.stream_id))
    );
    assert_eq!(
        store.send_to_client(id, Delivery::Sent),
        Err(ClientStreamError::ClientNotAvailable(id))
    );
}

#[test]
fn datagrams_of_a_tunnel_find_their_stream() {
    let mut store = Store::default();
    let id = ClientId { uuid: 1 };
    let peer = PeerAddr::v4(5, 6);
    assert_eq!(store.find_stream_id_by_addr(&peer), None);
    let first = UdpEvent::Datagram(b"some bytes".to_vec(), peer);
    let opened = match process_udp_stream(&mut store, id, first) {
        UdpAction::Send(TunnelPacket::UdpData(sid, data)) => {
            assert_eq!(data, b"some bytes".to_vec());
            sid
        }
        _ => panic!("the datagram is not sent"),
    };
    assert_eq!(store.find_stream_id_by_addr(&peer), Some(opened));
    let second = UdpEvent::Datagram(vec![1], peer);
    assert!(matches!(
        process_udp_stream(&mut store, id, second),
        UdpAction::Send(TunnelPacket::UdpData(sid, _)) if sid == opened
    ));
    let empty = UdpEvent::Datagram(vec![], peer);
    assert!(matches!(
        process_udp_stream(&mut store, id, empty),
        UdpAction::Send(TunnelPacket::End(sid)) if sid == opened
    ));
    for event in [UdpEvent::Sent(false), UdpEvent::ReadError] {
        assert!(matches!(process_udp_stream(&mut store, id, event), UdpAction::Read));
    }
    assert!(matches!(
        process_udp_stream(&mut store, id, UdpEvent::Cancelled),
        UdpAction::Stop
    ));
    let tcp = RemoteTcp::new(PeerAddr::v4(7, 8), id, EndpointId::default());
    store.accept_connection2(tcp, false);
    assert_eq!(store.find_stream_id_by_addr(&PeerAddr::v4(7, 8)), None);
    store.accept_connection2(tcp, true);
    assert_eq!(store.find_stream_id_by_addr(&PeerAddr::v4(7, 8)), Some(tcp.stream_id));
}

fn granted(host: &str) -> ConnectEvent {
    let (token, host) = ("json.web.token".to_string(), host.to_string());
    ConnectEvent::Token(TokenResponse::Granted { token, host })
}

#[test]
fn tunnel_is_opened_with_what_the_token_server_gave() {
    let mut run = TunnelRun::new(5000, Payload::UDP);
    assert!(matches!(run.connect_step(ConnectEvent::Started), ConnectAction::FetchToken));
    assert!(matches!(
        run.connect_step(granted("foo.local")),
        ConnectAction::Connect(url) if url == "wss://foo.local:5000/tunnel"
    ));
    assert!(matches!(
        run.connect_step(ConnectEvent::Connected),
        ConnectAction::SendHello(hello)
            if hello.version == 2
                && hello.token == "json.web.token"
                && hello.payload == Payload::UDP
    ));
    assert!(matches!(run.connect_step(ConnectEvent::HelloSent), ConnectAction::AwaitReply));
    let id = ClientId { uuid: 2 };
    let hello = ServerHello::Success { client_id: id, remote_addr: "h:1".to_string() };
    assert!(matches!(
        run.connect_step(ConnectEvent::Replied(ServerReply::Hello(hello))),
        ConnectAction::Finish(Ok(info)) if info.client_id == id && info.remote_addr == "h:1"
    ));
}

#[test]
fn tunnel_that_cannot_be_opened() {
    let mut run = TunnelRun::new(5000, Payload::Other);
    let refused = TokenResponse::Refused { message: "failed to generate token".to_string() };
    assert!(matches!(
        run.connect_step(ConnectEvent::Token(refused)),
        ConnectAction::Fail(message) if message == "failed to generate token"
    ));
    assert!(matches!(
        run.connect_step(ConnectEvent::TokenFailed("unreachable".to_string())),
        ConnectAction::Fail(message) if message == "unreachable"
    ));
    assert!(matches!(run.connect_step(ConnectEvent::Connected), ConnectAction::FetchToken));
    let mut error = |event| match run.connect_step(event) {
        ConnectAction::Finish(Err(e)) => e,
        _ => panic!("the client goes on"),
    };
    assert_eq!(
        error(granted("foo bar")).to_string(),
        "invalid international domain name"
    );
    assert_eq!(error(ConnectEvent::ConnectFailed), Error::ServerDown);
    assert_eq!(
        error(ConnectEvent::HelloFailed("x".to_string())),
        Error::WebSocketError("x".to_string())
    );
    assert_eq!(
        error(ConnectEvent::Replied(ServerReply::Hello(ServerHello::IllegalHost))),
        Error::IllegalHost
    );
    assert_eq!(CLOSE_DELAY_SECS, 5);
}

#[test]
fn connection_of_a_tunnel_peer_is_read() {
    let mut store = Store::default();
    let peer = PeerAddr::v4(1, 1);
    let tcp = RemoteTcp::new(peer, ClientId { uuid: 1 }, EndpointId::default());
    let id = tcp.stream_id;
    store.accept_connection2(tcp, true);
    let mut step = |event| tcp_read_loop(&mut store, id, event);
    assert!(matches!(
        step(TcpReadEvent::Read(b"foobar".to_vec())),
        TcpReadAction::Send(TunnelPacket::Data(s, d)) if s == id && d == b"foobar"
    ));
    assert!(matches!(step(TcpReadEvent::Sent(true)), TcpReadAction::Read));
    assert!(matches!(
        step(TcpReadEvent::Read(vec![])),
        TcpReadAction::SendEnd(TunnelPacket::End(s)) if s == id
    ));
    assert!(matches!(step(TcpReadEvent::Cancelled), TcpReadAction::Stop));
    assert_eq!(store.find_stream_id_by_addr(&peer), Some(id));
    let stopped = tcp_read_loop(&mut store, id, TcpReadEvent::EndSent(true));
    assert!(matches!(stopped, TcpReadAction::Stop));
    assert_eq!(store.find_stream_id_by_addr(&peer), None);
}

#[test]
fn failures_end_the_connection_of_a_tunnel_peer() {
    for event in [
        TcpReadEvent::ReadError,
        TcpReadEvent::Sent(false),
        TcpReadEvent::EndSent(true),
        TcpReadEvent::EndSent(false),
    ] {
        let mut store = Store::default();
        let peer = PeerAddr::v4(1, 1);
        let tcp = RemoteTcp::new(peer, ClientId { uuid: 1 }, EndpointId::default());
        store.accept_connection2(tcp, true);
        assert!(matches!(
            tcp_read_loop(&mut store, tcp.stream_id, event),
            TcpReadAction::Stop
        ));
        assert_eq!(store.find_stream_id_by_addr(&peer), None);
    }
}

#[test]
fn nothing_follows_the_end_of_a_tunnel_stream() {
    let mut store = Store::default();
    let tcp = RemoteTcp::new(PeerAddr::v4(1, 1), ClientId { uuid: 1 }, EndpointId::default());
    let id = tcp.stream_id;
    store.accept_connection2(tcp, true);
    let reads = [b"foo".to_vec(), b"bar".to_vec(), vec![], b"late".to_vec()];
    let mut reads = reads.into_iter();
    let mut sent: Vec<TunnelPacket> = Vec::new();
    let mut action = TcpReadAction::Read;
    loop {
        let event = match action {
            TcpReadAction::Read => TcpReadEvent::Read(reads.next().unwrap()),
            TcpReadAction::Send(packet) => {
                sent.push(packet);
                TcpReadEvent::Sent(true)
            }
            TcpReadAction::SendEnd(packet) => {
                sent.push(packet);
                TcpReadEvent::EndSent(true)
            }
            TcpReadAction::Stop => break,
        };
        action = tcp_read_loop(&mut store, id, event);
    }
    assert_eq!(
        sent,
        vec![
            TunnelPacket::Data(id, b"foo".to_vec()),
            TunnelPacket::Data(id, b"bar".to_vec()),
            TunnelPacket::End(id),
        ]
    );
}

#[test]
fn process_local_udp_test() {
    let stream_id = StreamId::new();
    let read = LocalReadEvent::Read(b"some bytes".to_vec());
    match process_local_udp(stream_id, read) {
        LocalAction::Send(packet) => {
            assert_eq!(packet, TunnelPacket::UdpData(stream_id, b"some bytes".to_vec()))
        }
        _ => panic!("the bytes are not sent"),
    }
}

#[test]
fn forward_to_local_udp_test() {
    let message = Some(LocalMessage::Data(b"some bytes".to_vec()));
    assert!(matches!(
        forward_to_local(LocalWriteEvent::Message(message)),
        LocalWriteAction::Write(d) if d == b"some bytes"
    ));
}

#[test]
fn local_service_of_a_tunnel() {
    let id = StreamId { uuid: 7 };
    assert!(matches!(
        process_local_tcp(id, LocalReadEvent::Read(b"x".to_vec())),
        LocalAction::Send(TunnelPacket::Data(s, d)) if s == id && d == b"x"
    ));
    for process in [process_local_tcp, process_local_udp] {
        assert!(matches!(process(id, LocalReadEvent::Sent(true)), LocalAction::Read));
        assert!(matches!(process(id, LocalReadEvent::Sent(false)), LocalAction::Stop));
        assert!(matches!(process(id, LocalReadEvent::ReadError), LocalAction::Stop));
        assert!(matches!(process(id, LocalReadEvent::Read(vec![])), LocalAction::Stop));
    }
}

#[test]
fn bytes_cross_a_tunnel_unchanged() {
    let (mut server, mut client) = (Store::default(), ClientStore::default());
    let (peer, client_id) = (PeerAddr::v4(1, 1), ClientId { uuid: 1 });
    let tcp = RemoteTcp::new(peer, client_id, EndpointId::default());
    let id = tcp.stream_id;
    server.accept_connection2(tcp, true);
    assert_eq!(setup_new_stream(&mut client, id, true), None);

    let read = TcpReadEvent::Read(b"to the service".to_vec());
    let packet = match tcp_read_loop(&mut server, id, read) {
        TcpReadAction::Send(packet) => packet,
        _ => panic!("the bytes are not sent"),
    };
    assert!(matches!(
        process_packet(&client, packet),
        Ok((FlowAction::Forward(s, LocalMessage::Data(d)), _)) if s == id && d == b"to the service"
    ));

    for process in [process_local_tcp, process_local_udp] {
        let packet = match process(id, LocalReadEvent::Read(b"to the peer".to_vec())) {
            LocalAction::Send(packet) => packet,
            _ => panic!("the bytes are not sent"),
        };
        assert!(matches!(
            client_read_loop(&mut server, client_id, ClientEvent::Decoded(Some(packet))),
            ClientAction::Write(s, d) if s == id && d == b"to the peer"
        ));
    }
}
