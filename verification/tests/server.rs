use ownserver::clock::Timestamp;
use ownserver::id::{ClientId, EndpointId, StreamId};
use ownserver::port_allocator::PortAllocatorError;
use ownserver::protocol::{
    ClientHelloV2, ClientType, ControlPacketV2, EndpointClaim, PeerAddr, Protocol, ServerHelloV2,
};
use ownserver::reconnect::ReconnectTokenPayload;
use ownserver::server::client::{
    route_packet, route_packet_at, Client, Delivery, PacketAction,
};
use ownserver::server::control::{
    answer_hello, client_addr, complete_connection, handle_new_connection, periodic_pings,
    ping_packet, process_client_claims, provision, read_client_hello, validate_client_hello,
    ProvisioningAction, VerifyClientHandshakeError,
};
use ownserver::server::reader::{client_read_loop, ClientAction, ClientEvent};
use ownserver::server::store::Store;
use ownserver::server::stream::{
    RemoteStep, RemoteStream, RemoteTcp, RemoteUdp, StreamMessage, TcpReadAction, TcpReadEvent,
};
use ownserver::server::udp::{UdpAction, UdpEvent, UdpLoop};
use ownserver::server::{ClientStreamError, Config, ForwardingError, ProxyServerError};
use ownserver::ws::{Frame, ReadEvent};
use rand::rngs::StdRng;
use rand::SeedableRng;

fn config() -> Config {
    Config {
        control_port: 5000,
        token_secret: "supersecret".to_string(),
        host: "foohost.test.local".to_string(),
        remote_port_start: 10010,
        remote_port_end: 10011,
        periodic_cleanup_interval: 15,
        periodic_ping_interval: 15,
        reconnect_window: 120,
    }
}

fn claim(protocol: Protocol, local_port: u16) -> EndpointClaim {
    EndpointClaim { protocol, local_port, remote_port: 0 }
}

fn hello(token: &str, client_type: ClientType) -> ClientHelloV2 {
    ClientHelloV2 {
        version: 2,
        token: token.to_string(),
        endpoint_claims: vec![claim(Protocol::TCP, 25565)],
        client_type,
    }
}

fn host(name: &str) -> Option<String> {
    Some(name.to_string())
}

#[test]
fn control_server_v2_accept_client_hello() {
    let r = validate_client_hello(
        &config(),
        Some(hello("jwt", ClientType::Auth)),
        host("foohost.test.local"),
    );
    assert!(matches!(
        r,
        Ok(ProvisioningAction::NewClient { claims }) if claims == vec![claim(Protocol::TCP, 25565)]
    ));
}

#[test]
fn control_server_v2_reject_invalid_text_hello() {
    let r = validate_client_hello(&config(), None, None);
    assert_eq!(r.err().unwrap(), VerifyClientHandshakeError::InvalidClientHello);
}

#[test]
fn control_server_v2_reject_invalid_serialized_hello() {
    let r = validate_client_hello(&config(), None, host("foohost.test.local"));
    assert_eq!(r.err().unwrap(), VerifyClientHandshakeError::InvalidClientHello);
}

#[test]
fn control_server_v2_reject_invalid_jwt() {
    let r = validate_client_hello(&config(), Some(hello("invalid jwt", ClientType::Auth)), None);
    assert_eq!(r.err().unwrap(), VerifyClientHandshakeError::InvalidJWT);
}

#[test]
fn control_server_v2_reject_illegal_host() {
    let r = validate_client_hello(
        &config(),
        Some(hello("jwt", ClientType::Auth)),
        host("other.host.test.local"),
    );
    assert_eq!(r.err().unwrap(), VerifyClientHandshakeError::IllegalHost);
}

#[test]
fn control_server_v2_reject_when_version_mismatch() {
    let r = validate_client_hello(
        &config(),
        Some(hello("jwt", ClientType::Auth)),
        host("foohost.test.local"),
    );
    assert!(r.is_ok());
    let mut old = hello("jwt", ClientType::Auth);
    old.version = 1;
    let r = validate_client_hello(&config(), Some(old), host("foohost.test.local"));
    assert_eq!(r.err().unwrap(), VerifyClientHandshakeError::VersionMismatch);
}

#[test]
fn reconnect_token_brings_the_client_back() {
    let id = ClientId::new();
    let token = ReconnectTokenPayload::new(id).into_token("supersecret").unwrap();
    let r = validate_client_hello(&config(), Some(hello(&token, ClientType::Reconnect)), None);
    assert!(matches!(r, Ok(ProvisioningAction::Reconnect { client_id }) if client_id == id));
    let forged = ReconnectTokenPayload::new(id).into_token("other").unwrap();
    let r = validate_client_hello(&config(), Some(hello(&forged, ClientType::Reconnect)), None);
    assert_eq!(r.err().unwrap(), VerifyClientHandshakeError::InvalidJWT);
    let payload = Some(ReconnectTokenPayload::new(id));
    let r = provision(&config(), Some(hello("", ClientType::Reconnect)), None, payload);
    assert!(matches!(r, Ok(ProvisioningAction::Reconnect { client_id }) if client_id == id));
}

#[test]
fn first_message_of_a_client() {
    let read = |f| read_client_hello(ReadEvent::Received(f));
    assert_eq!(read(Frame::Text(b"foobarbaz".to_vec())), Some(b"foobarbaz".to_vec()));
    assert_eq!(read(Frame::Close(vec![])), None);
    assert_eq!(read_client_hello(ReadEvent::Ended), None);
}

#[test]
fn refusals_are_told_to_the_client() {
    assert_eq!(
        ServerHelloV2::from(VerifyClientHandshakeError::InvalidClientHello),
        ServerHelloV2::BadRequest
    );
    assert_eq!(
        ServerHelloV2::from(VerifyClientHandshakeError::InvalidJWT),
        ServerHelloV2::BadRequest
    );
    assert_eq!(
        ServerHelloV2::from(VerifyClientHandshakeError::IllegalHost),
        ServerHelloV2::IllegalHost
    );
    assert_eq!(
        ServerHelloV2::from(VerifyClientHandshakeError::VersionMismatch),
        ServerHelloV2::VersionMismatch
    );
    let mut rng = StdRng::from_entropy();
    let mut store = Store::new(10010..10011);
    let answer = handle_new_connection(&config(), &mut store, &mut rng, None, None).unwrap();
    assert_eq!(answer.hello, ServerHelloV2::BadRequest);
    assert!(answer.admission.is_none());
}

#[test]
fn claims_are_answered_while_ports_last() {
    let mut rng = StdRng::from_entropy();
    let mut store = Store::new(10010..10011);
    let claims = vec![claim(Protocol::TCP, 1), claim(Protocol::UDP, 1)];
    let first = process_client_claims(&config(), &mut store, &mut rng, claims.clone());
    let endpoints = match first {
        ServerHelloV2::Success { host, endpoints, .. } => {
            assert_eq!(host, "foohost.test.local");
            endpoints
        }
        other => panic!("{:?}", other),
    };
    assert_eq!(endpoints.len(), 2);
    for e in &endpoints {
        assert_eq!(e.remote_port, 10010);
        assert_eq!(
            store.get_remote_addr_by_endpoint_id(e.id),
            Some("0.0.0.0:10010".to_string())
        );
    }
    assert_eq!(store.get_remote_addr_by_endpoint_id(EndpointId::default()), None);
    let second = process_client_claims(&config(), &mut store, &mut rng, claims);
    assert_eq!(second, ServerHelloV2::ServiceTemporaryUnavailable);
    assert_eq!(store.allocate_port(&mut rng), Err(PortAllocatorError::AllocationFailed));
    assert_eq!(
        store.release_endpoint(EndpointId::default()),
        Err(PortAllocatorError::PortOutOfRange)
    );
    assert_eq!(store.release_endpoint(endpoints[0].id), Ok(()));
    assert_eq!(
        store.release_endpoint(endpoints[1].id),
        Err(PortAllocatorError::PortAlreadyReleased)
    );
    assert_eq!(store.allocate_port(&mut rng), Ok(10010));
}

#[test]
fn client_comes_goes_and_comes_back() {
    let mut rng = StdRng::from_entropy();
    let config = config();
    let mut store = Store::new(10010..10012);
    let answer = handle_new_connection(
        &config,
        &mut store,
        &mut rng,
        Some(hello("jwt", ClientType::Auth)),
        host("foohost.test.local"),
    )
    .unwrap();
    let admission = answer.admission.unwrap();
    let id = admission.client_id;
    let endpoints = admission.endpoints.clone();
    assert_eq!(store.len_clients(), 0);
    let opened = complete_connection(&mut store, Some(admission), true);
    assert_eq!(opened, endpoints);
    assert_eq!(store.get_client_ids(), vec![id]);
    assert_eq!(store.broadcast_to_clients(), vec![id]);

    let ping = ping_packet(&config, id, Timestamp { secs: 5, nanos: 0 }).unwrap();
    let token = match ping {
        ControlPacketV2::Ping(0, t, Some(token)) => {
            assert_eq!(t, Timestamp { secs: 5, nanos: 0 });
            token
        }
        other => panic!("{:?}", other),
    };
    let answer = handle_new_connection(
        &config,
        &mut store,
        &mut rng,
        Some(hello(&token, ClientType::Reconnect)),
        None,
    )
    .unwrap();
    assert_eq!(
        answer.hello,
        ServerHelloV2::Success {
            client_id: id,
            host: "foohost.test.local".to_string(),
            endpoints: endpoints.clone()
        }
    );
    let admission = answer.admission.unwrap();
    assert!(!admission.is_new);
    assert_eq!(store.len_clients(), 0);
    let opened = complete_connection(&mut store, Some(admission), true);
    assert!(opened.is_empty());
    assert_eq!(store.get_client_ids(), vec![id]);
    let client = store.remove_client(id).unwrap();
    assert_eq!(client.endpoints, endpoints);
    assert_eq!(client.reconnect_window, 120);

    let again = handle_new_connection(
        &config,
        &mut store,
        &mut rng,
        Some(hello(&token, ClientType::Reconnect)),
        None,
    );
    assert!(again.is_none());
}

#[test]
fn answer_that_is_not_sent_registers_nobody() {
    let mut rng = StdRng::from_entropy();
    let mut store = Store::default();
    let action = Ok(ProvisioningAction::NewClient { claims: vec![claim(Protocol::TCP, 1)] });
    let answer = answer_hello(&config(), &mut store, &mut rng, action).unwrap();
    assert!(complete_connection(&mut store, answer.admission, false).is_empty());
    assert_eq!(store.len_clients(), 0);
    assert!(complete_connection(&mut store, None, true).is_empty());
}

#[test]
fn cleanup_frees_what_is_disabled() {
    let mut rng = StdRng::from_entropy();
    let mut store = Store::new(100..110);
    let a = store
        .allocate_endpoints(&mut rng, vec![claim(Protocol::TCP, 1), claim(Protocol::UDP, 1)])
        .unwrap();
    let b = store.allocate_endpoints(&mut rng, vec![claim(Protocol::TCP, 1)]).unwrap();
    let ids = [ClientId { uuid: 1 }, ClientId { uuid: 2 }];
    store.add_client(Client::new(ids[0], a.clone(), 120));
    store.add_client(Client::new(ids[1], b.clone(), 120));
    let peer = PeerAddr::v4(9, 9);
    let gone = RemoteTcp::new(peer, ids[0], a[0].id);
    let kept = RemoteTcp::new(PeerAddr::v4(8, 8), ids[1], b[0].id);
    store.add_remote(RemoteStream::RemoteTcp(gone), peer);
    store.add_remote(RemoteStream::RemoteTcp(kept), PeerAddr::v4(8, 8));
    store.cleanup();
    assert_eq!((store.len_clients(), store.len_streams()), (2, 2));

    store.disable_client(ids[0]);
    store.disable_remote_by_client(ids[0]);
    assert_eq!(store.find_stream_id_by_addr(&peer), None);
    for _ in 0..2 {
        store.cleanup();
        assert_eq!(store.get_client_ids(), vec![ids[1]]);
        assert_eq!(store.get_stream_ids(), vec![kept.stream_id]);
        assert_eq!(
            store.release_endpoint(a[0].id),
            Err(PortAllocatorError::PortAlreadyReleased)
        );
    }
    for _ in 0..9 {
        let port = store.allocate_port(&mut rng).unwrap();
        assert_ne!(port, b[0].remote_port);
    }
    assert!(store.allocate_port(&mut rng).is_err());
}

#[test]
fn remove_disabled_client_streams() {
    let mut rng = StdRng::from_entropy();
    let mut store = Store::new(10010..10011);
    let endpoints =
        store.allocate_endpoints(&mut rng, vec![claim(Protocol::TCP, 25565)]).unwrap();
    let id = ClientId::new();
    let endpoint_id = endpoints[0].id;
    store.add_client(Client::new(id, endpoints, 120));
    store.accept_connection(RemoteTcp::new(PeerAddr::v4(1, 1), id, endpoint_id), true);

    // now 1 client, 1 stream
    assert_eq!(store.len_clients(), 1);
    assert_eq!(store.len_streams(), 1);

    store.disable_client(id);

    // client and stream remains in store
    assert_eq!(store.len_clients(), 1);
    assert_eq!(store.len_streams(), 1);

    // need to call cleanup
    store.cleanup();
    assert_eq!(store.len_clients(), 0);
    assert_eq!(store.len_streams(), 0);
}

#[test]
fn stream_is_found_by_its_peer() {
    let mut store = Store::default();
    let peer = PeerAddr::v4(0x7F000001, 12345);
    assert_eq!(store.find_stream_id_by_addr(&peer), None);
    let first = RemoteUdp::new(peer, ClientId { uuid: 1 }, EndpointId { uuid: 2 });
    let second = RemoteUdp::new(peer, ClientId { uuid: 1 }, EndpointId { uuid: 2 });
    store.add_remote(RemoteStream::RemoteUdp(first), peer);
    assert_eq!(store.find_stream_id_by_addr(&peer), Some(first.stream_id));
    store.add_remote(RemoteStream::RemoteUdp(second), peer);
    assert_eq!(store.find_stream_id_by_addr(&peer), Some(second.stream_id));
    store.disable_remote(second.stream_id);
    assert_eq!(store.find_stream_id_by_addr(&peer), None);
    store.disable_remote(StreamId { uuid: 3 });
    assert_eq!(store.len_streams(), 2);
}

#[test]
fn packets_for_a_client_that_is_not_there() {
    let mut store = Store::default();
    let id = ClientId { uuid: 1 };
    assert!(!store.has_client(id));
    assert_eq!(
        store.send_to_client(id, Delivery::Sent),
        Err(ClientStreamError::ClientNotAvailable(id))
    );
    store.add_client(Client::new(id, vec![], 120));
    assert!(store.has_client(id));
    assert_eq!(store.send_to_client(id, Delivery::Sent), Ok(()));
    assert_eq!(
        store.send_to_client(id, Delivery::NotEncoded("e".to_string())),
        Err(ClientStreamError::ClientError("packet is invalid e".to_string()))
    );
    store.cleanup();
    assert_eq!(store.len_clients(), 1);
    assert_eq!(
        store.send_to_client(id, Delivery::NotSent("f".to_string())),
        Err(ClientStreamError::ClientError("failed to communicate with client f".to_string()))
    );
    store.cleanup();
    assert_eq!(store.len_clients(), 0);
}

#[test]
fn messages_for_a_remote_peer() {
    let mut store = Store::default();
    let peer = PeerAddr::v4(1, 1);
    let missing = StreamId { uuid: 1 };
    assert!(matches!(
        store.send_to_remote(missing, StreamMessage::TunnelRefused),
        RemoteStep::Fail(ClientStreamError::StreamNotAvailable(s)) if s == missing
    ));
    assert_eq!(
        store.remote_written(missing, Ok(())),
        Err(ClientStreamError::StreamNotAvailable(missing))
    );
    let tcp = RemoteTcp::new(peer, ClientId { uuid: 1 }, EndpointId { uuid: 2 });
    let udp = RemoteUdp::new(peer, ClientId { uuid: 1 }, EndpointId { uuid: 2 });
    store.accept_connection(tcp, false);
    assert_eq!(store.len_streams(), 0);
    store.accept_connection(tcp, true);
    store.add_remote(RemoteStream::RemoteUdp(udp), peer);
    assert!(matches!(
        store.send_to_remote(tcp.stream_id, StreamMessage::Data(vec![1, 2])),
        RemoteStep::Write(d) if d == vec![1, 2]
    ));
    assert_eq!(store.remote_written(tcp.stream_id, Ok(())), Ok(()));
    let refused = format!("stream_id: {}, TunnelRefused", tcp.stream_id.to_string());
    assert!(matches!(
        store.send_to_remote(tcp.stream_id, StreamMessage::TunnelRefused),
        RemoteStep::ShutDown(ClientStreamError::RemoteError(e)) if e == refused
    ));
    assert!(matches!(
        store.send_to_remote(tcp.stream_id, StreamMessage::Data(vec![1])),
        RemoteStep::Fail(ClientStreamError::StreamNotAvailable(s)) if s == tcp.stream_id
    ));
    let failed = format!("stream_id: {}, reset", udp.stream_id.to_string());
    assert_eq!(
        store.remote_written(udp.stream_id, Err("reset".to_string())),
        Err(ClientStreamError::RemoteError(failed))
    );
    assert!(matches!(
        store.send_to_remote(udp.stream_id, StreamMessage::NoClientTunnel),
        RemoteStep::Fail(ClientStreamError::StreamNotAvailable(_))
    ));
    let mut other = RemoteUdp::new(peer, ClientId { uuid: 1 }, EndpointId { uuid: 2 });
    assert!(matches!(
        other.send_to_remote(other.stream_id, StreamMessage::TunnelRefused),
        RemoteStep::Fail(ClientStreamError::RemoteError(_))
    ));
    assert!(other.disabled());
}

#[test]
fn reading_side_of_a_connection() {
    let mut store = Store::default();
    let peer = PeerAddr::v4(1, 1);
    let tcp = RemoteTcp::new(peer, ClientId { uuid: 1 }, EndpointId { uuid: 2 });
    let id = tcp.stream_id;
    store.add_remote(RemoteStream::RemoteTcp(tcp), peer);
    assert_eq!(
        tcp.send_init_to_client(),
        ControlPacketV2::Init(id, EndpointId { uuid: 2 }, tcp.remote_info)
    );
    assert!(matches!(
        tcp.read_loop(&mut store, TcpReadEvent::Read(vec![1])),
        TcpReadAction::Send(ControlPacketV2::Data(s, d)) if s == id && d == vec![1]
    ));
    assert!(matches!(
        tcp.read_loop(&mut store, TcpReadEvent::Sent(true)),
        TcpReadAction::Read
    ));
    assert!(matches!(
        tcp.read_loop(&mut store, TcpReadEvent::Read(vec![])),
        TcpReadAction::SendEnd(ControlPacketV2::End(s)) if s == id
    ));
    assert!(matches!(
        tcp.read_loop(&mut store, TcpReadEvent::Cancelled),
        TcpReadAction::Stop
    ));
    assert_eq!(store.find_stream_id_by_addr(&peer), Some(id));
    for event in
        [TcpReadEvent::EndSent(true), TcpReadEvent::ReadError, TcpReadEvent::Sent(false)]
    {
        store.add_remote(RemoteStream::RemoteTcp(tcp), peer);
        assert!(matches!(tcp.read_loop(&mut store, event), TcpReadAction::Stop));
        assert_eq!(store.find_stream_id_by_addr(&peer), None);
    }
}

#[test]
fn packets_of_a_stream_go_to_its_client() {
    let mut store = Store::default();
    let id = ClientId { uuid: 1 };
    let peer = PeerAddr::v4(1, 1);
    let tcp = RemoteStream::RemoteTcp(RemoteTcp::new(peer, id, EndpointId { uuid: 2 }));
    let udp = RemoteStream::RemoteUdp(RemoteUdp::new(peer, id, EndpointId { uuid: 2 }));
    assert_eq!(
        tcp.send_to_client(&mut store, Delivery::Sent),
        Err(ClientStreamError::ClientNotAvailable(id))
    );
    store.add_client(Client::new(id, vec![], 120));
    assert_eq!(tcp.send_to_client(&mut store, Delivery::Sent), Ok(()));
    assert_eq!(udp.send_to_client(&mut store, Delivery::Sent), Ok(()));
    assert!(udp.send_to_client(&mut store, Delivery::NotSent("x".to_string())).is_err());
    store.cleanup();
    assert_eq!(store.len_clients(), 0);
}

#[test]
fn connection_of_a_client_is_read() {
    let mut store = Store::default();
    let id = ClientId { uuid: 1 };
    let peer = PeerAddr::v4(1, 1);
    let now = Timestamp { secs: 100, nanos: 0 };
    let udp = RemoteUdp::new(peer, id, EndpointId { uuid: 2 });
    let sid = udp.stream_id;
    store.add_client(Client::new(id, vec![], 120));
    store.add_remote(RemoteStream::RemoteUdp(udp), peer);
    let mut step = |event| client_read_loop(&mut store, id, event, now);
    let text = ClientEvent::Read(ReadEvent::Received(Frame::Text(vec![7])));
    assert!(matches!(step(text), ClientAction::Decode(d) if d == vec![7]));
    let data = ControlPacketV2::Data(sid, b"foobarbaz".to_vec());
    assert!(matches!(
        step(ClientEvent::Decoded(Some(data.clone()))),
        ClientAction::Write(s, d) if s == sid && d == b"foobarbaz"
    ));
    let ping = ControlPacketV2::Ping(4, Timestamp { secs: 99, nanos: 0 }, None);
    assert!(matches!(
        step(ClientEvent::Decoded(Some(ping))),
        ClientAction::Reply(ControlPacketV2::Pong(4, t)) if t.secs == 99
    ));
    let pong = ControlPacketV2::Pong(4, Timestamp { secs: 99, nanos: 0 });
    assert!(matches!(step(ClientEvent::Decoded(Some(pong))), ClientAction::RoundTrip(1000)));
    assert!(matches!(step(ClientEvent::Decoded(None)), ClientAction::Read));
    assert!(matches!(step(ClientEvent::Written(sid, Ok(()))), ClientAction::Read));
    assert!(matches!(
        step(ClientEvent::Written(sid, Err("gone".to_string()))),
        ClientAction::Read
    ));
    assert!(matches!(step(ClientEvent::Decoded(Some(data))), ClientAction::Read));
    let empty = ClientEvent::Read(ReadEvent::Received(Frame::Binary(vec![])));
    assert!(matches!(step(empty), ClientAction::Stop));
    assert_eq!(store.find_stream_id_by_addr(&peer), None);
    store.cleanup();
    assert_eq!((store.len_clients(), store.len_streams()), (0, 0));
}

#[test]
fn packets_from_a_client() {
    let sid = StreamId { uuid: 4 };
    let at = Timestamp { secs: 10, nanos: 0 };
    let now = Timestamp { secs: 10, nanos: 25_900_000 };
    let route = |p| route_packet_at(Some(p), now);
    assert!(matches!(
        route(ControlPacketV2::Data(sid, vec![1])),
        PacketAction::Forward(s, StreamMessage::Data(d)) if s == sid && d == vec![1]
    ));
    assert!(matches!(
        route(ControlPacketV2::Refused(sid)),
        PacketAction::Forward(s, StreamMessage::TunnelRefused) if s == sid
    ));
    assert!(matches!(
        route(ControlPacketV2::Ping(3, at, None)),
        PacketAction::Reply(ControlPacketV2::Pong(3, t)) if t == at
    ));
    assert!(matches!(route(ControlPacketV2::Pong(3, at)), PacketAction::RoundTrip(25)));
    assert!(matches!(route(ControlPacketV2::End(sid)), PacketAction::Ignore));
    assert!(matches!(route_packet(None), PacketAction::Ignore));
}

#[test]
fn datagrams_find_their_stream() {
    let mut store = Store::default();
    let client = ClientId { uuid: 1 };
    let endpoint = EndpointId { uuid: 2 };
    let peer = PeerAddr::v4(5, 6);
    let mut udp = UdpLoop::new(client, endpoint);
    let opened = match udp.process_udp_stream(&mut store, UdpEvent::Datagram(vec![7], peer)) {
        UdpAction::SendInit(ControlPacketV2::Init(sid, eid, info)) => {
            assert_eq!(eid, endpoint);
            assert_eq!(info.remote_peer_addr, peer);
            sid
        }
        _ => panic!("no stream was opened"),
    };
    assert_eq!(store.len_streams(), 0);
    assert!(matches!(
        udp.process_udp_stream(&mut store, UdpEvent::InitSent(true)),
        UdpAction::Send(ControlPacketV2::Data(s, d)) if s == opened && d == vec![7]
    ));
    assert_eq!(store.find_stream_id_by_addr(&peer), Some(opened));
    assert!(matches!(
        udp.process_udp_stream(&mut store, UdpEvent::Sent(false)),
        UdpAction::Read
    ));
    assert!(matches!(
        udp.process_udp_stream(&mut store, UdpEvent::Datagram(vec![8], peer)),
        UdpAction::Send(ControlPacketV2::Data(s, d)) if s == opened && d == vec![8]
    ));
    assert!(matches!(
        udp.process_udp_stream(&mut store, UdpEvent::Datagram(vec![], peer)),
        UdpAction::Send(ControlPacketV2::End(s)) if s == opened
    ));
    assert!(matches!(udp.process_udp_stream(&mut store, UdpEvent::ReadError), UdpAction::Read));
    let other = PeerAddr::v4(5, 7);
    let _ = udp.process_udp_stream(&mut store, UdpEvent::Datagram(vec![1], other));
    assert!(matches!(
        udp.process_udp_stream(&mut store, UdpEvent::InitSent(false)),
        UdpAction::Stop
    ));
    assert_eq!(store.find_stream_id_by_addr(&other), None);
    assert!(matches!(udp.process_udp_stream(&mut store, UdpEvent::Cancelled), UdpAction::Stop));
}

#[test]
fn unknown_client_address() {
    assert_eq!(client_addr(None), PeerAddr::v4(0, 0));
    assert_eq!(client_addr(Some(PeerAddr::v6(3, 4))), PeerAddr::v6(3, 4));
}

#[test]
fn server_errors_in_words() {
    let zero = "00000000-0000-0000-0000-000000000000";
    assert_eq!(
        ProxyServerError::ConfigNotInitialized.to_string(),
        "Failed to load config because it is not initialized."
    );
    assert_eq!(ForwardingError::DestinationDisabled.to_string(), "Destination is disabled.");
    assert_eq!(ForwardingError::SendError.to_string(), "Failed to put data into sender buffer.");
    let text = |e: ClientStreamError| e.to_string();
    assert_eq!(
        text(ClientStreamError::ClientError("c".to_string())),
        "Failed to send data to client c."
    );
    assert_eq!(
        text(ClientStreamError::RemoteError("r".to_string())),
        "Failed to send data to remote."
    );
    assert_eq!(
        text(ClientStreamError::ClientNotAvailable(ClientId::default())),
        format!("Client client_{zero} is not registered to Store or no longer available.")
    );
    assert_eq!(
        text(ClientStreamError::StreamNotAvailable(StreamId::default())),
        format!("Stream stream_{zero} is not registered to Store or no longer available.")
    );
    assert_eq!(text(ClientStreamError::RemoteEnd), "Remote stream has closed.");
    assert_eq!(
        VerifyClientHandshakeError::InvalidClientHello.to_string(),
        "Failed to deserialize client hello."
    );
    assert_eq!(
        VerifyClientHandshakeError::InvalidJWT.to_string(),
        "Failed to parse client jwt."
    );
    assert_eq!(
        VerifyClientHandshakeError::IllegalHost.to_string(),
        "Client tried to access different host."
    );
    assert_eq!(
        VerifyClientHandshakeError::VersionMismatch.to_string(),
        "Client sends unsupported client handshake version."
    );
}

#[test]
fn every_client_gets_a_sign_of_life_of_its_own() {
    let config = config();
    let mut store = Store::default();
    let now = Timestamp::now();
    assert!(periodic_pings(&config, &store, now).is_empty());
    for uuid in [1, 2, 3] {
        store.add_client(Client::new(ClientId { uuid }, vec![], 120));
    }
    let mut pings = periodic_pings(&config, &store, now);
    pings.sort_by_key(|p| p.0.uuid);
    assert_eq!(pings.iter().map(|p| p.0.uuid).collect::<Vec<u128>>(), vec![1, 2, 3]);
    for (id, packet) in pings {
        match packet {
            ControlPacketV2::Ping(0, t, Some(token)) => {
                assert_eq!(t, now);
                assert_eq!(
                    ReconnectTokenPayload::decode_token("supersecret", &token),
                    Ok(ReconnectTokenPayload::new(id))
                );
            }
            other => panic!("{:?}", other),
        }
    }
}

#[test]
fn reconnect_token_is_refused_after_its_time() {
    let payload = ReconnectTokenPayload::new(ClientId { uuid: 4 });
    let fresh = payload._into_token("supersecret", -50).unwrap();
    let r = validate_client_hello(&config(), Some(hello(&fresh, ClientType::Reconnect)), None);
    assert!(matches!(r, Ok(ProvisioningAction::Reconnect { client_id }) if client_id.uuid == 4));
    let old = payload._into_token("supersecret", -70).unwrap();
    let r = validate_client_hello(&config(), Some(hello(&old, ClientType::Reconnect)), None);
    assert_eq!(r.err().unwrap(), VerifyClientHandshakeError::InvalidJWT);
}

fn join(store: &mut Store, rng: &mut StdRng, local_ports: &[u16]) -> (ClientId, Vec<u16>) {
    let claims = local_ports.iter().map(|p| claim(Protocol::TCP, *p)).collect();
    let action = Ok(ProvisioningAction::NewClient { claims });
    let admission = answer_hello(&config(), store, rng, action).unwrap().admission.unwrap();
    let id = admission.client_id;
    let opened = complete_connection(store, Some(admission), true);
    (id, opened.iter().map(|e| e.remote_port).collect())
}

#[test]
fn ports_of_a_client_are_its_own_while_it_stays() {
    let mut rng = StdRng::from_entropy();
    let mut store = Store::new(100..104);
    let (first, a) = join(&mut store, &mut rng, &[1, 2]);
    let (second, b) = join(&mut store, &mut rng, &[1]);
    assert!(b.iter().all(|p| !a.contains(p)));

    // A client that reconnects keeps its ports, and none of them is handed out meanwhile.
    let action = Ok(ProvisioningAction::Reconnect { client_id: first });
    let answer = answer_hello(&config(), &mut store, &mut rng, action).unwrap();
    let (third, c) = join(&mut store, &mut rng, &[1]);
    assert!(c.iter().all(|p| !a.contains(p) && !b.contains(p)));
    complete_connection(&mut store, answer.admission, true);
    let action = Ok(ProvisioningAction::NewClient { claims: vec![claim(Protocol::TCP, 1)] });
    let full = answer_hello(&config(), &mut store, &mut rng, action).unwrap();
    assert_eq!(full.hello, ServerHelloV2::ServiceTemporaryUnavailable);

    // A cleanup frees the ports of the client that is gone, and those alone.
    store.disable_client(second);
    store.cleanup();
    let (_, d) = join(&mut store, &mut rng, &[1]);
    assert_eq!(d, b);
    assert_eq!(store.len_clients(), 3);
    assert!(store.has_client(first) && store.has_client(third));
}

#[test]
fn nothing_follows_the_end_of_a_stream() {
    let mut store = Store::default();
    let tcp = RemoteTcp::new(PeerAddr::v4(1, 1), ClientId { uuid: 1 }, EndpointId::default());
    let id = tcp.stream_id;
    store.accept_connection(tcp, true);
    let reads = [b"foo".to_vec(), b"bar".to_vec(), vec![], b"late".to_vec()];
    let mut reads = reads.into_iter();
    let mut sent: Vec<ControlPacketV2> = Vec::new();
    let mut action = TcpReadAction::Read;
    loop {
        let event = match action {
            TcpReadAction::Read => TcpReadEvent::Read(reads.next().unwrap()),
            TcpReadAction::Send(packet) => {
                sent.push(packet);
                TcpReadEvent::Sent(true)
            }
            TcpReadAction::SendEnd(packet) => {
                sent.push(packet);
                TcpReadEvent::EndSent(true)
            }
            TcpReadAction::Stop => break,
        };
        action = tcp.read_loop(&mut store, event);
    }
    assert_eq!(
        sent,
        vec![
            ControlPacketV2::Data(id, b"foo".to_vec()),
            ControlPacketV2::Data(id, b"bar".to_vec()),
            ControlPacketV2::End(id),
        ]
    );
    assert_eq!(store.find_stream_id_by_addr(&PeerAddr::v4(1, 1)), None);
}
