use ownserver::client::handshake::{send_client_hello, RequestType, ServerReply};
use ownserver::client::local::{
    forward_to_local, process_local, LocalReadAction, LocalReadEvent, LocalWriteAction,
    LocalWriteEvent,
};
use ownserver::client::run::{run_with_token, ClientRun, RunAction, RunEvent};
use ownserver::client::session::{process_control_flow_message, FlowAction};
use ownserver::client::store::{LocalStream, Store as ClientStore};
use ownserver::client::StreamMessage;
use ownserver::clock::Timestamp;
use ownserver::id::{ClientId, StreamId};
use ownserver::protocol::{ControlPacketV2, Endpoint, PeerAddr, Protocol, ServerHelloV2};
use ownserver::server::client::Delivery;
use ownserver::server::control::{complete_connection, handle_new_connection, ping_packet};
use ownserver::server::reader::{client_read_loop, ClientAction, ClientEvent};
use ownserver::server::store::Store;
use ownserver::server::stream::{RemoteTcp, TcpReadAction, TcpReadEvent};
use ownserver::server::udp::{UdpAction, UdpEvent, UdpLoop};
use ownserver::server::Config;
use ownserver::testing::{local_server_reply, server_config, tcp, udp};
use ownserver::ws::ReadEvent;
use rand::rngs::StdRng;
use rand::SeedableRng;

struct World {
    config: Config,
    server: Store,
    client: ClientStore,
    client_id: ClientId,
    endpoint: Endpoint,
}

fn launch(request_type: RequestType) -> World {
    let config = server_config(5000, 10010, 10011, None);
    let mut server = Store::new(config.remote_port_start..config.remote_port_end);
    let mut client = ClientStore::default();
    let mut rng = StdRng::from_entropy();
    let hello = send_client_hello(&"json.web.token".to_string(), &request_type);
    let host = Some("127.0.0.1".to_string());
    let answer = handle_new_connection(&config, &mut server, &mut rng, Some(hello), host).unwrap();
    let opened = complete_connection(&mut server, answer.admission, true);
    let info = run_with_token(&mut client, ServerReply::Hello(answer.hello)).unwrap();
    assert_eq!(opened, info.endpoints);
    World { config, server, client, client_id: info.client_id, endpoint: opened[0] }
}

fn launch_tcp() -> World {
    launch(RequestType::NewClient { endpoint_claims: tcp::get_endpoint_claims_single(3000) })
}

fn launch_udp() -> World {
    launch(RequestType::NewClient { endpoint_claims: udp::get_endpoint_claims_single(3000) })
}

impl World {
    /// The client gets a packet from the server.
    fn to_client(&mut self, packet: ControlPacketV2) -> FlowAction {
        assert_eq!(self.server.send_to_client(self.client_id, Delivery::Sent), Ok(()));
        match process_control_flow_message(&mut self.client, Ok(Some(packet))).unwrap().0 {
            FlowAction::SetUp { protocol, stream_id, endpoint_id, remote_info } => {
                assert_eq!(protocol, self.endpoint.protocol);
                assert_eq!(
                    self.client.get_local_addr_by_endpoint_id(endpoint_id),
                    Some("localhost:3000".to_string())
                );
                self.client.add_stream(stream_id, LocalStream::new(remote_info));
                FlowAction::Nothing
            }
            action => action,
        }
    }

    /// What the local service gets of a packet for a stream.
    fn to_local(&mut self, stream_id: StreamId, packet: ControlPacketV2) -> Vec<u8> {
        match self.to_client(packet) {
            FlowAction::Forward(sid, message) => {
                assert_eq!(sid, stream_id);
                match forward_to_local(LocalWriteEvent::Message(Some(message))) {
                    LocalWriteAction::Write(data) => data,
                    _ => panic!("nothing is written"),
                }
            }
            _ => panic!("nothing is forwarded"),
        }
    }

    /// What the remote peer gets of what the local service sends.
    fn to_remote(&mut self, stream_id: StreamId, data: Vec<u8>) -> Vec<u8> {
        let packet = match process_local(stream_id, LocalReadEvent::Read(data)) {
            LocalReadAction::Send(packet) => packet,
            _ => panic!("nothing is sent"),
        };
        let event = ClientEvent::Decoded(Some(packet));
        match client_read_loop(&mut self.server, self.client_id, event, Timestamp::now()) {
            ClientAction::Write(sid, data) => {
                assert_eq!(sid, stream_id);
                data
            }
            _ => panic!("nothing is written"),
        }
    }

    fn connect(&mut self, peer: PeerAddr) -> RemoteTcp {
        let remote = RemoteTcp::new(peer, self.client_id, self.endpoint.id);
        assert!(matches!(self.to_client(remote.send_init_to_client()), FlowAction::Nothing));
        self.server.accept_connection(remote, true);
        remote
    }

    fn send(&mut self, remote: &RemoteTcp, data: &[u8]) -> Vec<u8> {
        match remote.read_loop(&mut self.server, TcpReadEvent::Read(data.to_vec())) {
            TcpReadAction::Send(packet) => self.to_local(remote.stream_id, packet),
            _ => panic!("nothing is sent"),
        }
    }

    fn send_datagram(&mut self, state: &mut UdpLoop, peer: PeerAddr, data: &[u8]) -> StreamId {
        let event = UdpEvent::Datagram(data.to_vec(), peer);
        let mut action = state.process_udp_stream(&mut self.server, event);
        if let UdpAction::SendInit(packet) = action {
            assert!(matches!(self.to_client(packet), FlowAction::Nothing));
            action = state.process_udp_stream(&mut self.server, UdpEvent::InitSent(true));
        }
        match action {
            UdpAction::Send(packet) => {
                let stream_id = self.server.find_stream_id_by_addr(&peer).unwrap();
                assert_eq!(self.to_local(stream_id, packet), data);
                stream_id
            }
            _ => panic!("nothing is sent"),
        }
    }
}

fn reply_to(message: &[u8]) -> Vec<u8> {
    local_server_reply(&message.to_vec()).unwrap()
}

#[test]
fn e2e_test_forward_remote_traffic_to_local() {
    let mut world = launch_tcp();
    let remote = world.connect(PeerAddr::v4(0x7F000001, 40000));
    assert_eq!(world.send(&remote, b"foobar"), b"foobar");
    assert_eq!(world.to_remote(remote.stream_id, reply_to(b"foobar")), b"hello, foobar");

    let mut world = launch_udp();
    let mut state = UdpLoop::new(world.client_id, world.endpoint.id);
    let sid = world.send_datagram(&mut state, PeerAddr::v4(0x7F000001, 40000), b"foobar");
    assert_eq!(world.to_remote(sid, reply_to(b"foobar")), b"hello, foobar");
}

#[test]
fn e2e_test_forward_multiple_remote_traffic_to_local() {
    let mut world = launch_tcp();
    let remote1 = world.connect(PeerAddr::v4(0x7F000001, 40001));
    let remote2 = world.connect(PeerAddr::v4(0x7F000001, 40002));
    assert_eq!(world.send(&remote1, b"foobar"), b"foobar");
    assert_eq!(world.send(&remote2, b"fugapiyo"), b"fugapiyo");
    assert_eq!(world.to_remote(remote1.stream_id, reply_to(b"foobar")), b"hello, foobar");
    assert_eq!(world.to_remote(remote2.stream_id, reply_to(b"fugapiyo")), b"hello, fugapiyo");

    let mut world = launch_udp();
    let mut state = UdpLoop::new(world.client_id, world.endpoint.id);
    let sid1 = world.send_datagram(&mut state, PeerAddr::v4(0x7F000001, 40001), b"foobar");
    let sid2 = world.send_datagram(&mut state, PeerAddr::v4(0x7F000001, 40002), b"fugapiyo");
    assert_ne!(sid1, sid2);
    assert_eq!(world.to_remote(sid1, reply_to(b"foobar")), b"hello, foobar");
    assert_eq!(world.to_remote(sid2, reply_to(b"fugapiyo")), b"hello, fugapiyo");
}

#[test]
fn e2e_test_refuse_remote_traffic_when_client_canceled() {
    let mut world = launch_tcp();
    let event = ClientEvent::Read(ReadEvent::Ended);
    assert!(matches!(
        client_read_loop(&mut world.server, world.client_id, event, Timestamp::now()),
        ClientAction::Stop
    ));
    let peer = PeerAddr::v4(0x7F000001, 40000);
    let remote = RemoteTcp::new(peer, world.client_id, world.endpoint.id);
    let delivery = Delivery::NotSent("closed".to_string());
    let init_sent = remote.send_to_client(&mut world.server, delivery).is_ok();
    world.server.accept_connection(remote, init_sent);
    assert_eq!(world.server.find_stream_id_by_addr(&peer), None);
    assert_eq!(world.server.len_streams(), 0);
}

#[test]
fn e2e_test_refuse_remote_traffic_after_client_canceled() {
    let mut world = launch_tcp();
    let remote = world.connect(PeerAddr::v4(0x7F000001, 40000));
    assert_eq!(world.send(&remote, b"foobar"), b"foobar");
    assert_eq!(world.to_remote(remote.stream_id, reply_to(b"foobar")), b"hello, foobar");
    let read = TcpReadEvent::Read(b"foobar".to_vec());
    assert!(matches!(remote.read_loop(&mut world.server, read), TcpReadAction::Send(_)));
    let delivery = Delivery::NotSent("closed".to_string());
    let sent = remote.send_to_client(&mut world.server, delivery).is_ok();
    assert!(matches!(
        remote.read_loop(&mut world.server, TcpReadEvent::Sent(sent)),
        TcpReadAction::Stop
    ));
    assert_eq!(world.server.find_stream_id_by_addr(&PeerAddr::v4(0x7F000001, 40000)), None);
}

#[test]
fn proxy_server_test_forward_remote_traffic_to_client() {
    let mut world = launch_tcp();
    let remote = RemoteTcp::new(PeerAddr::v4(1, 1), world.client_id, world.endpoint.id);
    let sid = remote.stream_id;
    assert_eq!(
        remote.send_init_to_client(),
        ControlPacketV2::Init(sid, world.endpoint.id, remote.remote_info)
    );
    world.server.accept_connection(remote, true);
    let read = TcpReadEvent::Read(b"some bytes".to_vec());
    assert!(matches!(
        remote.read_loop(&mut world.server, read),
        TcpReadAction::Send(ControlPacketV2::Data(s, d)) if s == sid && d == b"some bytes"
    ));
}

#[test]
fn proxy_server_test_forward_client_traffic_to_remote() {
    let mut world = launch_tcp();
    let remote = world.connect(PeerAddr::v4(1, 1));
    assert_eq!(world.to_remote(remote.stream_id, b"foobarbaz".to_vec()), b"foobarbaz");
}

#[test]
fn proxy_server_test_forward_multiple_remote_traffic_to_client() {
    let mut world = launch_tcp();
    let remote1 = world.connect(PeerAddr::v4(1, 1));
    let remote2 = world.connect(PeerAddr::v4(1, 2));
    assert_ne!(remote1.stream_id, remote2.stream_id);
    for (remote, bytes) in [(remote1, b"some bytes 1"), (remote2, b"some bytes 2")] {
        let read = TcpReadEvent::Read(bytes.to_vec());
        assert!(matches!(
            remote.read_loop(&mut world.server, read),
            TcpReadAction::Send(ControlPacketV2::Data(s, d))
                if s == remote.stream_id && d == bytes.to_vec()
        ));
    }
}

#[test]
fn proxy_server_test_forward_client_traffic_to_multiple_remote() {
    let mut world = launch_tcp();
    let remote1 = world.connect(PeerAddr::v4(1, 1));
    let remote2 = world.connect(PeerAddr::v4(1, 2));
    assert_eq!(world.to_remote(remote1.stream_id, b"some message 1".to_vec()), b"some message 1");
    assert_eq!(world.to_remote(remote2.stream_id, b"some message 2".to_vec()), b"some message 2");
}

#[test]
fn refused_data_disables_the_stream() {
    let mut world = launch_tcp();
    let remote = world.connect(PeerAddr::v4(1, 1));
    let sid = remote.stream_id;
    let _ = world.to_client(ControlPacketV2::End(sid));
    let refusal = match world.to_client(ControlPacketV2::Data(sid, vec![1])) {
        FlowAction::Refuse(packet) => packet,
        _ => panic!("the data is taken"),
    };
    let event = ClientEvent::Decoded(Some(refusal));
    assert!(matches!(
        client_read_loop(&mut world.server, world.client_id, event, Timestamp::now()),
        ClientAction::ShutDown(s) if s == sid
    ));
    assert_eq!(world.server.find_stream_id_by_addr(&PeerAddr::v4(1, 1)), None);
    assert!(matches!(
        forward_to_local(LocalWriteEvent::Message(Some(StreamMessage::Close))),
        LocalWriteAction::Close
    ));
}

#[test]
fn lost_client_comes_back_as_itself() {
    let mut world = launch_tcp();
    let remote = world.connect(PeerAddr::v4(1, 1));
    let ping = ping_packet(&world.config, world.client_id, Timestamp::now()).unwrap();
    assert!(matches!(world.to_client(ping), FlowAction::Reply(ControlPacketV2::Pong(0, _))));

    let (mut run, _) = ClientRun::start(
        "json.web.token".to_string(),
        "127.0.0.1".to_string(),
        5000,
        RequestType::NewClient { endpoint_claims: vec![] },
    );
    let step = run.new_run_client(&mut world.client, RunEvent::TaskExited);
    assert!(matches!(step.action, RunAction::Sleep(_)));
    let hello = match run.new_run_client(&mut world.client, RunEvent::Connected).action {
        RunAction::SendHello(hello) => hello,
        _ => panic!("no hello is sent"),
    };
    let event = ClientEvent::Read(ReadEvent::Ended);
    let _ = client_read_loop(&mut world.server, world.client_id, event, Timestamp::now());

    let mut rng = StdRng::from_entropy();
    let answer =
        handle_new_connection(&world.config, &mut world.server, &mut rng, Some(hello), None)
            .unwrap();
    assert!(matches!(
        &answer.hello,
        ServerHelloV2::Success { client_id, endpoints, .. }
            if *client_id == world.client_id && *endpoints == vec![world.endpoint]
    ));
    assert!(complete_connection(&mut world.server, answer.admission, true).is_empty());
    assert_eq!(world.endpoint.protocol, Protocol::TCP);
    world.server.cleanup();
    assert_eq!(world.server.get_client_ids(), vec![world.client_id]);
    assert_eq!(world.server.get_stream_ids(), vec![remote.stream_id]);
}
