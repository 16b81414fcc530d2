use ownserver::protocol::{EndpointClaim, Protocol};
use ownserver::prototype::{read_client_hello, try_client_handshake, ClientHello, StreamId};
use ownserver::testing::{
    find_available_bulk_ports, find_available_ports, has_available_bulk_ports,
    has_available_ports, local_server_reply, server_config, tcp, token_server_url, udp,
    use_bulk_ports, use_ports, PortSet,
};
use ownserver::ws::{Frame, ReadEvent};

#[test]
fn pool_holds_the_first_free_ports() {
    let mut available = vec![true; 1000];
    available[0] = false;
    available[7] = false;
    assert!(has_available_ports(&available));
    let ports = find_available_ports(&available);
    assert_eq!(ports.len(), 100);
    assert_eq!(ports[0], 5001);
    assert_eq!(ports[6], 5008);
    assert_eq!(ports[99], 5101);
}

#[test]
fn last_port_of_the_span_does_not_count() {
    let mut available = vec![false; 1000];
    for i in 900..1000 {
        available[i] = true;
    }
    assert!(!has_available_ports(&available));
    available[0] = true;
    assert!(has_available_ports(&available));
    assert_eq!(find_available_ports(&available)[99], 5998);
}

#[test]
fn pool_holds_the_first_free_ranges() {
    let mut available = vec![true; 110];
    available[3] = false;
    assert!(!has_available_bulk_ports(&available, 20));
    assert!(has_available_bulk_ports(&available, 22));
    let ranges = find_available_bulk_ports(&available, 22);
    assert_eq!(ranges.len(), 20);
    assert_eq!(ranges[0], 6005..6010);
    assert_eq!(ranges[19], 6100..6105);
}

#[test]
fn ports_are_taken_from_the_end_of_the_pool() {
    let mut pool = vec![1, 2, 3, 4];
    let ports: [u16; 3] = use_ports(&mut pool);
    assert_eq!(ports, [4, 3, 2]);
    assert_eq!(pool, vec![1]);
    let mut ranges = vec![1..2, 3..4];
    assert_eq!(use_bulk_ports(&mut ranges), 3..4);
    assert_eq!(ranges, vec![1..2]);
}

#[test]
fn set_of_ports_for_a_test() {
    let mut pool = vec![1, 2, 3];
    let mut ranges = vec![10..15, 20..25];
    let set = PortSet::new(&mut pool, &mut ranges);
    assert_eq!((set.token_port, set.control_port), (3, 2));
    assert_eq!(set.remote_ports, 20..25);
    assert_eq!(pool, vec![1]);
    assert_eq!(ranges, vec![10..15]);
}

#[test]
fn single_claims() {
    assert_eq!(
        tcp::get_endpoint_claims_single(80),
        vec![EndpointClaim { protocol: Protocol::TCP, local_port: 80, remote_port: 0 }]
    );
    assert_eq!(
        udp::get_endpoint_claims_single(81),
        vec![EndpointClaim { protocol: Protocol::UDP, local_port: 81, remote_port: 0 }]
    );
}

#[test]
fn set_up_of_a_test_server() {
    let config = server_config(1, 2, 3, None);
    assert_eq!(config.host, "127.0.0.1");
    assert_eq!(config.token_secret, "supersecret");
    assert_eq!(config.periodic_ping_interval, 2 << 30);
    assert_eq!(config.reconnect_window, 2);
    assert_eq!(config.periodic_cleanup_interval, 2 << 30);
    assert_eq!(server_config(1, 2, 3, Some(1)).periodic_ping_interval, 1);
    assert_eq!(token_server_url(8888), "http://127.0.0.1:8888/v0/request_token");
}

#[test]
fn local_server_greets() {
    assert_eq!(local_server_reply(&b"foobar".to_vec()), Some(b"hello, foobar".to_vec()));
    assert_eq!(local_server_reply(&vec![]), None);
}

#[test]
fn proxy_server_accept_client_hello() {
    let hello = ClientHello { id: StreamId::generate() };
    let event = ReadEvent::Received(Frame::Binary(b"hello".to_vec()));
    let hello = try_client_handshake(event, Some(hello));
    assert!(hello.is_some());
    let hello = hello.unwrap();
    assert_eq!(hello.id, StreamId("stream_foo".to_string()));
}

#[test]
fn proxy_server_reject_invalid_text_hello() {
    let event = ReadEvent::Received(Frame::Text(b"foobarbaz".to_vec()));
    assert!(try_client_handshake(event, None).is_none());
    let event = ReadEvent::Received(Frame::Text(b"foobarbaz".to_vec()));
    let hello = ClientHello { id: StreamId::generate() };
    assert!(try_client_handshake(event, Some(hello)).is_none());
}

#[test]
fn proxy_server_reject_invalid_serialized_hello() {
    let event = ReadEvent::Received(Frame::Binary(b"\"malformed\"".to_vec()));
    assert!(try_client_handshake(event, None).is_none());
    assert_eq!(
        read_client_hello(ReadEvent::Received(Frame::Binary(vec![]))),
        Some(vec![])
    );
}
