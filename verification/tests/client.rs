use ownserver::client::backoff::{calculate_reconnect_backoff, reconnect_backoff_secs};
use ownserver::client::endpoint::parse_endpoint;
use ownserver::client::handshake::{
    fetch_token, send_client_hello, tunnel_url, verify_server_hello, ClientInfo, RequestType,
    ServerReply, TokenResponse,
};
use ownserver::client::local::{
    forward_to_local, process_local, LocalReadAction, LocalReadEvent, LocalWriteAction,
    LocalWriteEvent,
};
use ownserver::client::recorder::{
    init_recorder, init_stdout_event_recorder, record_client_info, RecorderSlot,
    SetEventRecorderError, StdoutRecorder,
};
use ownserver::client::run::{
    ping_packet, run_with_token, ClientRun, RunAction, RunEvent,
};
use ownserver::client::session::{
    on_processed, on_read, process_control_flow_message, process_control_flow_message_at,
    FlowAction, SessionStep,
};
use ownserver::client::store::{LocalStream, Store, Upload};
use ownserver::client::{Error, StreamMessage};
use ownserver::clock::Timestamp;
use ownserver::id::{ClientId, EndpointId, StreamId};
use ownserver::protocol::{
    ClientType, ControlPacketV2, Endpoint, EndpointClaim, PeerAddr, Protocol, RemoteInfo,
    ServerHelloV2,
};
use ownserver::ws::{Frame, ReadEvent};
use std::time::Duration;

fn endpoint(id: u128, protocol: Protocol, local_port: u16, remote_port: u16) -> Endpoint {
    Endpoint { id: EndpointId { uuid: id }, protocol, local_port, remote_port }
}

fn info() -> RemoteInfo {
    RemoteInfo::new(PeerAddr::v4(0x7F000001, 4000))
}

fn success(client_id: ClientId, endpoints: Vec<Endpoint>) -> ServerHelloV2 {
    ServerHelloV2::Success { client_id, host: "foo.bar.local".to_string(), endpoints }
}

#[test]
fn it_calculates_reconnect_backoff() {
    assert_eq!(calculate_reconnect_backoff(0), Duration::from_secs(0));
    assert_eq!(calculate_reconnect_backoff(1), Duration::from_secs(1));
    assert_eq!(calculate_reconnect_backoff(2), Duration::from_secs(2));
    assert_eq!(calculate_reconnect_backoff(3), Duration::from_secs(4));
    assert_eq!(calculate_reconnect_backoff(4), Duration::from_secs(8));
    assert_eq!(calculate_reconnect_backoff(5), Duration::from_secs(16));
    assert_eq!(calculate_reconnect_backoff(6), Duration::from_secs(32));
    assert_eq!(calculate_reconnect_backoff(7), Duration::from_secs(64));
    assert_eq!(calculate_reconnect_backoff(8), Duration::from_secs(128));
    assert_eq!(calculate_reconnect_backoff(9), Duration::from_secs(256));
    assert_eq!(calculate_reconnect_backoff(10), Duration::from_secs(300));
    assert_eq!(calculate_reconnect_backoff(11), Duration::from_secs(300));
}

#[test]
fn backoff_never_shrinks() {
    for n in 0..40 {
        assert!(reconnect_backoff_secs(n) <= reconnect_backoff_secs(n + 1));
    }
    assert_eq!(reconnect_backoff_secs(u32::MAX), 300);
}

#[test]
fn endpoints_on_the_command_line() {
    let claim = |protocol, local_port| EndpointClaim { protocol, local_port, remote_port: 0 };
    assert_eq!(parse_endpoint("25565/tcp"), Ok(claim(Protocol::TCP, 25565)));
    assert_eq!(parse_endpoint("1/udp"), Ok(claim(Protocol::UDP, 1)));
    assert_eq!(parse_endpoint("+007/udp"), Ok(claim(Protocol::UDP, 7)));
    assert_eq!(parse_endpoint("65535/tcp/more"), Ok(claim(Protocol::TCP, 65535)));
    let no_endpoint = |s: &str| Err(format!("`{s}` isn't a valid endpoint"));
    let no_protocol = |s: &str| Err(format!("`{s}` isn't a valid protocol"));
    for s in ["", "/tcp", "abc/tcp", "-1/tcp", "+/tcp", "1 /tcp", "99999999999999999999/tcp", "é/udp"] {
        assert_eq!(parse_endpoint(s), no_endpoint(s));
    }
    for s in ["80", "80/", "80/TCP", "80/sctp", "80//tcp", "80/tcpp"] {
        assert_eq!(parse_endpoint(s), no_protocol(s));
    }
    for s in ["0/tcp", "65536/tcp", "18446744073709551615/tcp"] {
        assert_eq!(parse_endpoint(s), Err("port not in range 1-65535".to_string()));
    }
}

#[test]
fn proxy_client_parse_ok_response() {
    let response =
        TokenResponse::Granted { token: "json.web.token".to_string(), host: "foo.local".to_string() };
    let (token, host) = fetch_token(response).unwrap();
    assert_eq!(token, "json.web.token".to_string());
    assert_eq!(host, "foo.local".to_string());
}

#[test]
fn proxy_client_returns_error_when_token_server_internal_error() {
    let response = TokenResponse::Refused { message: "failed to generate token".to_string() };
    let result = fetch_token(response);
    assert!(result.is_err());
    assert_eq!(result.err().unwrap().to_string(), "failed to generate token");
}

#[test]
fn proxy_client_it_accept_server_hello() {
    let cid = ClientId::new();
    let eid = EndpointId::new();
    let e = Endpoint { id: eid, protocol: Protocol::TCP, local_port: 1234, remote_port: 1234 };
    let client_info = verify_server_hello(ServerReply::Hello(success(cid, vec![e])))
        .expect("unexpected server hello error");
    let ClientInfo { client_id, host, endpoints } = client_info;
    assert_eq!(client_id, cid);
    assert_eq!(host, "foo.bar.local".to_string());
    assert_eq!(endpoints, vec![e]);
}

#[test]
fn proxy_client_returns_errors_when_websocket_yields_nothing() {
    let server_hello = verify_server_hello(ServerReply::Nothing)
        .expect_err("server hello is unexpectedly correct");
    assert!(matches!(server_hello, Error::NoResponseFromServer));
}

#[test]
fn proxy_client_returns_errors_when_server_hello_is_invalid() {
    let server_hello = verify_server_hello(ServerReply::Unreadable)
        .expect_err("server hello is unexpectedly correct");
    assert!(matches!(server_hello, Error::ServerReplyInvalid));
}

#[test]
fn proxy_client_returns_errors_when_websocket_error() {
    let server_hello = verify_server_hello(ServerReply::Failed("closed".to_string()))
        .expect_err("server hello is unexpectedly correct");
    assert!(matches!(server_hello, Error::WebSocketError(_)));
}

#[test]
fn every_refusal_is_an_error_of_its_own() {
    let error = |hello| verify_server_hello(ServerReply::Hello(hello)).unwrap_err();
    assert_eq!(error(ServerHelloV2::BadRequest), Error::BadRequest);
    assert_eq!(
        error(ServerHelloV2::ServiceTemporaryUnavailable),
        Error::ServiceTemporaryUnavailable
    );
    assert_eq!(error(ServerHelloV2::IllegalHost), Error::IllegalHost);
    assert_eq!(error(ServerHelloV2::VersionMismatch), Error::ClientHandshakeVersionMismatch);
    assert_eq!(error(ServerHelloV2::InternalServerError), Error::InternalServerError);
}

#[test]
fn hello_says_what_the_client_wants() {
    let claims = vec![EndpointClaim { protocol: Protocol::UDP, local_port: 9, remote_port: 0 }];
    let new = RequestType::NewClient { endpoint_claims: claims.clone() };
    let hello = send_client_hello(&"token".to_string(), &new);
    assert_eq!(hello.version, 2);
    assert_eq!(hello.token, "token");
    assert_eq!(hello.endpoint_claims, claims);
    assert_eq!(hello.client_type, ClientType::Auth);
    let hello = send_client_hello(&"again".to_string(), &RequestType::Reconnect);
    assert_eq!(hello.version, 2);
    assert_eq!(hello.token, "again");
    assert!(hello.endpoint_claims.is_empty());
    assert_eq!(hello.client_type, ClientType::Reconnect);
}

#[test]
fn address_of_the_tunnel() {
    assert_eq!(tunnel_url("foo.local", 5000), Ok("ws://foo.local:5000/tunnel".to_string()));
    assert_eq!(tunnel_url("FOO.local", 80), Ok("ws://foo.local/tunnel".to_string()));
    assert_eq!(tunnel_url("foo bar", 5000), Err(Error::InvalidUrl("invalid international domain name".to_string())));
}

fn open_store() -> (Store, StreamId) {
    let mut store = Store::default();
    store.register_endpoints(&vec![
        endpoint(1, Protocol::TCP, 3000, 10000),
        endpoint(2, Protocol::UDP, 3001, 10001),
    ]);
    (store, StreamId { uuid: 77 })
}

fn process(store: &mut Store, packet: ControlPacketV2) -> Result<FlowAction, String> {
    let expected = packet.clone();
    let (action, given) = process_control_flow_message(store, Ok(Some(packet)))?;
    assert_eq!(given, expected);
    Ok(action)
}

#[test]
fn init_sets_up_a_stream() {
    let (mut store, sid) = open_store();
    let tcp = process(&mut store, ControlPacketV2::Init(sid, EndpointId { uuid: 1 }, info()));
    assert!(matches!(
        tcp,
        Ok(FlowAction::SetUp { protocol: Protocol::TCP, stream_id, endpoint_id, remote_info })
            if stream_id == sid && endpoint_id.uuid == 1 && remote_info == info()
    ));
    let udp = process(&mut store, ControlPacketV2::Init(sid, EndpointId { uuid: 2 }, info()));
    assert!(matches!(udp, Ok(FlowAction::SetUp { protocol: Protocol::UDP, .. })));
    assert_eq!(store.len_stream(), 0);
}

#[test]
fn init_of_an_unknown_endpoint_fails() {
    let (mut store, sid) = open_store();
    let r = process(&mut store, ControlPacketV2::Init(sid, EndpointId::default(), info()));
    assert_eq!(
        r.err().unwrap(),
        "eid=endpoint_00000000-0000-0000-0000-000000000000 is not registered"
    );
}

#[test]
fn init_of_a_known_stream_fails() {
    let (mut store, _) = open_store();
    let sid = StreamId::default();
    store.add_stream(sid, LocalStream::new(info()));
    let r = process(&mut store, ControlPacketV2::Init(sid, EndpointId { uuid: 1 }, info()));
    assert_eq!(
        r.err().unwrap(),
        "sid=stream_00000000-0000-0000-0000-000000000000 is already exist"
    );
}

#[test]
fn ping_is_answered_and_its_token_kept() {
    let (mut store, _) = open_store();
    let at = Timestamp { secs: 12, nanos: 3 };
    let r = process(&mut store, ControlPacketV2::Ping(5, at, None));
    assert!(matches!(r, Ok(FlowAction::Reply(ControlPacketV2::Pong(5, t))) if t == at));
    assert_eq!(store.get_reconnect_token(), None);
    let r = process(&mut store, ControlPacketV2::Ping(6, at, Some("tok".to_string())));
    assert!(matches!(r, Ok(FlowAction::Reply(ControlPacketV2::Pong(6, t))) if t == at));
    assert_eq!(store.get_reconnect_token(), Some("tok".to_string()));
    let _ = process(&mut store, ControlPacketV2::Ping(7, at, None));
    assert_eq!(store.get_reconnect_token(), Some("tok".to_string()));
}

#[test]
fn pong_gives_the_round_trip_time() {
    let (mut store, _) = open_store();
    let sent = Timestamp { secs: 100, nanos: 500_000_000 };
    let now = Timestamp { secs: 102, nanos: 0 };
    let r = process_control_flow_message_at(
        &mut store,
        Ok(Some(ControlPacketV2::Pong(0, sent))),
        now,
    );
    assert!(matches!(
        r,
        Ok((FlowAction::Nothing, ControlPacketV2::Pong(0, t))) if t == sent
    ));
    assert_eq!(store.get_rtt(), 1500);
    let now = Timestamp::now();
    let _ = process(&mut store, ControlPacketV2::Pong(0, now));
    assert!((0..10_000).contains(&store.get_rtt()));
}

#[test]
fn messages_that_are_refused() {
    let (mut store, sid) = open_store();
    assert_eq!(
        process(&mut store, ControlPacketV2::Refused(sid)).err().unwrap(),
        "unexpected control packet"
    );
    assert_eq!(
        process_control_flow_message(&mut store, Ok(None)).err().unwrap(),
        "failed to parse partial packet"
    );
    assert_eq!(
        process_control_flow_message(&mut store, Err("bad bytes".to_string())).err().unwrap(),
        "bad bytes"
    );
}

#[test]
fn data_goes_to_its_stream_until_the_stream_ends() {
    let (mut store, sid) = open_store();
    let data = ControlPacketV2::Data(sid, b"some message 1".to_vec());
    let r = process(&mut store, data.clone());
    assert!(matches!(r, Ok(FlowAction::Refuse(ControlPacketV2::Refused(s))) if s == sid));
    store.add_stream(sid, LocalStream::new(info()));
    let r = process(&mut store, data.clone());
    assert!(matches!(
        r,
        Ok(FlowAction::Forward(s, StreamMessage::Data(d))) if s == sid && d == b"some message 1"
    ));
    let r = process(&mut store, ControlPacketV2::End(sid));
    assert!(matches!(r, Ok(FlowAction::CloseLater(s, l)) if s == sid && l.remote_info == info()));
    assert!(!store.has_stream(&sid));
    let r = process(&mut store, ControlPacketV2::End(sid));
    assert!(matches!(r, Ok(FlowAction::Nothing)));
    let r = process(&mut store, data);
    assert!(matches!(r, Ok(FlowAction::Refuse(ControlPacketV2::Refused(s))) if s == sid));
}

#[test]
fn session_ends_on_a_close_frame() {
    let received = |f| on_read(ReadEvent::Received(f));
    assert!(matches!(received(Frame::Close(vec![])), SessionStep::Finish(Ok(()))));
    assert!(matches!(received(Frame::Binary(vec![1])), SessionStep::Process(d) if d == vec![1]));
    assert!(matches!(received(Frame::Text(vec![])), SessionStep::Process(d) if d.is_empty()));
    assert!(matches!(received(Frame::Other(vec![2])), SessionStep::Process(d) if d == vec![2]));
    assert!(matches!(on_read(ReadEvent::Failed), SessionStep::Finish(Err(Error::Timeout))));
    assert!(matches!(on_read(ReadEvent::Ended), SessionStep::Finish(Err(Error::Timeout))));
    assert!(matches!(on_read(ReadEvent::Cancelled), SessionStep::Finish(Ok(()))));
    assert_eq!(on_processed(true), None);
    assert_eq!(on_processed(false), Some(Error::MalformedMessageFromServer));
}

#[test]
fn client_store_keeps_streams_and_endpoints() {
    let (mut store, sid) = open_store();
    assert_eq!(
        store.get_local_addr_by_endpoint_id(EndpointId { uuid: 1 }),
        Some("localhost:3000".to_string())
    );
    assert_eq!(store.get_local_addr_by_endpoint_id(EndpointId { uuid: 3 }), None);
    assert_eq!(
        store.get_endpoint_by_endpoint_id(EndpointId { uuid: 2 }),
        Some(endpoint(2, Protocol::UDP, 3001, 10001))
    );
    let mut endpoints = store.get_endpoints();
    endpoints.sort_by_key(|e| e.local_port);
    assert_eq!(
        endpoints,
        vec![endpoint(1, Protocol::TCP, 3000, 10000), endpoint(2, Protocol::UDP, 3001, 10001)]
    );
    let stream = LocalStream::new(info());
    assert_eq!(stream.remote_info(), &info());
    store.add_stream(sid, stream);
    assert_eq!(store.get_stream(&sid), Some(stream));
    assert_eq!(store.len_stream(), 1);
    let list = store.list_streams();
    assert_eq!(list.len(), 1);
    assert_eq!((list[0].stream_id, list[0].remote_info), (sid, info()));
    assert_eq!(store.stream_names(), vec![sid.to_string()]);
    assert_eq!(store.remove_stream(&sid), Some((sid, stream)));
    assert_eq!(store.remove_stream(&sid), None);
    assert_eq!(store.get_stream(&sid), None);
}

#[test]
fn nothing_is_sent_without_a_connection() {
    let mut store = Store::default();
    assert!(!store.is_connected());
    assert_eq!(store.send_to_server(Upload::Sent), Err(Error::ServerDown));
    store.add_client(ClientId { uuid: 1 });
    assert!(store.is_connected());
    assert_eq!(store.send_to_server(Upload::Sent), Ok(()));
    assert_eq!(store.send_to_server(Upload::NotEncoded), Ok(()));
    assert_eq!(
        store.send_to_server(Upload::NotSent("gone".to_string())),
        Err(Error::WebSocketError("gone".to_string()))
    );
    store.remove_client();
    assert_eq!(store.send_to_server(Upload::Sent), Err(Error::ServerDown));
}

#[test]
fn local_side_of_a_stream() {
    let sid = StreamId { uuid: 5 };
    let read = |e| process_local(sid, e);
    assert!(matches!(
        read(LocalReadEvent::Read(vec![1, 2])),
        LocalReadAction::Send(ControlPacketV2::Data(s, d)) if s == sid && d == vec![1, 2]
    ));
    assert!(matches!(read(LocalReadEvent::Read(vec![])), LocalReadAction::Stop));
    assert!(matches!(read(LocalReadEvent::ReadError), LocalReadAction::Stop));
    assert!(matches!(read(LocalReadEvent::Sent(true)), LocalReadAction::Read));
    assert!(matches!(read(LocalReadEvent::Sent(false)), LocalReadAction::Stop));
    let write = |m| forward_to_local(LocalWriteEvent::Message(m));
    assert!(matches!(
        write(Some(StreamMessage::Data(vec![3]))),
        LocalWriteAction::Write(d) if d == vec![3]
    ));
    assert!(matches!(write(Some(StreamMessage::Close)), LocalWriteAction::Close));
    assert!(matches!(write(None), LocalWriteAction::Close));
    let written = |ok| forward_to_local(LocalWriteEvent::Written(ok));
    assert!(matches!(written(true), LocalWriteAction::Next));
    assert!(matches!(written(false), LocalWriteAction::Stop));
}

#[test]
fn recorder_is_chosen_once() {
    let mut slot = RecorderSlot::new();
    let client_info = ClientInfo {
        client_id: ClientId::default(),
        host: "shard.example".to_string(),
        endpoints: vec![
            endpoint(1, Protocol::TCP, 3000, 17974),
            endpoint(2, Protocol::UDP, 80, 1),
        ],
    };
    assert!(record_client_info(&slot, client_info.clone()).is_none());
    init_stdout_event_recorder(&mut slot);
    let error = init_recorder(&mut slot, StdoutRecorder {}).unwrap_err();
    assert_eq!(error, SetEventRecorderError {});
    assert_eq!(
        error.to_string(),
        "attempted to set a event recorder after the logging system was already initialized"
    );
    let lines = record_client_info(&slot, client_info).unwrap();
    assert_eq!(
        lines,
        vec![
            "Your Client ID: client_00000000-0000-0000-0000-000000000000",
            "+--------------------------------------------------------------------------------+",
            "| Your server tcp://localhost:3000 is now available at tcp://shard.example:17974 |",
            "+--------------------------------------------------------------------------------+",
            "+--------------------------------------------------------------------------+",
            "| Your server udp://localhost:80 is now available at udp://shard.example:1 |",
            "+--------------------------------------------------------------------------+",
        ]
    );
}

#[test]
fn user_is_told_where_the_server_is() {
    let mut slot = RecorderSlot::new();
    init_recorder(&mut slot, StdoutRecorder {}).unwrap();
    let client_info = ClientInfo {
        client_id: ClientId { uuid: 0x755d0b36_f863_41e1_b5ff_c6c89fdb92a5 },
        host: "shard-7924.ownserver.kumassy.com".to_string(),
        endpoints: vec![endpoint(0, Protocol::TCP, 3000, 17974)],
    };
    let edge = format!("+{}+", "-".repeat(99));
    assert_eq!(
        record_client_info(&slot, client_info).unwrap(),
        vec![
            "Your Client ID: client_755d0b36-f863-41e1-b5ff-c6c89fdb92a5".to_string(),
            edge.clone(),
            "| Your server tcp://localhost:3000 is now available at \
             tcp://shard-7924.ownserver.kumassy.com:17974 |"
                .to_string(),
            edge,
        ]
    );
}

#[test]
fn border_counts_bytes() {
    let mut slot = RecorderSlot::new();
    init_recorder(&mut slot, StdoutRecorder {}).unwrap();
    let client_info = ClientInfo {
        client_id: ClientId::default(),
        host: "é".to_string(),
        endpoints: vec![endpoint(1, Protocol::TCP, 1, 2)],
    };
    let lines = record_client_info(&slot, client_info).unwrap();
    assert_eq!(lines[2], "| Your server tcp://localhost:1 is now available at tcp://é:2 |");
    assert_eq!(lines[1].len(), lines[2].len());
}

#[test]
fn client_retries_with_growing_waits() {
    let mut store = Store::default();
    let (mut run, wait) = ClientRun::start(
        "token".to_string(),
        "foo.local".to_string(),
        5000,
        RequestType::NewClient { endpoint_claims: vec![] },
    );
    assert_eq!(wait, Duration::from_secs(0));
    let step = run.new_run_client(&mut store, RunEvent::Slept);
    assert!(matches!(step.action, RunAction::Connect(u) if u == "ws://foo.local:5000/tunnel"));
    for n in 1..12 {
        let step = run.new_run_client(&mut store, RunEvent::ConnectFailed);
        assert_eq!(step.noted, Some(Error::ServerDown));
        assert!(
            matches!(step.action, RunAction::Sleep(d) if d == calculate_reconnect_backoff(n))
        );
    }
    let step = run.new_run_client(&mut store, RunEvent::HelloFailed("x".to_string()));
    assert_eq!(step.noted, Some(Error::WebSocketError("x".to_string())));
    let step =
        run.new_run_client(&mut store, RunEvent::Replied(ServerReply::Hello(ServerHelloV2::BadRequest)));
    assert_eq!(step.noted, Some(Error::BadRequest));
    assert_eq!(run.attempts, 13);
    assert!(!store.is_connected());
}

#[test]
fn client_connects_serves_and_reconnects() {
    let mut store = Store::default();
    let claims = vec![EndpointClaim { protocol: Protocol::TCP, local_port: 3000, remote_port: 0 }];
    let (mut run, _) = ClientRun::start(
        "token".to_string(),
        "foo.local".to_string(),
        5000,
        RequestType::NewClient { endpoint_claims: claims.clone() },
    );
    let _ = run.new_run_client(&mut store, RunEvent::ConnectFailed);
    let step = run.new_run_client(&mut store, RunEvent::Connected);
    assert!(matches!(
        step.action,
        RunAction::SendHello(h)
            if h.token == "token" && h.endpoint_claims == claims && h.client_type == ClientType::Auth
    ));
    let step = run.new_run_client(&mut store, RunEvent::HelloSent);
    assert!(matches!(step.action, RunAction::AwaitReply));
    let e = endpoint(1, Protocol::TCP, 3000, 10000);
    let reply = ServerReply::Hello(success(ClientId { uuid: 9 }, vec![e]));
    let step = run.new_run_client(&mut store, RunEvent::Replied(reply));
    assert!(matches!(step.action, RunAction::Serve(i) if i.client_id.uuid == 9));
    assert_eq!(run.attempts, 0);
    assert!(store.is_connected());
    assert_eq!(store.get_endpoint_by_endpoint_id(EndpointId { uuid: 1 }), Some(e));

    let step = run.new_run_client(&mut store, RunEvent::TaskExited);
    assert_eq!(step.noted, Some(Error::ReconnectTokenError));
    assert!(matches!(step.action, RunAction::Stop(None)));

    store.set_reconnect_token("again".to_string());
    let step = run.new_run_client(&mut store, RunEvent::TaskExited);
    assert!(matches!(step.action, RunAction::Sleep(d) if d == Duration::from_secs(0)));
    let step = run.new_run_client(&mut store, RunEvent::Connected);
    assert!(matches!(
        step.action,
        RunAction::SendHello(h)
            if h.token == "again" && h.endpoint_claims.is_empty()
                && h.client_type == ClientType::Reconnect
    ));
    let step = run.new_run_client(&mut store, RunEvent::Cancelled);
    assert!(matches!(step.action, RunAction::Stop(None)));
}

#[test]
fn client_stops_on_an_address_that_is_none() {
    let mut store = Store::default();
    let (mut run, _) = ClientRun::start(
        "token".to_string(),
        "foo bar".to_string(),
        5000,
        RequestType::Reconnect,
    );
    let step = run.new_run_client(&mut store, RunEvent::Slept);
    assert!(matches!(
        step.action,
        RunAction::Stop(Some(e)) if e.to_string() == "invalid international domain name"
    ));
}

#[test]
fn client_that_connects_once() {
    let mut store = Store::default();
    assert_eq!(
        run_with_token(&mut store, ServerReply::Nothing).err(),
        Some(Error::NoResponseFromServer)
    );
    assert!(!store.is_connected());
    let e = endpoint(4, Protocol::UDP, 1, 2);
    let reply = ServerReply::Hello(success(ClientId { uuid: 9 }, vec![e]));
    assert_eq!(run_with_token(&mut store, reply).unwrap().endpoints, vec![e]);
    assert!(store.is_connected());
    assert_eq!(store.get_endpoints(), vec![e]);
    let at = Timestamp { secs: 1, nanos: 2 };
    assert_eq!(ping_packet(at), ControlPacketV2::Ping(0, at, None));
}

#[test]
fn client_errors_in_words() {
    let text = |e: Error| e.to_string();
    assert_eq!(
        text(Error::WebSocketError("x".to_string())),
        "Failed to connect to control server: x."
    );
    assert_eq!(text(Error::ServerReplyInvalid), "The server responded with an invalid response.");
    assert_eq!(text(Error::NoResponseFromServer), "The server did not respond to our client_hello.");
    assert_eq!(text(Error::ServerDown), "Could not connect to server.");
    assert_eq!(
        text(Error::TokenServerError("y".to_string())),
        "Could not connect to server: y."
    );
    assert_eq!(text(Error::BadRequest), "Client hello was invalid or malformed.");
    assert_eq!(
        text(Error::ServiceTemporaryUnavailable),
        "Server could not process client request."
    );
    assert_eq!(
        text(Error::IllegalHost),
        "Client tried to connect to a host that was not assigned by token server."
    );
    assert_eq!(text(Error::InternalServerError), "Server encountered some errors.");
    assert_eq!(
        text(Error::ClientHandshakeVersionMismatch),
        "Current client handshake version is not supported."
    );
    assert_eq!(text(Error::MalformedMessageFromServer), "Server sent a malformed message.");
    assert_eq!(text(Error::Timeout), "The server timed out sending us something.");
    assert_eq!(text(Error::JoinError), "Join error.");
}
