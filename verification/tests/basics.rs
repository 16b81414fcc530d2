use ownserver::clock::{round_trip_millis, Timestamp, FIRST_SECOND, LAST_SECOND};
use ownserver::id::{ClientId, EndpointId, StreamId};
use ownserver::protocol::{
    ControlPacketV2, ControlPacketV2Codec, PeerAddr, Protocol, RemoteInfo,
};
use ownserver::registry::{HostIndex, PeerIndex, Registry};
use ownserver::text::{decimal_text, host_port_text};
use ownserver::ws::{read_message, Frame, ReadEvent};

#[test]
fn numbers_in_decimal() {
    assert_eq!(decimal_text(0), "0");
    assert_eq!(decimal_text(9), "9");
    assert_eq!(decimal_text(10), "10");
    assert_eq!(decimal_text(65535), "65535");
    assert_eq!(decimal_text(u64::MAX), "18446744073709551615");
    assert_eq!(host_port_text("0.0.0.0", 5000), "0.0.0.0:5000");
}

#[test]
fn identifiers_are_printed_with_their_prefix() {
    let uuid = 0x755d0b36_f863_41e1_b5ff_c6c89fdb92a5;
    assert_eq!(ClientId { uuid }.to_string(), "client_755d0b36-f863-41e1-b5ff-c6c89fdb92a5");
    assert_eq!(StreamId { uuid }.to_string(), "stream_755d0b36-f863-41e1-b5ff-c6c89fdb92a5");
    assert_eq!(EndpointId { uuid }.to_string(), "endpoint_755d0b36-f863-41e1-b5ff-c6c89fdb92a5");
    assert_eq!(StreamId::default().to_string(), "stream_00000000-0000-0000-0000-000000000000");
    assert_eq!(ClientId::default().uuid, 0);
    assert_eq!(EndpointId::default().uuid, 0);
}

#[test]
fn fresh_identifiers_are_random_and_of_version_4() {
    let ids = [StreamId::new().uuid, ClientId::new().uuid, EndpointId::new().uuid];
    assert_ne!(ids[0], ids[1]);
    assert_ne!(ids[1], ids[2]);
    for id in ids {
        assert_eq!((id >> 76) & 0xF, 4);
        assert_eq!((id >> 62) & 3, 2);
    }
}

#[test]
fn timestamps_of_the_calendar() {
    assert!(Timestamp { secs: 0, nanos: 0 }.is_valid());
    assert!(Timestamp { secs: FIRST_SECOND, nanos: 0 }.is_valid());
    assert!(Timestamp { secs: LAST_SECOND, nanos: 999_999_999 }.is_valid());
    assert!(!Timestamp { secs: LAST_SECOND + 1, nanos: 0 }.is_valid());
    assert!(!Timestamp { secs: FIRST_SECOND - 1, nanos: 0 }.is_valid());
    assert!(!Timestamp { secs: 0, nanos: 1_000_000_000 }.is_valid());
    assert!(Timestamp { secs: 59, nanos: 1_500_000_000 }.is_valid());
    assert!(Timestamp { secs: -1, nanos: 1_500_000_000 }.is_valid());
    assert!(!Timestamp { secs: 59, nanos: 2_000_000_000 }.is_valid());
    assert!(Timestamp::now().is_valid());
    for secs in [FIRST_SECOND, LAST_SECOND, -60, -1, 0, 59, 60, 119] {
        for nanos in [0, 999_999_999, 1_000_000_000, 1_999_999_999, 2_000_000_000] {
            let known = chrono::DateTime::from_timestamp(secs, nanos).is_some();
            assert_eq!(Timestamp { secs, nanos }.is_valid(), known);
        }
    }
}

#[test]
fn round_trips_in_milliseconds() {
    let t = |secs: i64, nanos: u32| Timestamp { secs, nanos };
    assert_eq!(round_trip_millis(t(10, 0), t(9, 0)), 1000);
    assert_eq!(round_trip_millis(t(10, 1_500_000), t(10, 0)), 1);
    assert_eq!(round_trip_millis(t(10, 0), t(10, 1_500_000)), -1);
    assert_eq!(round_trip_millis(t(10, 0), t(11, 999_999)), -1000);
    assert_eq!(round_trip_millis(t(10, 999_999), t(10, 0)), 0);
    assert_eq!(round_trip_millis(t(60, 0), t(59, 1_500_000_000)), 500);
    assert_eq!(round_trip_millis(t(59, 1_500_000_000), t(60, 0)), -500);
    assert_eq!(round_trip_millis(t(59, 1_500_000_000), t(58, 0)), 2500);
}

#[test]
fn packets_in_words() {
    let sid = StreamId::default();
    let eid = EndpointId::default();
    let zero = "00000000-0000-0000-0000-000000000000";
    let at = Timestamp { secs: 0, nanos: 0 };
    let info = RemoteInfo::new(PeerAddr::v4(0x7F000001, 8080));
    assert_eq!(
        ControlPacketV2::Init(sid, eid, info).to_string("127.0.0.1:8080"),
        format!("ControlPacket::Init(sid=stream_{zero}, eid=endpoint_{zero}, remote_info=RemoteInfo(remote_peer_addr=127.0.0.1:8080)")
    );
    assert_eq!(
        ControlPacketV2::Data(sid, vec![0; 12]).to_string(""),
        format!("ControlPacket::Data(sid=stream_{zero}, data_len=12)")
    );
    assert_eq!(
        ControlPacketV2::Refused(sid).to_string(""),
        format!("ControlPacket::Refused(sid=stream_{zero})")
    );
    assert_eq!(
        ControlPacketV2::End(sid).to_string(""),
        format!("ControlPacket::End(sid=stream_{zero})")
    );
    assert_eq!(
        ControlPacketV2::Ping(7, at, None).to_string(""),
        "ControlPacket::Ping(seq=7, datetime=1970-01-01 00:00:00 UTC)"
    );
    assert_eq!(
        ControlPacketV2::Pong(0, at).to_string(""),
        "ControlPacket::Pong(seq=0, datetime=1970-01-01 00:00:00 UTC)"
    );
    assert_eq!(Protocol::TCP.to_string(), "tcp");
    assert_eq!(Protocol::UDP.to_string(), "udp");
}

#[test]
fn codec_frames_one_packet() {
    let mut codec = ControlPacketV2Codec::new();
    let mut buffer = vec![1];
    assert_eq!(codec.encode::<String>(Ok(vec![2, 3]), &mut buffer), Ok(()));
    assert_eq!(buffer, vec![1, 2, 3]);
    assert_eq!(codec.encode(Err("broken".to_string()), &mut buffer), Err("broken".to_string()));
    assert_eq!(buffer, vec![1, 2, 3]);
    let packet = ControlPacketV2::End(StreamId::default());
    assert_eq!(codec.decode::<String>(&buffer, Ok(packet.clone())), Ok(Some(packet.clone())));
    assert_eq!(codec.decode::<String>(&vec![], Ok(packet)), Ok(None));
    assert_eq!(codec.decode(&vec![], Err("broken".to_string())), Ok(None));
    assert_eq!(codec.decode(&buffer, Err("broken".to_string())), Err("broken".to_string()));
}

#[test]
fn messages_of_the_protocol() {
    let read = |frame: Frame| read_message(ReadEvent::Received(frame));
    assert_eq!(read(Frame::Binary(vec![1])), Some(vec![1]));
    assert_eq!(read(Frame::Text(vec![2])), Some(vec![2]));
    assert_eq!(read(Frame::Binary(vec![])), None);
    assert_eq!(read(Frame::Text(vec![])), None);
    assert_eq!(read(Frame::Close(vec![1])), None);
    assert_eq!(read(Frame::Other(vec![1])), None);
    assert_eq!(read_message(ReadEvent::Cancelled), None);
    assert_eq!(read_message(ReadEvent::Failed), None);
    assert_eq!(read_message(ReadEvent::Ended), None);
}

#[test]
fn registry_reads_what_was_written() {
    let mut r: Registry<String> = Registry::new();
    assert_eq!(r.len(), 0);
    assert_eq!(r.insert(1, "a".to_string()), None);
    assert_eq!(r.insert(2, "b".to_string()), None);
    assert_eq!(r.insert(1, "c".to_string()), Some("a".to_string()));
    assert_eq!(r.get(1), Some(&"c".to_string()));
    assert_eq!(r.get(3), None);
    assert!(r.contains_key(2));
    assert_eq!(r.len(), 2);
    assert_eq!(r.remove(1), Some("c".to_string()));
    assert_eq!(r.remove(1), None);
    assert_eq!(r.insert(3, "d".to_string()), None);
    let mut keys = r.keys();
    keys.sort();
    assert_eq!(keys, vec![2, 3]);
    assert_eq!(r.get(3), Some(&"d".to_string()));
    assert_eq!(r.get(2), Some(&"b".to_string()));
    r.clear();
    assert_eq!(r.len(), 0);
    assert_eq!(r.get(2), None);
}

#[test]
fn addresses_are_told_apart() {
    let mut index = PeerIndex::new();
    let a = PeerAddr::v4(1, 80);
    let b = PeerAddr::v6(1, 80);
    let scoped = PeerAddr { scope_id: 3, ..b };
    let flowing = PeerAddr { flowinfo: 3, ..b };
    let id = |uuid: u128| StreamId { uuid };
    assert_eq!(index.get(&a), None);
    index.insert(&a, id(1));
    index.insert(&b, id(2));
    index.insert(&scoped, id(3));
    index.insert(&flowing, id(4));
    index.insert(&PeerAddr::v4(1, 81), id(5));
    assert_eq!(index.get(&a), Some(id(1)));
    assert_eq!(index.get(&b), Some(id(2)));
    assert_eq!(index.get(&scoped), Some(id(3)));
    assert_eq!(index.get(&flowing), Some(id(4)));
    index.insert(&a, id(6));
    assert_eq!(index.get(&a), Some(id(6)));
}

#[test]
fn host_names_lead_to_clients() {
    let mut index = HostIndex::new();
    index.insert("a".to_string(), ClientId { uuid: 1 });
    index.insert("b".to_string(), ClientId { uuid: 2 });
    index.insert("a".to_string(), ClientId { uuid: 3 });
    assert_eq!(index.get("a"), Some(ClientId { uuid: 3 }));
    assert_eq!(index.get("c"), None);
    assert_eq!(index.len(), 2);
    index.remove("a");
    assert_eq!(index.get("a"), None);
    index.clear();
    assert_eq!(index.len(), 0);
}
