use ownserver::tunnel::packet::{empty_stream_id, ControlPacket, PacketError, StreamId};

#[test]
fn lib_test_control_packet_init() -> Result<(), PacketError> {
    let stream_id = empty_stream_id();
    let expected_packet = ControlPacket::Init(stream_id.clone());
    let deserialized_packet = ControlPacket::deserialize(&expected_packet.serialize())?;

    assert_eq!(ControlPacket::Init(empty_stream_id()), deserialized_packet);
    Ok(())
}

#[test]
fn test_control_packet_data() -> Result<(), PacketError> {
    let stream_id = empty_stream_id();
    let expected_packet = ControlPacket::Data(stream_id.clone(), b"some data".to_vec());
    let deserialized_packet = ControlPacket::deserialize(&expected_packet.serialize())?;

    assert_eq!(ControlPacket::Data(empty_stream_id(), b"some data".to_vec()), deserialized_packet);
    Ok(())
}

#[test]
fn test_control_packet_refused() -> Result<(), PacketError> {
    let stream_id = empty_stream_id();
    let expected_packet = ControlPacket::Refused(stream_id.clone());
    let deserialized_packet = ControlPacket::deserialize(&expected_packet.serialize())?;

    assert_eq!(ControlPacket::Refused(empty_stream_id()), deserialized_packet);
    Ok(())
}

#[test]
fn test_control_packet_end() -> Result<(), PacketError> {
    let stream_id = empty_stream_id();
    let expected_packet = ControlPacket::End(stream_id.clone());
    let deserialized_packet = ControlPacket::deserialize(&expected_packet.serialize())?;

    assert_eq!(ControlPacket::End(empty_stream_id()), deserialized_packet);
    Ok(())
}

#[test]
fn test_control_packet_ping() -> Result<(), PacketError> {
    let expected_packet = ControlPacket::Ping;
    let deserialized_packet = ControlPacket::deserialize(&expected_packet.serialize())?;

    assert_eq!(ControlPacket::Ping, deserialized_packet);
    Ok(())
}

#[test]
fn packets_have_their_control_byte() {
    let id = StreamId([1, 2, 3, 4, 5, 6, 7, 8]);
    assert_eq!(ControlPacket::Init(id).serialize(), vec![1, 1, 2, 3, 4, 5, 6, 7, 8]);
    assert_eq!(
        ControlPacket::Data(id, vec![9, 9]).serialize(),
        vec![2, 1, 2, 3, 4, 5, 6, 7, 8, 9, 9]
    );
    assert_eq!(ControlPacket::Refused(id).serialize(), vec![3, 1, 2, 3, 4, 5, 6, 7, 8]);
    assert_eq!(ControlPacket::End(id).serialize(), vec![4, 1, 2, 3, 4, 5, 6, 7, 8]);
    assert_eq!(ControlPacket::Ping.serialize(), vec![5, 15, 0, 0, 0, 0, 0, 0, 0]);
}

#[test]
fn bytes_that_are_no_packet() {
    assert_eq!(ControlPacket::deserialize(&[]), Err(PacketError::MissingStreamId));
    assert_eq!(
        ControlPacket::deserialize(&[1, 0, 0, 0, 0, 0, 0, 0]),
        Err(PacketError::MissingStreamId)
    );
    assert_eq!(
        ControlPacket::deserialize(&[0, 0, 0, 0, 0, 0, 0, 0, 0]),
        Err(PacketError::InvalidControlByte)
    );
    assert_eq!(
        ControlPacket::deserialize(&[6, 0, 0, 0, 0, 0, 0, 0, 0]),
        Err(PacketError::InvalidControlByte)
    );
    assert_eq!(
        PacketError::MissingStreamId.to_string(),
        "invalid DataPacket, missing stream id"
    );
    assert_eq!(
        PacketError::InvalidControlByte.to_string(),
        "invalid control byte in DataPacket"
    );
}

#[test]
fn bytes_behind_the_identifier_are_data_only_in_a_data_packet() {
    let id = StreamId([0; 8]);
    assert_eq!(
        ControlPacket::deserialize(&[1, 0, 0, 0, 0, 0, 0, 0, 0, 7]),
        Ok(ControlPacket::Init(id))
    );
    assert_eq!(
        ControlPacket::deserialize(&[2, 0, 0, 0, 0, 0, 0, 0, 0]),
        Ok(ControlPacket::Data(id, vec![]))
    );
}

#[test]
fn stream_identifier_in_base64() {
    assert_eq!(StreamId([0; 8]).to_string(), "stream_AAAAAAAAAAA");
    assert_eq!(StreamId([0xFF; 8]).to_string(), "stream___________8");
    assert_eq!(StreamId([1, 2, 3, 4, 5, 6, 7, 8]).to_string(), "stream_AQIDBAUGBwg");
    assert_eq!(empty_stream_id().to_string(), "stream_DwAAAAAAAAA");
}

#[test]
fn generated_identifiers_differ() {
    assert_ne!(StreamId::generate(), StreamId::generate());
}
