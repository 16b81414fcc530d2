//! An established connection: what a client does with what the server sends.
use super::store::{LocalStream, Store};
use super::{Error, StreamMessage};
use crate::clock::{millis_between, round_trip_millis, Timestamp};
use crate::id::{EndpointId, StreamId};
use crate::protocol::{ControlPacketV2, Protocol, RemoteInfo};
use crate::ws::{Frame, ReadEvent};
use vstd::prelude::*;
use vstd::string::*;

verus! {

/// What follows an event on the connection.
pub enum SessionStep {
    /// The message is processed.
    Process(Vec<u8>),
    /// The session ends.
    Finish(Result<(), Error>),
}

/// What follows an event on the connection.
pub open spec fn session_step(event: ReadEvent, step: SessionStep) -> bool {
    match event {
        ReadEvent::Received(Frame::Close(_)) => step matches SessionStep::Finish(Ok(_)),
        ReadEvent::Received(Frame::Binary(data)) => step == SessionStep::Process(data),
        ReadEvent::Received(Frame::Text(data)) => step == SessionStep::Process(data),
        ReadEvent::Received(Frame::Other(data)) => step == SessionStep::Process(data),
        ReadEvent::Cancelled => step matches SessionStep::Finish(Ok(_)),
        ReadEvent::Failed => step == SessionStep::Finish(Err(Error::Timeout)),
        ReadEvent::Ended => step == SessionStep::Finish(Err(Error::Timeout)),
    }
}

/// What a client does on an event: it processes every frame but a closing one. A closing frame or
/// a cancellation ends the session; a connection that fails or ends has timed out.
pub fn on_read(event: ReadEvent) -> (step: SessionStep)
    ensures
        session_step(event, step),
{
    match event {
        ReadEvent::Received(Frame::Close(_)) => SessionStep::Finish(Ok(())),
        ReadEvent::Received(Frame::Binary(data)) => SessionStep::Process(data),
        ReadEvent::Received(Frame::Text(data)) => SessionStep::Process(data),
        ReadEvent::Received(Frame::Other(data)) => SessionStep::Process(data),
        ReadEvent::Cancelled => SessionStep::Finish(Ok(())),
        ReadEvent::Failed => SessionStep::Finish(Err(Error::Timeout)),
        ReadEvent::Ended => SessionStep::Finish(Err(Error::Timeout)),
    }
}

/// What ends the session after a message was processed, or could not be.
pub open spec fn ends_after(ok: bool) -> Option<Error> {
    if ok {
        None
    } else {
        Some(Error::MalformedMessageFromServer)
    }
}

/// What ends the session after a message was processed: a message that could not be.
pub fn on_processed(ok: bool) -> (end: Option<Error>)
    ensures
        end == ends_after(ok),
{
    if ok {
        None
    } else {
        Some(Error::MalformedMessageFromServer)
    }
}

/// How long a stream that the server has ended is kept open locally, in seconds.
pub const CLOSE_DELAY_SECS: u64 = 5;

/// What a packet from the server calls for.
pub enum FlowAction {
    /// A stream to the local service is set up. If that fails, so does the message.
    SetUp {
        protocol: Protocol,
        stream_id: StreamId,
        endpoint_id: EndpointId,
        remote_info: RemoteInfo,
    },
    /// The packet goes to the server, whatever comes of it.
    Reply(ControlPacketV2),
    /// The packet goes to the server. If that fails, so does the message.
    Refuse(ControlPacketV2),
    /// The message goes to the local service. If that fails, so does the message.
    Forward(StreamId, StreamMessage),
    /// The stream, which has left the store, is closed after a while.
    CloseLater(StreamId, LocalStream),
    /// Nothing is left to do.
    Nothing,
}

/// What a client makes of a packet, when it is read at `now`. Where the packet is refused, the
/// error is given as text.
pub open spec fn flow(
    before: Store,
    packet: ControlPacketV2,
    now: Timestamp,
    after: Store,
    r: Result<FlowAction, Seq<char>>,
) -> bool {
    match packet {
        ControlPacketV2::Init(sid, eid, info) => {
            &&& after == before
            &&& r == (if !before.endpoints().contains_key(eid.uuid) {
                Err("eid="@ + eid.text() + " is not registered"@)
            } else if before.streams().contains_key(sid.uuid) {
                Err("sid="@ + sid.text() + " is already exist"@)
            } else {
                Ok(
                    FlowAction::SetUp {
                        protocol: before.endpoints()[eid.uuid].protocol,
                        stream_id: sid,
                        endpoint_id: eid,
                        remote_info: info,
                    },
                )
            })
        },
        ControlPacketV2::Ping(seq, t, token) => {
            &&& r == Ok::<_, Seq<char>>(FlowAction::Reply(ControlPacketV2::Pong(seq, t)))
            &&& after.streams() == before.streams()
            &&& after.endpoints() == before.endpoints()
            &&& after.connected() == before.connected()
            &&& after.rtt() == before.rtt()
            &&& after.token() == (match token {
                Some(_) => token,
                None => before.token(),
            })
        },
        ControlPacketV2::Pong(_, t) => {
            &&& r == Ok::<_, Seq<char>>(FlowAction::Nothing)
            &&& after.rtt() == millis_between(now, t)
            &&& after.streams() == before.streams()
            &&& after.endpoints() == before.endpoints()
            &&& after.connected() == before.connected()
            &&& after.token() == before.token()
        },
        ControlPacketV2::Refused(_) => {
            &&& after == before
            &&& r == Err::<FlowAction, _>("unexpected control packet"@)
        },
        ControlPacketV2::End(sid) => {
            &&& after.same_but_streams(before)
            &&& after.streams() == before.streams().remove(sid.uuid)
            &&& r == Ok::<_, Seq<char>>(
                match before.streams().get(sid.uuid) {
                    Some(stream) => FlowAction::CloseLater(sid, stream),
                    None => FlowAction::Nothing,
                },
            )
        },
        ControlPacketV2::Data(sid, data) => {
            &&& after == before
            &&& r == Ok::<_, Seq<char>>(
                if before.streams().contains_key(sid.uuid) {
                    FlowAction::Forward(sid, StreamMessage::Data(data))
                } else {
                    FlowAction::Refuse(ControlPacketV2::Refused(sid))
                },
            )
        },
    }
}

/// What a message makes of a packet, or why it holds none.
pub open spec fn message_flow(
    before: Store,
    decoded: Result<Option<ControlPacketV2>, String>,
    now: Timestamp,
    after: Store,
    r: Result<FlowAction, Seq<char>>,
) -> bool {
    match decoded {
        Ok(Some(packet)) => flow(before, packet, now, after, r),
        Ok(None) => after == before && r == Err::<FlowAction, _>(
            "failed to parse partial packet"@,
        ),
        Err(e) => after == before && r == Err::<FlowAction, _>(e@),
    }
}

/// An outcome without the packet, its error taken as text.
pub open spec fn flow_text(r: Result<(FlowAction, ControlPacketV2), String>) -> Result<
    FlowAction,
    Seq<char>,
> {
    match r {
        Ok((action, _)) => Ok(action),
        Err(e) => Err(e@),
    }
}

/// A message that is taken gives back the packet that it holds.
pub open spec fn gives_packet(
    decoded: Result<Option<ControlPacketV2>, String>,
    r: Result<(FlowAction, ControlPacketV2), String>,
) -> bool {
    r matches Ok((_, given)) ==> decoded matches Ok(Some(packet)) && given.same(packet)
}

/// What a message that is read at `now` calls for, and the packet that it holds. `decoded` is that
/// packet, if there is one.
pub fn process_control_flow_message_at(
    store: &mut Store,
    decoded: Result<Option<ControlPacketV2>, String>,
    now: Timestamp,
) -> (r: Result<(FlowAction, ControlPacketV2), String>)
    requires
        old(store).wf(),
        now.valid(),
        decoded matches Ok(Some(p)) ==> p.valid(),
    ensures
        final(store).wf(),
        message_flow(*old(store), decoded, now, *final(store), flow_text(r)),
        gives_packet(decoded, r),
{
    let packet = match decoded {
        Ok(Some(packet)) => packet,
        Ok(None) => {
            return Err("failed to parse partial packet".to_owned());
        },
        Err(e) => {
            return Err(e);
        },
    };
    let given = packet.duplicate();
    let action = match packet {
        ControlPacketV2::Init(stream_id, endpoint_id, remote_info) => {
            let endpoint = match store.get_endpoint_by_endpoint_id(endpoint_id) {
                Some(e) => e,
                None => {
                    let mut e = "eid=".to_owned();
                    e.append(endpoint_id.to_string().as_str());
                    e.append(" is not registered");
                    return Err(e);
                },
            };
            if store.has_stream(&stream_id) {
                let mut e = "sid=".to_owned();
                e.append(stream_id.to_string().as_str());
                e.append(" is already exist");
                return Err(e);
            }
            FlowAction::SetUp {
                protocol: endpoint.protocol,
                stream_id,
                endpoint_id,
                remote_info,
            }
        },
        ControlPacketV2::Ping(seq, datetime, token) => {
            if let Some(token) = token {
                store.set_reconnect_token(token);
            }
            FlowAction::Reply(ControlPacketV2::Pong(seq, datetime))
        },
        ControlPacketV2::Pong(_, datetime) => {
            let rtt: i64 = round_trip_millis(now, datetime);
            store.set_rtt(rtt);
            FlowAction::Nothing
        },
        ControlPacketV2::Refused(_) => {
            return Err("unexpected control packet".to_owned());
        },
        ControlPacketV2::End(stream_id) => {
            match store.remove_stream(&stream_id) {
                Some((stream_id, stream)) => FlowAction::CloseLater(stream_id, stream),
                None => FlowAction::Nothing,
            }
        },
        ControlPacketV2::Data(stream_id, data) => {
            if store.has_stream(&stream_id) {
                FlowAction::Forward(stream_id, StreamMessage::Data(data))
            } else {
                FlowAction::Refuse(ControlPacketV2::Refused(stream_id))
            }
        },
    };
    Ok((action, given))
}

/// What a message that is read now calls for, and the packet that it holds.
pub fn process_control_flow_message(
    store: &mut Store,
    decoded: Result<Option<ControlPacketV2>, String>,
) -> (r: Result<(FlowAction, ControlPacketV2), String>)
    requires
        old(store).wf(),
        decoded matches Ok(Some(p)) ==> p.valid(),
    ensures
        final(store).wf(),
        exists|now: Timestamp| #[trigger]
            now.valid() && message_flow(*old(store), decoded, now, *final(store), flow_text(r)),
        gives_packet(decoded, r),
{
    let now = Timestamp::now();
    process_control_flow_message_at(store, decoded, now)
}

} // verus!
