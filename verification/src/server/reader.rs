//! The loop that reads a client's connection.
use super::client::{packet_action, route_packet_at, Client, PacketAction};
use super::store::Store;
use super::stream::{RemoteStep, RemoteStream, StreamMessage};
use crate::clock::Timestamp;
use crate::id::{ClientId, StreamId};
use crate::protocol::ControlPacketV2;
use crate::ws::{message_of, read_message, ReadEvent};
use vstd::prelude::*;
use vstd::string::*;

verus! {

/// What happens in the loop that reads a client's connection. `P` is what its messages hold.
pub enum ClientEvent<P> {
    /// Something came in over the connection.
    Read(ReadEvent),
    /// The last message was decoded; `None` means that it holds no packet.
    Decoded(Option<P>),
    /// The last bytes for the peer of the stream were written, or could not be.
    Written(StreamId, Result<(), String>),
}

/// What the loop does next.
pub enum ClientAction {
    /// Reads from the connection.
    Read,
    /// Decodes the message, and reports what it holds.
    Decode(Vec<u8>),
    /// Writes the bytes to the peer of the stream, and reports how that went.
    Write(StreamId, Vec<u8>),
    /// Shuts the connection to the peer of the stream down, whatever comes of it, and reads.
    ShutDown(StreamId),
    /// Sends the packet to the client, whatever comes of it, and reads.
    Reply(ControlPacketV2),
    /// Notes how many milliseconds the round trip took, and reads.
    RoundTrip(i64),
    /// Stops.
    Stop,
}

/// What becomes of a message for the peer of a stream: one that is registered and enabled takes
/// data, and a refusal disables it.
pub open spec fn forwarded(
    before: Map<u128, RemoteStream>,
    stream_id: StreamId,
    message: StreamMessage,
    after: Map<u128, RemoteStream>,
    action: ClientAction,
) -> bool {
    if before.contains_key(stream_id.uuid) && !before[stream_id.uuid].is_disabled() {
        let stream = before[stream_id.uuid];
        match message {
            StreamMessage::Data(data) => after == before && action == ClientAction::Write(
                stream_id,
                data,
            ),
            _ => {
                &&& after == before.insert(stream_id.uuid, stream.disabled_if(true))
                &&& action == (if stream is RemoteTcp {
                    ClientAction::ShutDown(stream_id)
                } else {
                    ClientAction::Read
                })
            },
        }
    } else {
        after == before && action == ClientAction::Read
    }
}

/// What becomes of a stream after a write to its peer: a failure disables it.
pub open spec fn after_write(
    before: Map<u128, RemoteStream>,
    stream_id: StreamId,
    outcome: Result<(), String>,
) -> Map<u128, RemoteStream> {
    if outcome is Err && before.contains_key(stream_id.uuid) {
        before.insert(stream_id.uuid, before[stream_id.uuid].disabled_if(true))
    } else {
        before
    }
}

/// The clients after the connection of one was lost.
pub open spec fn without(before: Map<u128, Client>, client_id: ClientId) -> Map<u128, Client> {
    if before.contains_key(client_id.uuid) {
        before.insert(
            client_id.uuid,
            (Client { disabled: true, ..before[client_id.uuid] }),
        )
    } else {
        before
    }
}

/// One step of the loop, at `now`.
pub open spec fn client_step(
    client_id: ClientId,
    before: Store,
    event: ClientEvent<ControlPacketV2>,
    now: Timestamp,
    after: Store,
    action: ClientAction,
) -> bool {
    match event {
        ClientEvent::Read(read) => {
            &&& after.same_but_clients(before)
            &&& match message_of(read) {
                Some(message) => after.clients() == before.clients() && action
                    == ClientAction::Decode(message),
                None => after.clients() == without(before.clients(), client_id) && action
                    == ClientAction::Stop,
            }
        },
        ClientEvent::Decoded(packet) => {
            &&& after.same_but_streams(before)
            &&& exists|called: PacketAction|
                {
                    &&& #[trigger] packet_action(packet, now, called)
                    &&& match called {
                        PacketAction::Forward(stream_id, message) => forwarded(
                            before.streams(),
                            stream_id,
                            message,
                            after.streams(),
                            action,
                        ),
                        PacketAction::Reply(reply) => after.streams() == before.streams()
                            && action == ClientAction::Reply(reply),
                        PacketAction::RoundTrip(ms) => after.streams() == before.streams()
                            && action == ClientAction::RoundTrip(ms),
                        PacketAction::Ignore => after.streams() == before.streams() && action
                            == ClientAction::Read,
                    }
                }
        },
        ClientEvent::Written(stream_id, outcome) => {
            &&& after.same_but_streams(before)
            &&& after.streams() == after_write(before.streams(), stream_id, outcome)
            &&& action == ClientAction::Read
        },
    }
}

/// What follows an event in the loop that reads a client's connection, at `now`. When the
/// connection is lost, the client is disabled. A stream that does not take a message is disabled.
pub fn client_read_loop(
    store: &mut Store,
    client_id: ClientId,
    event: ClientEvent<ControlPacketV2>,
    now: Timestamp,
) -> (action: ClientAction)
    requires
        old(store).wf(),
        now.valid(),
        event matches ClientEvent::Decoded(Some(p)) ==> p.valid(),
    ensures
        final(store).wf(),
        client_step(client_id, *old(store), event, now, *final(store), action),
{
    match event {
        ClientEvent::Read(read) => match read_message(read) {
            Some(message) => ClientAction::Decode(message),
            None => {
                store.disable_client(client_id);
                ClientAction::Stop
            },
        },
        ClientEvent::Decoded(packet) => {
            let called = route_packet_at(packet, now);
            assert(packet_action(packet, now, called));
            match called {
                PacketAction::Forward(stream_id, message) => {
                    forward(store, stream_id, message)
                },
                PacketAction::Reply(reply) => ClientAction::Reply(reply),
                PacketAction::RoundTrip(ms) => ClientAction::RoundTrip(ms),
                PacketAction::Ignore => ClientAction::Read,
            }
        },
        ClientEvent::Written(stream_id, outcome) => {
            let ghost before = store.streams();
            if store.remote_written(stream_id, outcome).is_err() {
                store.disable_remote(stream_id);
            }
            assert(store.streams() =~= after_write(before, stream_id, outcome));
            ClientAction::Read
        },
    }
}

fn forward(store: &mut Store, stream_id: StreamId, message: StreamMessage) -> (action: ClientAction)
    requires
        old(store).wf(),
        !(message is NoClientTunnel),
    ensures
        final(store).wf(),
        final(store).same_but_streams(*old(store)),
        forwarded(old(store).streams(), stream_id, message, final(store).streams(), action),
{
    let ghost before = store.streams();
    let action = match store.send_to_remote(stream_id, message) {
        RemoteStep::Write(data) => ClientAction::Write(stream_id, data),
        RemoteStep::ShutDown(_) => {
            store.disable_remote(stream_id);
            ClientAction::ShutDown(stream_id)
        },
        RemoteStep::Fail(_) => {
            store.disable_remote(stream_id);
            ClientAction::Read
        },
    };
    proof {
        if before.contains_key(stream_id.uuid) {
            let stream = before[stream_id.uuid];
            assert(stream.disabled_if(false) == stream);
            assert(stream.is_disabled() ==> stream.disabled_if(true) == stream);
            if stream.is_disabled() || message is Data {
                assert(store.streams() =~= before);
            } else {
                assert(store.streams() =~= before.insert(
                    stream_id.uuid,
                    stream.disabled_if(true),
                ));
            }
        }
    }
    action
}

} // verus!
