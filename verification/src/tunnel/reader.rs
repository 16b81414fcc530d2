//! The loops that read the connections of a tunnel's client and of its remote peers.
use super::control::{route_packet, routed};
use super::store::{Client, Store};
use super::TunnelPacket;
use crate::id::{ClientId, StreamId};
use crate::server::reader::{after_write, forwarded, ClientAction, ClientEvent};
use crate::server::stream::{ends_reading, RemoteStep, StreamMessage, TcpReadEvent};
use crate::ws::{message_of, read_message};
use vstd::prelude::*;
use vstd::string::*;

verus! {

/// The clients after the connection of one was lost.
pub open spec fn without(before: Map<u128, Client>, client_id: ClientId) -> Map<u128, Client> {
    if before.contains_key(client_id.uuid) {
        before.insert(
            client_id.uuid,
            (Client { disabled: true, ..before[client_id.uuid] }),
        )
    } else {
        before
    }
}

/// One step of the loop.
pub open spec fn client_step(
    client_id: ClientId,
    before: Store,
    event: ClientEvent<TunnelPacket>,
    after: Store,
    action: ClientAction,
) -> bool {
    match event {
        ClientEvent::Read(read) => {
            &&& after.same_but_clients(before)
            &&& match message_of(read) {
                Some(message) => after.clients() == before.clients() && action
                    == ClientAction::Decode(message),
                None => after.clients() == without(before.clients(), client_id) && action
                    == ClientAction::Stop,
            }
        },
        ClientEvent::Decoded(packet) => {
            let called = match packet {
                Some(p) => routed(p),
                None => None,
            };
            &&& after.same_but_streams(before)
            &&& match called {
                Some((stream_id, message)) => forwarded(
                    before.streams(),
                    stream_id,
                    message,
                    after.streams(),
                    action,
                ),
                None => after.streams() == before.streams() && action == ClientAction::Read,
            }
        },
        ClientEvent::Written(stream_id, outcome) => {
            &&& after.same_but_streams(before)
            &&& after.streams() == after_write(before.streams(), stream_id, outcome)
            &&& action == ClientAction::Read
        },
    }
}

/// What follows an event in the loop that reads a client's connection. When the connection is
/// lost, the client is disabled. A stream that does not take a message is disabled.
pub fn client_read_loop(
    store: &mut Store,
    client_id: ClientId,
    event: ClientEvent<TunnelPacket>,
) -> (action: ClientAction)
    requires
        old(store).wf(),
    ensures
        final(store).wf(),
        client_step(client_id, *old(store), event, *final(store), action),
{
    match event {
        ClientEvent::Read(read) => match read_message(read) {
            Some(message) => ClientAction::Decode(message),
            None => {
                store.disable_client(client_id);
                ClientAction::Stop
            },
        },
        ClientEvent::Decoded(Some(packet)) => match route_packet(packet) {
            Some((stream_id, message)) => forward(store, stream_id, message),
            None => ClientAction::Read,
        },
        ClientEvent::Decoded(None) => ClientAction::Read,
        ClientEvent::Written(stream_id, outcome) => {
            let ghost before = store.streams();
            if store.remote_written(stream_id, outcome).is_err() {
                store.disable_remote(stream_id);
            }
            assert(store.streams() =~= after_write(before, stream_id, outcome));
            ClientAction::Read
        },
    }
}

fn forward(store: &mut Store, stream_id: StreamId, message: StreamMessage) -> (action: ClientAction)
    requires
        old(store).wf(),
        !(message is NoClientTunnel),
    ensures
        final(store).wf(),
        final(store).same_but_streams(*old(store)),
        forwarded(old(store).streams(), stream_id, message, final(store).streams(), action),
{
    let ghost before = store.streams();
    let action = match store.send_to_remote(stream_id, message) {
        RemoteStep::Write(data) => ClientAction::Write(stream_id, data),
        RemoteStep::ShutDown(_) => {
            store.disable_remote(stream_id);
            ClientAction::ShutDown(stream_id)
        },
        RemoteStep::Fail(_) => {
            store.disable_remote(stream_id);
            ClientAction::Read
        },
    };
    proof {
        if before.contains_key(stream_id.uuid) {
            let stream = before[stream_id.uuid];
            assert(stream.disabled_if(false) == stream);
            assert(stream.is_disabled() ==> stream.disabled_if(true) == stream);
            if stream.is_disabled() || message is Data {
                assert(store.streams() =~= before);
            } else {
                assert(store.streams() =~= before.insert(
                    stream_id.uuid,
                    stream.disabled_if(true),
                ));
            }
        }
    }
    action
}

/// What the reading side of a TCP connection of a tunnel does next.
pub enum TcpReadAction {
    /// Sends the packet of data to the client, and reports how that went.
    Send(TunnelPacket),
    /// Sends the packet that ends the stream to the client, and reports how that went.
    SendEnd(TunnelPacket),
    /// Reads.
    Read,
    /// Stops.
    Stop,
}

/// What the reading side of a stream does on an event.
pub open spec fn tcp_read_action(stream_id: StreamId, event: TcpReadEvent) -> TcpReadAction {
    match event {
        TcpReadEvent::Read(data) => if data@.len() == 0 {
            TcpReadAction::SendEnd(TunnelPacket::End(stream_id))
        } else {
            TcpReadAction::Send(TunnelPacket::Data(stream_id, data))
        },
        TcpReadEvent::Sent(true) => TcpReadAction::Read,
        _ => TcpReadAction::Stop,
    }
}

/// One step of the reading side of a stream.
pub open spec fn tcp_read_step(
    before: Store,
    stream_id: StreamId,
    event: TcpReadEvent,
    after: Store,
    action: TcpReadAction,
) -> bool {
    &&& after.same_but_streams(before)
    &&& after.streams() == (if ends_reading(event) && before.streams().contains_key(
        stream_id.uuid,
    ) {
        before.streams().insert(
            stream_id.uuid,
            before.streams()[stream_id.uuid].disabled_if(true),
        )
    } else {
        before.streams()
    })
    &&& action == tcp_read_action(stream_id, event)
}

/// What the reading side of a stream does on an event. Bytes go to the client. The end of the
/// connection is told to it; after that, as after a failure on either side, the stream is disabled
/// and nothing more is read.
pub fn tcp_read_loop(store: &mut Store, stream_id: StreamId, event: TcpReadEvent) -> (action:
    TcpReadAction)
    requires
        old(store).wf(),
    ensures
        final(store).wf(),
        tcp_read_step(*old(store), stream_id, event, *final(store), action),
{
    match event {
        TcpReadEvent::Read(data) => {
            if data.len() == 0 {
                TcpReadAction::SendEnd(TunnelPacket::End(stream_id))
            } else {
                TcpReadAction::Send(TunnelPacket::Data(stream_id, data))
            }
        },
        TcpReadEvent::Sent(true) => TcpReadAction::Read,
        TcpReadEvent::Cancelled => TcpReadAction::Stop,
        _ => {
            store.disable_remote(stream_id);
            TcpReadAction::Stop
        },
    }
}

/// What the client is sent when the connection yields `reads` in turn and every packet gets there.
pub open spec fn tcp_packets(stream_id: StreamId, reads: Seq<Vec<u8>>) -> Seq<TunnelPacket>
    decreases reads.len(),
{
    if reads.len() == 0 {
        Seq::empty()
    } else {
        let rest = reads.drop_first();
        match tcp_read_action(stream_id, TcpReadEvent::Read(reads[0])) {
            TcpReadAction::Send(packet) => if tcp_read_action(
                stream_id,
                TcpReadEvent::Sent(true),
            ) is Read {
                seq![packet] + tcp_packets(stream_id, rest)
            } else {
                seq![packet]
            },
            TcpReadAction::SendEnd(packet) => if tcp_read_action(
                stream_id,
                TcpReadEvent::EndSent(true),
            ) is Read {
                seq![packet] + tcp_packets(stream_id, rest)
            } else {
                seq![packet]
            },
            TcpReadAction::Read => tcp_packets(stream_id, rest),
            TcpReadAction::Stop => Seq::empty(),
        }
    }
}

} // verus!
