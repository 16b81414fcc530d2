//! The streams of a client on the local side: what is read from a local service goes to the
//! server, and what comes from the server goes to the service.
use super::StreamMessage;
use crate::id::StreamId;
use crate::protocol::ControlPacketV2;
use vstd::prelude::*;

verus! {

/// What happens on the side of the local service.
pub enum LocalReadEvent {
    /// Bytes were read; none means that the service is done.
    Read(Vec<u8>),
    /// Reading failed.
    ReadError,
    /// The last packet was handed on to the server, or could not be.
    Sent(bool),
}

/// What is done next on that side. When it stops, the stream leaves the store.
pub enum LocalReadAction {
    /// Sends the packet to the server, and reports how that went.
    Send(ControlPacketV2),
    /// Reads again.
    Read,
    /// Stops.
    Stop,
}

/// What is done on the side of the local service on an event.
pub open spec fn local_read_action(stream_id: StreamId, event: LocalReadEvent) -> LocalReadAction {
    match event {
        LocalReadEvent::Read(data) => if data@.len() == 0 {
            LocalReadAction::Stop
        } else {
            LocalReadAction::Send(ControlPacketV2::Data(stream_id, data))
        },
        LocalReadEvent::ReadError => LocalReadAction::Stop,
        LocalReadEvent::Sent(ok) => if ok {
            LocalReadAction::Read
        } else {
            LocalReadAction::Stop
        },
    }
}

/// What follows an event on the side of the local service, over TCP or UDP.
pub fn process_local(stream_id: StreamId, event: LocalReadEvent) -> (action: LocalReadAction)
    ensures
        action == local_read_action(stream_id, event),
{
    match event {
        LocalReadEvent::Read(data) => {
            if data.len() == 0 {
                LocalReadAction::Stop
            } else {
                LocalReadAction::Send(ControlPacketV2::Data(stream_id, data))
            }
        },
        LocalReadEvent::ReadError => LocalReadAction::Stop,
        LocalReadEvent::Sent(ok) => {
            if ok {
                LocalReadAction::Read
            } else {
                LocalReadAction::Stop
            }
        },
    }
}

/// What happens on the side of the server.
pub enum LocalWriteEvent {
    /// A message was taken from the queue; `None` means that the queue was closed.
    Message(Option<StreamMessage>),
    /// The last bytes were written to the local service, or could not be.
    Written(bool),
}

/// What is done next on that side.
pub enum LocalWriteAction {
    /// Writes the bytes to the local service, and reports how that went.
    Write(Vec<u8>),
    /// Takes the next message.
    Next,
    /// Shuts the connection down, where there is one, and stops.
    Close,
    /// Stops.
    Stop,
}

/// What is done on the side of the server on an event.
pub open spec fn local_write_action(event: LocalWriteEvent) -> LocalWriteAction {
    match event {
        LocalWriteEvent::Message(Some(StreamMessage::Data(data))) => LocalWriteAction::Write(data),
        LocalWriteEvent::Message(_) => LocalWriteAction::Close,
        LocalWriteEvent::Written(ok) => if ok {
            LocalWriteAction::Next
        } else {
            LocalWriteAction::Stop
        },
    }
}

/// What follows an event on the side of the server, over TCP or UDP.
pub fn forward_to_local(event: LocalWriteEvent) -> (action: LocalWriteAction)
    ensures
        action == local_write_action(event),
{
    match event {
        LocalWriteEvent::Message(Some(StreamMessage::Data(data))) => LocalWriteAction::Write(data),
        LocalWriteEvent::Message(_) => LocalWriteAction::Close,
        LocalWriteEvent::Written(ok) => {
            if ok {
                LocalWriteAction::Next
            } else {
                LocalWriteAction::Stop
            }
        },
    }
}

} // verus!
