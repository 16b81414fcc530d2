//! What comes in over a websocket.
use vstd::prelude::*;

verus! {

/// What is read from a websocket.
pub enum Frame {
    Binary(Vec<u8>),
    Text(Vec<u8>),
    Close(Vec<u8>),
    /// A ping or a pong of the websocket itself.
    Other(Vec<u8>),
}

/// What happens to the reading side of a connection.
pub enum ReadEvent {
    /// The connection was cancelled.
    Cancelled,
    /// A frame was read.
    Received(Frame),
    /// Reading failed.
    Failed,
    /// The connection has ended.
    Ended,
}

/// The payload of an event, if it is a message of the protocol: binary or text, and not empty.
pub open spec fn message_of(event: ReadEvent) -> Option<Vec<u8>> {
    match event {
        ReadEvent::Received(Frame::Binary(data)) => if data@.len() > 0 {
            Some(data)
        } else {
            None
        },
        ReadEvent::Received(Frame::Text(data)) => if data@.len() > 0 {
            Some(data)
        } else {
            None
        },
        _ => None,
    }
}

/// The message that an event brings. Every other event ends the reading.
pub fn read_message(event: ReadEvent) -> (message: Option<Vec<u8>>)
    ensures
        message == message_of(event),
{
    match event {
        ReadEvent::Received(Frame::Binary(data)) => {
            if data.len() > 0 {
                Some(data)
            } else {
                None
            }
        },
        ReadEvent::Received(Frame::Text(data)) => {
            if data.len() > 0 {
                Some(data)
            } else {
                None
            }
        },
        _ => None,
    }
}

} // verus!
