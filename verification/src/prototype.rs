//! The smallest handshake: a client names its stream, and the server reads it.
use crate::ws::{Frame, ReadEvent};
use vstd::prelude::*;
use vstd::string::*;

verus! {

/// Identifies a stream by a name.
#[derive(Clone, Debug, PartialEq, Eq, Hash)]
pub struct StreamId(pub String);

impl StreamId {
    /// The name that every stream has.
    pub fn generate() -> (r: Self)
        ensures
            r.0@ == "stream_foo"@,
    {
        StreamId("stream_foo".to_owned())
    }
}

/// What a client says first: the stream that it wants.
#[derive(Clone, Debug)]
pub struct ClientHello {
    pub id: StreamId,
}

/// The bytes that an event brings for a hello.
pub open spec fn hello_bytes(event: ReadEvent) -> Option<Vec<u8>> {
    match event {
        ReadEvent::Received(Frame::Binary(data)) => Some(data),
        _ => None,
    }
}

/// Who is received after an event.
pub open spec fn received(event: ReadEvent, parsed: Option<ClientHello>) -> Option<ClientHello> {
    match event {
        ReadEvent::Received(Frame::Binary(_)) => parsed,
        _ => None,
    }
}

/// The bytes of a client's hello: those of a binary message, and of no other.
pub fn read_client_hello(event: ReadEvent) -> (data: Option<Vec<u8>>)
    ensures
        data == hello_bytes(event),
{
    match event {
        ReadEvent::Received(Frame::Binary(data)) => Some(data),
        _ => None,
    }
}

/// Receives a client. `parsed` is the hello that the bytes of its message were read as.
pub fn try_client_handshake(event: ReadEvent, parsed: Option<ClientHello>) -> (r: Option<ClientHello>)
    ensures
        r == received(event, parsed),
{
    match read_client_hello(event) {
        Some(_) => parsed,
        None => None,
    }
}

/// A client is received exactly if its message is binary, empty or not, and was read as a hello,
/// and then as that hello.
pub proof fn law_only_a_binary_hello_is_received(event: ReadEvent, parsed: Option<ClientHello>)
    ensures
        received(event, parsed) is Some <==> parsed is Some && (event matches ReadEvent::Received(
            frame,
        ) && frame is Binary),
        received(event, parsed) is Some ==> received(event, parsed) == parsed,
        event matches ReadEvent::Received(Frame::Binary(data)) ==> hello_bytes(event) == Some(data),
        !(event matches ReadEvent::Received(frame) && frame is Binary) ==> hello_bytes(event)
            is None,
{
}

} // verus!
