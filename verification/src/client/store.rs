//! What a client keeps: its streams, its endpoints, and its connection to the server.
use super::Error;
use crate::id::{ClientId, EndpointId, StreamId};
use crate::protocol::{Endpoint, Endpoints, RemoteInfo};
use crate::registry::Registry;
use crate::server::store::with_endpoints;
use crate::text::host_port;
use vstd::prelude::*;
use vstd::string::*;

verus! {

/// A stream to a local service, and who opened it.
#[derive(Clone, Copy, Debug, PartialEq, Eq, Structural)]
pub struct LocalStream {
    pub remote_info: RemoteInfo,
}

impl LocalStream {
    /// A stream that the given peer opened.
    pub fn new(remote_info: RemoteInfo) -> (r: Self)
        ensures
            r.remote_info == remote_info,
    {
        LocalStream { remote_info }
    }

    /// Who opened the stream.
    pub fn remote_info(&self) -> (r: &RemoteInfo)
        ensures
            *r == self.remote_info,
    {
        &self.remote_info
    }
}

/// A stream, as it is listed.
#[derive(Clone, Copy, Debug, PartialEq, Eq, Structural)]
pub struct LocalStreamEntry {
    pub stream_id: StreamId,
    pub remote_info: RemoteInfo,
}

/// What came of sending a packet to the server.
pub enum Upload {
    /// It was sent.
    Sent,
    /// It could not be encoded.
    NotEncoded,
    /// It could not be sent.
    NotSent(String),
}

/// What the outcome of sending a packet over an open connection comes to.
pub open spec fn uploaded(upload: Upload, r: Result<(), Error>) -> bool {
    match upload {
        Upload::NotSent(e) => r == Err::<(), _>(Error::WebSocketError(e)),
        _ => r is Ok,
    }
}

/// What the outcome of sending a packet over an open connection comes to: a packet that cannot be
/// encoded is dropped.
pub fn send_to_server(upload: Upload) -> (r: Result<(), Error>)
    ensures
        uploaded(upload, r),
{
    match upload {
        Upload::Sent => Ok(()),
        Upload::NotEncoded => Ok(()),
        Upload::NotSent(e) => Err(Error::WebSocketError(e)),
    }
}

/// The stream's name is in the list.
pub open spec fn listed(names: Seq<String>, id: StreamId) -> bool {
    exists|i: int| 0 <= i < names.len() && (#[trigger] names[i])@ == id.text()
}

/// The text is the name of one of the streams.
pub open spec fn names_a_stream(streams: Map<u128, LocalStream>, name: Seq<char>) -> bool {
    exists|k: u128| #[trigger]
        streams.contains_key(k) && name == (StreamId { uuid: k }).text()
}

/// The streams, endpoints and connection of a client.
pub struct Store {
    streams: Registry<LocalStream>,
    client: Option<ClientId>,
    endpoints_map: Registry<Endpoint>,
    rtt: i64,
    reconnect_token: Option<String>,
}

impl Default for Store {
    fn default() -> (r: Self)
        ensures
            r.wf(),
            r.is_new(),
    {
        Store::new()
    }
}

impl Store {
    /// The streams, by identifier.
    pub closed spec fn streams(self) -> Map<u128, LocalStream> {
        self.streams@
    }

    /// The endpoints, by identifier.
    pub closed spec fn endpoints(self) -> Map<u128, Endpoint> {
        self.endpoints_map@
    }

    /// Whom the server takes the client for, while there is a connection.
    pub closed spec fn connected(self) -> Option<ClientId> {
        self.client
    }

    /// The last round trip time, in milliseconds.
    pub closed spec fn rtt(self) -> i64 {
        self.rtt
    }

    /// The token to reconnect with.
    pub closed spec fn token(self) -> Option<String> {
        self.reconnect_token
    }

    /// The tables are well formed.
    pub closed spec fn wf(self) -> bool {
        self.streams.wf() && self.endpoints_map.wf()
    }

    /// Nothing is kept.
    pub open spec fn is_new(self) -> bool {
        &&& self.streams() == Map::<u128, LocalStream>::empty()
        &&& self.endpoints() == Map::<u128, Endpoint>::empty()
        &&& self.connected() is None
        &&& self.rtt() == 0
        &&& self.token() is None
    }

    /// Everything but the streams is as in `other`.
    pub open spec fn same_but_streams(self, other: Self) -> bool {
        &&& self.endpoints() == other.endpoints()
        &&& self.connected() == other.connected()
        &&& self.rtt() == other.rtt()
        &&& self.token() == other.token()
    }

    /// A store that holds nothing.
    pub fn new() -> (r: Self)
        ensures
            r.wf(),
            r.is_new(),
    {
        Store {
            streams: Registry::new(),
            client: None,
            endpoints_map: Registry::new(),
            rtt: 0,
            reconnect_token: None,
        }
    }

    /// What `before` has become after a stream was registered.
    pub open spec fn added_stream(
        self,
        before: Self,
        stream_id: StreamId,
        stream: LocalStream,
    ) -> bool {
        &&& self.same_but_streams(before)
        &&& self.streams() == before.streams().insert(stream_id.uuid, stream)
    }

    /// What `before` has become after a stream was taken out.
    pub open spec fn removed_stream(
        self,
        before: Self,
        stream_id: StreamId,
        was: Option<(StreamId, LocalStream)>,
    ) -> bool {
        &&& self.same_but_streams(before)
        &&& self.streams() == before.streams().remove(stream_id.uuid)
        &&& was == (match before.streams().get(stream_id.uuid) {
            Some(stream) => Some((stream_id, stream)),
            None => None,
        })
    }

    /// Registers a stream.
    pub fn add_stream(&mut self, stream_id: StreamId, stream: LocalStream)
        requires
            old(self).wf(),
        ensures
            final(self).wf(),
            final(self).added_stream(*old(self), stream_id, stream),
    {
        self.streams.insert(stream_id.uuid, stream);
    }

    /// Takes a stream out of the store.
    pub fn remove_stream(&mut self, stream_id: &StreamId) -> (was: Option<(StreamId, LocalStream)>)
        requires
            old(self).wf(),
        ensures
            final(self).wf(),
            final(self).removed_stream(*old(self), *stream_id, was),
    {
        match self.streams.remove(stream_id.uuid) {
            Some(stream) => Some((*stream_id, stream)),
            None => None,
        }
    }

    /// Whether a stream is registered.
    pub fn has_stream(&self, stream_id: &StreamId) -> (b: bool)
        requires
            self.wf(),
        ensures
            b == self.streams().contains_key(stream_id.uuid),
    {
        self.streams.contains_key(stream_id.uuid)
    }

    /// The stream with an identifier.
    pub fn get_stream(&self, stream_id: &StreamId) -> (stream: Option<LocalStream>)
        requires
            self.wf(),
        ensures
            stream == self.streams().get(stream_id.uuid),
    {
        match self.streams.get(stream_id.uuid) {
            Some(stream) => Some(*stream),
            None => None,
        }
    }

    /// How many streams are registered.
    pub fn len_stream(&self) -> (n: usize)
        requires
            self.wf(),
        ensures
            n == self.streams().dom().len(),
    {
        self.streams.len()
    }

    /// The streams, each once, in an order that is not fixed.
    pub fn list_streams(&self) -> (list: Vec<LocalStreamEntry>)
        requires
            self.wf(),
        ensures
            self.lists(list@),
    {
        let keys = self.streams.keys();
        let mut list: Vec<LocalStreamEntry> = Vec::new();
        let mut i: usize = 0;
        while i < keys.len()
            invariant
                i <= keys@.len(),
                self.wf(),
                keys@.no_duplicates(),
                keys@.to_set() == self.streams().dom(),
                list@.len() == i,
                forall|j: int|
                    0 <= j < i ==> (#[trigger] list@[j]).stream_id.uuid == keys@[j]
                        && list@[j].remote_info == self.streams()[keys@[j]].remote_info,
            decreases keys@.len() - i,
        {
            let key: u128 = keys[i];
            assert(keys@.to_set().contains(key));
            let stream = self.streams.get(key).unwrap();
            list.push(
                LocalStreamEntry {
                    stream_id: StreamId { uuid: key },
                    remote_info: stream.remote_info,
                },
            );
            i = i + 1;
        }
        proof {
            assert forall|e: LocalStreamEntry| #[trigger] list@.contains(e) <==> (
            self.streams().contains_key(e.stream_id.uuid)
                && self.streams()[e.stream_id.uuid].remote_info == e.remote_info) by {
                if list@.contains(e) {
                    let j = choose|j: int| 0 <= j < list@.len() && list@[j] == e;
                    assert(keys@.to_set().contains(keys@[j]));
                }
                if self.streams().contains_key(e.stream_id.uuid)
                    && self.streams()[e.stream_id.uuid].remote_info == e.remote_info {
                    assert(keys@.to_set().contains(e.stream_id.uuid));
                    let j = choose|j: int| 0 <= j < keys@.len() && keys@[j] == e.stream_id.uuid;
                    assert(list@[j] == e);
                }
            }
        }
        list
    }

    /// Adds endpoints to those that are kept.
    pub fn register_endpoints(&mut self, endpoints: &Vec<Endpoint>)
        requires
            old(self).wf(),
        ensures
            final(self).wf(),
            final(self).streams() == old(self).streams(),
            final(self).connected() == old(self).connected(),
            final(self).rtt() == old(self).rtt(),
            final(self).token() == old(self).token(),
            final(self).endpoints() == with_endpoints(old(self).endpoints(), endpoints@),
    {
        let mut i: usize = 0;
        assert(endpoints@.take(0) =~= Seq::empty());
        while i < endpoints.len()
            invariant
                i <= endpoints@.len(),
                self.wf(),
                self.streams() == old(self).streams(),
                self.connected() == old(self).connected(),
                self.rtt() == old(self).rtt(),
                self.token() == old(self).token(),
                self.endpoints() == with_endpoints(
                    old(self).endpoints(),
                    endpoints@.take(i as int),
                ),
            decreases endpoints@.len() - i,
        {
            let endpoint = endpoints[i];
            self.endpoints_map.insert(endpoint.id.uuid, endpoint);
            proof {
                let next = endpoints@.take(i + 1);
                assert(next.drop_last() =~= endpoints@.take(i as int));
                assert(next.last() == endpoint);
            }
            i = i + 1;
        }
        assert(endpoints@.take(i as int) =~= endpoints@);
    }

    /// Where the local service behind an endpoint is.
    pub open spec fn local_addr(self, eid: EndpointId) -> Option<Seq<char>> {
        if self.endpoints().contains_key(eid.uuid) {
            Some(host_port("localhost"@, self.endpoints()[eid.uuid].local_port))
        } else {
            None
        }
    }

    /// The address of the local service behind an endpoint.
    pub fn get_local_addr_by_endpoint_id(&self, eid: EndpointId) -> (addr: Option<String>)
        requires
            self.wf(),
        ensures
            crate::reconnect::text_of(addr) == self.local_addr(eid),
    {
        match self.endpoints_map.get(eid.uuid) {
            Some(endpoint) => Some(
                crate::text::host_port_text("localhost", endpoint.local_port),
            ),
            None => None,
        }
    }

    /// The endpoint with an identifier.
    pub fn get_endpoint_by_endpoint_id(&self, eid: EndpointId) -> (endpoint: Option<Endpoint>)
        requires
            self.wf(),
        ensures
            endpoint == self.endpoints().get(eid.uuid),
    {
        match self.endpoints_map.get(eid.uuid) {
            Some(endpoint) => Some(*endpoint),
            None => None,
        }
    }

    /// The list has one endpoint for each identifier.
    pub open spec fn lists_endpoints(self, list: Seq<Endpoint>) -> bool {
        &&& list.len() == self.endpoints().dom().len()
        &&& forall|e: Endpoint| #[trigger]
            list.contains(e) <==> exists|k: u128| #[trigger]
                self.endpoints().contains_key(k) && self.endpoints()[k] == e
    }

    /// The list has one entry for each stream.
    pub open spec fn lists(self, list: Seq<LocalStreamEntry>) -> bool {
        &&& forall|i: int, j: int|
            0 <= i < j < list.len() ==> (#[trigger] list[i]).stream_id != (
            #[trigger] list[j]).stream_id
        &&& forall|e: LocalStreamEntry| #[trigger]
            list.contains(e) <==> self.streams().contains_key(e.stream_id.uuid)
                && self.streams()[e.stream_id.uuid].remote_info == e.remote_info
    }

    /// The endpoints, one for each identifier, in an order that is not fixed.
    pub fn get_endpoints(&self) -> (list: Endpoints)
        requires
            self.wf(),
        ensures
            self.lists_endpoints(list@),
    {
        let keys = self.endpoints_map.keys();
        let mut list: Endpoints = Vec::new();
        let mut i: usize = 0;
        while i < keys.len()
            invariant
                i <= keys@.len(),
                self.wf(),
                keys@.to_set() == self.endpoints().dom(),
                list@.len() == i,
                forall|j: int|
                    0 <= j < i ==> (#[trigger] list@[j]) == self.endpoints()[keys@[j]],
            decreases keys@.len() - i,
        {
            let key: u128 = keys[i];
            assert(keys@.to_set().contains(key));
            list.push(*self.endpoints_map.get(key).unwrap());
            i = i + 1;
        }
        proof {
            keys@.unique_seq_to_set();
            assert forall|e: Endpoint| #[trigger] list@.contains(e) <==> exists|k: u128| #[trigger]
                self.endpoints().contains_key(k) && self.endpoints()[k] == e by {
                if list@.contains(e) {
                    let j = choose|j: int| 0 <= j < list@.len() && list@[j] == e;
                    assert(keys@.to_set().contains(keys@[j]));
                    assert(self.endpoints().contains_key(keys@[j]));
                }
                if exists|k: u128| #[trigger]
                    self.endpoints().contains_key(k) && self.endpoints()[k] == e {
                    let k = choose|k: u128| #[trigger]
                        self.endpoints().contains_key(k) && self.endpoints()[k] == e;
                    assert(keys@.to_set().contains(k));
                    let j = choose|j: int| 0 <= j < keys@.len() && keys@[j] == k;
                    assert(list@[j] == e);
                }
            }
        }
        list
    }

    /// What `before` has become after a round trip time was noted.
    pub open spec fn noted_rtt(self, before: Self, rtt: i64) -> bool {
        &&& self.rtt() == rtt
        &&& self.streams() == before.streams()
        &&& self.endpoints() == before.endpoints()
        &&& self.connected() == before.connected()
        &&& self.token() == before.token()
    }

    /// What `before` has become after a token was noted.
    pub open spec fn noted_token(self, before: Self, token: String) -> bool {
        &&& self.token() == Some(token)
        &&& self.streams() == before.streams()
        &&& self.endpoints() == before.endpoints()
        &&& self.connected() == before.connected()
        &&& self.rtt() == before.rtt()
    }

    /// What `before` has become after it was noted as whom the server knows the client, if it is
    /// connected.
    pub open spec fn noted_connection(self, before: Self, client_id: Option<ClientId>) -> bool {
        &&& self.connected() == client_id
        &&& self.streams() == before.streams()
        &&& self.endpoints() == before.endpoints()
        &&& self.rtt() == before.rtt()
        &&& self.token() == before.token()
    }

    /// Notes a round trip time.
    pub fn set_rtt(&mut self, rtt: i64)
        requires
            old(self).wf(),
        ensures
            final(self).wf(),
            final(self).noted_rtt(*old(self), rtt),
    {
        self.rtt = rtt;
    }

    /// The round trip time that was noted last.
    pub fn get_rtt(&self) -> (rtt: i64)
        ensures
            rtt == self.rtt(),
    {
        self.rtt
    }

    /// Notes a token to reconnect with.
    pub fn set_reconnect_token(&mut self, token: String)
        requires
            old(self).wf(),
        ensures
            final(self).wf(),
            final(self).noted_token(*old(self), token),
    {
        self.reconnect_token = Some(token);
    }

    /// The token to reconnect with.
    pub fn get_reconnect_token(&self) -> (token: Option<String>)
        ensures
            crate::reconnect::text_of(token) == crate::reconnect::text_of(self.token()),
    {
        match &self.reconnect_token {
            Some(token) => Some(token.clone()),
            None => None,
        }
    }

    /// Notes that there is a connection, over which the server knows the client as `client_id`.
    pub fn add_client(&mut self, client_id: ClientId)
        requires
            old(self).wf(),
        ensures
            final(self).wf(),
            final(self).noted_connection(*old(self), Some(client_id)),
    {
        self.client = Some(client_id);
    }

    /// Notes that there is no connection.
    pub fn remove_client(&mut self)
        requires
            old(self).wf(),
        ensures
            final(self).wf(),
            final(self).noted_connection(*old(self), None),
    {
        self.client = None;
    }

    /// Whether there is a connection, so that a packet can be sent.
    pub fn is_connected(&self) -> (b: bool)
        ensures
            b == self.connected() is Some,
    {
        self.client.is_some()
    }

    /// What sending a packet to the server comes to.
    pub open spec fn sent_up(self, upload: Upload, r: Result<(), Error>) -> bool {
        match self.connected() {
            Some(_) => uploaded(upload, r),
            None => r == Err::<(), _>(Error::ServerDown),
        }
    }

    /// What sending a packet to the server comes to, where `upload` says how the sending went.
    /// Without a connection nothing can be sent.
    pub fn send_to_server(&self, upload: Upload) -> (r: Result<(), Error>)
        ensures
            self.sent_up(upload, r),
    {
        if self.client.is_some() {
            send_to_server(upload)
        } else {
            Err(Error::ServerDown)
        }
    }

    /// The names are those of the streams.
    pub open spec fn names(self, names: Seq<String>) -> bool {
        &&& names.len() == self.streams().dom().len()
        &&& forall|k: u128| #[trigger]
            self.streams().contains_key(k) ==> listed(names, StreamId { uuid: k })
        &&& forall|i: int|
            0 <= i < names.len() ==> names_a_stream(self.streams(), (#[trigger] names[i])@)
    }

    /// The identifiers of the streams as they are listed for inspection.
    pub fn stream_names(&self) -> (names: Vec<String>)
        requires
            self.wf(),
        ensures
            self.names(names@),
    {
        let keys = self.streams.keys();
        let mut names: Vec<String> = Vec::new();
        let mut i: usize = 0;
        while i < keys.len()
            invariant
                i <= keys@.len(),
                names@.len() == i,
                forall|j: int|
                    0 <= j < i ==> (#[trigger] names@[j])@ == (StreamId { uuid: keys@[j] }).text(),
            decreases keys@.len() - i,
        {
            let id = StreamId { uuid: keys[i] };
            names.push(id.to_string());
            i = i + 1;
        }
        proof {
            keys@.unique_seq_to_set();
            assert forall|k: u128| #[trigger] self.streams().contains_key(k) implies listed(
                names@,
                StreamId { uuid: k },
            ) by {
                assert(keys@.to_set().contains(k));
                let j = choose|j: int| 0 <= j < keys@.len() && keys@[j] == k;
                assert(names@[j]@ == (StreamId { uuid: k }).text());
            }
            assert forall|i: int| 0 <= i < names@.len() implies names_a_stream(
                self.streams(),
                (#[trigger] names@[i])@,
            ) by {
                assert(keys@.to_set().contains(keys@[i]));
                assert(self.streams().contains_key(keys@[i]));
            }
        }
        names
    }
}

} // verus!
