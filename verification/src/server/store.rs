//! What the server keeps: the clients, the streams that lead to them, and the ports that they
//! were given.
use super::client::{delivery_outcome, Client, Delivery};
use super::stream::{
    disables, remote_step, write_outcome, RemoteStep, RemoteStream, RemoteTcp, StreamMessage,
};
use super::ClientStreamError;
use crate::id::{ClientId, EndpointId, StreamId};
use crate::port_allocator::{remote_ports, PortAllocator, PortAllocatorError, PortRange};
use crate::protocol::{Endpoint, EndpointClaim, EndpointClaims, Endpoints, PeerAddr};
use crate::registry::{PeerIndex, Registry};
use crate::text::host_port;
use rand::rngs::StdRng;
use std::collections::HashMap;
use std::ops::Range;
use vstd::prelude::*;
use vstd::string::*;

verus! {

broadcast use vstd::std_specs::hash::group_hash_axioms;

/// The clients, streams, endpoints and free ports of a server.
pub struct Store {
    streams: HashMap<u128, RemoteStream>,
    clients: HashMap<u128, Client>,
    addrs_map: PeerIndex,
    endpoints_map: Registry<Endpoint>,
    alloc: PortAllocator<Range<u16>>,
}

/// The streams that are not disabled.
pub open spec fn live_streams(streams: Map<u128, RemoteStream>) -> Map<u128, RemoteStream> {
    Map::new(|k: u128| streams.contains_key(k) && !streams[k].is_disabled(), |k: u128| streams[k])
}

/// The streams that are not disabled and whose client is not disabled either.
pub open spec fn kept_streams(
    streams: Map<u128, RemoteStream>,
    clients: Map<u128, Client>,
) -> Map<u128, RemoteStream> {
    Map::new(
        |k: u128| streams.contains_key(k) && !stream_goes(streams[k], clients),
        |k: u128| streams[k],
    )
}

/// The stream is disabled, or its client is.
pub open spec fn stream_goes(stream: RemoteStream, clients: Map<u128, Client>) -> bool {
    stream.is_disabled() || (clients.contains_key(stream.client().uuid)
        && clients[stream.client().uuid].disabled)
}

/// The clients that are not disabled.
pub open spec fn live_clients(clients: Map<u128, Client>) -> Map<u128, Client> {
    Map::new(|k: u128| clients.contains_key(k) && !clients[k].disabled, |k: u128| clients[k])
}

/// Releasing the endpoint `eid` frees the port `p`.
pub open spec fn frees(
    endpoints: Map<u128, Endpoint>,
    range: Range<u16>,
    eid: EndpointId,
    p: u16,
) -> bool {
    endpoints.contains_key(eid.uuid) && endpoints[eid.uuid].remote_port == p && range.covers(p)
}

/// Some disabled client has the endpoint.
pub open spec fn of_disabled_client(clients: Map<u128, Client>, eid: EndpointId) -> bool {
    exists|c: u128, i: int|
        #![trigger clients[c].endpoints@[i]]
        clients.contains_key(c) && clients[c].disabled && 0 <= i < clients[c].endpoints@.len()
            && clients[c].endpoints@[i].id == eid
}

/// The endpoints by their identifiers, after those of `new` were added.
pub open spec fn with_endpoints(endpoints: Map<u128, Endpoint>, new: Seq<Endpoint>) -> Map<
    u128,
    Endpoint,
>
    decreases new.len(),
{
    if new.len() == 0 {
        endpoints
    } else {
        with_endpoints(endpoints, new.drop_last()).insert(new.last().id.uuid, new.last())
    }
}

fn keys_of<V>(m: &HashMap<u128, V>) -> (keys: Vec<u128>)
    ensures
        keys@.no_duplicates(),
        keys@.to_set() == m@.dom(),
{
    let mut keys: Vec<u128> = Vec::new();
    for key in it: m.keys()
        invariant
            it.seq().unref().to_set() == m@.dom(),
            it.seq().no_duplicates(),
            keys@ == it.seq().unref().take(it.index() as int),
            it.index() == it.seq().len() ==> keys@ == it.seq().unref(),
    {
        keys.push(*key);
        assert(keys@ =~= it.seq().unref().take(it.index() + 1));
    }
    keys
}

/// The key is among the first `n`.
spec fn among(keys: Seq<u128>, n: int, k: u128) -> bool {
    exists|j: int| 0 <= j < n && #[trigger] keys[j] == k
}

fn drop_disabled_streams(
    streams: &mut HashMap<u128, RemoteStream>,
    clients: &HashMap<u128, Client>,
)
    ensures
        final(streams)@ == kept_streams(old(streams)@, clients@),
{
    let ghost before = streams@;
    let keys = keys_of(streams);
    let mut i: usize = 0;
    while i < keys.len()
        invariant
            i <= keys@.len(),
            keys@.no_duplicates(),
            keys@.to_set() == before.dom(),
            forall|k: u128| #[trigger]
                streams@.contains_key(k) <==> before.contains_key(k) && !(
                stream_goes(before[k], clients@) && among(keys@, i as int, k)),
            forall|k: u128| #[trigger] streams@.contains_key(k) ==> streams@[k] == before[k],
        decreases keys@.len() - i,
    {
        let key: u128 = keys[i];
        assert(keys@.to_set().contains(key));
        assert(!among(keys@, i as int, key));
        let gone = match streams.get(&key) {
            Some(stream) => stream.disabled() || match clients.get(&stream.client_id().uuid) {
                Some(client) => client.disabled(),
                None => false,
            },
            None => false,
        };
        if gone {
            streams.remove(&key);
        }
        assert forall|k: u128| among(keys@, i + 1, k) == (among(keys@, i as int, k) || k == key) by {
            if k == key {
                assert(keys@[i as int] == k);
            }
        }
        i = i + 1;
    }
    proof {
        assert forall|k: u128| before.contains_key(k) implies among(keys@, i as int, k) by {
            assert(keys@.to_set().contains(k));
        }
        assert(streams@ =~= kept_streams(before, clients@));
    }
}

fn drop_disabled_clients(clients: &mut HashMap<u128, Client>) -> (eids: Vec<EndpointId>)
    ensures
        final(clients)@ == live_clients(old(clients)@),
        forall|eid: EndpointId| #[trigger]
            eids@.contains(eid) <==> of_disabled_client(old(clients)@, eid),
{
    let ghost before = clients@;
    let mut eids: Vec<EndpointId> = Vec::new();
    let keys = keys_of(clients);
    let mut i: usize = 0;
    while i < keys.len()
        invariant
            i <= keys@.len(),
            keys@.no_duplicates(),
            keys@.to_set() == before.dom(),
            forall|k: u128| #[trigger]
                clients@.contains_key(k) <==> before.contains_key(k) && !(before[k].disabled
                    && among(keys@, i as int, k)),
            forall|k: u128| #[trigger] clients@.contains_key(k) ==> clients@[k] == before[k],
            forall|eid: EndpointId| #[trigger]
                eids@.contains(eid) <==> collected(before, keys@, i as int, eid),
        decreases keys@.len() - i,
    {
        let key: u128 = keys[i];
        let ghost had = eids@;
        assert(keys@.to_set().contains(key));
        assert(!among(keys@, i as int, key));
        let mut gone = false;
        if let Some(client) = clients.get(&key) {
            gone = client.disabled();
            if gone {
                let endpoints = client.endpoints();
                let mut n: usize = 0;
                while n < endpoints.len()
                    invariant
                        n <= endpoints@.len(),
                        forall|eid: EndpointId| #[trigger]
                            eids@.contains(eid) <==> had.contains(eid) || has_endpoint(
                                endpoints@.take(n as int),
                                eid,
                            ),
                    decreases endpoints@.len() - n,
                {
                    let ghost so_far = eids@;
                    let id = endpoints[n].id;
                    eids.push(id);
                    proof {
                        assert forall|eid: EndpointId| #[trigger] eids@.contains(eid) <==> (
                        had.contains(eid) || has_endpoint(endpoints@.take(n + 1), eid)) by {
                            lemma_contains_push(so_far, id, eid);
                            lemma_has_endpoint_push(endpoints@, n as int, eid);
                        }
                    }
                    n = n + 1;
                }
                assert(endpoints@.take(n as int) =~= endpoints@);
            }
        }
        if gone {
            clients.remove(&key);
        }
        proof {
            assert forall|k: u128| among(keys@, i + 1, k) == (among(keys@, i as int, k) || k
                == key) by {
                if k == key {
                    assert(keys@[i as int] == k);
                }
            }
            assert forall|eid: EndpointId| #[trigger] eids@.contains(eid) <==> collected(
                before,
                keys@,
                i + 1,
                eid,
            ) by {
                lemma_collected_next(before, keys@, i as int, eid);
            }
        }
        i = i + 1;
    }
    proof {
        assert forall|k: u128| before.contains_key(k) implies among(keys@, i as int, k) by {
            assert(keys@.to_set().contains(k));
        }
        assert(clients@ =~= live_clients(before));
        assert forall|eid: EndpointId| #[trigger] eids@.contains(eid) <==> of_disabled_client(
            before,
            eid,
        ) by {
            lemma_collected_all(before, keys@, eid);
        }
    }
    eids
}

/// One of the endpoints has the identifier.
spec fn has_endpoint(endpoints: Seq<Endpoint>, eid: EndpointId) -> bool {
    exists|n: int| 0 <= n < endpoints.len() && (#[trigger] endpoints[n]).id == eid
}

/// One of the first `n` clients is disabled and has the endpoint.
spec fn collected(clients: Map<u128, Client>, keys: Seq<u128>, n: int, eid: EndpointId) -> bool {
    exists|j: int|
        0 <= j < n && clients[#[trigger] keys[j]].disabled && has_endpoint(
            clients[keys[j]].endpoints@,
            eid,
        )
}

proof fn lemma_contains_push(s: Seq<EndpointId>, x: EndpointId, y: EndpointId)
    ensures
        s.push(x).contains(y) <==> s.contains(y) || x == y,
{
    if s.contains(y) {
        let i = choose|i: int| 0 <= i < s.len() && s[i] == y;
        assert(s.push(x)[i] == y);
    }
    assert(s.push(x)[s.len() as int] == x);
}

proof fn lemma_has_endpoint_push(endpoints: Seq<Endpoint>, n: int, eid: EndpointId)
    requires
        0 <= n < endpoints.len(),
    ensures
        has_endpoint(endpoints.take(n + 1), eid) <==> has_endpoint(endpoints.take(n), eid)
            || endpoints[n].id == eid,
{
    let a = endpoints.take(n);
    let b = endpoints.take(n + 1);
    if has_endpoint(a, eid) {
        let k = choose|k: int| 0 <= k < a.len() && (#[trigger] a[k]).id == eid;
        assert(b[k] == a[k]);
    }
    if has_endpoint(b, eid) {
        let k = choose|k: int| 0 <= k < b.len() && (#[trigger] b[k]).id == eid;
        if k < n {
            assert(a[k] == b[k]);
        }
    }
    assert(b[n] == endpoints[n]);
}

proof fn lemma_collected_next(clients: Map<u128, Client>, keys: Seq<u128>, n: int, eid: EndpointId)
    requires
        0 <= n < keys.len(),
    ensures
        collected(clients, keys, n + 1, eid) <==> collected(clients, keys, n, eid) || (
        clients[keys[n]].disabled && has_endpoint(clients[keys[n]].endpoints@, eid)),
{
}

proof fn lemma_collected_all(clients: Map<u128, Client>, keys: Seq<u128>, eid: EndpointId)
    requires
        keys.to_set() == clients.dom(),
    ensures
        collected(clients, keys, keys.len() as int, eid) <==> of_disabled_client(clients, eid),
{
    if collected(clients, keys, keys.len() as int, eid) {
        let j = choose|j: int|
            0 <= j < keys.len() && clients[#[trigger] keys[j]].disabled && has_endpoint(
                clients[keys[j]].endpoints@,
                eid,
            );
        let endpoints = clients[keys[j]].endpoints@;
        let i = choose|i: int| 0 <= i < endpoints.len() && (#[trigger] endpoints[i]).id == eid;
        assert(keys.to_set().contains(keys[j]));
        assert(clients[keys[j]].endpoints@[i].id == eid);
    }
    if of_disabled_client(clients, eid) {
        let (c, i) = choose|c: u128, i: int|
            #![trigger clients[c].endpoints@[i]]
            clients.contains_key(c) && clients[c].disabled && 0 <= i < clients[c].endpoints@.len()
                && clients[c].endpoints@[i].id == eid;
        assert(keys.to_set().contains(c));
        let j = choose|j: int| 0 <= j < keys.len() && keys[j] == c;
        assert(has_endpoint(clients[keys[j]].endpoints@, eid));
    }
}

impl Default for Store {
    /// A store that holds nothing, with the ports 10000 to 19999 free.
    fn default() -> (r: Self)
        ensures
            r.wf(),
            r.is_new(),
            r.pool().range() == (10000u16..20000u16),
            forall|p: u16| #[trigger] r.pool().available().contains(p) <==> 10000 <= p < 20000,
    {
        Store {
            streams: HashMap::new(),
            clients: HashMap::new(),
            addrs_map: PeerIndex::new(),
            endpoints_map: Registry::new(),
            alloc: PortAllocator::default(),
        }
    }
}

impl Store {
    /// The streams, by identifier.
    pub closed spec fn streams(self) -> Map<u128, RemoteStream> {
        self.streams@
    }

    /// The clients, by identifier.
    pub closed spec fn clients(self) -> Map<u128, Client> {
        self.clients@
    }

    /// The stream that each peer address was last bound to.
    pub closed spec fn peers(self) -> Map<PeerAddr, StreamId> {
        self.addrs_map@
    }

    /// The endpoints that were handed out, by identifier.
    pub closed spec fn endpoints(self) -> Map<u128, Endpoint> {
        self.endpoints_map@
    }

    /// The free ports.
    pub closed spec fn pool(self) -> PortAllocator<Range<u16>> {
        self.alloc
    }

    /// Streams and clients stand under their own identifiers.
    pub closed spec fn wf(self) -> bool {
        &&& self.endpoints_map.wf()
        &&& self.alloc.wf()
        &&& forall|k: u128| #[trigger]
            self.streams@.contains_key(k) ==> self.streams@[k].id().uuid == k
        &&& forall|k: u128| #[trigger]
            self.clients@.contains_key(k) ==> self.clients@[k].client_id.uuid == k
    }

    /// Nothing is kept.
    pub open spec fn is_new(self) -> bool {
        &&& self.streams() == Map::<u128, RemoteStream>::empty()
        &&& self.clients() == Map::<u128, Client>::empty()
        &&& self.peers() == Map::<PeerAddr, StreamId>::empty()
        &&& self.endpoints() == Map::<u128, Endpoint>::empty()
    }

    /// Everything but the streams is as in `other`.
    pub open spec fn same_but_streams(self, other: Self) -> bool {
        &&& self.clients() == other.clients()
        &&& self.peers() == other.peers()
        &&& self.endpoints() == other.endpoints()
        &&& self.pool() == other.pool()
    }

    /// Everything but the clients is as in `other`.
    pub open spec fn same_but_clients(self, other: Self) -> bool {
        &&& self.streams() == other.streams()
        &&& self.peers() == other.peers()
        &&& self.endpoints() == other.endpoints()
        &&& self.pool() == other.pool()
    }

    /// A store that holds nothing, with the ports of `range` free.
    pub fn new(range: Range<u16>) -> (r: Self)
        ensures
            r.wf(),
            r.is_new(),
            r.pool().range() == range,
            forall|p: u16| #[trigger] r.pool().available().contains(p) <==> range.covers(p),
    {
        Store {
            streams: HashMap::new(),
            clients: HashMap::new(),
            addrs_map: PeerIndex::new(),
            endpoints_map: Registry::new(),
            alloc: PortAllocator::new(range),
        }
    }

    /// Whether a client is registered, so that a packet can be sent to it.
    pub fn has_client(&self, client_id: ClientId) -> (b: bool)
        ensures
            b == self.clients().contains_key(client_id.uuid),
    {
        self.clients.contains_key(&client_id.uuid)
    }

    /// What sending a packet to a client of `before` comes to.
    pub open spec fn sent_to_client(
        self,
        before: Self,
        client_id: ClientId,
        delivery: Delivery,
        r: Result<(), ClientStreamError>,
    ) -> bool {
        &&& self.same_but_clients(before)
        &&& if before.clients().contains_key(client_id.uuid) {
            let was = before.clients()[client_id.uuid];
            &&& delivery_outcome(delivery, r)
            &&& self.clients() == before.clients().insert(
                client_id.uuid,
                (Client { disabled: was.disabled || delivery is NotSent, ..was }),
            )
        } else {
            &&& r == Err::<(), _>(ClientStreamError::ClientNotAvailable(client_id))
            &&& self.clients() == before.clients()
        }
    }

    /// What sending a packet to a client comes to, where `delivery` says how the sending went.
    /// A client that is not registered cannot be sent to; one over whose connection nothing can
    /// be sent is disabled.
    pub fn send_to_client(&mut self, client_id: ClientId, delivery: Delivery) -> (r: Result<
        (),
        ClientStreamError,
    >)
        requires
            old(self).wf(),
        ensures
            final(self).wf(),
            final(self).sent_to_client(*old(self), client_id, delivery, r),
    {
        let ghost before = self.clients@;
        match self.clients.remove(&client_id.uuid) {
            Some(client) => {
                let mut client = client;
                let r = client.send_to_client(delivery);
                self.clients.insert(client_id.uuid, client);
                assert(self.clients@ =~= before.insert(client_id.uuid, client));
                r
            },
            None => {
                assert(self.clients@ =~= before);
                Err(ClientStreamError::ClientNotAvailable(client_id))
            },
        }
    }

    /// The clients that a packet for all of them goes to. One that cannot be sent to does not
    /// keep the packet from the others.
    pub fn broadcast_to_clients(&self) -> (ids: Vec<ClientId>)
        ensures
            self.lists_clients(ids@),
    {
        self.get_client_ids()
    }

    /// What `before` has become after a message for the remote peer of a stream.
    pub open spec fn sent_to_remote(
        self,
        before: Self,
        stream_id: StreamId,
        message: StreamMessage,
        step: RemoteStep,
    ) -> bool {
        &&& self.same_but_streams(before)
        &&& if before.streams().contains_key(stream_id.uuid) {
            let was = before.streams()[stream_id.uuid];
            &&& remote_step(
                stream_id,
                was.is_disabled(),
                was is RemoteTcp,
                stream_id,
                message,
                step,
            )
            &&& self.streams() == before.streams().insert(
                stream_id.uuid,
                was.disabled_if(disables(message)),
            )
        } else {
            &&& step == RemoteStep::Fail(ClientStreamError::StreamNotAvailable(stream_id))
            &&& self.streams() == before.streams()
        }
    }

    /// What `before` has become after a write to the remote peer of a stream.
    pub open spec fn wrote(
        self,
        before: Self,
        stream_id: StreamId,
        outcome: Result<(), String>,
        r: Result<(), ClientStreamError>,
    ) -> bool {
        &&& self.same_but_streams(before)
        &&& if before.streams().contains_key(stream_id.uuid) {
            let was = before.streams()[stream_id.uuid];
            &&& write_outcome(stream_id, outcome, r)
            &&& self.streams() == before.streams().insert(
                stream_id.uuid,
                was.disabled_if(outcome is Err),
            )
        } else {
            &&& r == Err::<(), _>(ClientStreamError::StreamNotAvailable(stream_id))
            &&& self.streams() == before.streams()
        }
    }

    /// What `before` has become after a stream was disabled.
    pub open spec fn lost_stream(self, before: Self, stream_id: StreamId) -> bool {
        &&& self.same_but_streams(before)
        &&& self.streams() == (if before.streams().contains_key(stream_id.uuid) {
            before.streams().insert(
                stream_id.uuid,
                before.streams()[stream_id.uuid].disabled_if(true),
            )
        } else {
            before.streams()
        })
    }

    /// What `before` has become after a client was disabled.
    pub open spec fn lost_client(self, before: Self, client_id: ClientId) -> bool {
        &&& self.same_but_clients(before)
        &&& self.clients() == (if before.clients().contains_key(client_id.uuid) {
            before.clients().insert(
                client_id.uuid,
                (Client { disabled: true, ..before.clients()[client_id.uuid] }),
            )
        } else {
            before.clients()
        })
    }

    /// What a message for the remote peer of a stream calls for. A stream that is not
    /// registered or is disabled takes no message; a refusal disables the stream.
    pub fn send_to_remote(&mut self, stream_id: StreamId, message: StreamMessage) -> (step:
        RemoteStep)
        requires
            old(self).wf(),
            !(message is NoClientTunnel) || !live_streams(old(self).streams()).contains_key(
                stream_id.uuid,
            ),
        ensures
            final(self).wf(),
            final(self).sent_to_remote(*old(self), stream_id, message, step),
    {
        let ghost before = self.streams@;
        match self.streams.remove(&stream_id.uuid) {
            Some(stream) => {
                let mut stream = stream;
                let step = stream.send_to_remote(stream_id, message);
                self.streams.insert(stream_id.uuid, stream);
                assert(self.streams@ =~= before.insert(stream_id.uuid, stream));
                step
            },
            None => {
                assert(self.streams@ =~= before);
                RemoteStep::Fail(ClientStreamError::StreamNotAvailable(stream_id))
            },
        }
    }

    /// What the outcome of a write to the remote peer of a stream comes to. A failed write
    /// disables the stream.
    pub fn remote_written(&mut self, stream_id: StreamId, outcome: Result<(), String>) -> (r:
        Result<(), ClientStreamError>)
        requires
            old(self).wf(),
        ensures
            final(self).wf(),
            final(self).wrote(*old(self), stream_id, outcome, r),
    {
        let ghost before = self.streams@;
        match self.streams.remove(&stream_id.uuid) {
            Some(stream) => {
                let mut stream = stream;
                let r = stream.written(outcome);
                self.streams.insert(stream_id.uuid, stream);
                assert(self.streams@ =~= before.insert(stream_id.uuid, stream));
                r
            },
            None => {
                assert(self.streams@ =~= before);
                Err(ClientStreamError::StreamNotAvailable(stream_id))
            },
        }
    }

    /// Disables a stream, if it is registered.
    pub fn disable_remote(&mut self, stream_id: StreamId)
        requires
            old(self).wf(),
        ensures
            final(self).wf(),
            final(self).lost_stream(*old(self), stream_id),
    {
        let ghost before = self.streams@;
        match self.streams.remove(&stream_id.uuid) {
            Some(stream) => {
                let mut stream = stream;
                stream.disable();
                self.streams.insert(stream_id.uuid, stream);
                assert(self.streams@ =~= before.insert(stream_id.uuid, stream));
            },
            None => {
                assert(self.streams@ =~= before);
            },
        }
    }

    /// What `before` has become after the streams of a client were disabled.
    pub open spec fn cut_off(self, before: Self, client_id: ClientId) -> bool {
        &&& self.same_but_streams(before)
        &&& self.streams() == before.streams().map_values(
            |s: RemoteStream| s.disabled_if(s.client() == client_id),
        )
    }

    /// Disables every stream that leads to a client.
    pub fn disable_remote_by_client(&mut self, client_id: ClientId)
        requires
            old(self).wf(),
        ensures
            final(self).wf(),
            final(self).cut_off(*old(self), client_id),
    {
        let ghost before = self.streams@;
        let keys = keys_of(&self.streams);
        let mut i: usize = 0;
        assert forall|s: RemoteStream| s.disabled_if(false) == s by {}
        while i < keys.len()
            invariant
                i <= keys@.len(),
                keys@.no_duplicates(),
                keys@.to_set() == before.dom(),
                self.streams@.dom() == before.dom(),
                self.same_but_streams(*old(self)),
                self.endpoints_map.wf(),
                self.alloc.wf(),
                forall|k: u128| #[trigger]
                    self.streams@.contains_key(k) ==> self.streams@[k] == (if among(
                        keys@,
                        i as int,
                        k,
                    ) {
                        before[k].disabled_if(before[k].client() == client_id)
                    } else {
                        before[k]
                    }),
            decreases keys@.len() - i,
        {
            let key: u128 = keys[i];
            let ghost prior = self.streams@;
            assert(keys@.to_set().contains(key));
            assert(!among(keys@, i as int, key));
            if let Some(stream) = self.streams.remove(&key) {
                let mut stream = stream;
                if stream.client_id() == client_id {
                    stream.disable();
                }
                self.streams.insert(key, stream);
                assert(self.streams@ =~= prior.insert(key, stream));
            }
            assert forall|k: u128| among(keys@, i + 1, k) == (among(keys@, i as int, k) || k
                == key) by {
                if k == key {
                    assert(keys@[i as int] == k);
                }
            }
            assert(self.streams@.dom() =~= before.dom());
            i = i + 1;
        }
        proof {
            assert forall|k: u128| before.contains_key(k) implies among(keys@, i as int, k) by {
                assert(keys@.to_set().contains(k));
            }
            assert(self.streams@ =~= before.map_values(
                |s: RemoteStream| s.disabled_if(s.client() == client_id),
            ));
        }
    }

    /// Disables a client, if it is registered.
    pub fn disable_client(&mut self, client_id: ClientId)
        requires
            old(self).wf(),
        ensures
            final(self).wf(),
            final(self).lost_client(*old(self), client_id),
    {
        let ghost before = self.clients@;
        match self.clients.remove(&client_id.uuid) {
            Some(client) => {
                let mut client = client;
                client.disable();
                self.clients.insert(client_id.uuid, client);
                assert(self.clients@ =~= before.insert(client_id.uuid, client));
            },
            None => {
                assert(self.clients@ =~= before);
            },
        }
    }

    /// Registers a client, in place of one with the same identifier.
    pub fn add_client(&mut self, client: Client)
        requires
            old(self).wf(),
        ensures
            final(self).wf(),
            final(self).added_client(*old(self), client),
    {
        self.clients.insert(client.client_id.uuid, client);
    }

    /// What `before` has become after a client was registered.
    pub open spec fn added_client(self, before: Self, client: Client) -> bool {
        &&& self.same_but_clients(before)
        &&& self.clients() == before.clients().insert(client.client_id.uuid, client)
    }

    /// What `before` has become after a client was taken out.
    pub open spec fn removed_client(
        self,
        before: Self,
        client_id: ClientId,
        was: Option<Client>,
    ) -> bool {
        &&& self.same_but_clients(before)
        &&& self.clients() == before.clients().remove(client_id.uuid)
        &&& was == before.clients().get(client_id.uuid)
    }

    /// What `before` has become after a stream was registered.
    pub open spec fn added_remote(
        self,
        before: Self,
        remote: RemoteStream,
        peer_addr: PeerAddr,
    ) -> bool {
        &&& self.streams() == before.streams().insert(remote.id().uuid, remote)
        &&& self.peers() == before.peers().insert(peer_addr, remote.id())
        &&& self.clients() == before.clients()
        &&& self.endpoints() == before.endpoints()
        &&& self.pool() == before.pool()
    }

    /// Takes a client out of the store.
    pub fn remove_client(&mut self, client_id: ClientId) -> (was: Option<Client>)
        requires
            old(self).wf(),
        ensures
            final(self).wf(),
            final(self).removed_client(*old(self), client_id, was),
    {
        self.clients.remove(&client_id.uuid)
    }

    /// Registers a stream, and binds the address of its peer to it.
    pub fn add_remote(&mut self, remote: RemoteStream, peer_addr: PeerAddr)
        requires
            old(self).wf(),
        ensures
            final(self).wf(),
            final(self).added_remote(*old(self), remote, peer_addr),
    {
        let stream_id = remote.stream_id();
        self.streams.insert(stream_id.uuid, remote);
        self.addrs_map.insert(&peer_addr, stream_id);
    }

    /// What `before` has become after a connection was accepted.
    pub open spec fn accepted(self, before: Self, remote: RemoteTcp, init_sent: bool) -> bool {
        if init_sent {
            &&& self.streams() == before.streams().insert(
                remote.stream_id.uuid,
                RemoteStream::RemoteTcp(remote),
            )
            &&& self.peers() == before.peers().insert(
                remote.remote_info.remote_peer_addr,
                remote.stream_id,
            )
            &&& self.clients() == before.clients()
            &&& self.endpoints() == before.endpoints()
            &&& self.pool() == before.pool()
        } else {
            self == before
        }
    }

    /// Registers an accepted connection, if the client could be told of it.
    pub fn accept_connection(&mut self, remote: RemoteTcp, init_sent: bool)
        requires
            old(self).wf(),
        ensures
            final(self).wf(),
            final(self).accepted(*old(self), remote, init_sent),
    {
        if init_sent {
            self.add_remote(
                RemoteStream::RemoteTcp(remote),
                remote.remote_info.remote_peer_addr,
            );
        }
    }

    /// What is left after a cleanup of `before`: the disabled streams and clients are gone, with
    /// the streams of those clients, and the ports of those clients' endpoints are free.
    pub open spec fn cleaned(self, before: Self) -> bool {
        &&& self.streams() == kept_streams(before.streams(), before.clients())
        &&& self.clients() == live_clients(before.clients())
        &&& self.peers() == before.peers()
        &&& self.endpoints() == before.endpoints()
        &&& self.pool().range() == before.pool().range()
        &&& forall|p: u16| #[trigger]
            self.pool().available().contains(p) <==> before.pool().available().contains(p) || (
            exists|eid: EndpointId|
                of_disabled_client(before.clients(), eid) && #[trigger] frees(
                    before.endpoints(),
                    before.pool().range(),
                    eid,
                    p,
                ))
    }

    /// Drops the disabled streams, and the disabled clients with their streams, and frees the ports
    /// of those clients.
    pub fn cleanup(&mut self)
        requires
            old(self).wf(),
        ensures
            final(self).wf(),
            final(self).cleaned(*old(self)),
    {
        let ghost before = *self;
        drop_disabled_streams(&mut self.streams, &self.clients);
        let eids = drop_disabled_clients(&mut self.clients);
        let mut i: usize = 0;
        while i < eids.len()
            invariant
                i <= eids@.len(),
                self.wf(),
                self.streams() == kept_streams(before.streams(), before.clients()),
                self.clients() == live_clients(before.clients()),
                self.peers() == before.peers(),
                self.endpoints() == before.endpoints(),
                self.pool().range() == before.pool().range(),
                forall|p: u16| #[trigger]
                    self.pool().available().contains(p) <==> before.pool().available().contains(p)
                        || freed_among(before, eids@, i as int, p),
            decreases eids@.len() - i,
        {
            let eid = eids[i];
            let ghost prior = self.pool();
            let _ = self.release_endpoint(eid);
            proof {
                assert forall|p: u16| #[trigger]
                    self.pool().available().contains(p) <==> before.pool().available().contains(p)
                        || freed_among(before, eids@, i + 1, p) by {
                    assert(freed_among(before, eids@, i + 1, p) == (freed_among(
                        before,
                        eids@,
                        i as int,
                        p,
                    ) || frees(before.endpoints(), before.pool().range(), eid, p))) by {
                        if frees(before.endpoints(), before.pool().range(), eid, p) {
                            assert(eids@[i as int] == eid);
                        }
                    }
                    assert(prior.available().contains(p) <==> before.pool().available().contains(p)
                        || freed_among(before, eids@, i as int, p));
                }
            }
            i = i + 1;
        }
        proof {
            assert forall|p: u16| freed_among(before, eids@, i as int, p) <==> (exists|
                eid: EndpointId,
            |
                of_disabled_client(before.clients(), eid) && #[trigger] frees(
                    before.endpoints(),
                    before.pool().range(),
                    eid,
                    p,
                )) by {
                if freed_among(before, eids@, i as int, p) {
                    let j = choose|j: int|
                        0 <= j < i && frees(
                            before.endpoints(),
                            before.pool().range(),
                            #[trigger] eids@[j],
                            p,
                        );
                    assert(eids@.contains(eids@[j]));
                }
                if exists|eid: EndpointId|
                    of_disabled_client(before.clients(), eid) && #[trigger] frees(
                        before.endpoints(),
                        before.pool().range(),
                        eid,
                        p,
                    ) {
                    let eid = choose|eid: EndpointId|
                        of_disabled_client(before.clients(), eid) && #[trigger] frees(
                            before.endpoints(),
                            before.pool().range(),
                            eid,
                            p,
                        );
                    assert(eids@.contains(eid));
                }
            }
        }
    }

    /// The stream that a peer's traffic belongs to: the one that its address was last bound to,
    /// while that is registered and not disabled.
    pub fn find_stream_id_by_addr(&self, addr: &PeerAddr) -> (id: Option<StreamId>)
        requires
            self.wf(),
        ensures
            id == self.stream_at(*addr),
    {
        let stream_id = match self.addrs_map.get(addr) {
            Some(id) => id,
            None => {
                return None;
            },
        };
        if let Some(stream) = self.streams.get(&stream_id.uuid) {
            if !stream.disabled() {
                return Some(stream.stream_id());
            }
        }
        None
    }

    /// The enabled stream that an address is bound to.
    pub open spec fn stream_at(self, addr: PeerAddr) -> Option<StreamId> {
        if self.peers().contains_key(addr) && live_streams(self.streams()).contains_key(
            self.peers()[addr].uuid,
        ) {
            Some(self.peers()[addr])
        } else {
            None
        }
    }

    /// The identifiers are those of the registered streams, each once.
    pub open spec fn lists_streams(self, ids: Seq<StreamId>) -> bool {
        &&& ids.no_duplicates()
        &&& forall|id: StreamId| #[trigger]
            ids.contains(id) <==> self.streams().contains_key(id.uuid)
    }

    /// The identifiers are those of the registered clients, each once.
    pub open spec fn lists_clients(self, ids: Seq<ClientId>) -> bool {
        &&& ids.no_duplicates()
        &&& forall|id: ClientId| #[trigger]
            ids.contains(id) <==> self.clients().contains_key(id.uuid)
    }

    /// The streams that are registered.
    pub fn get_stream_ids(&self) -> (ids: Vec<StreamId>)
        ensures
            self.lists_streams(ids@),
    {
        let keys = keys_of(&self.streams);
        let mut ids: Vec<StreamId> = Vec::new();
        let mut i: usize = 0;
        while i < keys.len()
            invariant
                i <= keys@.len(),
                keys@.no_duplicates(),
                ids@.len() == i,
                forall|j: int| 0 <= j < i ==> (#[trigger] ids@[j]).uuid == keys@[j],
            decreases keys@.len() - i,
        {
            ids.push(StreamId { uuid: keys[i] });
            i = i + 1;
        }
        proof {
            assert forall|id: StreamId| #[trigger] ids@.contains(id) <==> self.streams().contains_key(
                id.uuid,
            ) by {
                if ids@.contains(id) {
                    let j = choose|j: int| 0 <= j < ids@.len() && ids@[j] == id;
                    assert(keys@.to_set().contains(keys@[j]));
                }
                if self.streams().contains_key(id.uuid) {
                    assert(keys@.to_set().contains(id.uuid));
                    let j = choose|j: int| 0 <= j < keys@.len() && keys@[j] == id.uuid;
                    assert(ids@[j] == id);
                }
            }
        }
        ids
    }

    /// The clients that are registered.
    pub fn get_client_ids(&self) -> (ids: Vec<ClientId>)
        ensures
            self.lists_clients(ids@),
    {
        let keys = keys_of(&self.clients);
        let mut ids: Vec<ClientId> = Vec::new();
        let mut i: usize = 0;
        while i < keys.len()
            invariant
                i <= keys@.len(),
                keys@.no_duplicates(),
                ids@.len() == i,
                forall|j: int| 0 <= j < i ==> (#[trigger] ids@[j]).uuid == keys@[j],
            decreases keys@.len() - i,
        {
            ids.push(ClientId { uuid: keys[i] });
            i = i + 1;
        }
        proof {
            assert forall|id: ClientId| #[trigger] ids@.contains(id) <==> self.clients().contains_key(
                id.uuid,
            ) by {
                if ids@.contains(id) {
                    let j = choose|j: int| 0 <= j < ids@.len() && ids@[j] == id;
                    assert(keys@.to_set().contains(keys@[j]));
                }
                if self.clients().contains_key(id.uuid) {
                    assert(keys@.to_set().contains(id.uuid));
                    let j = choose|j: int| 0 <= j < keys@.len() && keys@[j] == id.uuid;
                    assert(ids@[j] == id);
                }
            }
        }
        ids
    }

    /// How many streams are registered.
    pub fn len_streams(&self) -> (n: usize)
        ensures
            n == self.streams().dom().len(),
    {
        self.streams.len()
    }

    /// How many clients are registered.
    pub fn len_clients(&self) -> (n: usize)
        ensures
            n == self.clients().dom().len(),
    {
        self.clients.len()
    }

    /// Takes one free port, at random.
    pub fn allocate_port(&mut self, rng: &mut StdRng) -> (r: Result<u16, PortAllocatorError>)
        requires
            old(self).wf(),
        ensures
            final(self).wf(),
            final(self).streams() == old(self).streams(),
            final(self).clients() == old(self).clients(),
            final(self).peers() == old(self).peers(),
            final(self).endpoints() == old(self).endpoints(),
            final(self).pool().took_one(old(self).pool(), r),
    {
        self.alloc.allocate_port(rng)
    }

    /// What `before` has become after endpoints were asked for.
    pub open spec fn served(
        self,
        before: Self,
        claims: Seq<EndpointClaim>,
        r: Result<Endpoints, PortAllocatorError>,
    ) -> bool {
        &&& self.streams() == before.streams()
        &&& self.clients() == before.clients()
        &&& self.peers() == before.peers()
        &&& self.pool().allocated(before.pool(), claims, r)
        &&& self.endpoints() == (match r {
            Ok(endpoints) => with_endpoints(before.endpoints(), endpoints@),
            Err(_) => before.endpoints(),
        })
    }

    /// What `before` has become after the port of an endpoint was released.
    pub open spec fn released(
        self,
        before: Self,
        eid: EndpointId,
        r: Result<(), PortAllocatorError>,
    ) -> bool {
        &&& self.streams() == before.streams()
        &&& self.clients() == before.clients()
        &&& self.peers() == before.peers()
        &&& self.endpoints() == before.endpoints()
        &&& self.pool().range() == before.pool().range()
        &&& forall|p: u16| #[trigger]
            self.pool().available().contains(p) <==> before.pool().available().contains(p) || frees(
                before.endpoints(),
                before.pool().range(),
                eid,
                p,
            )
        &&& r == release_result(before, eid)
    }

    /// Gives endpoints to the claims of a client, and keeps them. Either every claim is served
    /// or nothing changes.
    pub fn allocate_endpoints(&mut self, rng: &mut StdRng, client_claims: EndpointClaims) -> (r:
        Result<Endpoints, PortAllocatorError>)
        requires
            old(self).wf(),
        ensures
            final(self).wf(),
            final(self).served(*old(self), client_claims@, r),
    {
        match self.alloc.allocate_ports(rng, client_claims) {
            Ok(endpoints) => {
                let mut i: usize = 0;
                assert(endpoints@.take(0) =~= Seq::empty());
                while i < endpoints.len()
                    invariant
                        i <= endpoints@.len(),
                        self.streams@ == old(self).streams@,
                        self.clients@ == old(self).clients@,
                        self.addrs_map@ == old(self).addrs_map@,
                        self.alloc.wf(),
                        self.alloc.range() == old(self).alloc.range(),
                        self.alloc.available() == old(self).alloc.available().difference(
                            remote_ports(endpoints@),
                        ),
                        self.endpoints_map.wf(),
                        self.endpoints_map@ == with_endpoints(
                            old(self).endpoints_map@,
                            endpoints@.take(i as int),
                        ),
                    decreases endpoints@.len() - i,
                {
                    let endpoint = endpoints[i];
                    self.endpoints_map.insert(endpoint.id.uuid, endpoint);
                    proof {
                        let next = endpoints@.take(i + 1);
                        assert(next.drop_last() =~= endpoints@.take(i as int));
                        assert(next.last() == endpoint);
                    }
                    i = i + 1;
                }
                assert(endpoints@.take(i as int) =~= endpoints@);
                Ok(endpoints)
            },
            Err(e) => Err(e),
        }
    }

    /// Frees the port of an endpoint. An endpoint that was never handed out is out of range.
    pub fn release_endpoint(&mut self, eid: EndpointId) -> (r: Result<(), PortAllocatorError>)
        requires
            old(self).wf(),
        ensures
            final(self).wf(),
            final(self).released(*old(self), eid, r),
    {
        match self.endpoints_map.get(eid.uuid) {
            Some(endpoint) => match self.alloc.release_port(endpoint.remote_port) {
                Ok(_) => Ok(()),
                Err(e) => Err(e),
            },
            None => Err(PortAllocatorError::PortOutOfRange),
        }
    }

    /// Where the remote side of an endpoint listens.
    pub open spec fn remote_addr(self, eid: EndpointId) -> Option<Seq<char>> {
        if self.endpoints().contains_key(eid.uuid) {
            Some(host_port("0.0.0.0"@, self.endpoints()[eid.uuid].remote_port))
        } else {
            None
        }
    }

    /// The address on which the remote side of an endpoint listens.
    pub fn get_remote_addr_by_endpoint_id(&self, eid: EndpointId) -> (addr: Option<String>)
        requires
            self.wf(),
        ensures
            crate::reconnect::text_of(addr) == self.remote_addr(eid),
    {
        match self.endpoints_map.get(eid.uuid) {
            Some(endpoint) => Some(
                crate::text::host_port_text("0.0.0.0", endpoint.remote_port),
            ),
            None => None,
        }
    }
}

/// What releasing an endpoint returns.
pub open spec fn release_result(store: Store, eid: EndpointId) -> Result<(), PortAllocatorError> {
    if !store.endpoints().contains_key(eid.uuid) {
        Err(PortAllocatorError::PortOutOfRange)
    } else {
        let port = store.endpoints()[eid.uuid].remote_port;
        if !store.pool().range().covers(port) {
            Err(PortAllocatorError::PortOutOfRange)
        } else if store.pool().available().contains(port) {
            Err(PortAllocatorError::PortAlreadyReleased)
        } else {
            Ok(())
        }
    }
}

/// Releasing the first `n` of the endpoints frees the port.
spec fn freed_among(store: Store, eids: Seq<EndpointId>, n: int, p: u16) -> bool {
    exists|j: int|
        0 <= j < n && frees(store.endpoints(), store.pool().range(), #[trigger] eids[j], p)
}

} // verus!
