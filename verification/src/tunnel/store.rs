//! What a tunnel server keeps once it finds its clients by host: clients, their names, and the
//! streams that lead to them.
use crate::id::{ClientId, StreamId};
use crate::protocol::PeerAddr;
use crate::registry::{HostIndex, PeerIndex, Registry};
use crate::server::client::{delivery_outcome, Delivery};
use crate::server::stream::{
    disables, remote_step, write_outcome, RemoteStep, RemoteStream, RemoteTcp, StreamMessage,
};
use crate::server::store::live_streams;
use crate::server::ClientStreamError;
use vstd::prelude::*;
use vstd::string::*;

verus! {

/// A client, and the host name under which it is reached.
#[derive(Debug)]
pub struct Client {
    pub client_id: ClientId,
    pub host: String,
    pub disabled: bool,
}

impl Client {
    /// A client that is connected.
    pub fn new(client_id: ClientId, host: String) -> (r: Self)
        ensures
            r == (Client { client_id, host, disabled: false }),
    {
        Client { client_id, host, disabled: false }
    }

    /// What the outcome of sending a packet comes to. A connection over which nothing can be
    /// sent disables the client.
    pub fn send_to_client(&mut self, delivery: Delivery) -> (r: Result<(), ClientStreamError>)
        ensures
            delivery_outcome(delivery, r),
            *final(self) == (Client {
                disabled: old(self).disabled || delivery is NotSent,
                ..*old(self)
            }),
    {
        match delivery {
            Delivery::Sent => Ok(()),
            Delivery::NotEncoded(e) => Err(
                ClientStreamError::ClientError(
                    crate::text::join("packet is invalid ", e.as_str()),
                ),
            ),
            Delivery::NotSent(e) => {
                self.disable();
                Err(
                    ClientStreamError::ClientError(
                        crate::text::join("failed to communicate with client ", e.as_str()),
                    ),
                )
            },
        }
    }

    /// Disables the client.
    pub fn disable(&mut self)
        ensures
            *final(self) == (Client { disabled: true, ..*old(self) }),
    {
        self.disabled = true;
    }

    /// Whether the client is disabled.
    pub fn disabled(&self) -> (b: bool)
        ensures
            b == self.disabled,
    {
        self.disabled
    }
}

/// The clients that are not disabled.
pub open spec fn live_clients(clients: Map<u128, Client>) -> Map<u128, Client> {
    Map::new(|k: u128| clients.contains_key(k) && !clients[k].disabled, |k: u128| clients[k])
}

/// The clients, host names and streams of a tunnel server.
pub struct Store {
    streams: Registry<RemoteStream>,
    addrs_map: PeerIndex,
    clients: Registry<Client>,
    hosts_map: HostIndex,
}

impl Default for Store {
    fn default() -> (r: Self)
        ensures
            r.wf(),
            r.streams() == Map::<u128, RemoteStream>::empty(),
            r.clients() == Map::<u128, Client>::empty(),
            r.peers() == Map::<PeerAddr, StreamId>::empty(),
            r.hosts() == Map::<Seq<char>, ClientId>::empty(),
    {
        Store {
            streams: Registry::new(),
            addrs_map: PeerIndex::new(),
            clients: Registry::new(),
            hosts_map: HostIndex::new(),
        }
    }
}

impl Store {
    /// The streams, by identifier.
    pub closed spec fn streams(self) -> Map<u128, RemoteStream> {
        self.streams@
    }

    /// The clients, by identifier.
    pub closed spec fn clients(self) -> Map<u128, Client> {
        self.clients@
    }

    /// The stream that each peer address was last bound to.
    pub closed spec fn peers(self) -> Map<PeerAddr, StreamId> {
        self.addrs_map@
    }

    /// The client that each host name was last given to.
    pub closed spec fn hosts(self) -> Map<Seq<char>, ClientId> {
        self.hosts_map@
    }

    /// The tables are well formed, and streams stand under their own identifiers.
    pub closed spec fn wf(self) -> bool {
        &&& self.streams.wf()
        &&& self.clients.wf()
        &&& forall|k: u128| #[trigger]
            self.streams@.contains_key(k) ==> self.streams@[k].id().uuid == k
    }

    /// Everything but the streams is as in `other`.
    pub open spec fn same_but_streams(self, other: Self) -> bool {
        &&& self.clients() == other.clients()
        &&& self.peers() == other.peers()
        &&& self.hosts() == other.hosts()
    }

    /// Everything but the clients is as in `other`.
    pub open spec fn same_but_clients(self, other: Self) -> bool {
        &&& self.streams() == other.streams()
        &&& self.peers() == other.peers()
        &&& self.hosts() == other.hosts()
    }

    /// What `before` has become after a packet was sent to a client.
    pub open spec fn sent_to_client(
        self,
        before: Self,
        client_id: ClientId,
        delivery: Delivery,
        r: Result<(), ClientStreamError>,
    ) -> bool {
        &&& self.same_but_clients(before)
        &&& if before.clients().contains_key(client_id.uuid) {
            let was = before.clients()[client_id.uuid];
            &&& delivery_outcome(delivery, r)
            &&& self.clients() == before.clients().insert(
                client_id.uuid,
                (Client { disabled: was.disabled || delivery is NotSent, ..was }),
            )
        } else {
            &&& r == Err::<(), _>(ClientStreamError::ClientNotAvailable(client_id))
            &&& self.clients() == before.clients()
        }
    }

    /// What sending a packet to a client comes to, where `delivery` says how the sending went.
    pub fn send_to_client(&mut self, client_id: ClientId, delivery: Delivery) -> (r: Result<
        (),
        ClientStreamError,
    >)
        requires
            old(self).wf(),
        ensures
            final(self).wf(),
            final(self).sent_to_client(*old(self), client_id, delivery, r),
    {
        let ghost before = self.clients@;
        match self.clients.remove(client_id.uuid) {
            Some(client) => {
                let mut client = client;
                let r = client.send_to_client(delivery);
                self.clients.insert(client_id.uuid, client);
                assert(self.clients@ =~= before.insert(client_id.uuid, client));
                r
            },
            None => {
                assert(self.clients@ =~= before);
                Err(ClientStreamError::ClientNotAvailable(client_id))
            },
        }
    }

    /// What `before` has become after a message for the remote peer of a stream.
    pub open spec fn sent_to_remote(
        self,
        before: Self,
        stream_id: StreamId,
        message: StreamMessage,
        step: RemoteStep,
    ) -> bool {
        &&& self.same_but_streams(before)
        &&& if before.streams().contains_key(stream_id.uuid) {
            let was = before.streams()[stream_id.uuid];
            &&& remote_step(
                stream_id,
                was.is_disabled(),
                was is RemoteTcp,
                stream_id,
                message,
                step,
            )
            &&& self.streams() == before.streams().insert(
                stream_id.uuid,
                was.disabled_if(disables(message)),
            )
        } else {
            &&& step == RemoteStep::Fail(ClientStreamError::StreamNotAvailable(stream_id))
            &&& self.streams() == before.streams()
        }
    }

    /// What a message for the remote peer of a stream calls for.
    pub fn send_to_remote(&mut self, stream_id: StreamId, message: StreamMessage) -> (step:
        RemoteStep)
        requires
            old(self).wf(),
            !(message is NoClientTunnel) || !live_streams(old(self).streams()).contains_key(
                stream_id.uuid,
            ),
        ensures
            final(self).wf(),
            final(self).sent_to_remote(*old(self), stream_id, message, step),
    {
        let ghost before = self.streams@;
        match self.streams.remove(stream_id.uuid) {
            Some(stream) => {
                let mut stream = stream;
                let step = stream.send_to_remote(stream_id, message);
                self.streams.insert(stream_id.uuid, stream);
                assert(self.streams@ =~= before.insert(stream_id.uuid, stream));
                step
            },
            None => {
                assert(self.streams@ =~= before);
                RemoteStep::Fail(ClientStreamError::StreamNotAvailable(stream_id))
            },
        }
    }

    /// What `before` has become after a write to the remote peer of a stream.
    pub open spec fn wrote(
        self,
        before: Self,
        stream_id: StreamId,
        outcome: Result<(), String>,
        r: Result<(), ClientStreamError>,
    ) -> bool {
        &&& self.same_but_streams(before)
        &&& if before.streams().contains_key(stream_id.uuid) {
            let was = before.streams()[stream_id.uuid];
            &&& write_outcome(stream_id, outcome, r)
            &&& self.streams() == before.streams().insert(
                stream_id.uuid,
                was.disabled_if(outcome is Err),
            )
        } else {
            &&& r == Err::<(), _>(ClientStreamError::StreamNotAvailable(stream_id))
            &&& self.streams() == before.streams()
        }
    }

    /// What the outcome of a write to the remote peer of a stream comes to.
    pub fn remote_written(&mut self, stream_id: StreamId, outcome: Result<(), String>) -> (r:
        Result<(), ClientStreamError>)
        requires
            old(self).wf(),
        ensures
            final(self).wf(),
            final(self).wrote(*old(self), stream_id, outcome, r),
    {
        let ghost before = self.streams@;
        match self.streams.remove(stream_id.uuid) {
            Some(stream) => {
                let mut stream = stream;
                let r = stream.written(outcome);
                self.streams.insert(stream_id.uuid, stream);
                assert(self.streams@ =~= before.insert(stream_id.uuid, stream));
                r
            },
            None => {
                assert(self.streams@ =~= before);
                Err(ClientStreamError::StreamNotAvailable(stream_id))
            },
        }
    }

    /// What `before` has become after a stream was disabled.
    pub open spec fn lost_stream(self, before: Self, stream_id: StreamId) -> bool {
        &&& self.same_but_streams(before)
        &&& self.streams() == (if before.streams().contains_key(stream_id.uuid) {
            before.streams().insert(
                stream_id.uuid,
                before.streams()[stream_id.uuid].disabled_if(true),
            )
        } else {
            before.streams()
        })
    }

    /// Disables a stream, if it is registered.
    pub fn disable_remote(&mut self, stream_id: StreamId)
        requires
            old(self).wf(),
        ensures
            final(self).wf(),
            final(self).lost_stream(*old(self), stream_id),
    {
        let ghost before = self.streams@;
        match self.streams.remove(stream_id.uuid) {
            Some(stream) => {
                let mut stream = stream;
                stream.disable();
                self.streams.insert(stream_id.uuid, stream);
                assert(self.streams@ =~= before.insert(stream_id.uuid, stream));
            },
            None => {
                assert(self.streams@ =~= before);
            },
        }
    }

    /// What `before` has become after a client was disabled.
    pub open spec fn lost_client(self, before: Self, client_id: ClientId) -> bool {
        &&& self.same_but_clients(before)
        &&& self.clients() == (if before.clients().contains_key(client_id.uuid) {
            before.clients().insert(
                client_id.uuid,
                (Client { disabled: true, ..before.clients()[client_id.uuid] }),
            )
        } else {
            before.clients()
        })
    }

    /// Disables a client, if it is registered.
    pub fn disable_client(&mut self, client_id: ClientId)
        requires
            old(self).wf(),
        ensures
            final(self).wf(),
            final(self).lost_client(*old(self), client_id),
    {
        let ghost before = self.clients@;
        match self.clients.remove(client_id.uuid) {
            Some(client) => {
                let mut client = client;
                client.disable();
                self.clients.insert(client_id.uuid, client);
                assert(self.clients@ =~= before.insert(client_id.uuid, client));
            },
            None => {
                assert(self.clients@ =~= before);
            },
        }
    }

    /// What `before` has become after a client was registered.
    pub open spec fn added_client(self, before: Self, client: Client) -> bool {
        &&& self.streams() == before.streams()
        &&& self.peers() == before.peers()
        &&& self.clients() == before.clients().insert(client.client_id.uuid, client)
        &&& self.hosts() == before.hosts().insert(client.host@, client.client_id)
    }

    /// Registers a client, and gives it its host name.
    pub fn add_client(&mut self, client: Client)
        requires
            old(self).wf(),
        ensures
            final(self).wf(),
            final(self).added_client(*old(self), client),
    {
        self.hosts_map.insert(client.host.clone(), client.client_id);
        self.clients.insert(client.client_id.uuid, client);
    }

    /// What `before` has become after a stream was registered.
    pub open spec fn added_remote(
        self,
        before: Self,
        remote: RemoteStream,
        peer_addr: PeerAddr,
    ) -> bool {
        &&& self.clients() == before.clients()
        &&& self.hosts() == before.hosts()
        &&& self.streams() == before.streams().insert(remote.id().uuid, remote)
        &&& self.peers() == before.peers().insert(peer_addr, remote.id())
    }

    /// Registers a stream, and binds the address of its peer to it.
    pub fn add_remote(&mut self, remote: RemoteStream, peer_addr: PeerAddr)
        requires
            old(self).wf(),
        ensures
            final(self).wf(),
            final(self).added_remote(*old(self), remote, peer_addr),
    {
        let stream_id = remote.stream_id();
        self.streams.insert(stream_id.uuid, remote);
        self.addrs_map.insert(&peer_addr, stream_id);
    }

    /// What `before` has become after a connection was accepted.
    pub open spec fn accepted(self, before: Self, remote: RemoteTcp, init_sent: bool) -> bool {
        if init_sent {
            &&& self.streams() == before.streams().insert(
                remote.stream_id.uuid,
                RemoteStream::RemoteTcp(remote),
            )
            &&& self.peers() == before.peers().insert(
                remote.remote_info.remote_peer_addr,
                remote.stream_id,
            )
            &&& self.clients() == before.clients()
            &&& self.hosts() == before.hosts()
        } else {
            self == before
        }
    }

    /// Registers an accepted connection, if the client could be told of it.
    pub fn accept_connection2(&mut self, remote: RemoteTcp, init_sent: bool)
        requires
            old(self).wf(),
        ensures
            final(self).wf(),
            final(self).accepted(*old(self), remote, init_sent),
    {
        if init_sent {
            self.add_remote(
                RemoteStream::RemoteTcp(remote),
                remote.remote_info.remote_peer_addr,
            );
        }
    }

    /// The enabled stream that an address is bound to.
    pub open spec fn stream_at(self, addr: PeerAddr) -> Option<StreamId> {
        if self.peers().contains_key(addr) && live_streams(self.streams()).contains_key(
            self.peers()[addr].uuid,
        ) {
            Some(self.peers()[addr])
        } else {
            None
        }
    }

    /// The stream that a peer's traffic belongs to: the one that its address was last bound to,
    /// while that is registered and not disabled.
    pub fn find_stream_id_by_addr(&self, addr: &PeerAddr) -> (id: Option<StreamId>)
        requires
            self.wf(),
        ensures
            id == self.stream_at(*addr),
    {
        let stream_id = match self.addrs_map.get(addr) {
            Some(id) => id,
            None => {
                return None;
            },
        };
        if let Some(stream) = self.streams.get(stream_id.uuid) {
            if !stream.disabled() {
                return Some(stream.stream_id());
            }
        }
        None
    }

    fn drop_disabled_streams(&mut self)
        requires
            old(self).wf(),
        ensures
            final(self).wf(),
            final(self).same_but_streams(*old(self)),
            final(self).streams() == live_streams(old(self).streams()),
    {
        let ghost before = self.streams@;
        let keys = self.streams.keys();
        let mut i: usize = 0;
        while i < keys.len()
            invariant
                i <= keys@.len(),
                keys@.no_duplicates(),
                keys@.to_set() == before.dom(),
                self.wf(),
                self.same_but_streams(*old(self)),
                forall|k: u128| #[trigger]
                    self.streams@.contains_key(k) <==> before.contains_key(k) && !(
                    before[k].is_disabled() && among(keys@, i as int, k)),
                forall|k: u128| #[trigger]
                    self.streams@.contains_key(k) ==> self.streams@[k] == before[k],
            decreases keys@.len() - i,
        {
            let key: u128 = keys[i];
            assert(keys@.to_set().contains(key));
            assert(!among(keys@, i as int, key));
            let gone = match self.streams.get(key) {
                Some(stream) => stream.disabled(),
                None => false,
            };
            if gone {
                self.streams.remove(key);
            }
            assert forall|k: u128| among(keys@, i + 1, k) == (among(keys@, i as int, k) || k
                == key) by {
                if k == key {
                    assert(keys@[i as int] == k);
                }
            }
            i = i + 1;
        }
        proof {
            assert forall|k: u128| before.contains_key(k) implies among(keys@, i as int, k) by {
                assert(keys@.to_set().contains(k));
            }
            assert(self.streams@ =~= live_streams(before));
        }
    }

    fn drop_disabled_clients(&mut self)
        requires
            old(self).wf(),
        ensures
            final(self).wf(),
            final(self).same_but_clients(*old(self)),
            final(self).clients() == live_clients(old(self).clients()),
    {
        let ghost before = self.clients@;
        let keys = self.clients.keys();
        let mut i: usize = 0;
        while i < keys.len()
            invariant
                i <= keys@.len(),
                keys@.no_duplicates(),
                keys@.to_set() == before.dom(),
                self.wf(),
                self.same_but_clients(*old(self)),
                forall|k: u128| #[trigger]
                    self.clients@.contains_key(k) <==> before.contains_key(k) && !(
                    before[k].disabled && among(keys@, i as int, k)),
                forall|k: u128| #[trigger]
                    self.clients@.contains_key(k) ==> self.clients@[k] == before[k],
            decreases keys@.len() - i,
        {
            let key: u128 = keys[i];
            assert(keys@.to_set().contains(key));
            assert(!among(keys@, i as int, key));
            let gone = match self.clients.get(key) {
                Some(client) => client.disabled(),
                None => false,
            };
            if gone {
                self.clients.remove(key);
            }
            assert forall|k: u128| among(keys@, i + 1, k) == (among(keys@, i as int, k) || k
                == key) by {
                if k == key {
                    assert(keys@[i as int] == k);
                }
            }
            i = i + 1;
        }
        proof {
            assert forall|k: u128| before.contains_key(k) implies among(keys@, i as int, k) by {
                assert(keys@.to_set().contains(k));
            }
            assert(self.clients@ =~= live_clients(before));
        }
    }

    /// What `before` has become after a cleanup.
    pub open spec fn cleaned(self, before: Self) -> bool {
        &&& self.streams() == live_streams(before.streams())
        &&& self.clients() == live_clients(before.clients())
        &&& self.peers() == before.peers()
        &&& self.hosts() == before.hosts()
    }

    /// Drops the disabled streams and clients. Host names and addresses stay.
    pub fn cleanup(&mut self)
        requires
            old(self).wf(),
        ensures
            final(self).wf(),
            final(self).cleaned(*old(self)),
    {
        self.drop_disabled_streams();
        self.drop_disabled_clients();
    }
}

/// The key is among the first `n`.
spec fn among(keys: Seq<u128>, n: int, k: u128) -> bool {
    exists|j: int| 0 <= j < n && #[trigger] keys[j] == k
}

} // verus!
