//! The clients of a tunnel server, found by identifier and by host name.
use crate::id::ClientId;
use crate::registry::{HostIndex, Registry};
use vstd::prelude::*;
use vstd::string::*;

verus! {

/// A client that is connected, and the host name under which it is reached.
#[derive(Debug)]
pub struct ConnectedClient {
    pub id: ClientId,
    pub host: String,
}

impl ConnectedClient {
    /// A client that is reached under a host name.
    pub fn new(id: ClientId, host: String) -> (r: Self)
        ensures
            r.id == id,
            r.host == host,
    {
        ConnectedClient { id, host }
    }

    /// The same client once more.
    pub fn duplicate(&self) -> (r: Self)
        ensures
            r.same(*self),
    {
        ConnectedClient { id: self.id, host: self.host.clone() }
    }

    /// The clients have the same identifier and host name.
    pub open spec fn same(self, other: Self) -> bool {
        self.id == other.id && self.host@ == other.host@
    }
}

/// The clients that are connected.
pub struct Connections {
    clients: Registry<String>,
    hosts: HostIndex,
}

impl Default for Connections {
    fn default() -> (r: Self)
        ensures
            r.wf(),
            r.clients() == Map::<u128, Seq<char>>::empty(),
            r.hosts() == Map::<Seq<char>, ClientId>::empty(),
    {
        Connections::new()
    }
}

impl Connections {
    /// The host name of each client, by identifier.
    pub closed spec fn clients(self) -> Map<u128, Seq<char>> {
        self.clients@.map_values(|host: String| host@)
    }

    /// The client that each host name was last given to.
    pub closed spec fn hosts(self) -> Map<Seq<char>, ClientId> {
        self.hosts@
    }

    /// The tables are well formed.
    pub closed spec fn wf(self) -> bool {
        self.clients.wf()
    }

    /// What `before` has become after a client was added.
    pub open spec fn added(self, before: Self, client: ConnectedClient) -> bool {
        &&& self.clients() == before.clients().insert(client.id.uuid, client.host@)
        &&& self.hosts() == before.hosts().insert(client.host@, client.id)
    }

    /// What `before` has become after a client was taken out.
    pub open spec fn removed(self, before: Self, client: ConnectedClient) -> bool {
        &&& self.clients() == before.clients().remove(client.id.uuid)
        &&& self.hosts() == before.hosts().remove(client.host@)
    }

    /// The client is the one with the identifier; `None` if there is no such client.
    pub open spec fn has(self, client_id: ClientId, client: Option<ConnectedClient>) -> bool {
        match client {
            Some(c) => c.id == client_id && self.clients().contains_key(client_id.uuid) && c.host@
                == self.clients()[client_id.uuid],
            None => !self.clients().contains_key(client_id.uuid),
        }
    }

    /// The client is the one that the host name leads to; `None` if it leads to none.
    pub open spec fn leads_to(self, host: Seq<char>, client: Option<ConnectedClient>) -> bool {
        match client {
            Some(c) => self.hosts().contains_key(host) && c.id == self.hosts()[host] && c.host@
                == host,
            None => !self.hosts().contains_key(host),
        }
    }

    /// No clients.
    pub fn new() -> (r: Self)
        ensures
            r.wf(),
            r.clients() == Map::<u128, Seq<char>>::empty(),
            r.hosts() == Map::<Seq<char>, ClientId>::empty(),
    {
        let r = Connections { clients: Registry::new(), hosts: HostIndex::new() };
        assert(r.clients() =~= Map::<u128, Seq<char>>::empty());
        r
    }

    /// Takes a client out, and its host name, whomever that leads to.
    pub fn remove(&mut self, client: &ConnectedClient)
        requires
            old(self).wf(),
        ensures
            final(self).wf(),
            final(self).removed(*old(self), *client),
    {
        let ghost before = self.clients();
        self.hosts.remove(client.host.as_str());
        self.clients.remove(client.id.uuid);
        assert(self.clients() =~= before.remove(client.id.uuid));
    }

    /// The client with an identifier.
    pub fn get(&self, client_id: &ClientId) -> (client: Option<ConnectedClient>)
        requires
            self.wf(),
        ensures
            self.has(*client_id, client),
    {
        match self.clients.get(client_id.uuid) {
            Some(host) => Some(ConnectedClient { id: *client_id, host: host.clone() }),
            None => None,
        }
    }

    /// The client that is reached under a host name.
    pub fn find_by_host(&self, host: &str) -> (client: Option<ConnectedClient>)
        ensures
            self.leads_to(host@, client),
    {
        match self.hosts.get(host) {
            Some(id) => Some(ConnectedClient { id, host: host.to_owned() }),
            None => None,
        }
    }

    /// Adds a client, and gives it its host name.
    pub fn add(&mut self, client: ConnectedClient)
        requires
            old(self).wf(),
        ensures
            final(self).wf(),
            final(self).added(*old(self), client),
    {
        let ghost before = self.clients();
        self.hosts.insert(client.host.clone(), client.id);
        self.clients.insert(client.id.uuid, client.host);
        assert(self.clients() =~= before.insert(client.id.uuid, client.host@));
    }

    /// Takes all clients out.
    pub fn clear(&mut self)
        ensures
            final(self).wf(),
            final(self).clients() == Map::<u128, Seq<char>>::empty(),
            final(self).hosts() == Map::<Seq<char>, ClientId>::empty(),
    {
        self.clients.clear();
        self.hosts.clear();
        assert(self.clients() =~= Map::<u128, Seq<char>>::empty());
    }

    /// How many clients there are.
    pub fn len_clients(&self) -> (n: usize)
        requires
            self.wf(),
        ensures
            n == self.clients().dom().len(),
    {
        let n: usize = self.clients.len();
        assert(self.clients().dom() =~= self.clients@.dom());
        n
    }

    /// How many host names are given.
    pub fn len_hosts(&self) -> (n: usize)
        ensures
            n == self.hosts().dom().len(),
    {
        self.hosts.len()
    }
}

/// Adding a client again changes nothing.
pub proof fn law_add_is_idempotent(
    clients: Map<u128, Seq<char>>,
    hosts: Map<Seq<char>, ClientId>,
    client: ConnectedClient,
)
    ensures
        clients.insert(client.id.uuid, client.host@).insert(client.id.uuid, client.host@)
            == clients.insert(client.id.uuid, client.host@),
        hosts.insert(client.host@, client.id).insert(client.host@, client.id) == hosts.insert(
            client.host@,
            client.id,
        ),
{
}

/// Removing a client that was added leaves neither its identifier nor its host name, and removing
/// it again changes nothing.
pub proof fn law_remove_undoes_add(
    clients: Map<u128, Seq<char>>,
    hosts: Map<Seq<char>, ClientId>,
    client: ConnectedClient,
)
    ensures
        clients.insert(client.id.uuid, client.host@).remove(client.id.uuid) == clients.remove(
            client.id.uuid,
        ),
        hosts.insert(client.host@, client.id).remove(client.host@) == hosts.remove(client.host@),
        clients.remove(client.id.uuid).remove(client.id.uuid) == clients.remove(client.id.uuid),
        hosts.remove(client.host@).remove(client.host@) == hosts.remove(client.host@),
{
    assert(clients.insert(client.id.uuid, client.host@).remove(client.id.uuid) =~= clients.remove(
        client.id.uuid,
    ));
    assert(hosts.insert(client.host@, client.id).remove(client.host@) =~= hosts.remove(
        client.host@,
    ));
    assert(clients.remove(client.id.uuid).remove(client.id.uuid) =~= clients.remove(
        client.id.uuid,
    ));
    assert(hosts.remove(client.host@).remove(client.host@) =~= hosts.remove(client.host@));
}

} // verus!
