//! Shared tables, kept in concurrent hash maps: values found by a 128-bit identifier, stream
//! identifiers found by the address of the peer, and clients found by host name.
use crate::id::{ClientId, StreamId};
use crate::protocol::PeerAddr;
use dashmap::DashMap;
use vstd::prelude::*;
use vstd::string::*;

verus! {

#[verifier::external_type_specification]
#[verifier::external_body]
#[verifier::reject_recursive_types(K)]
#[verifier::reject_recursive_types(V)]
#[verifier::reject_recursive_types(S)]
pub struct ExDashMap<K, V, S>(DashMap<K, V, S>);

/// What an index from identifiers to slots holds.
pub uninterp spec fn index_contents(m: DashMap<u128, usize>) -> Map<u128, usize>;

/// Calls `dashmap::DashMap::new`: a map that holds nothing.
#[verifier::external_body]
fn index_new() -> (m: DashMap<u128, usize>)
    ensures
        index_contents(m).dom() == Set::<u128>::empty(),
{
    DashMap::new()
}

/// Calls `dashmap::DashMap::insert`: binds the key and hands back what it was bound to.
#[verifier::external_body]
fn index_insert(m: &mut DashMap<u128, usize>, key: u128, slot: usize) -> (was: Option<usize>)
    ensures
        index_contents(*final(m)) == index_contents(*old(m)).insert(key, slot),
        was == index_contents(*old(m)).get(key),
{
    m.insert(key, slot)
}

/// Calls `dashmap::DashMap::remove`: unbinds the key and hands back what it was bound to.
#[verifier::external_body]
fn index_remove(m: &mut DashMap<u128, usize>, key: u128) -> (was: Option<usize>)
    ensures
        index_contents(*final(m)) == index_contents(*old(m)).remove(key),
        was == index_contents(*old(m)).get(key),
{
    m.remove(&key).map(|entry| entry.1)
}

/// Calls `dashmap::DashMap::get`: what the key is bound to.
#[verifier::external_body]
fn index_get(m: &DashMap<u128, usize>, key: u128) -> (slot: Option<usize>)
    ensures
        slot == index_contents(*m).get(key),
{
    m.get(&key).map(|entry| *entry.value())
}

/// Calls `dashmap::DashMap::iter` and takes the keys: each bound key once, in an order that is
/// not fixed.
#[verifier::external_body]
fn index_keys(m: &DashMap<u128, usize>) -> (keys: Vec<u128>)
    ensures
        keys@.no_duplicates(),
        keys@.to_set() == index_contents(*m).dom(),
{
    m.iter().map(|entry| *entry.key()).collect()
}

/// A table of values, each found by its identifier.
#[verifier::reject_recursive_types(V)]
pub struct Registry<V> {
    index: DashMap<u128, usize>,
    slots: Vec<Option<V>>,
    free: Vec<usize>,
}

impl<V> View for Registry<V> {
    type V = Map<u128, V>;

    closed spec fn view(&self) -> Map<u128, V> {
        Map::new(
            |k: u128| index_contents(self.index).contains_key(k),
            |k: u128| self.slots@[index_contents(self.index)[k] as int]->0,
        )
    }
}

impl<V> Registry<V> {
    /// Each identifier has a slot of its own, which is filled; the free slots are empty.
    pub closed spec fn wf(&self) -> bool {
        let index = index_contents(self.index);
        &&& forall|k: u128| #[trigger]
            index.contains_key(k) ==> index[k] < self.slots@.len() && self.slots@[index[k] as int]
                is Some
        &&& forall|j: u128, k: u128|
            #![trigger index.contains_key(j), index.contains_key(k)]
            index.contains_key(j) && index.contains_key(k) && j != k ==> index[j] != index[k]
        &&& self.free@.no_duplicates()
        &&& forall|i: int|
            0 <= i < self.free@.len() ==> (#[trigger] self.free@[i]) < self.slots@.len()
                && self.slots@[self.free@[i] as int] is None
    }

    /// A table that holds nothing.
    pub fn new() -> (r: Self)
        ensures
            r.wf(),
            r@ == Map::<u128, V>::empty(),
    {
        let r = Registry { index: index_new(), slots: Vec::new(), free: Vec::new() };
        assert(r@ =~= Map::<u128, V>::empty());
        r
    }

    /// Binds `key` to `value` and hands back the value that it was bound to.
    pub fn insert(&mut self, key: u128, value: V) -> (was: Option<V>)
        requires
            old(self).wf(),
        ensures
            final(self).wf(),
            final(self)@ == old(self)@.insert(key, value),
            was == old(self)@.get(key),
    {
        let ghost before = *self;
        let ghost index = index_contents(self.index);
        match index_get(&self.index, key) {
            Some(slot) => {
                assert(index.contains_key(key));
                let mut filled = Some(value);
                std::mem::swap(&mut self.slots[slot], &mut filled);
                assert(self@ =~= before@.insert(key, value));
                filled
            },
            None => {
                assert(!index.contains_key(key));
                match self.free.pop() {
                    Some(slot) => {
                        assert(before.free@[before.free@.len() - 1] == slot);
                        self.slots.set(slot, Some(value));
                        index_insert(&mut self.index, key, slot);
                        assert forall|k: u128| #[trigger] index.contains_key(k) implies index[k]
                            != slot by {}
                        assert forall|i: int| 0 <= i < self.free@.len() implies (
                        #[trigger] self.free@[i]) < self.slots@.len()
                            && self.slots@[self.free@[i] as int] is None by {
                            assert(before.free@[i] == self.free@[i]);
                        }
                        assert(self.free@.no_duplicates());
                    },
                    None => {
                        let slot: usize = self.slots.len();
                        self.slots.push(Some(value));
                        index_insert(&mut self.index, key, slot);
                    },
                }
                assert(self@ =~= before@.insert(key, value));
                None
            },
        }
    }

    /// Unbinds `key` and hands back the value that it was bound to.
    pub fn remove(&mut self, key: u128) -> (was: Option<V>)
        requires
            old(self).wf(),
        ensures
            final(self).wf(),
            final(self)@ == old(self)@.remove(key),
            was == old(self)@.get(key),
    {
        let ghost before = *self;
        let ghost index = index_contents(self.index);
        match index_remove(&mut self.index, key) {
            Some(slot) => {
                assert(index.contains_key(key));
                let mut emptied: Option<V> = None;
                std::mem::swap(&mut self.slots[slot], &mut emptied);
                self.free.push(slot);
                assert(self@ =~= before@.remove(key));
                assert forall|i: int| 0 <= i < self.free@.len() implies (
                #[trigger] self.free@[i]) < self.slots@.len()
                    && self.slots@[self.free@[i] as int] is None by {
                    if i < before.free@.len() {
                        assert(before.free@[i] == self.free@[i]);
                    }
                }
                assert(self.free@.no_duplicates());
                emptied
            },
            None => {
                assert(!index.contains_key(key));
                assert(index.remove(key) =~= index);
                assert(self@ =~= before@.remove(key));
                None
            },
        }
    }

    /// The value that `key` is bound to.
    pub fn get(&self, key: u128) -> (value: Option<&V>)
        requires
            self.wf(),
        ensures
            value == (if self@.contains_key(key) {
                Some(&self@[key])
            } else {
                None
            }),
    {
        match index_get(&self.index, key) {
            Some(slot) => {
                assert(index_contents(self.index).contains_key(key));
                match &self.slots[slot] {
                    Some(value) => Some(value),
                    None => None,
                }
            },
            None => {
                assert(!index_contents(self.index).contains_key(key));
                None
            },
        }
    }

    /// Tests whether `key` is bound.
    pub fn contains_key(&self, key: u128) -> (b: bool)
        requires
            self.wf(),
        ensures
            b == self@.contains_key(key),
    {
        self.get(key).is_some()
    }

    /// The bound keys, each once, in an order that is not fixed.
    pub fn keys(&self) -> (keys: Vec<u128>)
        requires
            self.wf(),
        ensures
            keys@.no_duplicates(),
            keys@.to_set() == self@.dom(),
    {
        let keys = index_keys(&self.index);
        assert(keys@.to_set() =~= self@.dom());
        keys
    }

    /// How many keys are bound.
    pub fn len(&self) -> (n: usize)
        requires
            self.wf(),
        ensures
            n == self@.dom().len(),
            self@.dom().finite(),
    {
        let keys = self.keys();
        proof {
            keys@.unique_seq_to_set();
        }
        keys.len()
    }

    /// Unbinds every key.
    pub fn clear(&mut self)
        ensures
            final(self).wf(),
            final(self)@ == Map::<u128, V>::empty(),
    {
        *self = Registry::new();
    }
}

/// What makes up an address: family, address, port, flow and scope.
pub type AddrKey = (bool, u128, u16, u32, u32);

/// The key of an address.
pub open spec fn addr_key(a: PeerAddr) -> AddrKey {
    (a.v6, a.ip, a.port, a.flowinfo, a.scope_id)
}

/// What an index from addresses to stream identifiers holds.
pub uninterp spec fn addr_contents(m: DashMap<AddrKey, u128>) -> Map<AddrKey, u128>;

/// Calls `dashmap::DashMap::new`: a map that holds nothing.
#[verifier::external_body]
fn addrs_new() -> (m: DashMap<AddrKey, u128>)
    ensures
        addr_contents(m).dom() == Set::<AddrKey>::empty(),
{
    DashMap::new()
}

/// Calls `dashmap::DashMap::insert`: binds the key and hands back what it was bound to.
#[verifier::external_body]
fn addrs_insert(m: &mut DashMap<AddrKey, u128>, key: AddrKey, id: u128) -> (was: Option<u128>)
    ensures
        addr_contents(*final(m)) == addr_contents(*old(m)).insert(key, id),
        was == addr_contents(*old(m)).get(key),
{
    m.insert(key, id)
}

/// Calls `dashmap::DashMap::get`: what the key is bound to.
#[verifier::external_body]
fn addrs_get(m: &DashMap<AddrKey, u128>, key: AddrKey) -> (id: Option<u128>)
    ensures
        id == addr_contents(*m).get(key),
{
    m.get(&key).map(|entry| *entry.value())
}

/// Calls `dashmap::DashMap::iter` and takes the keys: each bound key once, in an order that is
/// not fixed.
#[verifier::external_body]
fn addrs_keys(m: &DashMap<AddrKey, u128>) -> (keys: Vec<AddrKey>)
    ensures
        keys@.no_duplicates(),
        keys@.to_set() == addr_contents(*m).dom(),
{
    m.iter().map(|entry| *entry.key()).collect()
}

/// A table of stream identifiers, each found by the address of its peer.
pub struct PeerIndex {
    ids: DashMap<AddrKey, u128>,
}

impl View for PeerIndex {
    type V = Map<PeerAddr, StreamId>;

    closed spec fn view(&self) -> Map<PeerAddr, StreamId> {
        Map::new(
            |a: PeerAddr| addr_contents(self.ids).contains_key(addr_key(a)),
            |a: PeerAddr| StreamId { uuid: addr_contents(self.ids)[addr_key(a)] },
        )
    }
}

fn key_of(a: &PeerAddr) -> (key: AddrKey)
    ensures
        key == addr_key(*a),
{
    (a.v6, a.ip, a.port, a.flowinfo, a.scope_id)
}

impl PeerIndex {
    /// A table that holds nothing.
    pub fn new() -> (r: Self)
        ensures
            r@ == Map::<PeerAddr, StreamId>::empty(),
    {
        let r = PeerIndex { ids: addrs_new() };
        assert(r@ =~= Map::<PeerAddr, StreamId>::empty());
        r
    }

    /// Binds an address to a stream, in place of the one that it was bound to.
    pub fn insert(&mut self, addr: &PeerAddr, id: StreamId)
        ensures
            final(self)@ == old(self)@.insert(*addr, id),
    {
        let ghost before = self@;
        addrs_insert(&mut self.ids, key_of(addr), id.uuid);
        assert(self@ =~= before.insert(*addr, id));
    }

    /// The stream that an address is bound to.
    pub fn get(&self, addr: &PeerAddr) -> (id: Option<StreamId>)
        ensures
            id == self@.get(*addr),
    {
        match addrs_get(&self.ids, key_of(addr)) {
            Some(uuid) => Some(StreamId { uuid }),
            None => None,
        }
    }

    /// How many addresses are bound.
    pub fn len(&self) -> (n: usize)
        ensures
            n == self@.dom().len(),
    {
        let keys = addrs_keys(&self.ids);
        proof {
            let bound = keys@.to_set();
            let addr_of = |key: AddrKey|
                PeerAddr { v6: key.0, ip: key.1, port: key.2, flowinfo: key.3, scope_id: key.4 };
            assert forall|key: AddrKey| #[trigger] bound.contains(key) implies self@.dom().contains(
                addr_of(key),
            ) by {
                assert(addr_key(addr_of(key)) == key);
            }
            assert forall|a: PeerAddr| #[trigger] self@.dom().contains(a) implies bound.map(
                addr_of,
            ).contains(a) by {
                assert(bound.contains(addr_key(a)) && addr_of(addr_key(a)) == a);
            }
            assert(bound.map(addr_of) =~= self@.dom());
            keys@.unique_seq_to_set();
            vstd::set_lib::lemma_map_size(bound, self@.dom(), addr_of);
        }
        keys.len()
    }
}

/// What an index from host names to client identifiers holds.
pub uninterp spec fn host_contents(m: DashMap<String, u128>) -> Map<Seq<char>, u128>;

/// Calls `dashmap::DashMap::new`: a map that holds nothing.
#[verifier::external_body]
fn hosts_new() -> (m: DashMap<String, u128>)
    ensures
        host_contents(m).dom() == Set::<Seq<char>>::empty(),
{
    DashMap::new()
}

/// Calls `dashmap::DashMap::insert`: binds the key and hands back what it was bound to.
#[verifier::external_body]
fn hosts_insert(m: &mut DashMap<String, u128>, host: String, id: u128) -> (was: Option<u128>)
    ensures
        host_contents(*final(m)) == host_contents(*old(m)).insert(host@, id),
        was == host_contents(*old(m)).get(host@),
{
    m.insert(host, id)
}

/// Calls `dashmap::DashMap::remove`: unbinds the key and hands back what it was bound to.
#[verifier::external_body]
fn hosts_remove(m: &mut DashMap<String, u128>, host: &str) -> (was: Option<u128>)
    ensures
        host_contents(*final(m)) == host_contents(*old(m)).remove(host@),
        was == host_contents(*old(m)).get(host@),
{
    m.remove(host).map(|entry| entry.1)
}

/// Calls `dashmap::DashMap::get`: what the key is bound to.
#[verifier::external_body]
fn hosts_get(m: &DashMap<String, u128>, host: &str) -> (id: Option<u128>)
    ensures
        id == host_contents(*m).get(host@),
{
    m.get(host).map(|entry| *entry.value())
}

/// Calls `dashmap::DashMap::len`: how many keys are bound.
#[verifier::external_body]
fn hosts_len(m: &DashMap<String, u128>) -> (n: usize)
    ensures
        n == host_contents(*m).dom().len(),
{
    m.len()
}

/// Calls `dashmap::DashMap::clear`: unbinds every key.
#[verifier::external_body]
fn hosts_clear(m: &mut DashMap<String, u128>)
    ensures
        host_contents(*final(m)).dom() == Set::<Seq<char>>::empty(),
{
    m.clear()
}

/// A table of clients, each found by its host name.
pub struct HostIndex {
    ids: DashMap<String, u128>,
}

impl View for HostIndex {
    type V = Map<Seq<char>, ClientId>;

    closed spec fn view(&self) -> Map<Seq<char>, ClientId> {
        host_contents(self.ids).map_values(|uuid: u128| ClientId { uuid })
    }
}

impl HostIndex {
    /// A table that holds nothing.
    pub fn new() -> (r: Self)
        ensures
            r@ == Map::<Seq<char>, ClientId>::empty(),
    {
        let r = HostIndex { ids: hosts_new() };
        assert(r@ =~= Map::<Seq<char>, ClientId>::empty());
        r
    }

    /// Gives a host name to a client.
    pub fn insert(&mut self, host: String, id: ClientId)
        ensures
            final(self)@ == old(self)@.insert(host@, id),
    {
        let ghost before = self@;
        hosts_insert(&mut self.ids, host, id.uuid);
        assert(self@ =~= before.insert(host@, id));
    }

    /// Takes a host name back.
    pub fn remove(&mut self, host: &str)
        ensures
            final(self)@ == old(self)@.remove(host@),
    {
        let ghost before = self@;
        hosts_remove(&mut self.ids, host);
        assert(self@ =~= before.remove(host@));
    }

    /// The client that has a host name.
    pub fn get(&self, host: &str) -> (id: Option<ClientId>)
        ensures
            id == self@.get(host@),
    {
        match hosts_get(&self.ids, host) {
            Some(uuid) => Some(ClientId { uuid }),
            None => None,
        }
    }

    /// How many host names are given.
    pub fn len(&self) -> (n: usize)
        ensures
            n == self@.dom().len(),
    {
        let n: usize = hosts_len(&self.ids);
        assert(self@.dom() =~= host_contents(self.ids).dom());
        n
    }

    /// Takes every host name back.
    pub fn clear(&mut self)
        ensures
            final(self)@ == Map::<Seq<char>, ClientId>::empty(),
    {
        hosts_clear(&mut self.ids);
        assert(self@ =~= Map::<Seq<char>, ClientId>::empty());
    }
}

} // verus!
